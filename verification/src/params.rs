use vstd::prelude::*;

verus! {

/// The key/value views of a sequence of owned string pairs.
pub open spec fn views_of(s: Seq<(String, String)>) -> Seq<(Seq<char>, Seq<char>)> {
    s.map_values(|p: (String, String)| (p.0@, p.1@))
}

/// The mapping described by a sequence of key/value pairs; a later pair
/// with the same key overrides an earlier one.
pub open spec fn map_of(s: Seq<(Seq<char>, Seq<char>)>) -> Map<Seq<char>, Seq<char>>
    decreases s.len(),
{
    if s.len() == 0 {
        Map::empty()
    } else {
        map_of(s.drop_last()).insert(s.last().0, s.last().1)
    }
}

/// The keys of the sequence are pairwise distinct.
pub open spec fn keys_unique(s: Seq<(Seq<char>, Seq<char>)>) -> bool {
    forall|i: int, j: int| 0 <= i < j < s.len() ==> s[i].0 != s[j].0
}

/// The key/value entries of a mapping, as a set of pairs.
pub open spec fn map_entries(m: Map<Seq<char>, Seq<char>>) -> Set<(Seq<char>, Seq<char>)> {
    Set::new(|p: (Seq<char>, Seq<char>)| m.contains_key(p.0) && m[p.0] == p.1)
}

/// A mapping contains a key exactly when some pair of the sequence carries it.
proof fn lemma_map_of_contains(s: Seq<(Seq<char>, Seq<char>)>, k: Seq<char>)
    ensures
        map_of(s).contains_key(k) <==> exists|i: int| 0 <= i < s.len() && s[i].0 == k,
    decreases s.len(),
{
    if s.len() > 0 {
        lemma_map_of_contains(s.drop_last(), k);
        if s.last().0 == k {
            assert(s[s.len() - 1].0 == k);
        } else {
            if map_of(s).contains_key(k) {
                let i = choose|i: int| 0 <= i < s.drop_last().len() && s.drop_last()[i].0 == k;
                assert(s[i].0 == k);
            }
            if exists|i: int| 0 <= i < s.len() && s[i].0 == k {
                let i = choose|i: int| 0 <= i < s.len() && s[i].0 == k;
                assert(s.drop_last()[i].0 == k);
            }
        }
    }
}

/// With pairwise distinct keys, the pair at any position is an entry of the mapping.
proof fn lemma_map_of_index(s: Seq<(Seq<char>, Seq<char>)>, i: int)
    requires
        keys_unique(s),
        0 <= i < s.len(),
    ensures
        map_of(s).contains_key(s[i].0),
        map_of(s)[s[i].0] == s[i].1,
    decreases s.len(),
{
    if i == s.len() - 1 {
    } else {
        assert(keys_unique(s.drop_last())) by {
            assert(forall|x: int, y: int|
                0 <= x < y < s.drop_last().len() ==> s.drop_last()[x] == s[x] && s.drop_last()[y]
                    == s[y]);
        }
        lemma_map_of_index(s.drop_last(), i);
        assert(s.drop_last()[i] == s[i]);
        assert(s[i].0 != s.last().0);
    }
}

/// With pairwise distinct keys, the mapping has exactly one entry per pair.
proof fn lemma_map_of_len(s: Seq<(Seq<char>, Seq<char>)>)
    requires
        keys_unique(s),
    ensures
        map_of(s).dom().finite(),
        map_of(s).dom().len() == s.len(),
    decreases s.len(),
{
    broadcast use vstd::set::group_set_axioms;

    if s.len() == 0 {
        assert(map_of(s).dom() =~= Set::<Seq<char>>::empty());
    } else {
        assert(keys_unique(s.drop_last())) by {
            assert(forall|x: int, y: int|
                0 <= x < y < s.drop_last().len() ==> s.drop_last()[x] == s[x] && s.drop_last()[y]
                    == s[y]);
        }
        lemma_map_of_len(s.drop_last());
        lemma_map_of_contains(s.drop_last(), s.last().0);
        assert(!map_of(s.drop_last()).contains_key(s.last().0)) by {
            if exists|i: int| 0 <= i < s.drop_last().len() && s.drop_last()[i].0 == s.last().0 {
                let i = choose|i: int|
                    0 <= i < s.drop_last().len() && s.drop_last()[i].0 == s.last().0;
                assert(s[i].0 == s[s.len() - 1].0);
            }
        }
        assert(map_of(s).dom() =~= map_of(s.drop_last()).dom().insert(s.last().0));
    }
}

/// Inserting under two distinct keys commutes: the parameter mapping does
/// not depend on the order in which pairs with distinct keys arrive.
pub proof fn lemma_insert_commutes(
    m: Map<Seq<char>, Seq<char>>,
    k1: Seq<char>,
    v1: Seq<char>,
    k2: Seq<char>,
    v2: Seq<char>,
)
    requires
        k1 != k2,
    ensures
        m.insert(k1, v1).insert(k2, v2) == m.insert(k2, v2).insert(k1, v1),
{
    assert(m.insert(k1, v1).insert(k2, v2) =~= m.insert(k2, v2).insert(k1, v1));
}

/// Overriding the pair at a position whose key it keeps is exactly an
/// insertion into the mapping.
proof fn lemma_map_of_update(s: Seq<(Seq<char>, Seq<char>)>, i: int, p: (Seq<char>, Seq<char>))
    requires
        keys_unique(s),
        0 <= i < s.len(),
        s[i].0 == p.0,
    ensures
        map_of(s.update(i, p)) == map_of(s).insert(p.0, p.1),
    decreases s.len(),
{
    let t = s.update(i, p);
    if i == s.len() - 1 {
        assert(t.drop_last() =~= s.drop_last());
        assert(map_of(s).insert(p.0, p.1) =~= map_of(s.drop_last()).insert(p.0, p.1));
    } else {
        assert(keys_unique(s.drop_last())) by {
            assert(forall|x: int, y: int|
                0 <= x < y < s.drop_last().len() ==> s.drop_last()[x] == s[x] && s.drop_last()[y]
                    == s[y]);
        }
        lemma_map_of_update(s.drop_last(), i, p);
        assert(t.drop_last() =~= s.drop_last().update(i, p));
        assert(t.last() == s.last());
        assert(s[i].0 != s.last().0);
        lemma_insert_commutes(map_of(s.drop_last()), p.0, p.1, s.last().0, s.last().1);
    }
}

/// With pairwise distinct keys, the pairs of the sequence are exactly the
/// entries of its mapping.
pub proof fn lemma_pairs_are_entries(s: Seq<(Seq<char>, Seq<char>)>)
    requires
        keys_unique(s),
    ensures
        s.to_set() == map_entries(map_of(s)),
{
    assert forall|p: (Seq<char>, Seq<char>)| s.to_set().contains(p) implies map_entries(
        map_of(s),
    ).contains(p) by {
        let i = choose|i: int| 0 <= i < s.len() && s[i] == p;
        lemma_map_of_index(s, i);
    }
    assert forall|p: (Seq<char>, Seq<char>)| map_entries(map_of(s)).contains(p) implies s.to_set()
        .contains(p) by {
        lemma_map_of_contains(s, p.0);
        let i = choose|i: int| 0 <= i < s.len() && s[i].0 == p.0;
        lemma_map_of_index(s, i);
        assert(s[i] == p);
    }
    assert(s.to_set() =~= map_entries(map_of(s)));
}

/// Order independence of the injected environment: any two pair sequences
/// with distinct keys that denote the same parameter mapping carry exactly
/// the same set of key/value entries.
pub proof fn lemma_env_order_independent(
    a: Seq<(Seq<char>, Seq<char>)>,
    b: Seq<(Seq<char>, Seq<char>)>,
)
    requires
        keys_unique(a),
        keys_unique(b),
        map_of(a) == map_of(b),
    ensures
        a.to_set() == b.to_set(),
{
    lemma_pairs_are_entries(a);
    lemma_pairs_are_entries(b);
}

/// The caller-supplied parameters of one invocation: a mapping from string
/// keys to string values, with unique keys by construction.
pub struct ParamMap {
    pairs: Vec<(String, String)>,
}

impl ParamMap {
    #[verifier::type_invariant]
    spec fn inv(self) -> bool {
        keys_unique(views_of(self.pairs@))
    }

    pub closed spec fn view(&self) -> Map<Seq<char>, Seq<char>> {
        map_of(views_of(self.pairs@))
    }

    /// The empty parameter map.
    pub fn new() -> (r: ParamMap)
        ensures
            r@ == Map::<Seq<char>, Seq<char>>::empty(),
    {
        ParamMap { pairs: Vec::new() }
    }

    /// Position of the pair carrying `key`, if any.
    fn find_idx(pairs: &Vec<(String, String)>, key: &String) -> (r: Option<usize>)
        ensures
            match r {
                Some(i) => i < pairs@.len() && views_of(pairs@)[i as int].0 == key@,
                None => forall|j: int|
                    0 <= j < pairs@.len() ==> views_of(pairs@)[j].0 != key@,
            },
    {
        let n = pairs.len();
        let mut i: usize = 0;
        while i < n
            invariant
                i <= n,
                n == pairs@.len(),
                forall|j: int| 0 <= j < i ==> views_of(pairs@)[j].0 != key@,
            decreases n - i,
        {
            if pairs[i].0 == *key {
                return Some(i);
            }
            i = i + 1;
        }
        None
    }

    /// Bind `key` to `value`, replacing any earlier binding of the same key.
    pub fn insert(&mut self, key: String, value: String)
        ensures
            final(self)@ == old(self)@.insert(key@, value@),
    {
        proof {
            use_type_invariant(&*self);
        }
        let ghost kview = key@;
        let ghost vview = value@;
        let mut pairs: Vec<(String, String)> = Vec::new();
        std::mem::swap(&mut pairs, &mut self.pairs);
        let ghost orig = views_of(pairs@);
        match Self::find_idx(&pairs, &key) {
            Some(i) => {
                let ghost ii = i as int;
                pairs[i] = (key, value);
                proof {
                    assert(views_of(pairs@) =~= orig.update(ii, (kview, vview)));
                    lemma_map_of_update(orig, ii, (kview, vview));
                    assert forall|x: int, y: int|
                        0 <= x < y < views_of(pairs@).len() implies views_of(pairs@)[x].0
                        != views_of(pairs@)[y].0 by {
                        assert(orig[x].0 != orig[y].0);
                    }
                }
            },
            None => {
                pairs.push((key, value));
                proof {
                    assert(views_of(pairs@) =~= orig.push((kview, vview)));
                    assert(views_of(pairs@).drop_last() =~= orig);
                    assert forall|x: int, y: int|
                        0 <= x < y < views_of(pairs@).len() implies views_of(pairs@)[x].0
                        != views_of(pairs@)[y].0 by {
                        if y < orig.len() {
                            assert(orig[x].0 != orig[y].0);
                        } else {
                            assert(orig[x].0 != kview);
                        }
                    }
                }
            },
        }
        self.pairs = pairs;
    }

    /// The value bound to `key`, if any.
    pub fn get(&self, key: &String) -> (r: Option<&String>)
        ensures
            match r {
                Some(v) => self@.contains_key(key@) && v@ == self@[key@],
                None => !self@.contains_key(key@),
            },
    {
        proof {
            use_type_invariant(&*self);
            lemma_map_of_contains(views_of(self.pairs@), key@);
        }
        match Self::find_idx(&self.pairs, key) {
            Some(i) => {
                proof {
                    lemma_map_of_index(views_of(self.pairs@), i as int);
                }
                Some(&self.pairs[i].1)
            },
            None => None,
        }
    }

    /// How many keys are bound.
    pub fn len(&self) -> (n: usize)
        ensures
            n == self@.dom().len(),
    {
        proof {
            use_type_invariant(&*self);
            lemma_map_of_len(views_of(self.pairs@));
        }
        self.pairs.len()
    }

    /// Whether `key` is bound.
    pub fn contains_key(&self, key: &String) -> (r: bool)
        ensures
            r == self@.contains_key(key@),
    {
        self.get(key).is_some()
    }

    /// The parameters as an ordered sequence of key/value pairs, ready for
    /// injection as the guest's environment view: its keys are distinct and
    /// its entries are exactly those of the map, in some order.
    pub fn to_env_pairs(&self) -> (r: Vec<(String, String)>)
        ensures
            keys_unique(views_of(r@)),
            map_of(views_of(r@)) == self@,
            views_of(r@).to_set() == map_entries(self@),
    {
        proof {
            use_type_invariant(&*self);
        }
        let n = self.pairs.len();
        let mut r: Vec<(String, String)> = Vec::new();
        let mut i: usize = 0;
        while i < n
            invariant
                i <= n,
                n == self.pairs@.len(),
                r@.len() == i,
                forall|j: int|
                    0 <= j < i ==> views_of(r@)[j] == views_of(self.pairs@)[j],
            decreases n - i,
        {
            let ghost before = r@;
            let k = self.pairs[i].0.clone();
            let v = self.pairs[i].1.clone();
            r.push((k, v));
            proof {
                assert forall|j: int| 0 <= j < i + 1 implies views_of(r@)[j] == views_of(
                    self.pairs@,
                )[j] by {
                    if j < i {
                        assert(r@[j] == before[j]);
                        assert(views_of(before)[j] == views_of(self.pairs@)[j]);
                    } else {
                        assert(r@[j] == (k, v));
                        assert((k, v).0@ == self.pairs@[j].0@);
                    }
                }
            }
            i = i + 1;
        }
        proof {
            assert(views_of(r@) =~= views_of(self.pairs@));
            lemma_pairs_are_entries(views_of(r@));
        }
        r
    }
}

} // verus!
