//! The trusted boundary to the WebAssembly runtime.
//!
//! Everything the library asks of the runtime goes through the items of
//! this module.  Each declares an outside type or wraps outside calls;
//! the doc comment of each names the functions relied on and for what.
//!
//! The runtime's handles are valid only together: a store may be used
//! only with the engine, instance and entry point it was created from,
//! and wasmtime panics when handles of two origins are crossed.  So the
//! handles never appear separately here: each stage of one invocation is
//! a struct with private fields, built from the previous stage as a
//! whole, and a mix of two invocations cannot even be written down.

use vstd::prelude::*;

use crate::invoke::RunOutcome;
use wasmtime_wasi::p1::WasiP1Ctx;
use wasmtime_wasi::p2::pipe::MemoryOutputPipe;

verus! {

#[verifier::external_type_specification]
#[verifier::external_body]
pub struct ExEngine(wasmtime::Engine);

#[verifier::external_type_specification]
#[verifier::external_body]
pub struct ExModule(wasmtime::Module);

#[verifier::external_type_specification]
#[verifier::external_body]
#[verifier::reject_recursive_types(T)]
pub struct ExLinker<T>(wasmtime::Linker<T>);

#[verifier::external_type_specification]
#[verifier::external_body]
#[verifier::reject_recursive_types(T)]
pub struct ExStore<T: 'static>(wasmtime::Store<T>);

#[verifier::external_type_specification]
#[verifier::external_body]
pub struct ExInstance(wasmtime::Instance);

#[verifier::external_type_specification]
#[verifier::external_body]
#[verifier::reject_recursive_types(Params)]
#[verifier::reject_recursive_types(Results)]
pub struct ExTypedFunc<Params, Results>(wasmtime::TypedFunc<Params, Results>);

#[verifier::external_type_specification]
#[verifier::external_body]
pub struct ExWasiP1Ctx(WasiP1Ctx);

#[verifier::external_type_specification]
#[verifier::external_body]
pub struct ExMemoryOutputPipe(MemoryOutputPipe);

/// The start of one invocation: a fresh engine with the system-interface
/// surface registered in a fresh linker of the same origin.
pub struct SandboxCore {
    engine: wasmtime::Engine,
    linker: wasmtime::Linker<WasiP1Ctx>,
}

/// A resolved invocation: the core together with the module compiled by
/// its own engine.
pub struct LoadedGuest {
    engine: wasmtime::Engine,
    linker: wasmtime::Linker<WasiP1Ctx>,
    module: wasmtime::Module,
}

/// A seeded sandbox context: the store owning the environment view and
/// the capture sink, with the linker and module of the same origin.
pub struct SandboxCtx {
    store: wasmtime::Store<WasiP1Ctx>,
    linker: wasmtime::Linker<WasiP1Ctx>,
    module: wasmtime::Module,
}

/// An instantiated guest, owned by the store it was instantiated in.
pub struct GuestInstance {
    store: wasmtime::Store<WasiP1Ctx>,
    instance: wasmtime::Instance,
}

/// A guest whose entry point is resolved and ready to run in its own
/// store.
pub struct GuestEntry {
    store: wasmtime::Store<WasiP1Ctx>,
    entry: wasmtime::TypedFunc<(), ()>,
}

/// Relies on MemoryOutputPipe's derived Clone: the clone is another handle
/// to the same shared buffer.
pub assume_specification[ <MemoryOutputPipe as Clone>::clone ](
    sink: &MemoryOutputPipe,
) -> MemoryOutputPipe;

/// Relies on wasmtime's Config (consume_fuel, memory_reservation,
/// memory_guard_size), Engine::new and Linker::new, and on
/// wasmtime_wasi::p1::add_to_linker_sync: a fresh engine for one
/// invocation, sharing no state with any other engine, configured to
/// meter guest execution by an instruction-count budget and to reserve
/// only bounded, bounds-checked address space for each guest memory; its
/// linker registers exactly the WASI preview-1 surface, backed by the
/// sandbox context the store will own.
#[verifier::external_body]
pub(crate) fn create_sandbox_core() -> (r: Result<SandboxCore, ()>) {
    let mut config = wasmtime::Config::new();
    config.consume_fuel(true);
    config.memory_reservation(1 << 24);
    config.memory_guard_size(0);
    let engine = match wasmtime::Engine::new(&config) {
        Ok(engine) => engine,
        Err(_) => return Err(()),
    };
    let mut linker = wasmtime::Linker::new(&engine);
    match wasmtime_wasi::p1::add_to_linker_sync(&mut linker, |ctx| ctx) {
        Ok(()) => Ok(SandboxCore { engine, linker }),
        Err(_) => Err(()),
    }
}

/// Relies on wasmtime's Module::from_file: reads the named file and
/// compiles it with this core's own engine, failing when the identifier
/// does not name a readable, valid module.  What comes back depends on
/// the backing store at call time; nothing is cached across calls.
#[verifier::external_body]
pub(crate) fn load_guest_file(core: SandboxCore, path: &String) -> (r: Result<LoadedGuest, ()>) {
    match wasmtime::Module::from_file(&core.engine, path) {
        Ok(module) => Ok(LoadedGuest { engine: core.engine, linker: core.linker, module }),
        Err(_) => Err(()),
    }
}

/// Relies on wasmtime's Module::new: compiles in-memory bytecode with
/// this core's own engine, failing when it is not a valid module.
#[verifier::external_body]
pub(crate) fn compile_guest(core: SandboxCore, bytecode: &Vec<u8>) -> (r: Result<
    LoadedGuest,
    (),
>) {
    match wasmtime::Module::new(&core.engine, bytecode.as_slice()) {
        Ok(module) => Ok(LoadedGuest { engine: core.engine, linker: core.linker, module }),
        Err(_) => Err(()),
    }
}

/// Relies on wasmtime_wasi's WasiCtxBuilder (stdout, envs, build_p1),
/// wasmtime's Store::new and Store::set_fuel: a store owned by this
/// guest's own engine, whose context routes guest standard output to the
/// given capture sink and shows the given pairs as the environment view
/// (a value holding an embedded NUL byte cannot cross the WASI boundary
/// intact), preopens no directory and opens no network; the builder's
/// defaults still offer clocks and randomness.  The store's execution
/// budget becomes exactly `budget` metered instructions; set_fuel fails
/// only when fuel is not metered, which this engine always meters.
#[verifier::external_body]
pub(crate) fn seed_sandbox(
    guest: LoadedGuest,
    envs: &Vec<(String, String)>,
    sink: MemoryOutputPipe,
    budget: u64,
) -> (r: Result<SandboxCtx, ()>) {
    let mut builder = wasmtime_wasi::WasiCtxBuilder::new();
    builder.stdout(sink);
    builder.envs(envs.as_slice());
    let ctx = builder.build_p1();
    let mut store = wasmtime::Store::new(&guest.engine, ctx);
    match store.set_fuel(budget) {
        Ok(()) => Ok(SandboxCtx { store, linker: guest.linker, module: guest.module }),
        Err(_) => Err(()),
    }
}

/// Relies on wasmtime's Linker::instantiate: instantiates this sandbox's
/// module in its own store, failing when an import is not satisfied by
/// the registered surface.  Store, linker and module come from one
/// engine by construction of this type, so the call's
/// mismatched-origin panic cannot be reached.
#[verifier::external_body]
pub(crate) fn instantiate_guest(ctx: SandboxCtx) -> (r: Result<GuestInstance, ()>) {
    let mut store = ctx.store;
    match ctx.linker.instantiate(&mut store, &ctx.module) {
        Ok(instance) => Ok(GuestInstance { store, instance }),
        Err(_) => Err(()),
    }
}

/// Relies on wasmtime's Instance::get_typed_func: resolves the export
/// named "_start" as the zero-argument, zero-result entry procedure,
/// failing when no export of that name and signature exists.  The
/// instance was created from this very store by construction of this
/// type, so the call's foreign-store panic cannot be reached.
#[verifier::external_body]
pub(crate) fn resolve_entry(guest: GuestInstance) -> (r: Result<GuestEntry, ()>) {
    let mut store = guest.store;
    match guest.instance.get_typed_func::<(), ()>(&mut store, "_start") {
        Ok(entry) => Ok(GuestEntry { store, entry }),
        Err(_) => Err(()),
    }
}

/// Relies on wasmtime's TypedFunc::call, and on the error types
/// wasmtime::Trap and wasmtime_wasi::I32Exit, to run the entry point to
/// completion and tell the ways it can end apart: normal return,
/// guest-initiated exit, exhaustion of the execution budget, or a runtime
/// fault.  A fault never escapes: it comes back as a value.  The entry
/// point was resolved from this very store by construction of this type,
/// so the call's foreign-store panic cannot be reached.
#[verifier::external_body]
pub(crate) fn run_entry(guest: GuestEntry) -> (r: RunOutcome) {
    let mut store = guest.store;
    match guest.entry.call(&mut store, ()) {
        Ok(()) => RunOutcome::Completed,
        Err(e) => {
            if let Some(exit) = e.downcast_ref::<wasmtime_wasi::I32Exit>() {
                RunOutcome::Exited(exit.0)
            } else if matches!(e.downcast_ref::<wasmtime::Trap>(), Some(wasmtime::Trap::OutOfFuel))
             {
                RunOutcome::OutOfBudget
            } else {
                RunOutcome::Faulted
            }
        },
    }
}

/// Relies on MemoryOutputPipe::new: an empty capture buffer that accepts
/// at most `capacity` bytes of guest output.
#[verifier::external_body]
pub(crate) fn new_capture_sink(capacity: usize) -> MemoryOutputPipe {
    MemoryOutputPipe::new(capacity)
}

/// Relies on MemoryOutputPipe::contents: the bytes the guest wrote to its
/// standard output, in write order, complete because the guest has
/// terminated before any caller drains the sink.
#[verifier::external_body]
pub(crate) fn drain_capture_sink(sink: &MemoryOutputPipe) -> Vec<u8> {
    sink.contents().to_vec()
}

/// Relies on String::from_utf8: it returns the text decoded from the
/// bytes exactly when they are valid UTF-8, and rejects them otherwise —
/// nothing is truncated or substituted.
#[verifier::external_body]
pub(crate) fn utf8_to_text(bytes: Vec<u8>) -> (r: Result<String, ()>)
    ensures
        (r matches Ok(text) ==> vstd::utf8::valid_utf8(bytes@) && text@ == vstd::utf8::decode_utf8(
            bytes@,
        )),
        r is Err ==> !vstd::utf8::valid_utf8(bytes@),
{
    match String::from_utf8(bytes) {
        Ok(text) => Ok(text),
        Err(_) => Err(()),
    }
}

} // verus!
