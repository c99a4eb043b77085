use wasm_faas::errors::InvokeError;
use wasm_faas::invoke::{
    invoke_loaded, invoke_module_bytes, resolve_module_bytes, start_sandbox,
};
use wasm_faas::params::ParamMap;

const BUDGET: u64 = 100_000_000;

/// A guest that reads its environment and writes every variable back to
/// its output as `KEY=VALUE\n` lines.
const ECHO_ENV: &str = r#"
(module
  (import "wasi_snapshot_preview1" "environ_sizes_get"
    (func $sizes (param i32 i32) (result i32)))
  (import "wasi_snapshot_preview1" "environ_get"
    (func $get (param i32 i32) (result i32)))
  (import "wasi_snapshot_preview1" "fd_write"
    (func $fd_write (param i32 i32 i32 i32) (result i32)))
  (memory (export "memory") 1)
  (func (export "_start") (local $i i32) (local $len i32)
    (drop (call $sizes (i32.const 0) (i32.const 4)))
    (drop (call $get (i32.const 64) (i32.const 1024)))
    (local.set $len (i32.load (i32.const 4)))
    (local.set $i (i32.const 0))
    (block $done
      (loop $scan
        (br_if $done (i32.ge_u (local.get $i) (local.get $len)))
        (if (i32.eqz (i32.load8_u (i32.add (i32.const 1024) (local.get $i))))
          (then (i32.store8 (i32.add (i32.const 1024) (local.get $i)) (i32.const 10))))
        (local.set $i (i32.add (local.get $i) (i32.const 1)))
        (br $scan)))
    (i32.store (i32.const 8) (i32.const 1024))
    (i32.store (i32.const 12) (local.get $len))
    (drop (call $fd_write (i32.const 1) (i32.const 8) (i32.const 1) (i32.const 16)))))
"#;

/// A guest that faults with an unreachable instruction.
const TRAPPING: &str = r#"(module (func (export "_start") unreachable))"#;

/// A guest that writes two bytes that are not valid text.
const RAW_BYTES: &str = r#"
(module
  (import "wasi_snapshot_preview1" "fd_write"
    (func $fd_write (param i32 i32 i32 i32) (result i32)))
  (memory (export "memory") 1)
  (func (export "_start")
    (i32.store8 (i32.const 0) (i32.const 255))
    (i32.store8 (i32.const 1) (i32.const 254))
    (i32.store (i32.const 8) (i32.const 0))
    (i32.store (i32.const 12) (i32.const 2))
    (drop (call $fd_write (i32.const 1) (i32.const 8) (i32.const 1) (i32.const 16)))))
"#;

/// A guest that ends itself with a process-style exit.
const EXITING: &str = r#"
(module
  (import "wasi_snapshot_preview1" "proc_exit" (func $exit (param i32)))
  (memory (export "memory") 1)
  (func (export "_start") (call $exit (i32.const 0))))
"#;

/// A guest that never terminates on its own.
const SPINNING: &str = r#"(module (func (export "_start") (loop $spin (br $spin))))"#;

/// A guest whose single import no host interface satisfies.
const UNLINKABLE: &str = r#"
(module
  (import "no_such_interface" "f" (func $f))
  (func (export "_start") (call $f)))
"#;

/// A guest without the entry-point export.
const NO_ENTRY: &str = r#"(module (func $quiet nop))"#;

fn wat(text: &str) -> Vec<u8> {
    text.as_bytes().to_vec()
}

fn lines_of(text: &str) -> Vec<String> {
    let mut lines: Vec<String> = text
        .lines()
        .filter(|l| !l.is_empty())
        .map(|l| l.to_string())
        .collect();
    lines.sort();
    lines
}

#[test]
fn echo_guest_sees_exactly_the_parameters() {
    let mut params = ParamMap::new();
    params.insert("name".to_string(), "alice".to_string());
    params.insert("n".to_string(), "3".to_string());
    let out = invoke_module_bytes(&wat(ECHO_ENV), &params, BUDGET).unwrap();
    assert!(out.contains("name=alice"));
    assert!(out.contains("n=3"));
    assert_eq!(
        lines_of(&out),
        vec!["n=3".to_string(), "name=alice".to_string()]
    );
}

#[test]
fn echo_output_is_insertion_order_independent() {
    let mut a = ParamMap::new();
    a.insert("name".to_string(), "alice".to_string());
    a.insert("n".to_string(), "3".to_string());
    let mut b = ParamMap::new();
    b.insert("n".to_string(), "3".to_string());
    b.insert("name".to_string(), "alice".to_string());
    let out_a = invoke_module_bytes(&wat(ECHO_ENV), &a, BUDGET).unwrap();
    let out_b = invoke_module_bytes(&wat(ECHO_ENV), &b, BUDGET).unwrap();
    assert_eq!(lines_of(&out_a), lines_of(&out_b));
}

#[test]
fn concurrent_style_invocations_stay_isolated() {
    let mut a = ParamMap::new();
    a.insert("user".to_string(), "one".to_string());
    let mut b = ParamMap::new();
    b.insert("user".to_string(), "two".to_string());
    let out_a = invoke_module_bytes(&wat(ECHO_ENV), &a, BUDGET).unwrap();
    let out_b = invoke_module_bytes(&wat(ECHO_ENV), &b, BUDGET).unwrap();
    assert_eq!(out_a, "user=one\n");
    assert_eq!(out_b, "user=two\n");
    assert!(!out_a.contains("two"));
    assert!(!out_b.contains("one"));
}

#[test]
fn trapping_guest_reports_guest_trap_and_host_survives() {
    let params = ParamMap::new();
    let r = invoke_module_bytes(&wat(TRAPPING), &params, BUDGET);
    assert_eq!(r, Err(InvokeError::GuestTrap));
    // the host process and later invocations are unaffected
    let mut p = ParamMap::new();
    p.insert("k".to_string(), "v".to_string());
    let out = invoke_module_bytes(&wat(ECHO_ENV), &p, BUDGET).unwrap();
    assert_eq!(out, "k=v\n");
}

#[test]
fn invalid_text_output_reports_decode_error() {
    let params = ParamMap::new();
    let r = invoke_module_bytes(&wat(RAW_BYTES), &params, BUDGET);
    assert_eq!(r, Err(InvokeError::Decode));
}

#[test]
fn guest_exit_is_normal_termination() {
    let params = ParamMap::new();
    let r = invoke_module_bytes(&wat(EXITING), &params, BUDGET);
    assert_eq!(r, Ok(String::new()));
}

#[test]
fn unbounded_guest_reports_timeout() {
    let params = ParamMap::new();
    let r = invoke_module_bytes(&wat(SPINNING), &params, 10_000);
    assert_eq!(r, Err(InvokeError::GuestTimeout));
}

#[test]
fn unsatisfiable_import_reports_link_error() {
    let params = ParamMap::new();
    let r = invoke_module_bytes(&wat(UNLINKABLE), &params, BUDGET);
    assert_eq!(r, Err(InvokeError::Link));
}

#[test]
fn missing_entry_point_is_reported() {
    let params = ParamMap::new();
    let r = invoke_module_bytes(&wat(NO_ENTRY), &params, BUDGET);
    assert_eq!(r, Err(InvokeError::EntryPointNotFound));
}

#[test]
fn stages_report_their_own_tags() {
    let core = start_sandbox().unwrap();
    let r = resolve_module_bytes(core, &b"definitely not wasm".to_vec());
    assert!(matches!(r, Err(InvokeError::Resolution)));

    let core = start_sandbox().unwrap();
    let guest = resolve_module_bytes(core, &wat(NO_ENTRY)).unwrap();
    let r = invoke_loaded(guest, &ParamMap::new(), BUDGET);
    assert_eq!(r, Err(InvokeError::EntryPointNotFound));

    let core = start_sandbox().unwrap();
    let guest = resolve_module_bytes(core, &wat(UNLINKABLE)).unwrap();
    let r = invoke_loaded(guest, &ParamMap::new(), BUDGET);
    assert_eq!(r, Err(InvokeError::Link));
}

#[test]
fn invalid_bytecode_reports_resolution_error() {
    let params = ParamMap::new();
    let r = invoke_module_bytes(&b"definitely not wasm".to_vec(), &params, BUDGET);
    assert_eq!(r, Err(InvokeError::Resolution));
}
