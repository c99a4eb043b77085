//! The invocation engine: one guest run inside one fresh sandbox.
//!
//! An invocation moves through stages — sandbox core, resolved module,
//! seeded context, instance, entry point, run — and each stage is a
//! public function whose contract states exactly which failure tag that
//! stage can report.  `invoke_module` and `invoke_module_bytes` compose
//! them.

use vstd::prelude::*;

use crate::errors::InvokeError;
use crate::host;
use crate::output;
use crate::params::ParamMap;

verus! {

/// Byte capacity of the capture sink: guest output beyond this bound is
/// refused, so one invocation cannot grow host memory without limit.  A
/// guest that keeps writing past the bound sees its writes fail and, if
/// it treats that as fatal, ends in a fault reported as `GuestTrap`.
pub const OUTPUT_CAPACITY: usize = 1048576;

/// How one run of a guest's entry point ended.
#[derive(Clone, Copy, Debug, PartialEq, Eq, Structural)]
pub enum RunOutcome {
    /// The entry point returned normally.
    Completed,
    /// The guest ended itself with a process-style exit carrying this
    /// status; treated as normal termination, not a host failure.
    Exited(i32),
    /// The guest exhausted its execution budget.
    OutOfBudget,
    /// The guest raised a runtime fault.
    Faulted,
}

/// The failure, if any, under which a run outcome is reported: normal
/// return and guest-initiated exit are termination, exhaustion of the
/// budget is `GuestTimeout`, and a runtime fault is `GuestTrap` — never a
/// host-level failure.
pub open spec fn spec_run_failure(outcome: RunOutcome) -> Option<InvokeError> {
    match outcome {
        RunOutcome::Completed => None,
        RunOutcome::Exited(_) => None,
        RunOutcome::OutOfBudget => Some(InvokeError::GuestTimeout),
        RunOutcome::Faulted => Some(InvokeError::GuestTrap),
    }
}

/// Report a run outcome as the failure it stands for, if any.
pub fn run_failure(outcome: &RunOutcome) -> (r: Option<InvokeError>)
    ensures
        r == spec_run_failure(*outcome),
{
    match outcome {
        RunOutcome::Completed => None,
        RunOutcome::Exited(_) => None,
        RunOutcome::OutOfBudget => Some(InvokeError::GuestTimeout),
        RunOutcome::Faulted => Some(InvokeError::GuestTrap),
    }
}

/// Begin an invocation: a fresh engine and linker with the system
/// interface registered.  This stage reports no failure but
/// `Environment`.
pub fn start_sandbox() -> (r: Result<host::SandboxCore, InvokeError>)
    ensures
        r matches Err(e) ==> e == InvokeError::Environment,
{
    match host::create_sandbox_core() {
        Ok(core) => Ok(core),
        Err(_) => Err(InvokeError::Environment),
    }
}

/// Resolve a module identifier against the backing store.  A path that
/// does not name a readable, valid module is reported as `Resolution`,
/// and this stage reports no other failure.
pub fn resolve_module_file(core: host::SandboxCore, path: &String) -> (r: Result<
    host::LoadedGuest,
    InvokeError,
>)
    ensures
        r matches Err(e) ==> e == InvokeError::Resolution,
{
    match host::load_guest_file(core, path) {
        Ok(guest) => Ok(guest),
        Err(_) => Err(InvokeError::Resolution),
    }
}

/// Resolve in-memory bytecode.  Bytecode that is not a valid module is
/// reported as `Resolution`, and this stage reports no other failure.
pub fn resolve_module_bytes(core: host::SandboxCore, bytecode: &Vec<u8>) -> (r: Result<
    host::LoadedGuest,
    InvokeError,
>)
    ensures
        r matches Err(e) ==> e == InvokeError::Resolution,
{
    match host::compile_guest(core, bytecode) {
        Ok(guest) => Ok(guest),
        Err(_) => Err(InvokeError::Resolution),
    }
}

/// Instantiate a seeded sandbox.  An import that the registered surface
/// does not satisfy is reported as `Link`, and this stage reports no
/// other failure.
pub fn instantiate_sandbox(ctx: host::SandboxCtx) -> (r: Result<host::GuestInstance, InvokeError>)
    ensures
        r matches Err(e) ==> e == InvokeError::Link,
{
    match host::instantiate_guest(ctx) {
        Ok(instance) => Ok(instance),
        Err(_) => Err(InvokeError::Link),
    }
}

/// Resolve the guest's entry point.  A module without the zero-argument,
/// zero-result entry export is reported as `EntryPointNotFound`, and this
/// stage reports no other failure.
pub fn resolve_entry_point(instance: host::GuestInstance) -> (r: Result<
    host::GuestEntry,
    InvokeError,
>)
    ensures
        r matches Err(e) ==> e == InvokeError::EntryPointNotFound,
{
    match host::resolve_entry(instance) {
        Ok(entry) => Ok(entry),
        Err(_) => Err(InvokeError::EntryPointNotFound),
    }
}

/// Run a resolved module inside a fresh sandbox seeded with the given
/// parameters, with `budget` metered instructions of execution allowance
/// (an instruction count, not wall time), and extract the text it wrote.
///
/// Resolution is already behind: no post-resolution stage reports
/// `Resolution`.  What comes back on success is `extract_output`'s exact
/// decoding of the drained capture sink.
pub fn invoke_loaded(guest: host::LoadedGuest, params: &ParamMap, budget: u64) -> (r: Result<
    String,
    InvokeError,
>)
    ensures
        r matches Err(e) ==> e != InvokeError::Resolution,
{
    let sink = host::new_capture_sink(OUTPUT_CAPACITY);
    let envs = params.to_env_pairs();
    let ctx = match host::seed_sandbox(guest, &envs, sink.clone(), budget) {
        Ok(ctx) => ctx,
        Err(_) => {
            return Err(InvokeError::Environment);
        },
    };
    let instance = match instantiate_sandbox(ctx) {
        Ok(instance) => instance,
        Err(e) => {
            return Err(e);
        },
    };
    let entry = match resolve_entry_point(instance) {
        Ok(entry) => entry,
        Err(e) => {
            return Err(e);
        },
    };
    let outcome = host::run_entry(entry);
    match run_failure(&outcome) {
        Some(e) => Err(e),
        None => output::extract_output(host::drain_capture_sink(&sink)),
    }
}

/// Invoke the module that `path` names: begin a sandbox, resolve the
/// path, and run what was resolved.  Each stage's own contract says
/// which failure it can report; the composition adds nothing of its own.
pub fn invoke_module(path: &String, params: &ParamMap, budget: u64) -> (r: Result<
    String,
    InvokeError,
>) {
    let core = match start_sandbox() {
        Ok(core) => core,
        Err(e) => {
            return Err(e);
        },
    };
    let guest = match resolve_module_file(core, path) {
        Ok(guest) => guest,
        Err(e) => {
            return Err(e);
        },
    };
    invoke_loaded(guest, params, budget)
}

/// Invoke a module given as in-memory bytecode: begin a sandbox, resolve
/// the bytecode, and run what was resolved.  Each stage's own contract
/// says which failure it can report; the composition adds nothing of its
/// own.
pub fn invoke_module_bytes(bytecode: &Vec<u8>, params: &ParamMap, budget: u64) -> (r: Result<
    String,
    InvokeError,
>) {
    let core = match start_sandbox() {
        Ok(core) => core,
        Err(e) => {
            return Err(e);
        },
    };
    let guest = match resolve_module_bytes(core, bytecode) {
        Ok(guest) => guest,
        Err(e) => {
            return Err(e);
        },
    };
    invoke_loaded(guest, params, budget)
}

} // verus!
