//! Core of a WebAssembly function-as-a-service host.
//!
//! Given a module identifier and a map of string parameters, the library
//! loads the module, runs it inside a fresh, isolated sandbox whose only
//! outputs are a captured standard-output byte buffer, and returns the
//! decoded text that the guest wrote.  Every failure is tagged with the
//! stage at which it occurred.

pub mod dispatch;
pub mod errors;
pub mod host;
pub mod invoke;
pub mod output;
pub mod params;
