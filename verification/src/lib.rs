//! Execution-lifecycle core of a host that runs deterministic WebAssembly
//! modules in a sandbox: value conversion at the guest boundary, bounds-checked
//! access to linear memory, import resolution, the per-call host state, the two
//! instance strategies and the registry of nested sandboxes.
//!
//! The engine that executes guest code is not part of this crate. Every
//! operation that needs it comes in two halves: a function that prepares the
//! step and says what the engine has to run, and a function that takes what the
//! engine returned and finishes the step.

pub mod error;
pub mod host;
pub mod imports;
pub mod instance_wrapper;
pub mod memory;
pub mod runtime;
pub mod sandbox;
pub mod text;
pub mod util;
pub mod value;

pub use error::{AllocatorError, Backtrace, Error, MessageWithBacktrace, WasmError};
pub use host::{HostContext, HostState};
pub use imports::HostFuncErrorWasmEdge;
pub use instance_wrapper::InstanceWrapper;
pub use runtime::{
    common_config, create_runtime, create_runtime_from_artifact, Config, DeterministicStackLimit,
    Semantics, WasmEdgeInstance, WasmEdgeRuntime,
};
pub use value::{
    from_wasmedge_val, from_wasmedge_value, into_wasmedge_val, into_wasmedge_val_type,
    into_wasmedge_value,
};
