//! Typed host/guest function bridge for a WebAssembly engine.
//!
//! The bridge lets native host code call Wasm functions and lets Wasm code
//! call native host functions, with static agreement on arity and element
//! types, uniform packing of values into the engine's 64-bit slots, and a
//! classified outcome (normal return, Wasm trap, or host error) for every
//! call.

pub mod adapter;
pub mod call;
pub mod error;
pub mod export;
pub mod func;
pub mod list;
pub mod types;
pub mod vm;

pub use adapter::{
    classify_host_return, ConstructionError, EntryAction, ExplicitVmCtx, ExternalFunction,
    ExternalFunctionKind, HostCallable, ImplicitVmCtx, NoError, TrapEarly, TrapPayload,
    POINTER_BYTES,
};
pub use call::{engine_call, interpret_invoke_outcome, Invoke, Wasm};
pub use error::{RuntimeError, WasmTrapInfo};
pub use export::{Context, Export, FuncSig};
pub use func::{Func, Host, Kind};
pub use list::WasmTypeList;
pub use types::{F32Bits, F64Bits, Type, WasmExternType};
pub use vm::{FuncPointer, InvokeEnv, Trampoline, VmCtxPtr};
