//! The host-to-raw adapter: turns a stateless host callable into a bare code
//! pointer for the engine's indirect-call tables, and classifies everything a
//! generated entry point can observe of the user callable.

use vstd::prelude::*;

use crate::list::WasmTypeList;
use crate::vm::FuncPointer;

verus! {

/// The kind of a host callable: with or without an explicit engine-context
/// argument.
pub trait ExternalFunctionKind {}

/// The kind of host callables whose first parameter is the engine context.
pub struct ExplicitVmCtx {}

/// The kind of host callables that take no engine-context parameter.
pub struct ImplicitVmCtx {}

impl ExternalFunctionKind for ExplicitVmCtx {}

impl ExternalFunctionKind for ImplicitVmCtx {}

/// The size of one code pointer in the engine's indirect-call ABI. The
/// engine's slots are 64 bits wide, so the ABI is a 64-bit one.
pub const POINTER_BYTES: usize = 8;

/// The rejection of a state-capturing callable at handle construction.
#[derive(Clone, Copy, Debug, PartialEq, Eq, Structural)]
pub struct ConstructionError {}

impl ConstructionError {
    /// The fixed diagnostic carried by every such rejection.
    pub open spec fn message_spec(self) -> Seq<char> {
        "a state-capturing callable cannot be used as a Wasm-visible function."@
    }

    /// Returns the fixed diagnostic.
    pub fn message(&self) -> (s: String)
        ensures
            s@ == self.message_spec(),
    {
        "a state-capturing callable cannot be used as a Wasm-visible function.".to_owned()
    }
}

/// A host callable that can be projected to a bare code pointer callable from
/// WebAssembly, for a fixed kind and signature.
pub trait ExternalFunction<K: ExternalFunctionKind, Args: WasmTypeList, Rets: WasmTypeList>: Sized {
    /// Well-formedness of the callable's runtime description.
    spec fn callable_wf(&self) -> bool;

    /// What the projection yields: either the code pointer, or the rejection
    /// of a state-capturing callable.
    spec fn to_raw_spec(&self) -> Result<FuncPointer, ConstructionError>;

    /// Projects the callable to a bare code pointer, or rejects it when its
    /// runtime representation captures state.
    fn to_raw(&self) -> (r: Result<FuncPointer, ConstructionError>)
        requires
            self.callable_wf(),
        ensures
            r == self.to_raw_spec(),
            r matches Ok(p) ==> p.wf(),
    ;
}

/// The runtime description of a host callable handed to the adapter: the size
/// of its captured state, the adapter entry point emitted for its
/// specialization, and its own one-word representation where it has one.
///
/// A named zero-sized function has `state_size` zero; a function pointer has
/// `state_size` of one pointer and carries its code address in `raw_value`; a
/// closure that captures state is anything larger.
#[derive(Clone, Copy, Debug, PartialEq, Eq, Structural)]
pub struct HostCallable {
    /// The size in bytes of the callable's runtime representation.
    pub state_size: usize,
    /// The code address of the adapter entry point emitted for this
    /// callable's specialization. Always non-null.
    pub entry: FuncPointer,
    /// The callable's raw one-word value, meaningful only when the callable
    /// is exactly one pointer wide; then it is its code address.
    pub raw_value: usize,
}

impl<K: ExternalFunctionKind, Args: WasmTypeList, Rets: WasmTypeList> ExternalFunction<
    K,
    Args,
    Rets,
> for HostCallable {
    /// The emitted entry point is a real code address, and a pointer-wide
    /// callable really is a code pointer.
    open spec fn callable_wf(&self) -> bool {
        &&& self.entry.wf()
        &&& self.state_size == POINTER_BYTES ==> self.raw_value != 0
    }

    /// Zero-sized callables take the synthesized entry point; a callable the
    /// size of one pointer is reinterpreted as its raw code pointer directly;
    /// anything larger captures state and is rejected with the fixed
    /// diagnostic.
    open spec fn to_raw_spec(&self) -> Result<FuncPointer, ConstructionError> {
        if self.state_size == 0 {
            Ok(self.entry)
        } else if self.state_size == POINTER_BYTES {
            Ok(FuncPointer { addr: self.raw_value })
        } else {
            Err(ConstructionError {})
        }
    }

    fn to_raw(&self) -> (r: Result<FuncPointer, ConstructionError>) {
        if self.state_size == 0 {
            Ok(self.entry)
        } else if self.state_size == POINTER_BYTES {
            Ok(FuncPointer { addr: self.raw_value })
        } else {
            Err(ConstructionError {})
        }
    }
}

/// The payload a host callable never raises: the report of a plain return
/// tuple is always its success case, so this error never occurs in one.
#[derive(Clone, Copy, Debug, PartialEq, Eq, Structural)]
pub struct NoError {}

/// A host callable's return, normalized to a result: a plain tuple reports
/// itself as success, a result-like return reports itself as it stands, so
/// its error case traps early.
pub trait TrapEarly<Rets: WasmTypeList>: Sized {
    /// The error the callable may report.
    type Error;

    /// The normalized report.
    spec fn report_spec(self) -> Result<Rets, Self::Error>;

    /// Normalizes the callable's return.
    fn report(self) -> (r: Result<Rets, Self::Error>)
        ensures
            r == self.report_spec(),
    ;
}

impl<Rets: WasmTypeList> TrapEarly<Rets> for Rets {
    type Error = NoError;

    /// A plain return tuple always reports success with itself.
    open spec fn report_spec(self) -> Result<Rets, NoError> {
        Ok(self)
    }

    fn report(self) -> (r: Result<Rets, NoError>) {
        Ok(self)
    }
}

impl<Rets: WasmTypeList, E> TrapEarly<Rets> for Result<Rets, E> {
    type Error = E;

    /// A result-like return reports itself unchanged.
    open spec fn report_spec(self) -> Result<Rets, E> {
        self
    }

    fn report(self) -> (r: Result<Rets, E>) {
        self
    }
}

/// The type-erased payload handed to the engine's early-trap hook.
pub enum TrapPayload<E, P> {
    /// A reported error.
    Raised(E),
    /// A caught panic payload.
    Panicked(P),
}

/// What the entry point does next: return the aggregate form by value, or
/// hand a payload to the engine's early-trap hook, which records it and never
/// returns control to the entry point.
pub enum EntryAction<C, E, P> {
    /// Return this aggregate to the engine by value.
    Return(C),
    /// Hand this payload to the early-trap hook.
    EarlyTrap(TrapPayload<E, P>),
}

/// Decides what a generated entry point does with one invocation of the user
/// callable, after the panic catch that spans exactly that invocation.
///
/// `caught` is what the catch observed: the callable's return, or the payload
/// of a caught panic. A normal return is packed into the aggregate form and
/// returned by value; a reported error and a caught panic both become early
/// traps carrying their payload, so no unwinding frame ever crosses the
/// engine boundary.
pub fn classify_host_return<Rets: WasmTypeList, T: TrapEarly<Rets>, P>(caught: Result<T, P>) -> (r:
    EntryAction<Rets::CStruct, T::Error, P>)
    ensures
        (match caught {
            Ok(t) => match t.report_spec() {
                Ok(v) => r matches EntryAction::Return(c) && c == v.into_c_struct_spec(),
                Err(e) => r matches EntryAction::EarlyTrap(TrapPayload::Raised(e2)) && e2 == e,
            },
            Err(p) => r matches EntryAction::EarlyTrap(TrapPayload::Panicked(p2)) && p2 == p,
        }),
{
    match caught {
        Ok(t) => match t.report() {
            Ok(v) => EntryAction::Return(v.into_c_struct()),
            Err(e) => EntryAction::EarlyTrap(TrapPayload::Raised(e)),
        },
        Err(p) => EntryAction::EarlyTrap(TrapPayload::Panicked(p)),
    }
}

} // verus!
