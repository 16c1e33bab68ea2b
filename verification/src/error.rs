//! Trap classification and the outcome type of a failed call.

use vstd::prelude::*;

verus! {

/// The cause of a Wasm-originated fault.
///
/// The engine reports a trap as an integer discriminant written through an
/// out-parameter; [`WasmTrapInfo::from_code`] decodes it, mapping every value
/// outside the known set to `Unknown`.
#[derive(Clone, Copy, Debug, PartialEq, Eq, Structural)]
pub enum WasmTrapInfo {
    /// The program executed the `unreachable` instruction.
    Unreachable,
    /// An indirect call found a function of the wrong signature.
    IncorrectCallIndirectSignature,
    /// A linear-memory access fell outside the memory's bounds.
    MemoryOutOfBounds,
    /// An indirect call indexed past the end of the table.
    CallIndirectOOB,
    /// An illegal arithmetic operation, such as integer division by zero.
    IllegalArithmetic,
    /// A misaligned atomic memory access.
    MisalignedAtomicAccess,
    /// Any cause outside the known set.
    Unknown,
}

impl WasmTrapInfo {
    /// The integer discriminant the engine writes for this cause.
    pub open spec fn code_spec(self) -> u64 {
        match self {
            WasmTrapInfo::Unreachable => 0,
            WasmTrapInfo::IncorrectCallIndirectSignature => 1,
            WasmTrapInfo::MemoryOutOfBounds => 2,
            WasmTrapInfo::CallIndirectOOB => 3,
            WasmTrapInfo::IllegalArithmetic => 4,
            WasmTrapInfo::MisalignedAtomicAccess => 5,
            WasmTrapInfo::Unknown => 6,
        }
    }

    /// What an engine-written discriminant decodes to: the matching cause for
    /// the six known codes, `Unknown` for everything else.
    pub open spec fn from_code_spec(code: u64) -> WasmTrapInfo {
        if code == 0 {
            WasmTrapInfo::Unreachable
        } else if code == 1 {
            WasmTrapInfo::IncorrectCallIndirectSignature
        } else if code == 2 {
            WasmTrapInfo::MemoryOutOfBounds
        } else if code == 3 {
            WasmTrapInfo::CallIndirectOOB
        } else if code == 4 {
            WasmTrapInfo::IllegalArithmetic
        } else if code == 5 {
            WasmTrapInfo::MisalignedAtomicAccess
        } else {
            WasmTrapInfo::Unknown
        }
    }

    /// Returns the integer discriminant of this cause.
    pub fn code(self) -> (c: u64)
        ensures
            c == self.code_spec(),
    {
        match self {
            WasmTrapInfo::Unreachable => 0,
            WasmTrapInfo::IncorrectCallIndirectSignature => 1,
            WasmTrapInfo::MemoryOutOfBounds => 2,
            WasmTrapInfo::CallIndirectOOB => 3,
            WasmTrapInfo::IllegalArithmetic => 4,
            WasmTrapInfo::MisalignedAtomicAccess => 5,
            WasmTrapInfo::Unknown => 6,
        }
    }

    /// Decodes an engine-written discriminant; values outside the known set
    /// decode to `Unknown`.
    pub fn from_code(code: u64) -> (t: WasmTrapInfo)
        ensures
            t == WasmTrapInfo::from_code_spec(code),
    {
        if code == 0 {
            WasmTrapInfo::Unreachable
        } else if code == 1 {
            WasmTrapInfo::IncorrectCallIndirectSignature
        } else if code == 2 {
            WasmTrapInfo::MemoryOutOfBounds
        } else if code == 3 {
            WasmTrapInfo::CallIndirectOOB
        } else if code == 4 {
            WasmTrapInfo::IllegalArithmetic
        } else if code == 5 {
            WasmTrapInfo::MisalignedAtomicAccess
        } else {
            WasmTrapInfo::Unknown
        }
    }

    /// The canonical human-readable phrase for this cause.
    pub open spec fn message_spec(self) -> Seq<char> {
        match self {
            WasmTrapInfo::Unreachable => "unreachable"@,
            WasmTrapInfo::IncorrectCallIndirectSignature => "incorrect `call_indirect` signature"@,
            WasmTrapInfo::MemoryOutOfBounds => "memory out-of-bounds access"@,
            WasmTrapInfo::CallIndirectOOB => "`call_indirect` out-of-bounds"@,
            WasmTrapInfo::IllegalArithmetic => "illegal arithmetic operation"@,
            WasmTrapInfo::MisalignedAtomicAccess => "misaligned atomic access"@,
            WasmTrapInfo::Unknown => "unknown"@,
        }
    }

    /// Returns the canonical human-readable phrase for this cause.
    pub fn message(&self) -> (s: String)
        ensures
            s@ == self.message_spec(),
    {
        match self {
            WasmTrapInfo::Unreachable => "unreachable".to_owned(),
            WasmTrapInfo::IncorrectCallIndirectSignature => {
                "incorrect `call_indirect` signature".to_owned()
            },
            WasmTrapInfo::MemoryOutOfBounds => "memory out-of-bounds access".to_owned(),
            WasmTrapInfo::CallIndirectOOB => "`call_indirect` out-of-bounds".to_owned(),
            WasmTrapInfo::IllegalArithmetic => "illegal arithmetic operation".to_owned(),
            WasmTrapInfo::MisalignedAtomicAccess => "misaligned atomic access".to_owned(),
            WasmTrapInfo::Unknown => "unknown".to_owned(),
        }
    }

    /// Decoding is the inverse of the discriminant on the known set, and the
    /// two agree on `Unknown`, so a cause survives a trip through the engine's
    /// out-parameter unchanged.
    pub proof fn lemma_code_round_trip(self)
        ensures
            WasmTrapInfo::from_code_spec(self.code_spec()) == self,
    {
    }
}

/// The failure side of a call outcome.
///
/// `E` is the host-error payload the engine carries back; the engine treats
/// it as an opaque, type-erased box, so the bridge is generic in it.
#[derive(Debug)]
pub enum RuntimeError<E> {
    /// A Wasm-originated fault, classified by the engine at the call
    /// boundary.
    Trap {
        /// The classified cause.
        info: WasmTrapInfo,
    },
    /// A host callable raised an error (or panicked); the payload travels
    /// back opaque to the original caller.
    Error {
        /// The type-erased payload.
        data: E,
    },
}

} // verus!
