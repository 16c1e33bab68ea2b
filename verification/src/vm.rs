//! Opaque engine pointers.
//!
//! The engine owns every pointee behind these values: the bridge never
//! dereferences them, it only carries them between the engine's entry points.
//! Each pointer is therefore modelled as a typed, opaque address.

use vstd::prelude::*;

verus! {

/// A raw code pointer: either JIT-compiled Wasm code or a host-side entry
/// point emitted by the host-to-raw adapter. Always non-null.
#[derive(Clone, Copy, Debug, PartialEq, Eq, Structural)]
pub struct FuncPointer {
    /// The code address.
    pub addr: usize,
}

impl FuncPointer {
    /// A code pointer is well-formed when it is non-null.
    pub open spec fn wf(self) -> bool {
        self.addr != 0
    }
}

/// A pointer to the engine's per-instance context, handed as the first
/// argument of every call. Null exactly for handles of host kind.
#[derive(Clone, Copy, Debug, PartialEq, Eq, Structural)]
pub struct VmCtxPtr {
    /// The context address; zero stands for null.
    pub addr: usize,
}

impl VmCtxPtr {
    /// The null context pointer, carried by host-kind handles.
    pub fn null() -> (p: VmCtxPtr)
        ensures
            p.addr == 0,
    {
        VmCtxPtr { addr: 0 }
    }

    /// Whether this pointer is non-null.
    pub open spec fn is_non_null(self) -> bool {
        self.addr != 0
    }
}

/// The engine-supplied trampoline for one signature shape: code that adapts
/// the generic call-site ABI to the Wasm function's internal convention.
/// The bridge forwards it, unread, to the engine's invoke entry point.
#[derive(Clone, Copy, Debug, PartialEq, Eq, Structural)]
pub struct Trampoline {
    /// The trampoline's code address. Always non-null.
    pub addr: usize,
}

/// The opaque environment some engines hand alongside their invoke entry
/// point; forwarded verbatim. Always non-null where present.
#[derive(Clone, Copy, Debug, PartialEq, Eq, Structural)]
pub struct InvokeEnv {
    /// The environment address.
    pub addr: usize,
}

} // verus!
