//! The uniform export view of a function handle: a code pointer, a context
//! marker, and the signature built from the handle's type lists.

use vstd::prelude::*;

use crate::types::Type;
use crate::vm::{FuncPointer, VmCtxPtr};

verus! {

/// Which context a call through an export runs in.
#[derive(Clone, Copy, Debug, PartialEq, Eq, Structural)]
pub enum Context {
    /// The context of the instance the export lives in.
    Internal,
    /// A foreign context, carried along with the export.
    External(VmCtxPtr),
}

/// A function signature: the engine-level tags of the parameters and of the
/// results.
#[derive(Clone, Debug)]
pub struct FuncSig {
    /// The parameter tags, in declaration order.
    pub params: Vec<Type>,
    /// The result tags, in declaration order.
    pub results: Vec<Type>,
}

impl FuncSig {
    /// Builds a signature out of its two tag lists.
    pub fn new(params: Vec<Type>, results: Vec<Type>) -> (s: FuncSig)
        ensures
            s.params@ == params@,
            s.results@ == results@,
    {
        FuncSig { params, results }
    }
}

/// An export: the uniform value a function handle projects to when it is
/// handed to an instance or an import object.
#[derive(Clone, Debug)]
pub enum Export {
    /// A function export.
    Function {
        /// The code pointer called through the export.
        func: FuncPointer,
        /// The context the call runs in.
        ctx: Context,
        /// The function's signature.
        signature: FuncSig,
    },
}

} // verus!
