//! The typed function handle: a Wasm function callable from the host, or a
//! host function callable from Wasm, with its signature fixed by two type
//! lists.

use core::marker::PhantomData;
use vstd::prelude::*;

use crate::adapter::{ConstructionError, ExternalFunction, ExternalFunctionKind};
use crate::call::{engine_call, Invoke, Wasm};
use crate::error::RuntimeError;
use crate::export::{Context, Export, FuncSig};
use crate::list::WasmTypeList;
use crate::types::{Type, WasmExternType};
use crate::vm::{FuncPointer, VmCtxPtr};

verus! {

/// The kind of a function handle: created out of a compiled Wasm function, or
/// out of a host callable.
pub trait Kind {}

/// The kind of handles that stand for host callables. Such a handle carries
/// no engine context: its context pointer is null.
pub struct Host(());

impl<I: Invoke> Kind for Wasm<I> {
}

impl Kind for Host {
}

/// A typed function handle.
///
/// `Args` and `Rets` are the type lists of the signature; `Inner` is the
/// kind: [`Wasm`] with the trampoline triple for a compiled Wasm function,
/// [`Host`] for a registered host callable. The handle is immutable after
/// construction and owns no Wasm-side memory.
pub struct Func<Args, Rets, Inner: Kind> {
    inner: Inner,
    f: FuncPointer,
    ctx: VmCtxPtr,
    _phantom: PhantomData<(Args, Rets)>,
}

impl<Args: WasmTypeList, Rets: WasmTypeList, Inner: Kind> Func<Args, Rets, Inner> {
    /// The handle's code pointer.
    pub closed spec fn func_ptr_spec(self) -> FuncPointer {
        self.f
    }

    /// The handle's engine context pointer.
    pub closed spec fn ctx_spec(self) -> VmCtxPtr {
        self.ctx
    }

    /// The handle's kind value.
    pub closed spec fn inner_spec(self) -> Inner {
        self.inner
    }

    /// Returns the engine-level tags of the function's parameters.
    pub fn params(&self) -> (r: Vec<Type>)
        ensures
            r@ == Args::types_spec(),
    {
        Args::types()
    }

    /// Returns the engine-level tags of the function's results.
    pub fn results(&self) -> (r: Vec<Type>)
        ensures
            r@ == Rets::types_spec(),
    {
        Rets::types()
    }

    /// Projects the handle into the uniform export view: its code pointer,
    /// the internal context, and the signature built from the two type lists.
    pub fn to_export(&self) -> (e: Export)
        ensures
            e matches Export::Function { func, ctx, signature } && func == self.func_ptr_spec()
                && ctx == Context::Internal && signature.params@ == Args::types_spec()
                && signature.results@ == Rets::types_spec(),
    {
        let func = self.f;
        let ctx = Context::Internal;
        let signature = FuncSig::new(Args::types(), Rets::types());
        Export::Function { func, ctx, signature }
    }
}

impl<Args: WasmTypeList, Rets: WasmTypeList, I: Invoke> Func<Args, Rets, Wasm<I>> {
    /// The invariant of a Wasm-kind handle: the code pointer points into
    /// compiled Wasm and the engine context is set.
    pub open spec fn wf(self) -> bool {
        self.func_ptr_spec().wf() && self.ctx_spec().is_non_null()
    }

    /// Builds a handle out of the parts the engine resolved for one compiled
    /// Wasm function: its trampoline triple, its code pointer, and the
    /// instance's context.
    pub fn from_raw_parts(inner: Wasm<I>, f: FuncPointer, ctx: VmCtxPtr) -> (r: Func<
        Args,
        Rets,
        Wasm<I>,
    >)
        requires
            f.wf(),
            ctx.is_non_null(),
        ensures
            r.inner_spec() == inner,
            r.func_ptr_spec() == f,
            r.ctx_spec() == ctx,
            r.wf(),
    {
        Func { inner, f, ctx, _phantom: PhantomData }
    }

    /// Returns the handle's raw code pointer.
    pub fn get_vm_func(&self) -> (r: FuncPointer)
        ensures
            r == self.func_ptr_spec(),
    {
        self.f
    }
}

impl<Args: WasmTypeList, Rets: WasmTypeList> Func<Args, Rets, Host> {
    /// The invariant of a host-kind handle: the code pointer is the adapter's
    /// entry point and the engine context is null.
    pub open spec fn wf(self) -> bool {
        self.func_ptr_spec().wf() && self.ctx_spec().addr == 0
    }

    /// Registers a host callable: projects it to a bare code pointer through
    /// the host-to-raw adapter and wraps the pointer in a handle with a null
    /// context. A callable whose runtime representation captures state is
    /// rejected with the adapter's fixed diagnostic.
    pub fn new<K: ExternalFunctionKind, F: ExternalFunction<K, Args, Rets>>(f: F) -> (r: Result<
        Func<Args, Rets, Host>,
        ConstructionError,
    >)
        requires
            f.callable_wf(),
        ensures
            (match f.to_raw_spec() {
                Ok(p) => r matches Ok(h) && h.func_ptr_spec() == p && h.ctx_spec().addr == 0
                    && h.wf(),
                Err(e) => r matches Err(e2) && e2 == e,
            }),
    {
        match f.to_raw() {
            Ok(p) => Ok(Func { inner: Host(()), f: p, ctx: VmCtxPtr::null(), _phantom: PhantomData }),
            Err(e) => Err(e),
        }
    }
}

impl<Rets: WasmTypeList, Inv: Invoke> Func<(), Rets, Wasm<Inv>> {
    /// Calls the Wasm function with these arguments: packs them into the
    /// engine's slot layout, runs the invoke entry point, and classifies the
    /// outcome. Every returned tuple decodes from some return buffer of the
    /// declared arity.
    pub fn call(&self) -> (r: Result<Rets, RuntimeError<Inv::Error>>)
        ensures
            r matches Ok(v) ==> exists|buf: Seq<u64>|
                buf.len() == Rets::arity_spec() && v == Rets::from_slots_spec(buf),
    {
        engine_call::<(), Rets, Inv>((), self.f, &self.inner, self.ctx)
    }
}

impl<A: WasmExternType, Rets: WasmTypeList, Inv: Invoke> Func<(A,), Rets, Wasm<Inv>> {
    /// Calls the Wasm function with these arguments: packs them into the
    /// engine's slot layout, runs the invoke entry point, and classifies the
    /// outcome. Every returned tuple decodes from some return buffer of the
    /// declared arity.
    pub fn call(&self, a: A) -> (r: Result<Rets, RuntimeError<Inv::Error>>)
        ensures
            r matches Ok(v) ==> exists|buf: Seq<u64>|
                buf.len() == Rets::arity_spec() && v == Rets::from_slots_spec(buf),
    {
        engine_call::<(A,), Rets, Inv>((a,), self.f, &self.inner, self.ctx)
    }
}

impl<A: WasmExternType, B: WasmExternType, Rets: WasmTypeList, Inv: Invoke> Func<(A, B), Rets, Wasm<Inv>> {
    /// Calls the Wasm function with these arguments: packs them into the
    /// engine's slot layout, runs the invoke entry point, and classifies the
    /// outcome. Every returned tuple decodes from some return buffer of the
    /// declared arity.
    pub fn call(&self, a: A, b: B) -> (r: Result<Rets, RuntimeError<Inv::Error>>)
        ensures
            r matches Ok(v) ==> exists|buf: Seq<u64>|
                buf.len() == Rets::arity_spec() && v == Rets::from_slots_spec(buf),
    {
        engine_call::<(A, B), Rets, Inv>((a, b), self.f, &self.inner, self.ctx)
    }
}

impl<A: WasmExternType, B: WasmExternType, C: WasmExternType, Rets: WasmTypeList, Inv: Invoke> Func<(A, B, C), Rets, Wasm<Inv>> {
    /// Calls the Wasm function with these arguments: packs them into the
    /// engine's slot layout, runs the invoke entry point, and classifies the
    /// outcome. Every returned tuple decodes from some return buffer of the
    /// declared arity.
    pub fn call(&self, a: A, b: B, c: C) -> (r: Result<Rets, RuntimeError<Inv::Error>>)
        ensures
            r matches Ok(v) ==> exists|buf: Seq<u64>|
                buf.len() == Rets::arity_spec() && v == Rets::from_slots_spec(buf),
    {
        engine_call::<(A, B, C), Rets, Inv>((a, b, c), self.f, &self.inner, self.ctx)
    }
}

impl<A: WasmExternType, B: WasmExternType, C: WasmExternType, D: WasmExternType, Rets: WasmTypeList, Inv: Invoke> Func<(A, B, C, D), Rets, Wasm<Inv>> {
    /// Calls the Wasm function with these arguments: packs them into the
    /// engine's slot layout, runs the invoke entry point, and classifies the
    /// outcome. Every returned tuple decodes from some return buffer of the
    /// declared arity.
    pub fn call(&self, a: A, b: B, c: C, d: D) -> (r: Result<Rets, RuntimeError<Inv::Error>>)
        ensures
            r matches Ok(v) ==> exists|buf: Seq<u64>|
                buf.len() == Rets::arity_spec() && v == Rets::from_slots_spec(buf),
    {
        engine_call::<(A, B, C, D), Rets, Inv>((a, b, c, d), self.f, &self.inner, self.ctx)
    }
}

impl<A: WasmExternType, B: WasmExternType, C: WasmExternType, D: WasmExternType, E: WasmExternType, Rets: WasmTypeList, Inv: Invoke> Func<(A, B, C, D, E), Rets, Wasm<Inv>> {
    /// Calls the Wasm function with these arguments: packs them into the
    /// engine's slot layout, runs the invoke entry point, and classifies the
    /// outcome. Every returned tuple decodes from some return buffer of the
    /// declared arity.
    pub fn call(&self, a: A, b: B, c: C, d: D, e: E) -> (r: Result<Rets, RuntimeError<Inv::Error>>)
        ensures
            r matches Ok(v) ==> exists|buf: Seq<u64>|
                buf.len() == Rets::arity_spec() && v == Rets::from_slots_spec(buf),
    {
        engine_call::<(A, B, C, D, E), Rets, Inv>((a, b, c, d, e), self.f, &self.inner, self.ctx)
    }
}

impl<A: WasmExternType, B: WasmExternType, C: WasmExternType, D: WasmExternType, E: WasmExternType, F: WasmExternType, Rets: WasmTypeList, Inv: Invoke> Func<(A, B, C, D, E, F), Rets, Wasm<Inv>> {
    /// Calls the Wasm function with these arguments: packs them into the
    /// engine's slot layout, runs the invoke entry point, and classifies the
    /// outcome. Every returned tuple decodes from some return buffer of the
    /// declared arity.
    pub fn call(&self, a: A, b: B, c: C, d: D, e: E, f: F) -> (r: Result<Rets, RuntimeError<Inv::Error>>)
        ensures
            r matches Ok(v) ==> exists|buf: Seq<u64>|
                buf.len() == Rets::arity_spec() && v == Rets::from_slots_spec(buf),
    {
        engine_call::<(A, B, C, D, E, F), Rets, Inv>((a, b, c, d, e, f), self.f, &self.inner, self.ctx)
    }
}

impl<A: WasmExternType, B: WasmExternType, C: WasmExternType, D: WasmExternType, E: WasmExternType, F: WasmExternType, G: WasmExternType, Rets: WasmTypeList, Inv: Invoke> Func<(A, B, C, D, E, F, G), Rets, Wasm<Inv>> {
    /// Calls the Wasm function with these arguments: packs them into the
    /// engine's slot layout, runs the invoke entry point, and classifies the
    /// outcome. Every returned tuple decodes from some return buffer of the
    /// declared arity.
    pub fn call(&self, a: A, b: B, c: C, d: D, e: E, f: F, g: G) -> (r: Result<Rets, RuntimeError<Inv::Error>>)
        ensures
            r matches Ok(v) ==> exists|buf: Seq<u64>|
                buf.len() == Rets::arity_spec() && v == Rets::from_slots_spec(buf),
    {
        engine_call::<(A, B, C, D, E, F, G), Rets, Inv>((a, b, c, d, e, f, g), self.f, &self.inner, self.ctx)
    }
}

impl<A: WasmExternType, B: WasmExternType, C: WasmExternType, D: WasmExternType, E: WasmExternType, F: WasmExternType, G: WasmExternType, H: WasmExternType, Rets: WasmTypeList, Inv: Invoke> Func<(A, B, C, D, E, F, G, H), Rets, Wasm<Inv>> {
    /// Calls the Wasm function with these arguments: packs them into the
    /// engine's slot layout, runs the invoke entry point, and classifies the
    /// outcome. Every returned tuple decodes from some return buffer of the
    /// declared arity.
    pub fn call(&self, a: A, b: B, c: C, d: D, e: E, f: F, g: G, h: H) -> (r: Result<Rets, RuntimeError<Inv::Error>>)
        ensures
            r matches Ok(v) ==> exists|buf: Seq<u64>|
                buf.len() == Rets::arity_spec() && v == Rets::from_slots_spec(buf),
    {
        engine_call::<(A, B, C, D, E, F, G, H), Rets, Inv>((a, b, c, d, e, f, g, h), self.f, &self.inner, self.ctx)
    }
}

impl<A: WasmExternType, B: WasmExternType, C: WasmExternType, D: WasmExternType, E: WasmExternType, F: WasmExternType, G: WasmExternType, H: WasmExternType, I: WasmExternType, Rets: WasmTypeList, Inv: Invoke> Func<(A, B, C, D, E, F, G, H, I), Rets, Wasm<Inv>> {
    /// Calls the Wasm function with these arguments: packs them into the
    /// engine's slot layout, runs the invoke entry point, and classifies the
    /// outcome. Every returned tuple decodes from some return buffer of the
    /// declared arity.
    pub fn call(&self, a: A, b: B, c: C, d: D, e: E, f: F, g: G, h: H, i: I) -> (r: Result<Rets, RuntimeError<Inv::Error>>)
        ensures
            r matches Ok(v) ==> exists|buf: Seq<u64>|
                buf.len() == Rets::arity_spec() && v == Rets::from_slots_spec(buf),
    {
        engine_call::<(A, B, C, D, E, F, G, H, I), Rets, Inv>((a, b, c, d, e, f, g, h, i), self.f, &self.inner, self.ctx)
    }
}

impl<A: WasmExternType, B: WasmExternType, C: WasmExternType, D: WasmExternType, E: WasmExternType, F: WasmExternType, G: WasmExternType, H: WasmExternType, I: WasmExternType, J: WasmExternType, Rets: WasmTypeList, Inv: Invoke> Func<(A, B, C, D, E, F, G, H, I, J), Rets, Wasm<Inv>> {
    /// Calls the Wasm function with these arguments: packs them into the
    /// engine's slot layout, runs the invoke entry point, and classifies the
    /// outcome. Every returned tuple decodes from some return buffer of the
    /// declared arity.
    pub fn call(&self, a: A, b: B, c: C, d: D, e: E, f: F, g: G, h: H, i: I, j: J) -> (r: Result<Rets, RuntimeError<Inv::Error>>)
        ensures
            r matches Ok(v) ==> exists|buf: Seq<u64>|
                buf.len() == Rets::arity_spec() && v == Rets::from_slots_spec(buf),
    {
        engine_call::<(A, B, C, D, E, F, G, H, I, J), Rets, Inv>((a, b, c, d, e, f, g, h, i, j), self.f, &self.inner, self.ctx)
    }
}

impl<A: WasmExternType, B: WasmExternType, C: WasmExternType, D: WasmExternType, E: WasmExternType, F: WasmExternType, G: WasmExternType, H: WasmExternType, I: WasmExternType, J: WasmExternType, K: WasmExternType, Rets: WasmTypeList, Inv: Invoke> Func<(A, B, C, D, E, F, G, H, I, J, K), Rets, Wasm<Inv>> {
    /// Calls the Wasm function with these arguments: packs them into the
    /// engine's slot layout, runs the invoke entry point, and classifies the
    /// outcome. Every returned tuple decodes from some return buffer of the
    /// declared arity.
    pub fn call(&self, a: A, b: B, c: C, d: D, e: E, f: F, g: G, h: H, i: I, j: J, k: K) -> (r: Result<Rets, RuntimeError<Inv::Error>>)
        ensures
            r matches Ok(v) ==> exists|buf: Seq<u64>|
                buf.len() == Rets::arity_spec() && v == Rets::from_slots_spec(buf),
    {
        engine_call::<(A, B, C, D, E, F, G, H, I, J, K), Rets, Inv>((a, b, c, d, e, f, g, h, i, j, k), self.f, &self.inner, self.ctx)
    }
}

impl<A: WasmExternType, B: WasmExternType, C: WasmExternType, D: WasmExternType, E: WasmExternType, F: WasmExternType, G: WasmExternType, H: WasmExternType, I: WasmExternType, J: WasmExternType, K: WasmExternType, L: WasmExternType, Rets: WasmTypeList, Inv: Invoke> Func<(A, B, C, D, E, F, G, H, I, J, K, L), Rets, Wasm<Inv>> {
    /// Calls the Wasm function with these arguments: packs them into the
    /// engine's slot layout, runs the invoke entry point, and classifies the
    /// outcome. Every returned tuple decodes from some return buffer of the
    /// declared arity.
    pub fn call(&self, a: A, b: B, c: C, d: D, e: E, f: F, g: G, h: H, i: I, j: J, k: K, l: L) -> (r: Result<Rets, RuntimeError<Inv::Error>>)
        ensures
            r matches Ok(v) ==> exists|buf: Seq<u64>|
                buf.len() == Rets::arity_spec() && v == Rets::from_slots_spec(buf),
    {
        engine_call::<(A, B, C, D, E, F, G, H, I, J, K, L), Rets, Inv>((a, b, c, d, e, f, g, h, i, j, k, l), self.f, &self.inner, self.ctx)
    }
}

} // verus!
