//! The call engine: the engine's invoke contract and the classification of
//! what an invocation came back with.

use vstd::prelude::*;

use crate::error::{RuntimeError, WasmTrapInfo};
use crate::list::WasmTypeList;
use crate::vm::{FuncPointer, InvokeEnv, Trampoline, VmCtxPtr};

verus! {

/// The engine's invoke entry point, supplied alongside every compiled Wasm
/// function.
///
/// The engine implements this contract: `invoke` runs the trampoline, catches
/// every engine-originated trap and every host unwind before returning, and
/// reports the outcome through its out-parameters. It returns `true` exactly
/// on a clean return, and then the return buffer has been filled in place, so
/// its length is unchanged. On failure it classifies the cause into `trap`,
/// or hands back a host-raised payload through `user_error`.
pub trait Invoke {
    /// The type-erased payload a host callable may raise.
    type Error;

    /// Runs `func` through `trampoline` with the packed `args`, filling
    /// `rets` on success and `trap` / `user_error` on failure.
    fn invoke(
        &self,
        trampoline: Trampoline,
        ctx: VmCtxPtr,
        func: FuncPointer,
        args: &Vec<u64>,
        rets: &mut Vec<u64>,
        trap: &mut WasmTrapInfo,
        user_error: &mut Option<Self::Error>,
        invoke_env: Option<InvokeEnv>,
    ) -> (ok: bool)
        ensures
            ok ==> final(rets)@.len() == old(rets)@.len(),
    ;
}

/// The trampoline triple of one compiled Wasm function: the signature-shaped
/// trampoline, the engine's invoke entry point, and the opaque environment
/// the invoke entry point may require.
#[derive(Clone)]
pub struct Wasm<I: Invoke> {
    /// The engine-supplied trampoline for this signature shape.
    pub trampoline: Trampoline,
    /// The engine's invoke entry point.
    pub invoke: I,
    /// The opaque environment forwarded verbatim to `invoke`.
    pub invoke_env: Option<InvokeEnv>,
}

impl<I: Invoke> Wasm<I> {
    /// Assembles the triple out of the parts the engine resolved for one
    /// compiled Wasm function.
    pub fn from_raw_parts(
        trampoline: Trampoline,
        invoke: I,
        invoke_env: Option<InvokeEnv>,
    ) -> (w: Wasm<I>)
        ensures
            w.trampoline == trampoline,
            w.invoke == invoke,
            w.invoke_env == invoke_env,
    {
        Wasm { trampoline, invoke, invoke_env }
    }
}

/// Executes one host-to-Wasm invocation: packs the arguments into a
/// contiguous slot buffer, allocates a zeroed return buffer sized to the
/// return arity, runs the engine's invoke entry point, and classifies what it
/// came back with. Every returned value decodes from some return buffer of
/// the right arity.
pub fn engine_call<Args: WasmTypeList, Rets: WasmTypeList, I: Invoke>(
    args: Args,
    f: FuncPointer,
    wasm: &Wasm<I>,
    ctx: VmCtxPtr,
) -> (r: Result<Rets, RuntimeError<I::Error>>)
    ensures
        r matches Ok(v) ==> exists|buf: Seq<u64>|
            buf.len() == Rets::arity_spec() && v == Rets::from_slots_spec(buf),
{
    let packed = args.pack_arguments();
    let mut rets = Rets::empty_ret_array();
    let mut trap = WasmTrapInfo::Unknown;
    let mut user_error: Option<I::Error> = None;
    let ok = wasm.invoke.invoke(
        wasm.trampoline,
        ctx,
        f,
        &packed,
        &mut rets,
        &mut trap,
        &mut user_error,
        wasm.invoke_env,
    );
    let ghost buf = rets@;
    let r = interpret_invoke_outcome::<Rets, I::Error>(ok, rets, trap, user_error);
    proof {
        if ok {
            assert(buf.len() == Rets::arity_spec() && Rets::from_slots_spec(buf)
                == Rets::from_slots_spec(buf));
        }
    }
    r
}

/// Classifies what an invocation came back with.
///
/// A clean return decodes the return buffer. A failure with a host-raised
/// payload is a host error, whatever the trap out-parameter holds: the host
/// callable raised something intentional, so the payload wins the tie. A
/// failure without a payload is a Wasm trap with the reported cause.
pub fn interpret_invoke_outcome<Rets: WasmTypeList, E>(
    ok: bool,
    rets: Vec<u64>,
    trap: WasmTrapInfo,
    user_error: Option<E>,
) -> (r: Result<Rets, RuntimeError<E>>)
    requires
        ok ==> rets@.len() == Rets::arity_spec(),
    ensures
        ok ==> (r matches Ok(v) && v == Rets::from_slots_spec(rets@)),
        !ok ==> (match user_error {
            Some(e) => r matches Err(re) && re == (RuntimeError::Error { data: e }),
            None => r matches Err(re) && re == (RuntimeError::<E>::Trap { info: trap }),
        }),
{
    if ok {
        Ok(Rets::from_ret_array(rets))
    } else {
        match user_error {
            Some(data) => Err(RuntimeError::Error { data }),
            None => Err(RuntimeError::Trap { info: trap }),
        }
    }
}

} // verus!
