use typed_func::{
    classify_host_return, Context, EntryAction, ExplicitVmCtx, Export, F32Bits, F64Bits, Func,
    FuncPointer, Host, HostCallable, ImplicitVmCtx, Invoke, InvokeEnv, RuntimeError, Trampoline,
    TrapPayload, Type, VmCtxPtr, Wasm, WasmExternType, WasmTrapInfo,
};
use typed_func::list::WasmTypeList;

fn identity_host(a: i32) -> i32 {
    a
}

fn pair_host(a: i32, b: i32) -> (i32, i32) {
    (a, b)
}

fn zero_host() -> i32 {
    0
}

fn host_callable_for<F>(f: &F, entry_addr: usize) -> HostCallable {
    HostCallable {
        state_size: std::mem::size_of_val(f),
        entry: FuncPointer { addr: entry_addr },
        raw_value: 0,
    }
}

fn wasm_handle<Args: WasmTypeList, Rets: WasmTypeList, I: Invoke>(
    invoke: I,
) -> Func<Args, Rets, Wasm<I>> {
    let triple = Wasm::from_raw_parts(Trampoline { addr: 0x7100 }, invoke, None);
    Func::from_raw_parts(triple, FuncPointer { addr: 0x7200 }, VmCtxPtr { addr: 0x7300 })
}

/// Simulates a module whose exported function forwards its one argument to an
/// imported host identity function through the generated entry point.
struct CallIdentityHostEngine;

impl Invoke for CallIdentityHostEngine {
    type Error = String;

    fn invoke(
        &self,
        _trampoline: Trampoline,
        _ctx: VmCtxPtr,
        _func: FuncPointer,
        args: &Vec<u64>,
        rets: &mut Vec<u64>,
        _trap: &mut WasmTrapInfo,
        _user_error: &mut Option<String>,
        _invoke_env: Option<InvokeEnv>,
    ) -> bool {
        let a: i32 = WasmExternType::from_binary(args[0]);
        let action = classify_host_return::<(i32,), (i32,), String>(Ok((identity_host(a),)));
        match action {
            EntryAction::Return(c) => {
                let vals = <(i32,) as WasmTypeList>::from_c_struct(c);
                rets[0] = vals.0.to_binary();
                true
            }
            EntryAction::EarlyTrap(_) => false,
        }
    }
}

/// Simulates a module whose exported function forwards two arguments to an
/// imported host function returning both of them.
struct CallPairHostEngine;

impl Invoke for CallPairHostEngine {
    type Error = String;

    fn invoke(
        &self,
        _trampoline: Trampoline,
        _ctx: VmCtxPtr,
        _func: FuncPointer,
        args: &Vec<u64>,
        rets: &mut Vec<u64>,
        _trap: &mut WasmTrapInfo,
        _user_error: &mut Option<String>,
        _invoke_env: Option<InvokeEnv>,
    ) -> bool {
        let a: i32 = WasmExternType::from_binary(args[0]);
        let b: i32 = WasmExternType::from_binary(args[1]);
        let action = classify_host_return::<(i32, i32), (i32, i32), String>(Ok(pair_host(a, b)));
        match action {
            EntryAction::Return(c) => {
                let vals = <(i32, i32) as WasmTypeList>::from_c_struct(c);
                let slots = vals.pack_arguments();
                rets[0] = slots[0];
                rets[1] = slots[1];
                true
            }
            EntryAction::EarlyTrap(_) => false,
        }
    }
}

/// Simulates a module calling an imported host function with no arguments
/// that returns zero through the transparent aggregate form.
struct CallZeroHostEngine;

impl Invoke for CallZeroHostEngine {
    type Error = String;

    fn invoke(
        &self,
        _trampoline: Trampoline,
        _ctx: VmCtxPtr,
        _func: FuncPointer,
        _args: &Vec<u64>,
        rets: &mut Vec<u64>,
        _trap: &mut WasmTrapInfo,
        _user_error: &mut Option<String>,
        _invoke_env: Option<InvokeEnv>,
    ) -> bool {
        let action = classify_host_return::<(i32,), (i32,), String>(Ok((zero_host(),)));
        match action {
            EntryAction::Return(c) => {
                let vals = <(i32,) as WasmTypeList>::from_c_struct(c);
                rets[0] = vals.0.to_binary();
                true
            }
            EntryAction::EarlyTrap(_) => false,
        }
    }
}

/// Simulates a module calling an imported host function whose result-like
/// return reports an error, which the entry point routes to the early-trap
/// hook; the engine then reports the recorded payload.
struct CallErrHostEngine;

impl Invoke for CallErrHostEngine {
    type Error = String;

    fn invoke(
        &self,
        _trampoline: Trampoline,
        _ctx: VmCtxPtr,
        _func: FuncPointer,
        _args: &Vec<u64>,
        rets: &mut Vec<u64>,
        _trap: &mut WasmTrapInfo,
        user_error: &mut Option<String>,
        _invoke_env: Option<InvokeEnv>,
    ) -> bool {
        let ret: Result<(i32,), String> = Err("boom".to_string());
        let action = classify_host_return::<(i32,), Result<(i32,), String>, String>(Ok(ret));
        match action {
            EntryAction::Return(c) => {
                let vals = <(i32,) as WasmTypeList>::from_c_struct(c);
                rets[0] = vals.0.to_binary();
                true
            }
            EntryAction::EarlyTrap(TrapPayload::Raised(e)) => {
                *user_error = Some(e);
                false
            }
            EntryAction::EarlyTrap(TrapPayload::Panicked(p)) => {
                *user_error = Some(p);
                false
            }
        }
    }
}

/// Simulates a module calling an imported host function whose invocation
/// panicked; the entry point's catch took the payload and routed it to the
/// early-trap hook, so no unwinding frame reaches the engine.
struct CallPanickingHostEngine;

impl Invoke for CallPanickingHostEngine {
    type Error = String;

    fn invoke(
        &self,
        _trampoline: Trampoline,
        _ctx: VmCtxPtr,
        _func: FuncPointer,
        _args: &Vec<u64>,
        _rets: &mut Vec<u64>,
        _trap: &mut WasmTrapInfo,
        user_error: &mut Option<String>,
        _invoke_env: Option<InvokeEnv>,
    ) -> bool {
        let caught: Result<(i32,), String> = Err("host panicked".to_string());
        let action = classify_host_return::<(i32,), (i32,), String>(caught);
        match action {
            EntryAction::Return(_) => true,
            EntryAction::EarlyTrap(TrapPayload::Raised(_)) => false,
            EntryAction::EarlyTrap(TrapPayload::Panicked(p)) => {
                *user_error = Some(p);
                false
            }
        }
    }
}

/// Simulates a failed invocation where a trap cause was recorded and the host
/// also raised a payload; the payload must win the tie.
struct BothFailuresEngine;

impl Invoke for BothFailuresEngine {
    type Error = String;

    fn invoke(
        &self,
        _trampoline: Trampoline,
        _ctx: VmCtxPtr,
        _func: FuncPointer,
        _args: &Vec<u64>,
        _rets: &mut Vec<u64>,
        trap: &mut WasmTrapInfo,
        user_error: &mut Option<String>,
        _invoke_env: Option<InvokeEnv>,
    ) -> bool {
        *trap = WasmTrapInfo::from_code(4);
        *user_error = Some("intentional".to_string());
        false
    }
}

/// Simulates a module whose called function returns its arguments unchanged.
struct EchoEngine;

impl Invoke for EchoEngine {
    type Error = String;

    fn invoke(
        &self,
        _trampoline: Trampoline,
        _ctx: VmCtxPtr,
        _func: FuncPointer,
        args: &Vec<u64>,
        rets: &mut Vec<u64>,
        _trap: &mut WasmTrapInfo,
        _user_error: &mut Option<String>,
        _invoke_env: Option<InvokeEnv>,
    ) -> bool {
        for i in 0..rets.len() {
            rets[i] = args[i];
        }
        true
    }
}

/// Simulates a module whose called function executes `unreachable`.
struct UnreachableEngine;

impl Invoke for UnreachableEngine {
    type Error = String;

    fn invoke(
        &self,
        _trampoline: Trampoline,
        _ctx: VmCtxPtr,
        _func: FuncPointer,
        _args: &Vec<u64>,
        _rets: &mut Vec<u64>,
        trap: &mut WasmTrapInfo,
        _user_error: &mut Option<String>,
        _invoke_env: Option<InvokeEnv>,
    ) -> bool {
        *trap = WasmTrapInfo::from_code(0);
        false
    }
}

#[test]
fn test_func_arity_0() {
    fn foo() -> i32 {
        0
    }

    let callable = host_callable_for(&foo, 0x2000);
    let _ = Func::<(), (i32,), Host>::new::<ExplicitVmCtx, HostCallable>(callable).unwrap();
}

#[test]
fn test_call() {
    fn foo(a: i32, b: i32) -> (i32, i32) {
        (a, b)
    }

    let callable = host_callable_for(&foo, 0x2100);
    let _f = Func::<(i32, i32), (i32, i32), Host>::new::<ExplicitVmCtx, HostCallable>(callable)
        .unwrap();
}

#[test]
fn test_func_arity_12() {
    fn with_all(
        a: i32,
        b: i32,
        c: i32,
        d: i32,
        e: i32,
        f: i32,
        g: i32,
        h: i32,
        i: i32,
        j: i32,
        k: i32,
        l: i32,
    ) -> i32 {
        a + b + c + d + e + f + g + h + i + j + k + l
    }

    let callable = host_callable_for(&with_all, 0x2050);
    let _ = Func::<
        (i32, i32, i32, i32, i32, i32, i32, i32, i32, i32, i32, i32),
        (i32,),
        Host,
    >::new::<ExplicitVmCtx, HostCallable>(callable)
        .unwrap();
}

#[test]
fn test_imports() {
    fn foo(a: i32) -> i32 {
        a
    }

    let callable = host_callable_for(&foo, 0x2200);
    let func = Func::<(i32,), (i32,), Host>::new::<ExplicitVmCtx, HostCallable>(callable).unwrap();
    let import_object = vec![("env".to_string(), "foo".to_string(), func.to_export())];
    let (namespace, name, export) = &import_object[0];
    assert_eq!(namespace, "env");
    assert_eq!(name, "foo");
    let Export::Function { func: ptr, ctx, signature } = export;
    assert_eq!(*ptr, FuncPointer { addr: 0x2200 });
    assert_eq!(*ctx, Context::Internal);
    assert_eq!(signature.params, vec![Type::I32]);
    assert_eq!(signature.results, vec![Type::I32]);
}

#[test]
fn test_identity_i32_through_bridge() {
    // A host handle built from a named zero-sized function, exposed as an
    // import for the simulated module.
    let callable = host_callable_for(&identity_host, 0x2300);
    let host = Func::<(i32,), (i32,), Host>::new::<ImplicitVmCtx, HostCallable>(callable).unwrap();
    let Export::Function { func, .. } = host.to_export();
    assert_eq!(func, FuncPointer { addr: 0x2300 });

    let f: Func<(i32,), (i32,), Wasm<CallIdentityHostEngine>> =
        wasm_handle(CallIdentityHostEngine);
    let out = f.call(42);
    assert!(matches!(out, Ok((42,))));
}

#[test]
fn test_pair_return() {
    let f: Func<(i32, i32), (i32, i32), Wasm<CallPairHostEngine>> =
        wasm_handle(CallPairHostEngine);
    let out = f.call(7, 9);
    assert!(matches!(out, Ok((7, 9))));
}

#[test]
fn test_arity_0_return() {
    let f: Func<(), (i32,), Wasm<CallZeroHostEngine>> = wasm_handle(CallZeroHostEngine);
    let out = f.call();
    assert!(matches!(out, Ok((0,))));
}

#[test]
fn test_early_trap_from_host() {
    let f: Func<(i32,), (i32,), Wasm<CallErrHostEngine>> = wasm_handle(CallErrHostEngine);
    let out = f.call(1);
    match out {
        Err(RuntimeError::Error { data }) => assert_eq!(data, "boom"),
        other => panic!("expected a host error, got {:?}", other),
    }
}

#[test]
fn test_host_panic_surfaces_as_host_error() {
    let f: Func<(i32,), (i32,), Wasm<CallPanickingHostEngine>> =
        wasm_handle(CallPanickingHostEngine);
    let out = f.call(5);
    match out {
        Err(RuntimeError::Error { data }) => assert_eq!(data, "host panicked"),
        other => panic!("expected the panic payload, got {:?}", other),
    }
}

#[test]
fn test_wasm_trap_propagation() {
    let f: Func<(), (), Wasm<UnreachableEngine>> = wasm_handle(UnreachableEngine);
    let out = f.call();
    match out {
        Err(RuntimeError::Trap { info }) => {
            assert_eq!(info, WasmTrapInfo::Unreachable);
            assert_eq!(info.message(), "unreachable");
        }
        other => panic!("expected a trap, got {:?}", other),
    }
}

#[test]
fn test_host_error_wins_over_recorded_trap() {
    let f: Func<(), (), Wasm<BothFailuresEngine>> = wasm_handle(BothFailuresEngine);
    match f.call() {
        Err(RuntimeError::Error { data }) => assert_eq!(data, "intentional"),
        other => panic!("expected the host payload to win the tie, got {:?}", other),
    }
}

#[test]
fn test_float_bits_preserved_through_call() {
    let f: Func<(F32Bits, F64Bits), (F32Bits, F64Bits), Wasm<EchoEngine>> =
        wasm_handle(EchoEngine);
    let out = f.call(F32Bits { bits: 0x7FC0_1234 }, F64Bits { bits: 0x7FF0_0000_0000_0001 });
    match out {
        Ok((a, b)) => {
            assert_eq!(a.bits, 0x7FC0_1234);
            assert_eq!(b.bits, 0x7FF0_0000_0000_0001);
        }
        other => panic!("expected an echoed return, got {:?}", other),
    }
}

#[test]
fn test_state_capturing_callable_rejected() {
    let captured: i32 = 11;
    let closure = move |a: i32| a + captured;
    let callable = host_callable_for(&closure, 0x2400);
    assert_eq!(callable.state_size, 4);
    let r = Func::<(i32,), (i32,), Host>::new::<ImplicitVmCtx, HostCallable>(callable);
    match r {
        Err(e) => assert_eq!(
            e.message(),
            "a state-capturing callable cannot be used as a Wasm-visible function."
        ),
        Ok(_) => panic!("a state-capturing callable must be rejected"),
    }
}

#[test]
fn test_pointer_sized_callable_reinterpreted() {
    let fn_ptr: fn(i32) -> i32 = identity_host;
    let callable = HostCallable {
        state_size: std::mem::size_of_val(&fn_ptr),
        entry: FuncPointer { addr: 0x2500 },
        raw_value: 0x2600,
    };
    assert_eq!(callable.state_size, 8);
    let func =
        Func::<(i32,), (i32,), Host>::new::<ImplicitVmCtx, HostCallable>(callable).unwrap();
    let Export::Function { func: ptr, .. } = func.to_export();
    // The callable's own word is taken as the code pointer, not the
    // synthesized entry point.
    assert_eq!(ptr, FuncPointer { addr: 0x2600 });
}

#[test]
fn test_params_and_results_match_declaration() {
    let f: Func<(i32, i64), (F32Bits,), Wasm<UnreachableEngine>> = wasm_handle(UnreachableEngine);
    assert_eq!(f.params(), vec![Type::I32, Type::I64]);
    assert_eq!(f.results(), vec![Type::F32]);
}
