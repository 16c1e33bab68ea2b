use typed_func::{F32Bits, F64Bits, Type, WasmExternType, WasmTrapInfo};
use typed_func::list::{zero_slots, WasmTypeList};

#[test]
fn test_types_per_arity() {
    let t0 = <() as WasmTypeList>::types();
    assert_eq!(t0.len(), 0);

    let t1 = <(i32,) as WasmTypeList>::types();
    assert_eq!(t1.len(), 1);
    assert_eq!(t1[0], Type::I32);

    let t2 = <(i64, F32Bits) as WasmTypeList>::types();
    assert_eq!(t2.len(), 2);
    assert_eq!(t2[0], Type::I64);
    assert_eq!(t2[1], Type::F32);

    let t4 = <(i32, i64, F32Bits, F64Bits) as WasmTypeList>::types();
    assert_eq!(t4.len(), 4);
    assert_eq!(t4, vec![Type::I32, Type::I64, Type::F32, Type::F64]);

    let t12 = <(
        i32,
        i64,
        F32Bits,
        F64Bits,
        i32,
        i64,
        F32Bits,
        F64Bits,
        i32,
        i64,
        F32Bits,
        F64Bits,
    ) as WasmTypeList>::types();
    assert_eq!(t12.len(), 12);
    for k in 0..3 {
        assert_eq!(t12[4 * k], Type::I32);
        assert_eq!(t12[4 * k + 1], Type::I64);
        assert_eq!(t12[4 * k + 2], Type::F32);
        assert_eq!(t12[4 * k + 3], Type::F64);
    }
}

#[test]
fn test_i32_codec_zero_extends() {
    assert_eq!(7i32.to_binary(), 7u64);
    assert_eq!((-1i32).to_binary(), 0xFFFF_FFFFu64);
    assert_eq!(i32::from_binary(0xFFFF_FFFFu64), -1i32);
    assert_eq!(i32::from_binary((-5i32).to_binary()), -5i32);
    assert_eq!(<i32 as WasmExternType>::value_type(), Type::I32);
}

#[test]
fn test_i64_codec_round_trip() {
    assert_eq!((-1i64).to_binary(), u64::MAX);
    assert_eq!(i64::from_binary((i64::MIN).to_binary()), i64::MIN);
    assert_eq!(i64::from_binary((i64::MAX).to_binary()), i64::MAX);
    assert_eq!(<i64 as WasmExternType>::value_type(), Type::I64);
}

#[test]
fn test_f32_bits_exact_including_nan_payloads() {
    let patterns: [u32; 6] = [
        0x0000_0000,             // +0.0
        0x8000_0000,             // -0.0
        0x7FC0_1234,             // quiet NaN with payload
        0x7F80_0001,             // signalling NaN with payload
        0xFF80_0000,             // -inf
        (1.5f32).to_bits(),
    ];
    for bits in patterns {
        let x = f32::from_bits(bits);
        let v = F32Bits { bits: x.to_bits() };
        let decoded = F32Bits::from_binary(v.to_binary());
        assert_eq!(decoded.bits, x.to_bits());
    }
    assert_eq!(<F32Bits as WasmExternType>::value_type(), Type::F32);
}

#[test]
fn test_f64_bits_exact_including_nan_payloads() {
    let patterns: [u64; 5] = [
        0x0000_0000_0000_0000,
        0x8000_0000_0000_0000,
        0x7FF8_0000_0000_BEEF, // quiet NaN with payload
        0x7FF0_0000_0000_0001, // signalling NaN with payload
        (-2.25f64).to_bits(),
    ];
    for bits in patterns {
        let x = f64::from_bits(bits);
        let v = F64Bits { bits: x.to_bits() };
        let decoded = F64Bits::from_binary(v.to_binary());
        assert_eq!(decoded.bits, x.to_bits());
    }
    assert_eq!(<F64Bits as WasmExternType>::value_type(), Type::F64);
}

#[test]
fn test_c_struct_round_trip() {
    let t = (7i32, -9i64, F32Bits { bits: 0x7FC0_0001 }, F64Bits { bits: 42 });
    let c = t.into_c_struct();
    let back = <(i32, i64, F32Bits, F64Bits) as WasmTypeList>::from_c_struct(c);
    assert_eq!(back, t);

    let one = (-3i32,).into_c_struct();
    assert_eq!(<(i32,) as WasmTypeList>::from_c_struct(one), (-3i32,));
}

#[test]
fn test_ret_array_round_trip() {
    let t = (41i32, -2i64);
    let packed = t.pack_arguments();
    assert_eq!(packed.len(), 2);
    assert_eq!(packed[0], 41u64);
    assert_eq!(packed[1], (-2i64).to_binary());
    let back = <(i32, i64) as WasmTypeList>::from_ret_array(packed);
    assert_eq!(back, t);
}

#[test]
fn test_empty_ret_array_is_zeroed() {
    let b0 = <() as WasmTypeList>::empty_ret_array();
    assert_eq!(b0.len(), 0);
    let b3 = <(i32, i32, i32) as WasmTypeList>::empty_ret_array();
    assert_eq!(b3, vec![0u64, 0u64, 0u64]);
    let z = zero_slots(5);
    assert_eq!(z, vec![0u64; 5]);
}

#[test]
fn test_trap_code_decode() {
    assert_eq!(WasmTrapInfo::from_code(0), WasmTrapInfo::Unreachable);
    assert_eq!(WasmTrapInfo::from_code(1), WasmTrapInfo::IncorrectCallIndirectSignature);
    assert_eq!(WasmTrapInfo::from_code(2), WasmTrapInfo::MemoryOutOfBounds);
    assert_eq!(WasmTrapInfo::from_code(3), WasmTrapInfo::CallIndirectOOB);
    assert_eq!(WasmTrapInfo::from_code(4), WasmTrapInfo::IllegalArithmetic);
    assert_eq!(WasmTrapInfo::from_code(5), WasmTrapInfo::MisalignedAtomicAccess);
    assert_eq!(WasmTrapInfo::from_code(6), WasmTrapInfo::Unknown);
    assert_eq!(WasmTrapInfo::from_code(99), WasmTrapInfo::Unknown);
    assert_eq!(WasmTrapInfo::from_code(u64::MAX), WasmTrapInfo::Unknown);
    assert_eq!(WasmTrapInfo::from_code(WasmTrapInfo::IllegalArithmetic.code()),
        WasmTrapInfo::IllegalArithmetic);
}

#[test]
fn test_trap_messages() {
    assert_eq!(WasmTrapInfo::Unreachable.message(), "unreachable");
    assert_eq!(WasmTrapInfo::IncorrectCallIndirectSignature.message(),
        "incorrect `call_indirect` signature");
    assert_eq!(WasmTrapInfo::MemoryOutOfBounds.message(), "memory out-of-bounds access");
    assert_eq!(WasmTrapInfo::CallIndirectOOB.message(), "`call_indirect` out-of-bounds");
    assert_eq!(WasmTrapInfo::IllegalArithmetic.message(), "illegal arithmetic operation");
    assert_eq!(WasmTrapInfo::MisalignedAtomicAccess.message(), "misaligned atomic access");
    assert_eq!(WasmTrapInfo::Unknown.message(), "unknown");
}
