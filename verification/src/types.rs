//! The value codec: the engine-level scalar types and the bijection between
//! each host scalar type and its 64-bit binary slot representation.

use vstd::prelude::*;

verus! {

/// An engine-level scalar value type.
#[derive(Clone, Copy, Debug, PartialEq, Eq, Structural)]
pub enum Type {
    /// 32-bit integer.
    I32,
    /// 64-bit integer.
    I64,
    /// 32-bit IEEE-754 float, carried by its bit pattern.
    F32,
    /// 64-bit IEEE-754 float, carried by its bit pattern.
    F64,
}

/// The bit pattern of a 32-bit IEEE-754 float.
///
/// The bridge never interprets float values numerically: a float crosses the
/// boundary as its raw bits, so every pattern, NaN payloads included, is
/// preserved exactly.
#[derive(Clone, Copy, Debug, PartialEq, Eq, Structural)]
pub struct F32Bits {
    /// The raw IEEE-754 bit pattern.
    pub bits: u32,
}

/// The bit pattern of a 64-bit IEEE-754 float.
#[derive(Clone, Copy, Debug, PartialEq, Eq, Structural)]
pub struct F64Bits {
    /// The raw IEEE-754 bit pattern.
    pub bits: u64,
}

/// A host scalar type that can cross the host/Wasm boundary.
///
/// Each such type has exactly one engine-level [`Type`] tag and a bijective
/// encoding into a 64-bit slot: integers keep their bit pattern (smaller ones
/// are zero-extended), floats are carried as raw bits and never numerically
/// converted.
pub trait WasmExternType: Sized + Copy {
    /// The engine-level tag of this type.
    spec fn value_type_spec() -> Type;

    /// The slot encoding of a value.
    spec fn to_binary_spec(self) -> u64;

    /// The value a slot decodes to.
    spec fn from_binary_spec(b: u64) -> Self;

    /// Returns the engine-level tag of this type.
    fn value_type() -> (t: Type)
        ensures
            t == Self::value_type_spec(),
    ;

    /// Encodes a value into a 64-bit slot.
    fn to_binary(self) -> (b: u64)
        ensures
            b == self.to_binary_spec(),
    ;

    /// Decodes a 64-bit slot back into a value.
    fn from_binary(b: u64) -> (v: Self)
        ensures
            v == Self::from_binary_spec(b),
    ;

    /// The codec is a bijection on values: decoding an encoded value gives
    /// the value back.
    proof fn lemma_codec_round_trip(v: Self)
        ensures
            Self::from_binary_spec(v.to_binary_spec()) == v,
    ;
}

impl WasmExternType for i32 {
    open spec fn value_type_spec() -> Type {
        Type::I32
    }

    open spec fn to_binary_spec(self) -> u64 {
        (self as u32) as u64
    }

    open spec fn from_binary_spec(b: u64) -> Self {
        (b as u32) as i32
    }

    fn value_type() -> Type {
        Type::I32
    }

    fn to_binary(self) -> (b: u64) {
        (#[verifier::truncate] (self as u32)) as u64
    }

    fn from_binary(b: u64) -> (v: Self) {
        (#[verifier::truncate] (b as u32)) as i32
    }

    proof fn lemma_codec_round_trip(v: Self) {
        assert((((v as u32) as u64) as u32) as i32 == v) by (bit_vector);
    }
}

impl WasmExternType for i64 {
    open spec fn value_type_spec() -> Type {
        Type::I64
    }

    open spec fn to_binary_spec(self) -> u64 {
        self as u64
    }

    open spec fn from_binary_spec(b: u64) -> Self {
        b as i64
    }

    fn value_type() -> Type {
        Type::I64
    }

    fn to_binary(self) -> (b: u64) {
        #[verifier::truncate] (self as u64)
    }

    fn from_binary(b: u64) -> (v: Self) {
        #[verifier::truncate] (b as i64)
    }

    proof fn lemma_codec_round_trip(v: Self) {
        assert(((v as u64) as i64) == v) by (bit_vector);
    }
}

impl WasmExternType for F32Bits {
    open spec fn value_type_spec() -> Type {
        Type::F32
    }

    open spec fn to_binary_spec(self) -> u64 {
        self.bits as u64
    }

    open spec fn from_binary_spec(b: u64) -> Self {
        F32Bits { bits: b as u32 }
    }

    fn value_type() -> Type {
        Type::F32
    }

    fn to_binary(self) -> (b: u64) {
        self.bits as u64
    }

    fn from_binary(b: u64) -> (v: Self) {
        F32Bits { bits: #[verifier::truncate] (b as u32) }
    }

    proof fn lemma_codec_round_trip(v: Self) {
        let b = v.bits;
        assert(((b as u64) as u32) == b) by (bit_vector);
    }
}

impl WasmExternType for F64Bits {
    open spec fn value_type_spec() -> Type {
        Type::F64
    }

    open spec fn to_binary_spec(self) -> u64 {
        self.bits
    }

    open spec fn from_binary_spec(b: u64) -> Self {
        F64Bits { bits: b }
    }

    fn value_type() -> Type {
        Type::F64
    }

    fn to_binary(self) -> (b: u64) {
        self.bits
    }

    fn from_binary(b: u64) -> (v: Self) {
        F64Bits { bits: b }
    }

    proof fn lemma_codec_round_trip(v: Self) {
    }
}

} // verus!
