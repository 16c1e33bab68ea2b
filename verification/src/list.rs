//! The type-list abstraction: a heterogeneous tuple of host scalar types,
//! reified as one entity that carries its arity, its element tags, its packed
//! slot layout, and its ABI-compatible aggregate form.

use vstd::prelude::*;

use crate::types::{Type, WasmExternType};

verus! {

/// A fresh zero-initialized buffer of `n` 64-bit slots.
pub fn zero_slots(n: usize) -> (r: Vec<u64>)
    ensures
        r@.len() == n as nat,
        forall|i: int| 0 <= i < r@.len() ==> r@[i] == 0,
{
    let mut v: Vec<u64> = Vec::new();
    let mut i: usize = 0;
    while i < n
        invariant
            i <= n,
            v@.len() == i as nat,
            forall|j: int| 0 <= j < v@.len() ==> v@[j] == 0,
        decreases n - i,
    {
        v.push(0);
        i = i + 1;
    }
    v
}

/// A list of WebAssembly values: a tuple of host scalar types together with
/// its complete calling-convention metadata.
///
/// The tuple shapes of arity up to twelve implement this trait; each
/// instantiation fixes the arity and the element tags statically, so both
/// sides of a call agree on the signature without any check at call time.
pub trait WasmTypeList: Sized {
    /// The ABI-compatible aggregate form of the tuple: an aggregate with one
    /// positional field per element, used as the return type of host-side
    /// entry points so the engine's calling convention returns tuples
    /// correctly.
    type CStruct;

    /// The arity of the tuple.
    spec fn arity_spec() -> nat;

    /// The engine-level tag of each element, in tuple order.
    spec fn types_spec() -> Seq<Type>;

    /// The packed slot layout: each element encoded by position.
    spec fn to_slots_spec(self) -> Seq<u64>;

    /// The tuple a slot buffer decodes to, each slot by position.
    spec fn from_slots_spec(s: Seq<u64>) -> Self;

    /// The aggregate form of a tuple.
    spec fn into_c_struct_spec(self) -> Self::CStruct;

    /// The tuple an aggregate unpacks to.
    spec fn from_c_struct_spec(c: Self::CStruct) -> Self;

    /// Returns the engine-level tags of the elements, in tuple order.
    fn types() -> (r: Vec<Type>)
        ensures
            r@ == Self::types_spec(),
    ;

    /// Generates a fresh zero-initialized buffer sized to the arity, ready to
    /// hold the returned values of a Wasm function.
    fn empty_ret_array() -> (r: Vec<u64>)
        ensures
            r@.len() == Self::arity_spec(),
            forall|i: int| 0 <= i < r@.len() ==> r@[i] == 0,
    ;

    /// Constructs the tuple out of a returned slot buffer, decoding each slot
    /// by position.
    fn from_ret_array(array: Vec<u64>) -> (r: Self)
        requires
            array@.len() == Self::arity_spec(),
        ensures
            r == Self::from_slots_spec(array@),
    ;

    /// Encodes each element by position into a contiguous slot buffer.
    fn pack_arguments(self) -> (r: Vec<u64>)
        ensures
            r@ == self.to_slots_spec(),
    ;

    /// Unpacks an aggregate into the tuple.
    fn from_c_struct(c: Self::CStruct) -> (r: Self)
        ensures
            r == Self::from_c_struct_spec(c),
    ;

    /// Packs the tuple into its aggregate form.
    fn into_c_struct(self) -> (r: Self::CStruct)
        ensures
            r == self.into_c_struct_spec(),
    ;

    /// The tag list is exactly as long as the arity.
    proof fn lemma_types_arity()
        ensures
            Self::types_spec().len() == Self::arity_spec(),
    ;

    /// The packed slot layout is exactly as long as the arity.
    proof fn lemma_slots_arity(t: Self)
        ensures
            t.to_slots_spec().len() == Self::arity_spec(),
    ;

    /// Decoding a packed slot buffer gives the tuple back.
    proof fn lemma_slots_round_trip(t: Self)
        ensures
            Self::from_slots_spec(t.to_slots_spec()) == t,
    ;

    /// Unpacking a packed aggregate gives the tuple back.
    proof fn lemma_c_struct_round_trip(t: Self)
        ensures
            Self::from_c_struct_spec(t.into_c_struct_spec()) == t,
    ;

}

/// The aggregate form of the empty tuple.
pub struct S0;

impl WasmTypeList for () {
    type CStruct = S0;

    open spec fn arity_spec() -> nat {
        0
    }

    open spec fn types_spec() -> Seq<Type> {
        Seq::empty()
    }

    open spec fn to_slots_spec(self) -> Seq<u64> {
        Seq::empty()
    }

    open spec fn from_slots_spec(s: Seq<u64>) -> Self {
        ()
    }

    open spec fn into_c_struct_spec(self) -> S0 {
        S0
    }

    open spec fn from_c_struct_spec(c: S0) -> Self {
        ()
    }

    fn types() -> (r: Vec<Type>) {
        let v: Vec<Type> = Vec::new();
        proof {
            assert(v@ =~= Self::types_spec());
        }
        v
    }

    fn empty_ret_array() -> (r: Vec<u64>) {
        zero_slots(0)
    }

    fn from_ret_array(array: Vec<u64>) -> (r: Self) {
        ()
    }

    fn pack_arguments(self) -> (r: Vec<u64>) {
        let v: Vec<u64> = Vec::new();
        proof {
            assert(v@ =~= self.to_slots_spec());
        }
        v
    }

    fn from_c_struct(c: S0) -> (r: Self) {
        ()
    }

    fn into_c_struct(self) -> (r: S0) {
        S0
    }

    proof fn lemma_types_arity() {
    }

    proof fn lemma_slots_arity(t: Self) {
    }

    proof fn lemma_slots_round_trip(t: Self) {
    }

    proof fn lemma_c_struct_round_trip(t: Self) {
    }
}

/// The aggregate form of a one-element tuple: transparent, a single field
/// with no wrapper overhead.
pub struct S1<A>(pub A);

impl<A: WasmExternType> WasmTypeList for (A,) {
    type CStruct = S1<A>;

    open spec fn arity_spec() -> nat {
        1
    }

    open spec fn types_spec() -> Seq<Type> {
        seq![A::value_type_spec()]
    }

    open spec fn to_slots_spec(self) -> Seq<u64> {
        seq![self.0.to_binary_spec()]
    }

    open spec fn from_slots_spec(s: Seq<u64>) -> Self {
        (A::from_binary_spec(s[0]),)
    }

    open spec fn into_c_struct_spec(self) -> S1<A> {
        S1(self.0)
    }

    open spec fn from_c_struct_spec(c: S1<A>) -> Self {
        (c.0,)
    }

    fn types() -> (r: Vec<Type>) {
        let mut v: Vec<Type> = Vec::new();
        v.push(A::value_type());
        proof {
            assert(v@ =~= Self::types_spec());
        }
        v
    }

    fn empty_ret_array() -> (r: Vec<u64>) {
        zero_slots(1)
    }

    fn from_ret_array(array: Vec<u64>) -> (r: Self) {
        (A::from_binary(array[0]),)
    }

    fn pack_arguments(self) -> (r: Vec<u64>) {
        let mut v: Vec<u64> = Vec::new();
        v.push(self.0.to_binary());
        proof {
            assert(v@ =~= self.to_slots_spec());
        }
        v
    }

    fn from_c_struct(c: S1<A>) -> (r: Self) {
        let S1(a) = c;
        (a,)
    }

    fn into_c_struct(self) -> (r: S1<A>) {
        let (a,) = self;
        S1(a)
    }

    proof fn lemma_types_arity() {
    }

    proof fn lemma_slots_arity(t: Self) {
    }

    proof fn lemma_slots_round_trip(t: Self) {
        A::lemma_codec_round_trip(t.0);
    }

    proof fn lemma_c_struct_round_trip(t: Self) {
    }
}

/// The aggregate form of a two-element tuple, with C layout.
pub struct S2<A, B>(pub A, pub B);

impl<A: WasmExternType, B: WasmExternType> WasmTypeList for (A, B) {
    type CStruct = S2<A, B>;

    open spec fn arity_spec() -> nat {
        2
    }

    open spec fn types_spec() -> Seq<Type> {
        seq![A::value_type_spec(), B::value_type_spec()]
    }

    open spec fn to_slots_spec(self) -> Seq<u64> {
        seq![self.0.to_binary_spec(), self.1.to_binary_spec()]
    }

    open spec fn from_slots_spec(s: Seq<u64>) -> Self {
        (A::from_binary_spec(s[0]), B::from_binary_spec(s[1]))
    }

    open spec fn into_c_struct_spec(self) -> S2<A, B> {
        S2(self.0, self.1)
    }

    open spec fn from_c_struct_spec(c: S2<A, B>) -> Self {
        (c.0, c.1)
    }

    fn types() -> (r: Vec<Type>) {
        let mut v: Vec<Type> = Vec::new();
        v.push(A::value_type());
        v.push(B::value_type());
        proof {
            assert(v@ =~= Self::types_spec());
        }
        v
    }

    fn empty_ret_array() -> (r: Vec<u64>) {
        zero_slots(2)
    }

    fn from_ret_array(array: Vec<u64>) -> (r: Self) {
        (A::from_binary(array[0]), B::from_binary(array[1]))
    }

    fn pack_arguments(self) -> (r: Vec<u64>) {
        let mut v: Vec<u64> = Vec::new();
        v.push(self.0.to_binary());
        v.push(self.1.to_binary());
        proof {
            assert(v@ =~= self.to_slots_spec());
        }
        v
    }

    fn from_c_struct(c: S2<A, B>) -> (r: Self) {
        let S2(a, b) = c;
        (a, b)
    }

    fn into_c_struct(self) -> (r: S2<A, B>) {
        let (a, b) = self;
        S2(a, b)
    }

    proof fn lemma_types_arity() {
    }

    proof fn lemma_slots_arity(t: Self) {
    }

    proof fn lemma_slots_round_trip(t: Self) {
        A::lemma_codec_round_trip(t.0);
        B::lemma_codec_round_trip(t.1);
    }

    proof fn lemma_c_struct_round_trip(t: Self) {
    }
}

/// The aggregate form of a three-element tuple, with C layout.
pub struct S3<A, B, C>(pub A, pub B, pub C);

impl<A: WasmExternType, B: WasmExternType, C: WasmExternType> WasmTypeList for (A, B, C) {
    type CStruct = S3<A, B, C>;

    open spec fn arity_spec() -> nat {
        3
    }

    open spec fn types_spec() -> Seq<Type> {
        seq![A::value_type_spec(), B::value_type_spec(), C::value_type_spec()]
    }

    open spec fn to_slots_spec(self) -> Seq<u64> {
        seq![self.0.to_binary_spec(), self.1.to_binary_spec(), self.2.to_binary_spec()]
    }

    open spec fn from_slots_spec(s: Seq<u64>) -> Self {
        (A::from_binary_spec(s[0]), B::from_binary_spec(s[1]), C::from_binary_spec(s[2]))
    }

    open spec fn into_c_struct_spec(self) -> S3<A, B, C> {
        S3(self.0, self.1, self.2)
    }

    open spec fn from_c_struct_spec(c: S3<A, B, C>) -> Self {
        (c.0, c.1, c.2)
    }

    fn types() -> (r: Vec<Type>) {
        let mut v: Vec<Type> = Vec::new();
        v.push(A::value_type());
        v.push(B::value_type());
        v.push(C::value_type());
        proof {
            assert(v@ =~= Self::types_spec());
        }
        v
    }

    fn empty_ret_array() -> (r: Vec<u64>) {
        zero_slots(3)
    }

    fn from_ret_array(array: Vec<u64>) -> (r: Self) {
        (A::from_binary(array[0]), B::from_binary(array[1]), C::from_binary(array[2]))
    }

    fn pack_arguments(self) -> (r: Vec<u64>) {
        let mut v: Vec<u64> = Vec::new();
        v.push(self.0.to_binary());
        v.push(self.1.to_binary());
        v.push(self.2.to_binary());
        proof {
            assert(v@ =~= self.to_slots_spec());
        }
        v
    }

    fn from_c_struct(c: S3<A, B, C>) -> (r: Self) {
        let S3(a, b, c) = c;
        (a, b, c)
    }

    fn into_c_struct(self) -> (r: S3<A, B, C>) {
        let (a, b, c) = self;
        S3(a, b, c)
    }

    proof fn lemma_types_arity() {
    }

    proof fn lemma_slots_arity(t: Self) {
    }

    proof fn lemma_slots_round_trip(t: Self) {
        A::lemma_codec_round_trip(t.0);
        B::lemma_codec_round_trip(t.1);
        C::lemma_codec_round_trip(t.2);
    }

    proof fn lemma_c_struct_round_trip(t: Self) {
    }
}

/// The aggregate form of a four-element tuple, with C layout.
pub struct S4<A, B, C, D>(pub A, pub B, pub C, pub D);

impl<A: WasmExternType, B: WasmExternType, C: WasmExternType, D: WasmExternType> WasmTypeList for (A, B, C, D) {
    type CStruct = S4<A, B, C, D>;

    open spec fn arity_spec() -> nat {
        4
    }

    open spec fn types_spec() -> Seq<Type> {
        seq![A::value_type_spec(), B::value_type_spec(), C::value_type_spec(), D::value_type_spec()]
    }

    open spec fn to_slots_spec(self) -> Seq<u64> {
        seq![self.0.to_binary_spec(), self.1.to_binary_spec(), self.2.to_binary_spec(), self.3.to_binary_spec()]
    }

    open spec fn from_slots_spec(s: Seq<u64>) -> Self {
        (A::from_binary_spec(s[0]), B::from_binary_spec(s[1]), C::from_binary_spec(s[2]), D::from_binary_spec(s[3]))
    }

    open spec fn into_c_struct_spec(self) -> S4<A, B, C, D> {
        S4(self.0, self.1, self.2, self.3)
    }

    open spec fn from_c_struct_spec(c: S4<A, B, C, D>) -> Self {
        (c.0, c.1, c.2, c.3)
    }

    fn types() -> (r: Vec<Type>) {
        let mut v: Vec<Type> = Vec::new();
        v.push(A::value_type());
        v.push(B::value_type());
        v.push(C::value_type());
        v.push(D::value_type());
        proof {
            assert(v@ =~= Self::types_spec());
        }
        v
    }

    fn empty_ret_array() -> (r: Vec<u64>) {
        zero_slots(4)
    }

    fn from_ret_array(array: Vec<u64>) -> (r: Self) {
        (A::from_binary(array[0]), B::from_binary(array[1]), C::from_binary(array[2]), D::from_binary(array[3]))
    }

    fn pack_arguments(self) -> (r: Vec<u64>) {
        let mut v: Vec<u64> = Vec::new();
        v.push(self.0.to_binary());
        v.push(self.1.to_binary());
        v.push(self.2.to_binary());
        v.push(self.3.to_binary());
        proof {
            assert(v@ =~= self.to_slots_spec());
        }
        v
    }

    fn from_c_struct(c: S4<A, B, C, D>) -> (r: Self) {
        let S4(a, b, c, d) = c;
        (a, b, c, d)
    }

    fn into_c_struct(self) -> (r: S4<A, B, C, D>) {
        let (a, b, c, d) = self;
        S4(a, b, c, d)
    }

    proof fn lemma_types_arity() {
    }

    proof fn lemma_slots_arity(t: Self) {
    }

    proof fn lemma_slots_round_trip(t: Self) {
        A::lemma_codec_round_trip(t.0);
        B::lemma_codec_round_trip(t.1);
        C::lemma_codec_round_trip(t.2);
        D::lemma_codec_round_trip(t.3);
    }

    proof fn lemma_c_struct_round_trip(t: Self) {
    }
}

/// The aggregate form of a five-element tuple, with C layout.
pub struct S5<A, B, C, D, E>(pub A, pub B, pub C, pub D, pub E);

impl<A: WasmExternType, B: WasmExternType, C: WasmExternType, D: WasmExternType, E: WasmExternType> WasmTypeList for (A, B, C, D, E) {
    type CStruct = S5<A, B, C, D, E>;

    open spec fn arity_spec() -> nat {
        5
    }

    open spec fn types_spec() -> Seq<Type> {
        seq![A::value_type_spec(), B::value_type_spec(), C::value_type_spec(), D::value_type_spec(), E::value_type_spec()]
    }

    open spec fn to_slots_spec(self) -> Seq<u64> {
        seq![self.0.to_binary_spec(), self.1.to_binary_spec(), self.2.to_binary_spec(), self.3.to_binary_spec(), self.4.to_binary_spec()]
    }

    open spec fn from_slots_spec(s: Seq<u64>) -> Self {
        (A::from_binary_spec(s[0]), B::from_binary_spec(s[1]), C::from_binary_spec(s[2]), D::from_binary_spec(s[3]), E::from_binary_spec(s[4]))
    }

    open spec fn into_c_struct_spec(self) -> S5<A, B, C, D, E> {
        S5(self.0, self.1, self.2, self.3, self.4)
    }

    open spec fn from_c_struct_spec(c: S5<A, B, C, D, E>) -> Self {
        (c.0, c.1, c.2, c.3, c.4)
    }

    fn types() -> (r: Vec<Type>) {
        let mut v: Vec<Type> = Vec::new();
        v.push(A::value_type());
        v.push(B::value_type());
        v.push(C::value_type());
        v.push(D::value_type());
        v.push(E::value_type());
        proof {
            assert(v@ =~= Self::types_spec());
        }
        v
    }

    fn empty_ret_array() -> (r: Vec<u64>) {
        zero_slots(5)
    }

    fn from_ret_array(array: Vec<u64>) -> (r: Self) {
        (A::from_binary(array[0]), B::from_binary(array[1]), C::from_binary(array[2]), D::from_binary(array[3]), E::from_binary(array[4]))
    }

    fn pack_arguments(self) -> (r: Vec<u64>) {
        let mut v: Vec<u64> = Vec::new();
        v.push(self.0.to_binary());
        v.push(self.1.to_binary());
        v.push(self.2.to_binary());
        v.push(self.3.to_binary());
        v.push(self.4.to_binary());
        proof {
            assert(v@ =~= self.to_slots_spec());
        }
        v
    }

    fn from_c_struct(c: S5<A, B, C, D, E>) -> (r: Self) {
        let S5(a, b, c, d, e) = c;
        (a, b, c, d, e)
    }

    fn into_c_struct(self) -> (r: S5<A, B, C, D, E>) {
        let (a, b, c, d, e) = self;
        S5(a, b, c, d, e)
    }

    proof fn lemma_types_arity() {
    }

    proof fn lemma_slots_arity(t: Self) {
    }

    proof fn lemma_slots_round_trip(t: Self) {
        A::lemma_codec_round_trip(t.0);
        B::lemma_codec_round_trip(t.1);
        C::lemma_codec_round_trip(t.2);
        D::lemma_codec_round_trip(t.3);
        E::lemma_codec_round_trip(t.4);
    }

    proof fn lemma_c_struct_round_trip(t: Self) {
    }
}

/// The aggregate form of a six-element tuple, with C layout.
pub struct S6<A, B, C, D, E, F>(pub A, pub B, pub C, pub D, pub E, pub F);

impl<A: WasmExternType, B: WasmExternType, C: WasmExternType, D: WasmExternType, E: WasmExternType, F: WasmExternType> WasmTypeList for (A, B, C, D, E, F) {
    type CStruct = S6<A, B, C, D, E, F>;

    open spec fn arity_spec() -> nat {
        6
    }

    open spec fn types_spec() -> Seq<Type> {
        seq![A::value_type_spec(), B::value_type_spec(), C::value_type_spec(), D::value_type_spec(), E::value_type_spec(), F::value_type_spec()]
    }

    open spec fn to_slots_spec(self) -> Seq<u64> {
        seq![self.0.to_binary_spec(), self.1.to_binary_spec(), self.2.to_binary_spec(), self.3.to_binary_spec(), self.4.to_binary_spec(), self.5.to_binary_spec()]
    }

    open spec fn from_slots_spec(s: Seq<u64>) -> Self {
        (A::from_binary_spec(s[0]), B::from_binary_spec(s[1]), C::from_binary_spec(s[2]), D::from_binary_spec(s[3]), E::from_binary_spec(s[4]), F::from_binary_spec(s[5]))
    }

    open spec fn into_c_struct_spec(self) -> S6<A, B, C, D, E, F> {
        S6(self.0, self.1, self.2, self.3, self.4, self.5)
    }

    open spec fn from_c_struct_spec(c: S6<A, B, C, D, E, F>) -> Self {
        (c.0, c.1, c.2, c.3, c.4, c.5)
    }

    fn types() -> (r: Vec<Type>) {
        let mut v: Vec<Type> = Vec::new();
        v.push(A::value_type());
        v.push(B::value_type());
        v.push(C::value_type());
        v.push(D::value_type());
        v.push(E::value_type());
        v.push(F::value_type());
        proof {
            assert(v@ =~= Self::types_spec());
        }
        v
    }

    fn empty_ret_array() -> (r: Vec<u64>) {
        zero_slots(6)
    }

    fn from_ret_array(array: Vec<u64>) -> (r: Self) {
        (A::from_binary(array[0]), B::from_binary(array[1]), C::from_binary(array[2]), D::from_binary(array[3]), E::from_binary(array[4]), F::from_binary(array[5]))
    }

    fn pack_arguments(self) -> (r: Vec<u64>) {
        let mut v: Vec<u64> = Vec::new();
        v.push(self.0.to_binary());
        v.push(self.1.to_binary());
        v.push(self.2.to_binary());
        v.push(self.3.to_binary());
        v.push(self.4.to_binary());
        v.push(self.5.to_binary());
        proof {
            assert(v@ =~= self.to_slots_spec());
        }
        v
    }

    fn from_c_struct(c: S6<A, B, C, D, E, F>) -> (r: Self) {
        let S6(a, b, c, d, e, f) = c;
        (a, b, c, d, e, f)
    }

    fn into_c_struct(self) -> (r: S6<A, B, C, D, E, F>) {
        let (a, b, c, d, e, f) = self;
        S6(a, b, c, d, e, f)
    }

    proof fn lemma_types_arity() {
    }

    proof fn lemma_slots_arity(t: Self) {
    }

    proof fn lemma_slots_round_trip(t: Self) {
        A::lemma_codec_round_trip(t.0);
        B::lemma_codec_round_trip(t.1);
        C::lemma_codec_round_trip(t.2);
        D::lemma_codec_round_trip(t.3);
        E::lemma_codec_round_trip(t.4);
        F::lemma_codec_round_trip(t.5);
    }

    proof fn lemma_c_struct_round_trip(t: Self) {
    }
}

/// The aggregate form of a seven-element tuple, with C layout.
pub struct S7<A, B, C, D, E, F, G>(pub A, pub B, pub C, pub D, pub E, pub F, pub G);

impl<A: WasmExternType, B: WasmExternType, C: WasmExternType, D: WasmExternType, E: WasmExternType, F: WasmExternType, G: WasmExternType> WasmTypeList for (A, B, C, D, E, F, G) {
    type CStruct = S7<A, B, C, D, E, F, G>;

    open spec fn arity_spec() -> nat {
        7
    }

    open spec fn types_spec() -> Seq<Type> {
        seq![A::value_type_spec(), B::value_type_spec(), C::value_type_spec(), D::value_type_spec(), E::value_type_spec(), F::value_type_spec(), G::value_type_spec()]
    }

    open spec fn to_slots_spec(self) -> Seq<u64> {
        seq![self.0.to_binary_spec(), self.1.to_binary_spec(), self.2.to_binary_spec(), self.3.to_binary_spec(), self.4.to_binary_spec(), self.5.to_binary_spec(), self.6.to_binary_spec()]
    }

    open spec fn from_slots_spec(s: Seq<u64>) -> Self {
        (A::from_binary_spec(s[0]), B::from_binary_spec(s[1]), C::from_binary_spec(s[2]), D::from_binary_spec(s[3]), E::from_binary_spec(s[4]), F::from_binary_spec(s[5]), G::from_binary_spec(s[6]))
    }

    open spec fn into_c_struct_spec(self) -> S7<A, B, C, D, E, F, G> {
        S7(self.0, self.1, self.2, self.3, self.4, self.5, self.6)
    }

    open spec fn from_c_struct_spec(c: S7<A, B, C, D, E, F, G>) -> Self {
        (c.0, c.1, c.2, c.3, c.4, c.5, c.6)
    }

    fn types() -> (r: Vec<Type>) {
        let mut v: Vec<Type> = Vec::new();
        v.push(A::value_type());
        v.push(B::value_type());
        v.push(C::value_type());
        v.push(D::value_type());
        v.push(E::value_type());
        v.push(F::value_type());
        v.push(G::value_type());
        proof {
            assert(v@ =~= Self::types_spec());
        }
        v
    }

    fn empty_ret_array() -> (r: Vec<u64>) {
        zero_slots(7)
    }

    fn from_ret_array(array: Vec<u64>) -> (r: Self) {
        (A::from_binary(array[0]), B::from_binary(array[1]), C::from_binary(array[2]), D::from_binary(array[3]), E::from_binary(array[4]), F::from_binary(array[5]), G::from_binary(array[6]))
    }

    fn pack_arguments(self) -> (r: Vec<u64>) {
        let mut v: Vec<u64> = Vec::new();
        v.push(self.0.to_binary());
        v.push(self.1.to_binary());
        v.push(self.2.to_binary());
        v.push(self.3.to_binary());
        v.push(self.4.to_binary());
        v.push(self.5.to_binary());
        v.push(self.6.to_binary());
        proof {
            assert(v@ =~= self.to_slots_spec());
        }
        v
    }

    fn from_c_struct(c: S7<A, B, C, D, E, F, G>) -> (r: Self) {
        let S7(a, b, c, d, e, f, g) = c;
        (a, b, c, d, e, f, g)
    }

    fn into_c_struct(self) -> (r: S7<A, B, C, D, E, F, G>) {
        let (a, b, c, d, e, f, g) = self;
        S7(a, b, c, d, e, f, g)
    }

    proof fn lemma_types_arity() {
    }

    proof fn lemma_slots_arity(t: Self) {
    }

    proof fn lemma_slots_round_trip(t: Self) {
        A::lemma_codec_round_trip(t.0);
        B::lemma_codec_round_trip(t.1);
        C::lemma_codec_round_trip(t.2);
        D::lemma_codec_round_trip(t.3);
        E::lemma_codec_round_trip(t.4);
        F::lemma_codec_round_trip(t.5);
        G::lemma_codec_round_trip(t.6);
    }

    proof fn lemma_c_struct_round_trip(t: Self) {
    }
}

/// The aggregate form of a eight-element tuple, with C layout.
pub struct S8<A, B, C, D, E, F, G, H>(pub A, pub B, pub C, pub D, pub E, pub F, pub G, pub H);

impl<A: WasmExternType, B: WasmExternType, C: WasmExternType, D: WasmExternType, E: WasmExternType, F: WasmExternType, G: WasmExternType, H: WasmExternType> WasmTypeList for (A, B, C, D, E, F, G, H) {
    type CStruct = S8<A, B, C, D, E, F, G, H>;

    open spec fn arity_spec() -> nat {
        8
    }

    open spec fn types_spec() -> Seq<Type> {
        seq![A::value_type_spec(), B::value_type_spec(), C::value_type_spec(), D::value_type_spec(), E::value_type_spec(), F::value_type_spec(), G::value_type_spec(), H::value_type_spec()]
    }

    open spec fn to_slots_spec(self) -> Seq<u64> {
        seq![self.0.to_binary_spec(), self.1.to_binary_spec(), self.2.to_binary_spec(), self.3.to_binary_spec(), self.4.to_binary_spec(), self.5.to_binary_spec(), self.6.to_binary_spec(), self.7.to_binary_spec()]
    }

    open spec fn from_slots_spec(s: Seq<u64>) -> Self {
        (A::from_binary_spec(s[0]), B::from_binary_spec(s[1]), C::from_binary_spec(s[2]), D::from_binary_spec(s[3]), E::from_binary_spec(s[4]), F::from_binary_spec(s[5]), G::from_binary_spec(s[6]), H::from_binary_spec(s[7]))
    }

    open spec fn into_c_struct_spec(self) -> S8<A, B, C, D, E, F, G, H> {
        S8(self.0, self.1, self.2, self.3, self.4, self.5, self.6, self.7)
    }

    open spec fn from_c_struct_spec(c: S8<A, B, C, D, E, F, G, H>) -> Self {
        (c.0, c.1, c.2, c.3, c.4, c.5, c.6, c.7)
    }

    fn types() -> (r: Vec<Type>) {
        let mut v: Vec<Type> = Vec::new();
        v.push(A::value_type());
        v.push(B::value_type());
        v.push(C::value_type());
        v.push(D::value_type());
        v.push(E::value_type());
        v.push(F::value_type());
        v.push(G::value_type());
        v.push(H::value_type());
        proof {
            assert(v@ =~= Self::types_spec());
        }
        v
    }

    fn empty_ret_array() -> (r: Vec<u64>) {
        zero_slots(8)
    }

    fn from_ret_array(array: Vec<u64>) -> (r: Self) {
        (A::from_binary(array[0]), B::from_binary(array[1]), C::from_binary(array[2]), D::from_binary(array[3]), E::from_binary(array[4]), F::from_binary(array[5]), G::from_binary(array[6]), H::from_binary(array[7]))
    }

    fn pack_arguments(self) -> (r: Vec<u64>) {
        let mut v: Vec<u64> = Vec::new();
        v.push(self.0.to_binary());
        v.push(self.1.to_binary());
        v.push(self.2.to_binary());
        v.push(self.3.to_binary());
        v.push(self.4.to_binary());
        v.push(self.5.to_binary());
        v.push(self.6.to_binary());
        v.push(self.7.to_binary());
        proof {
            assert(v@ =~= self.to_slots_spec());
        }
        v
    }

    fn from_c_struct(c: S8<A, B, C, D, E, F, G, H>) -> (r: Self) {
        let S8(a, b, c, d, e, f, g, h) = c;
        (a, b, c, d, e, f, g, h)
    }

    fn into_c_struct(self) -> (r: S8<A, B, C, D, E, F, G, H>) {
        let (a, b, c, d, e, f, g, h) = self;
        S8(a, b, c, d, e, f, g, h)
    }

    proof fn lemma_types_arity() {
    }

    proof fn lemma_slots_arity(t: Self) {
    }

    proof fn lemma_slots_round_trip(t: Self) {
        A::lemma_codec_round_trip(t.0);
        B::lemma_codec_round_trip(t.1);
        C::lemma_codec_round_trip(t.2);
        D::lemma_codec_round_trip(t.3);
        E::lemma_codec_round_trip(t.4);
        F::lemma_codec_round_trip(t.5);
        G::lemma_codec_round_trip(t.6);
        H::lemma_codec_round_trip(t.7);
    }

    proof fn lemma_c_struct_round_trip(t: Self) {
    }
}

/// The aggregate form of a nine-element tuple, with C layout.
pub struct S9<A, B, C, D, E, F, G, H, I>(pub A, pub B, pub C, pub D, pub E, pub F, pub G, pub H, pub I);

impl<A: WasmExternType, B: WasmExternType, C: WasmExternType, D: WasmExternType, E: WasmExternType, F: WasmExternType, G: WasmExternType, H: WasmExternType, I: WasmExternType> WasmTypeList for (A, B, C, D, E, F, G, H, I) {
    type CStruct = S9<A, B, C, D, E, F, G, H, I>;

    open spec fn arity_spec() -> nat {
        9
    }

    open spec fn types_spec() -> Seq<Type> {
        seq![A::value_type_spec(), B::value_type_spec(), C::value_type_spec(), D::value_type_spec(), E::value_type_spec(), F::value_type_spec(), G::value_type_spec(), H::value_type_spec(), I::value_type_spec()]
    }

    open spec fn to_slots_spec(self) -> Seq<u64> {
        seq![self.0.to_binary_spec(), self.1.to_binary_spec(), self.2.to_binary_spec(), self.3.to_binary_spec(), self.4.to_binary_spec(), self.5.to_binary_spec(), self.6.to_binary_spec(), self.7.to_binary_spec(), self.8.to_binary_spec()]
    }

    open spec fn from_slots_spec(s: Seq<u64>) -> Self {
        (A::from_binary_spec(s[0]), B::from_binary_spec(s[1]), C::from_binary_spec(s[2]), D::from_binary_spec(s[3]), E::from_binary_spec(s[4]), F::from_binary_spec(s[5]), G::from_binary_spec(s[6]), H::from_binary_spec(s[7]), I::from_binary_spec(s[8]))
    }

    open spec fn into_c_struct_spec(self) -> S9<A, B, C, D, E, F, G, H, I> {
        S9(self.0, self.1, self.2, self.3, self.4, self.5, self.6, self.7, self.8)
    }

    open spec fn from_c_struct_spec(c: S9<A, B, C, D, E, F, G, H, I>) -> Self {
        (c.0, c.1, c.2, c.3, c.4, c.5, c.6, c.7, c.8)
    }

    fn types() -> (r: Vec<Type>) {
        let mut v: Vec<Type> = Vec::new();
        v.push(A::value_type());
        v.push(B::value_type());
        v.push(C::value_type());
        v.push(D::value_type());
        v.push(E::value_type());
        v.push(F::value_type());
        v.push(G::value_type());
        v.push(H::value_type());
        v.push(I::value_type());
        proof {
            assert(v@ =~= Self::types_spec());
        }
        v
    }

    fn empty_ret_array() -> (r: Vec<u64>) {
        zero_slots(9)
    }

    fn from_ret_array(array: Vec<u64>) -> (r: Self) {
        (A::from_binary(array[0]), B::from_binary(array[1]), C::from_binary(array[2]), D::from_binary(array[3]), E::from_binary(array[4]), F::from_binary(array[5]), G::from_binary(array[6]), H::from_binary(array[7]), I::from_binary(array[8]))
    }

    fn pack_arguments(self) -> (r: Vec<u64>) {
        let mut v: Vec<u64> = Vec::new();
        v.push(self.0.to_binary());
        v.push(self.1.to_binary());
        v.push(self.2.to_binary());
        v.push(self.3.to_binary());
        v.push(self.4.to_binary());
        v.push(self.5.to_binary());
        v.push(self.6.to_binary());
        v.push(self.7.to_binary());
        v.push(self.8.to_binary());
        proof {
            assert(v@ =~= self.to_slots_spec());
        }
        v
    }

    fn from_c_struct(c: S9<A, B, C, D, E, F, G, H, I>) -> (r: Self) {
        let S9(a, b, c, d, e, f, g, h, i) = c;
        (a, b, c, d, e, f, g, h, i)
    }

    fn into_c_struct(self) -> (r: S9<A, B, C, D, E, F, G, H, I>) {
        let (a, b, c, d, e, f, g, h, i) = self;
        S9(a, b, c, d, e, f, g, h, i)
    }

    proof fn lemma_types_arity() {
    }

    proof fn lemma_slots_arity(t: Self) {
    }

    proof fn lemma_slots_round_trip(t: Self) {
        A::lemma_codec_round_trip(t.0);
        B::lemma_codec_round_trip(t.1);
        C::lemma_codec_round_trip(t.2);
        D::lemma_codec_round_trip(t.3);
        E::lemma_codec_round_trip(t.4);
        F::lemma_codec_round_trip(t.5);
        G::lemma_codec_round_trip(t.6);
        H::lemma_codec_round_trip(t.7);
        I::lemma_codec_round_trip(t.8);
    }

    proof fn lemma_c_struct_round_trip(t: Self) {
    }
}

/// The aggregate form of a ten-element tuple, with C layout.
pub struct S10<A, B, C, D, E, F, G, H, I, J>(pub A, pub B, pub C, pub D, pub E, pub F, pub G, pub H, pub I, pub J);

impl<A: WasmExternType, B: WasmExternType, C: WasmExternType, D: WasmExternType, E: WasmExternType, F: WasmExternType, G: WasmExternType, H: WasmExternType, I: WasmExternType, J: WasmExternType> WasmTypeList for (A, B, C, D, E, F, G, H, I, J) {
    type CStruct = S10<A, B, C, D, E, F, G, H, I, J>;

    open spec fn arity_spec() -> nat {
        10
    }

    open spec fn types_spec() -> Seq<Type> {
        seq![A::value_type_spec(), B::value_type_spec(), C::value_type_spec(), D::value_type_spec(), E::value_type_spec(), F::value_type_spec(), G::value_type_spec(), H::value_type_spec(), I::value_type_spec(), J::value_type_spec()]
    }

    open spec fn to_slots_spec(self) -> Seq<u64> {
        seq![self.0.to_binary_spec(), self.1.to_binary_spec(), self.2.to_binary_spec(), self.3.to_binary_spec(), self.4.to_binary_spec(), self.5.to_binary_spec(), self.6.to_binary_spec(), self.7.to_binary_spec(), self.8.to_binary_spec(), self.9.to_binary_spec()]
    }

    open spec fn from_slots_spec(s: Seq<u64>) -> Self {
        (A::from_binary_spec(s[0]), B::from_binary_spec(s[1]), C::from_binary_spec(s[2]), D::from_binary_spec(s[3]), E::from_binary_spec(s[4]), F::from_binary_spec(s[5]), G::from_binary_spec(s[6]), H::from_binary_spec(s[7]), I::from_binary_spec(s[8]), J::from_binary_spec(s[9]))
    }

    open spec fn into_c_struct_spec(self) -> S10<A, B, C, D, E, F, G, H, I, J> {
        S10(self.0, self.1, self.2, self.3, self.4, self.5, self.6, self.7, self.8, self.9)
    }

    open spec fn from_c_struct_spec(c: S10<A, B, C, D, E, F, G, H, I, J>) -> Self {
        (c.0, c.1, c.2, c.3, c.4, c.5, c.6, c.7, c.8, c.9)
    }

    fn types() -> (r: Vec<Type>) {
        let mut v: Vec<Type> = Vec::new();
        v.push(A::value_type());
        v.push(B::value_type());
        v.push(C::value_type());
        v.push(D::value_type());
        v.push(E::value_type());
        v.push(F::value_type());
        v.push(G::value_type());
        v.push(H::value_type());
        v.push(I::value_type());
        v.push(J::value_type());
        proof {
            assert(v@ =~= Self::types_spec());
        }
        v
    }

    fn empty_ret_array() -> (r: Vec<u64>) {
        zero_slots(10)
    }

    fn from_ret_array(array: Vec<u64>) -> (r: Self) {
        (A::from_binary(array[0]), B::from_binary(array[1]), C::from_binary(array[2]), D::from_binary(array[3]), E::from_binary(array[4]), F::from_binary(array[5]), G::from_binary(array[6]), H::from_binary(array[7]), I::from_binary(array[8]), J::from_binary(array[9]))
    }

    fn pack_arguments(self) -> (r: Vec<u64>) {
        let mut v: Vec<u64> = Vec::new();
        v.push(self.0.to_binary());
        v.push(self.1.to_binary());
        v.push(self.2.to_binary());
        v.push(self.3.to_binary());
        v.push(self.4.to_binary());
        v.push(self.5.to_binary());
        v.push(self.6.to_binary());
        v.push(self.7.to_binary());
        v.push(self.8.to_binary());
        v.push(self.9.to_binary());
        proof {
            assert(v@ =~= self.to_slots_spec());
        }
        v
    }

    fn from_c_struct(c: S10<A, B, C, D, E, F, G, H, I, J>) -> (r: Self) {
        let S10(a, b, c, d, e, f, g, h, i, j) = c;
        (a, b, c, d, e, f, g, h, i, j)
    }

    fn into_c_struct(self) -> (r: S10<A, B, C, D, E, F, G, H, I, J>) {
        let (a, b, c, d, e, f, g, h, i, j) = self;
        S10(a, b, c, d, e, f, g, h, i, j)
    }

    proof fn lemma_types_arity() {
    }

    proof fn lemma_slots_arity(t: Self) {
    }

    proof fn lemma_slots_round_trip(t: Self) {
        A::lemma_codec_round_trip(t.0);
        B::lemma_codec_round_trip(t.1);
        C::lemma_codec_round_trip(t.2);
        D::lemma_codec_round_trip(t.3);
        E::lemma_codec_round_trip(t.4);
        F::lemma_codec_round_trip(t.5);
        G::lemma_codec_round_trip(t.6);
        H::lemma_codec_round_trip(t.7);
        I::lemma_codec_round_trip(t.8);
        J::lemma_codec_round_trip(t.9);
    }

    proof fn lemma_c_struct_round_trip(t: Self) {
    }
}

/// The aggregate form of a eleven-element tuple, with C layout.
pub struct S11<A, B, C, D, E, F, G, H, I, J, K>(pub A, pub B, pub C, pub D, pub E, pub F, pub G, pub H, pub I, pub J, pub K);

impl<A: WasmExternType, B: WasmExternType, C: WasmExternType, D: WasmExternType, E: WasmExternType, F: WasmExternType, G: WasmExternType, H: WasmExternType, I: WasmExternType, J: WasmExternType, K: WasmExternType> WasmTypeList for (A, B, C, D, E, F, G, H, I, J, K) {
    type CStruct = S11<A, B, C, D, E, F, G, H, I, J, K>;

    open spec fn arity_spec() -> nat {
        11
    }

    open spec fn types_spec() -> Seq<Type> {
        seq![A::value_type_spec(), B::value_type_spec(), C::value_type_spec(), D::value_type_spec(), E::value_type_spec(), F::value_type_spec(), G::value_type_spec(), H::value_type_spec(), I::value_type_spec(), J::value_type_spec(), K::value_type_spec()]
    }

    open spec fn to_slots_spec(self) -> Seq<u64> {
        seq![self.0.to_binary_spec(), self.1.to_binary_spec(), self.2.to_binary_spec(), self.3.to_binary_spec(), self.4.to_binary_spec(), self.5.to_binary_spec(), self.6.to_binary_spec(), self.7.to_binary_spec(), self.8.to_binary_spec(), self.9.to_binary_spec(), self.10.to_binary_spec()]
    }

    open spec fn from_slots_spec(s: Seq<u64>) -> Self {
        (A::from_binary_spec(s[0]), B::from_binary_spec(s[1]), C::from_binary_spec(s[2]), D::from_binary_spec(s[3]), E::from_binary_spec(s[4]), F::from_binary_spec(s[5]), G::from_binary_spec(s[6]), H::from_binary_spec(s[7]), I::from_binary_spec(s[8]), J::from_binary_spec(s[9]), K::from_binary_spec(s[10]))
    }

    open spec fn into_c_struct_spec(self) -> S11<A, B, C, D, E, F, G, H, I, J, K> {
        S11(self.0, self.1, self.2, self.3, self.4, self.5, self.6, self.7, self.8, self.9, self.10)
    }

    open spec fn from_c_struct_spec(c: S11<A, B, C, D, E, F, G, H, I, J, K>) -> Self {
        (c.0, c.1, c.2, c.3, c.4, c.5, c.6, c.7, c.8, c.9, c.10)
    }

    fn types() -> (r: Vec<Type>) {
        let mut v: Vec<Type> = Vec::new();
        v.push(A::value_type());
        v.push(B::value_type());
        v.push(C::value_type());
        v.push(D::value_type());
        v.push(E::value_type());
        v.push(F::value_type());
        v.push(G::value_type());
        v.push(H::value_type());
        v.push(I::value_type());
        v.push(J::value_type());
        v.push(K::value_type());
        proof {
            assert(v@ =~= Self::types_spec());
        }
        v
    }

    fn empty_ret_array() -> (r: Vec<u64>) {
        zero_slots(11)
    }

    fn from_ret_array(array: Vec<u64>) -> (r: Self) {
        (A::from_binary(array[0]), B::from_binary(array[1]), C::from_binary(array[2]), D::from_binary(array[3]), E::from_binary(array[4]), F::from_binary(array[5]), G::from_binary(array[6]), H::from_binary(array[7]), I::from_binary(array[8]), J::from_binary(array[9]), K::from_binary(array[10]))
    }

    fn pack_arguments(self) -> (r: Vec<u64>) {
        let mut v: Vec<u64> = Vec::new();
        v.push(self.0.to_binary());
        v.push(self.1.to_binary());
        v.push(self.2.to_binary());
        v.push(self.3.to_binary());
        v.push(self.4.to_binary());
        v.push(self.5.to_binary());
        v.push(self.6.to_binary());
        v.push(self.7.to_binary());
        v.push(self.8.to_binary());
        v.push(self.9.to_binary());
        v.push(self.10.to_binary());
        proof {
            assert(v@ =~= self.to_slots_spec());
        }
        v
    }

    fn from_c_struct(c: S11<A, B, C, D, E, F, G, H, I, J, K>) -> (r: Self) {
        let S11(a, b, c, d, e, f, g, h, i, j, k) = c;
        (a, b, c, d, e, f, g, h, i, j, k)
    }

    fn into_c_struct(self) -> (r: S11<A, B, C, D, E, F, G, H, I, J, K>) {
        let (a, b, c, d, e, f, g, h, i, j, k) = self;
        S11(a, b, c, d, e, f, g, h, i, j, k)
    }

    proof fn lemma_types_arity() {
    }

    proof fn lemma_slots_arity(t: Self) {
    }

    proof fn lemma_slots_round_trip(t: Self) {
        A::lemma_codec_round_trip(t.0);
        B::lemma_codec_round_trip(t.1);
        C::lemma_codec_round_trip(t.2);
        D::lemma_codec_round_trip(t.3);
        E::lemma_codec_round_trip(t.4);
        F::lemma_codec_round_trip(t.5);
        G::lemma_codec_round_trip(t.6);
        H::lemma_codec_round_trip(t.7);
        I::lemma_codec_round_trip(t.8);
        J::lemma_codec_round_trip(t.9);
        K::lemma_codec_round_trip(t.10);
    }

    proof fn lemma_c_struct_round_trip(t: Self) {
    }
}

/// The aggregate form of a twelve-element tuple, with C layout.
pub struct S12<A, B, C, D, E, F, G, H, I, J, K, L>(pub A, pub B, pub C, pub D, pub E, pub F, pub G, pub H, pub I, pub J, pub K, pub L);

impl<A: WasmExternType, B: WasmExternType, C: WasmExternType, D: WasmExternType, E: WasmExternType, F: WasmExternType, G: WasmExternType, H: WasmExternType, I: WasmExternType, J: WasmExternType, K: WasmExternType, L: WasmExternType> WasmTypeList for (A, B, C, D, E, F, G, H, I, J, K, L) {
    type CStruct = S12<A, B, C, D, E, F, G, H, I, J, K, L>;

    open spec fn arity_spec() -> nat {
        12
    }

    open spec fn types_spec() -> Seq<Type> {
        seq![A::value_type_spec(), B::value_type_spec(), C::value_type_spec(), D::value_type_spec(), E::value_type_spec(), F::value_type_spec(), G::value_type_spec(), H::value_type_spec(), I::value_type_spec(), J::value_type_spec(), K::value_type_spec(), L::value_type_spec()]
    }

    open spec fn to_slots_spec(self) -> Seq<u64> {
        seq![self.0.to_binary_spec(), self.1.to_binary_spec(), self.2.to_binary_spec(), self.3.to_binary_spec(), self.4.to_binary_spec(), self.5.to_binary_spec(), self.6.to_binary_spec(), self.7.to_binary_spec(), self.8.to_binary_spec(), self.9.to_binary_spec(), self.10.to_binary_spec(), self.11.to_binary_spec()]
    }

    open spec fn from_slots_spec(s: Seq<u64>) -> Self {
        (A::from_binary_spec(s[0]), B::from_binary_spec(s[1]), C::from_binary_spec(s[2]), D::from_binary_spec(s[3]), E::from_binary_spec(s[4]), F::from_binary_spec(s[5]), G::from_binary_spec(s[6]), H::from_binary_spec(s[7]), I::from_binary_spec(s[8]), J::from_binary_spec(s[9]), K::from_binary_spec(s[10]), L::from_binary_spec(s[11]))
    }

    open spec fn into_c_struct_spec(self) -> S12<A, B, C, D, E, F, G, H, I, J, K, L> {
        S12(self.0, self.1, self.2, self.3, self.4, self.5, self.6, self.7, self.8, self.9, self.10, self.11)
    }

    open spec fn from_c_struct_spec(c: S12<A, B, C, D, E, F, G, H, I, J, K, L>) -> Self {
        (c.0, c.1, c.2, c.3, c.4, c.5, c.6, c.7, c.8, c.9, c.10, c.11)
    }

    fn types() -> (r: Vec<Type>) {
        let mut v: Vec<Type> = Vec::new();
        v.push(A::value_type());
        v.push(B::value_type());
        v.push(C::value_type());
        v.push(D::value_type());
        v.push(E::value_type());
        v.push(F::value_type());
        v.push(G::value_type());
        v.push(H::value_type());
        v.push(I::value_type());
        v.push(J::value_type());
        v.push(K::value_type());
        v.push(L::value_type());
        proof {
            assert(v@ =~= Self::types_spec());
        }
        v
    }

    fn empty_ret_array() -> (r: Vec<u64>) {
        zero_slots(12)
    }

    fn from_ret_array(array: Vec<u64>) -> (r: Self) {
        (A::from_binary(array[0]), B::from_binary(array[1]), C::from_binary(array[2]), D::from_binary(array[3]), E::from_binary(array[4]), F::from_binary(array[5]), G::from_binary(array[6]), H::from_binary(array[7]), I::from_binary(array[8]), J::from_binary(array[9]), K::from_binary(array[10]), L::from_binary(array[11]))
    }

    fn pack_arguments(self) -> (r: Vec<u64>) {
        let mut v: Vec<u64> = Vec::new();
        v.push(self.0.to_binary());
        v.push(self.1.to_binary());
        v.push(self.2.to_binary());
        v.push(self.3.to_binary());
        v.push(self.4.to_binary());
        v.push(self.5.to_binary());
        v.push(self.6.to_binary());
        v.push(self.7.to_binary());
        v.push(self.8.to_binary());
        v.push(self.9.to_binary());
        v.push(self.10.to_binary());
        v.push(self.11.to_binary());
        proof {
            assert(v@ =~= self.to_slots_spec());
        }
        v
    }

    fn from_c_struct(c: S12<A, B, C, D, E, F, G, H, I, J, K, L>) -> (r: Self) {
        let S12(a, b, c, d, e, f, g, h, i, j, k, l) = c;
        (a, b, c, d, e, f, g, h, i, j, k, l)
    }

    fn into_c_struct(self) -> (r: S12<A, B, C, D, E, F, G, H, I, J, K, L>) {
        let (a, b, c, d, e, f, g, h, i, j, k, l) = self;
        S12(a, b, c, d, e, f, g, h, i, j, k, l)
    }

    proof fn lemma_types_arity() {
    }

    proof fn lemma_slots_arity(t: Self) {
    }

    proof fn lemma_slots_round_trip(t: Self) {
        A::lemma_codec_round_trip(t.0);
        B::lemma_codec_round_trip(t.1);
        C::lemma_codec_round_trip(t.2);
        D::lemma_codec_round_trip(t.3);
        E::lemma_codec_round_trip(t.4);
        F::lemma_codec_round_trip(t.5);
        G::lemma_codec_round_trip(t.6);
        H::lemma_codec_round_trip(t.7);
        I::lemma_codec_round_trip(t.8);
        J::lemma_codec_round_trip(t.9);
        K::lemma_codec_round_trip(t.10);
        L::lemma_codec_round_trip(t.11);
    }

    proof fn lemma_c_struct_round_trip(t: Self) {
    }
}

/// The tag list of the tuple shape of arity 0 is exactly as long as its
/// arity, and each entry is the tag of the element type at that position.
pub proof fn lemma_types_agree_0()
    ensures
        <() as WasmTypeList>::types_spec().len() == 0,
{
}

/// The tag list of the tuple shape of arity 1 is exactly as long as its
/// arity, and each entry is the tag of the element type at that position.
pub proof fn lemma_types_agree_1<A: WasmExternType>()
    ensures
        <(A,) as WasmTypeList>::types_spec().len() == 1,
        <(A,) as WasmTypeList>::types_spec()[0] == A::value_type_spec(),
{
}

/// The tag list of the tuple shape of arity 2 is exactly as long as its
/// arity, and each entry is the tag of the element type at that position.
pub proof fn lemma_types_agree_2<A: WasmExternType, B: WasmExternType>()
    ensures
        <(A, B) as WasmTypeList>::types_spec().len() == 2,
        <(A, B) as WasmTypeList>::types_spec()[0] == A::value_type_spec(),
        <(A, B) as WasmTypeList>::types_spec()[1] == B::value_type_spec(),
{
}

/// The tag list of the tuple shape of arity 3 is exactly as long as its
/// arity, and each entry is the tag of the element type at that position.
pub proof fn lemma_types_agree_3<A: WasmExternType, B: WasmExternType, C: WasmExternType>()
    ensures
        <(A, B, C) as WasmTypeList>::types_spec().len() == 3,
        <(A, B, C) as WasmTypeList>::types_spec()[0] == A::value_type_spec(),
        <(A, B, C) as WasmTypeList>::types_spec()[1] == B::value_type_spec(),
        <(A, B, C) as WasmTypeList>::types_spec()[2] == C::value_type_spec(),
{
}

/// The tag list of the tuple shape of arity 4 is exactly as long as its
/// arity, and each entry is the tag of the element type at that position.
pub proof fn lemma_types_agree_4<A: WasmExternType, B: WasmExternType, C: WasmExternType, D: WasmExternType>()
    ensures
        <(A, B, C, D) as WasmTypeList>::types_spec().len() == 4,
        <(A, B, C, D) as WasmTypeList>::types_spec()[0] == A::value_type_spec(),
        <(A, B, C, D) as WasmTypeList>::types_spec()[1] == B::value_type_spec(),
        <(A, B, C, D) as WasmTypeList>::types_spec()[2] == C::value_type_spec(),
        <(A, B, C, D) as WasmTypeList>::types_spec()[3] == D::value_type_spec(),
{
}

/// The tag list of the tuple shape of arity 5 is exactly as long as its
/// arity, and each entry is the tag of the element type at that position.
pub proof fn lemma_types_agree_5<A: WasmExternType, B: WasmExternType, C: WasmExternType, D: WasmExternType, E: WasmExternType>()
    ensures
        <(A, B, C, D, E) as WasmTypeList>::types_spec().len() == 5,
        <(A, B, C, D, E) as WasmTypeList>::types_spec()[0] == A::value_type_spec(),
        <(A, B, C, D, E) as WasmTypeList>::types_spec()[1] == B::value_type_spec(),
        <(A, B, C, D, E) as WasmTypeList>::types_spec()[2] == C::value_type_spec(),
        <(A, B, C, D, E) as WasmTypeList>::types_spec()[3] == D::value_type_spec(),
        <(A, B, C, D, E) as WasmTypeList>::types_spec()[4] == E::value_type_spec(),
{
}

/// The tag list of the tuple shape of arity 6 is exactly as long as its
/// arity, and each entry is the tag of the element type at that position.
pub proof fn lemma_types_agree_6<A: WasmExternType, B: WasmExternType, C: WasmExternType, D: WasmExternType, E: WasmExternType, F: WasmExternType>()
    ensures
        <(A, B, C, D, E, F) as WasmTypeList>::types_spec().len() == 6,
        <(A, B, C, D, E, F) as WasmTypeList>::types_spec()[0] == A::value_type_spec(),
        <(A, B, C, D, E, F) as WasmTypeList>::types_spec()[1] == B::value_type_spec(),
        <(A, B, C, D, E, F) as WasmTypeList>::types_spec()[2] == C::value_type_spec(),
        <(A, B, C, D, E, F) as WasmTypeList>::types_spec()[3] == D::value_type_spec(),
        <(A, B, C, D, E, F) as WasmTypeList>::types_spec()[4] == E::value_type_spec(),
        <(A, B, C, D, E, F) as WasmTypeList>::types_spec()[5] == F::value_type_spec(),
{
}

/// The tag list of the tuple shape of arity 7 is exactly as long as its
/// arity, and each entry is the tag of the element type at that position.
pub proof fn lemma_types_agree_7<A: WasmExternType, B: WasmExternType, C: WasmExternType, D: WasmExternType, E: WasmExternType, F: WasmExternType, G: WasmExternType>()
    ensures
        <(A, B, C, D, E, F, G) as WasmTypeList>::types_spec().len() == 7,
        <(A, B, C, D, E, F, G) as WasmTypeList>::types_spec()[0] == A::value_type_spec(),
        <(A, B, C, D, E, F, G) as WasmTypeList>::types_spec()[1] == B::value_type_spec(),
        <(A, B, C, D, E, F, G) as WasmTypeList>::types_spec()[2] == C::value_type_spec(),
        <(A, B, C, D, E, F, G) as WasmTypeList>::types_spec()[3] == D::value_type_spec(),
        <(A, B, C, D, E, F, G) as WasmTypeList>::types_spec()[4] == E::value_type_spec(),
        <(A, B, C, D, E, F, G) as WasmTypeList>::types_spec()[5] == F::value_type_spec(),
        <(A, B, C, D, E, F, G) as WasmTypeList>::types_spec()[6] == G::value_type_spec(),
{
}

/// The tag list of the tuple shape of arity 8 is exactly as long as its
/// arity, and each entry is the tag of the element type at that position.
pub proof fn lemma_types_agree_8<A: WasmExternType, B: WasmExternType, C: WasmExternType, D: WasmExternType, E: WasmExternType, F: WasmExternType, G: WasmExternType, H: WasmExternType>()
    ensures
        <(A, B, C, D, E, F, G, H) as WasmTypeList>::types_spec().len() == 8,
        <(A, B, C, D, E, F, G, H) as WasmTypeList>::types_spec()[0] == A::value_type_spec(),
        <(A, B, C, D, E, F, G, H) as WasmTypeList>::types_spec()[1] == B::value_type_spec(),
        <(A, B, C, D, E, F, G, H) as WasmTypeList>::types_spec()[2] == C::value_type_spec(),
        <(A, B, C, D, E, F, G, H) as WasmTypeList>::types_spec()[3] == D::value_type_spec(),
        <(A, B, C, D, E, F, G, H) as WasmTypeList>::types_spec()[4] == E::value_type_spec(),
        <(A, B, C, D, E, F, G, H) as WasmTypeList>::types_spec()[5] == F::value_type_spec(),
        <(A, B, C, D, E, F, G, H) as WasmTypeList>::types_spec()[6] == G::value_type_spec(),
        <(A, B, C, D, E, F, G, H) as WasmTypeList>::types_spec()[7] == H::value_type_spec(),
{
}

/// The tag list of the tuple shape of arity 9 is exactly as long as its
/// arity, and each entry is the tag of the element type at that position.
pub proof fn lemma_types_agree_9<A: WasmExternType, B: WasmExternType, C: WasmExternType, D: WasmExternType, E: WasmExternType, F: WasmExternType, G: WasmExternType, H: WasmExternType, I: WasmExternType>()
    ensures
        <(A, B, C, D, E, F, G, H, I) as WasmTypeList>::types_spec().len() == 9,
        <(A, B, C, D, E, F, G, H, I) as WasmTypeList>::types_spec()[0] == A::value_type_spec(),
        <(A, B, C, D, E, F, G, H, I) as WasmTypeList>::types_spec()[1] == B::value_type_spec(),
        <(A, B, C, D, E, F, G, H, I) as WasmTypeList>::types_spec()[2] == C::value_type_spec(),
        <(A, B, C, D, E, F, G, H, I) as WasmTypeList>::types_spec()[3] == D::value_type_spec(),
        <(A, B, C, D, E, F, G, H, I) as WasmTypeList>::types_spec()[4] == E::value_type_spec(),
        <(A, B, C, D, E, F, G, H, I) as WasmTypeList>::types_spec()[5] == F::value_type_spec(),
        <(A, B, C, D, E, F, G, H, I) as WasmTypeList>::types_spec()[6] == G::value_type_spec(),
        <(A, B, C, D, E, F, G, H, I) as WasmTypeList>::types_spec()[7] == H::value_type_spec(),
        <(A, B, C, D, E, F, G, H, I) as WasmTypeList>::types_spec()[8] == I::value_type_spec(),
{
}

/// The tag list of the tuple shape of arity 10 is exactly as long as its
/// arity, and each entry is the tag of the element type at that position.
pub proof fn lemma_types_agree_10<A: WasmExternType, B: WasmExternType, C: WasmExternType, D: WasmExternType, E: WasmExternType, F: WasmExternType, G: WasmExternType, H: WasmExternType, I: WasmExternType, J: WasmExternType>()
    ensures
        <(A, B, C, D, E, F, G, H, I, J) as WasmTypeList>::types_spec().len() == 10,
        <(A, B, C, D, E, F, G, H, I, J) as WasmTypeList>::types_spec()[0] == A::value_type_spec(),
        <(A, B, C, D, E, F, G, H, I, J) as WasmTypeList>::types_spec()[1] == B::value_type_spec(),
        <(A, B, C, D, E, F, G, H, I, J) as WasmTypeList>::types_spec()[2] == C::value_type_spec(),
        <(A, B, C, D, E, F, G, H, I, J) as WasmTypeList>::types_spec()[3] == D::value_type_spec(),
        <(A, B, C, D, E, F, G, H, I, J) as WasmTypeList>::types_spec()[4] == E::value_type_spec(),
        <(A, B, C, D, E, F, G, H, I, J) as WasmTypeList>::types_spec()[5] == F::value_type_spec(),
        <(A, B, C, D, E, F, G, H, I, J) as WasmTypeList>::types_spec()[6] == G::value_type_spec(),
        <(A, B, C, D, E, F, G, H, I, J) as WasmTypeList>::types_spec()[7] == H::value_type_spec(),
        <(A, B, C, D, E, F, G, H, I, J) as WasmTypeList>::types_spec()[8] == I::value_type_spec(),
        <(A, B, C, D, E, F, G, H, I, J) as WasmTypeList>::types_spec()[9] == J::value_type_spec(),
{
}

/// The tag list of the tuple shape of arity 11 is exactly as long as its
/// arity, and each entry is the tag of the element type at that position.
pub proof fn lemma_types_agree_11<A: WasmExternType, B: WasmExternType, C: WasmExternType, D: WasmExternType, E: WasmExternType, F: WasmExternType, G: WasmExternType, H: WasmExternType, I: WasmExternType, J: WasmExternType, K: WasmExternType>()
    ensures
        <(A, B, C, D, E, F, G, H, I, J, K) as WasmTypeList>::types_spec().len() == 11,
        <(A, B, C, D, E, F, G, H, I, J, K) as WasmTypeList>::types_spec()[0] == A::value_type_spec(),
        <(A, B, C, D, E, F, G, H, I, J, K) as WasmTypeList>::types_spec()[1] == B::value_type_spec(),
        <(A, B, C, D, E, F, G, H, I, J, K) as WasmTypeList>::types_spec()[2] == C::value_type_spec(),
        <(A, B, C, D, E, F, G, H, I, J, K) as WasmTypeList>::types_spec()[3] == D::value_type_spec(),
        <(A, B, C, D, E, F, G, H, I, J, K) as WasmTypeList>::types_spec()[4] == E::value_type_spec(),
        <(A, B, C, D, E, F, G, H, I, J, K) as WasmTypeList>::types_spec()[5] == F::value_type_spec(),
        <(A, B, C, D, E, F, G, H, I, J, K) as WasmTypeList>::types_spec()[6] == G::value_type_spec(),
        <(A, B, C, D, E, F, G, H, I, J, K) as WasmTypeList>::types_spec()[7] == H::value_type_spec(),
        <(A, B, C, D, E, F, G, H, I, J, K) as WasmTypeList>::types_spec()[8] == I::value_type_spec(),
        <(A, B, C, D, E, F, G, H, I, J, K) as WasmTypeList>::types_spec()[9] == J::value_type_spec(),
        <(A, B, C, D, E, F, G, H, I, J, K) as WasmTypeList>::types_spec()[10] == K::value_type_spec(),
{
}

/// The tag list of the tuple shape of arity 12 is exactly as long as its
/// arity, and each entry is the tag of the element type at that position.
pub proof fn lemma_types_agree_12<A: WasmExternType, B: WasmExternType, C: WasmExternType, D: WasmExternType, E: WasmExternType, F: WasmExternType, G: WasmExternType, H: WasmExternType, I: WasmExternType, J: WasmExternType, K: WasmExternType, L: WasmExternType>()
    ensures
        <(A, B, C, D, E, F, G, H, I, J, K, L) as WasmTypeList>::types_spec().len() == 12,
        <(A, B, C, D, E, F, G, H, I, J, K, L) as WasmTypeList>::types_spec()[0] == A::value_type_spec(),
        <(A, B, C, D, E, F, G, H, I, J, K, L) as WasmTypeList>::types_spec()[1] == B::value_type_spec(),
        <(A, B, C, D, E, F, G, H, I, J, K, L) as WasmTypeList>::types_spec()[2] == C::value_type_spec(),
        <(A, B, C, D, E, F, G, H, I, J, K, L) as WasmTypeList>::types_spec()[3] == D::value_type_spec(),
        <(A, B, C, D, E, F, G, H, I, J, K, L) as WasmTypeList>::types_spec()[4] == E::value_type_spec(),
        <(A, B, C, D, E, F, G, H, I, J, K, L) as WasmTypeList>::types_spec()[5] == F::value_type_spec(),
        <(A, B, C, D, E, F, G, H, I, J, K, L) as WasmTypeList>::types_spec()[6] == G::value_type_spec(),
        <(A, B, C, D, E, F, G, H, I, J, K, L) as WasmTypeList>::types_spec()[7] == H::value_type_spec(),
        <(A, B, C, D, E, F, G, H, I, J, K, L) as WasmTypeList>::types_spec()[8] == I::value_type_spec(),
        <(A, B, C, D, E, F, G, H, I, J, K, L) as WasmTypeList>::types_spec()[9] == J::value_type_spec(),
        <(A, B, C, D, E, F, G, H, I, J, K, L) as WasmTypeList>::types_spec()[10] == K::value_type_spec(),
        <(A, B, C, D, E, F, G, H, I, J, K, L) as WasmTypeList>::types_spec()[11] == L::value_type_spec(),
{
}

} // verus!
