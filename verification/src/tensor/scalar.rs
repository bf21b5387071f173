//! The elements of tensors and their bytes in memory.

use crate::tensor::sealed::Sealed;
use vstd::endian::{base_upper_bound_excl, EndianNat};
use vstd::layout::{layout_of_primitives, size_of, unsigned_int_max_values};
use vstd::prelude::*;

verus! {

/// The bit pattern of an IEEE 754 binary32 number.
pub type Binary32 = u32;

/// The bit pattern of an IEEE 754 binary16 number.
pub type Binary16 = u16;

/// A value that is its bits and nothing else.
pub trait Pod: Sized + Clone + Copy + Sealed {
    /// The number that the bits of this value spell.
    spec fn word(self) -> nat;

    /// A value has at least one byte.
    proof fn lemma_size()
        ensures
            size_of::<Self>() > 0,
    ;

    /// The bits of a value spell a number that its bytes can hold.
    proof fn lemma_word(self)
        ensures
            self.word() < base_upper_bound_excl::<u8>(size_of::<Self>()),
    ;

    /// Values with the same bits are the same.
    proof fn lemma_word_injective(self, other: Self)
        requires
            self.word() == other.word(),
        ensures
            self == other,
    ;
}

/// The bytes of `value` in memory, in the byte order of the machine.
pub open spec fn value_image<T: Pod>(value: T) -> Seq<u8> {
    EndianNat::<u8>::from_nat(value.word(), size_of::<T>()).digits.map_values(|d: int| d as u8)
}

/// The bytes of `data` in memory: those of one value after the other.
pub open spec fn memory_image<T: Pod>(data: Seq<T>) -> Seq<u8> {
    Seq::new(
        data.len() * size_of::<T>(),
        |i: int| value_image(data[i / (size_of::<T>() as int)])[i % (size_of::<T>() as int)],
    )
}

/// An element of a tensor.
pub trait Scalar: Pod {
    /// The number of bytes of one element.
    fn byte_size() -> (r: usize)
        ensures
            r == size_of::<Self>(),
    {
        std::mem::size_of::<Self>()
    }

    /// The bytes of `data` in memory.
    fn cast_to_bytes(data: &[Self]) -> (r: Vec<u8>)
        ensures
            r@ == memory_image(data@),
    ;

    /// The elements whose bytes in memory are `bytes`.
    fn cast_from_bytes(bytes: &[u8]) -> (r: Vec<Self>)
        requires
            bytes@.len() % size_of::<Self>() == 0,
        ensures
            memory_image(r@) == bytes@,
            r@.len() * size_of::<Self>() == bytes@.len(),
    ;
}

/// Calls [`bytemuck::cast_slice`] and copies what it gives. Trusted: viewed as bytes, a slice is
/// the memory that its elements occupy. A byte is aligned anywhere, and any number of bytes is a
/// number of whole bytes, so that this cast does not fail.
#[verifier::external_body]
fn cast_slice<T: Pod + bytemuck::NoUninit>(data: &[T]) -> (r: Vec<u8>)
    ensures
        r@ == memory_image(data@),
{
    bytemuck::cast_slice::<T, u8>(data).to_vec()
}

/// Calls [`bytemuck::pod_collect_to_vec`]. Trusted: the vector that it collects has the memory
/// that it was given, where that memory is one of whole elements. (It would fill up a last element
/// that is not whole.) Unlike a cast of the slice itself it asks nothing of the alignment.
#[verifier::external_body]
fn pod_collect_to_vec<T: Pod + bytemuck::NoUninit + bytemuck::AnyBitPattern>(bytes: &[u8]) -> (r:
    Vec<T>)
    requires
        bytes@.len() % size_of::<T>() == 0,
    ensures
        memory_image(r@) == bytes@,
        r@.len() * size_of::<T>() == bytes@.len(),
{
    bytemuck::pod_collect_to_vec::<u8, T>(bytes)
}

impl Pod for u8 {
    open spec fn word(self) -> nat {
        self as nat
    }

    proof fn lemma_size() {
        broadcast use layout_of_primitives;

    }

    proof fn lemma_word(self) {
        broadcast use layout_of_primitives;

        unsigned_int_max_values();
    }

    proof fn lemma_word_injective(self, other: Self) {
    }
}

impl Scalar for u8 {
    fn cast_to_bytes(data: &[Self]) -> (r: Vec<u8>) {
        cast_slice(data)
    }

    fn cast_from_bytes(bytes: &[u8]) -> (r: Vec<Self>) {
        pod_collect_to_vec(bytes)
    }
}

impl Pod for Binary16 {
    open spec fn word(self) -> nat {
        self as nat
    }

    proof fn lemma_size() {
        broadcast use layout_of_primitives;

    }

    proof fn lemma_word(self) {
        broadcast use layout_of_primitives;

        unsigned_int_max_values();
    }

    proof fn lemma_word_injective(self, other: Self) {
    }
}

impl Scalar for Binary16 {
    fn cast_to_bytes(data: &[Self]) -> (r: Vec<u8>) {
        cast_slice(data)
    }

    fn cast_from_bytes(bytes: &[u8]) -> (r: Vec<Self>) {
        pod_collect_to_vec(bytes)
    }
}

impl Pod for Binary32 {
    open spec fn word(self) -> nat {
        self as nat
    }

    proof fn lemma_size() {
        broadcast use layout_of_primitives;

    }

    proof fn lemma_word(self) {
        broadcast use layout_of_primitives;

        unsigned_int_max_values();
    }

    proof fn lemma_word_injective(self, other: Self) {
    }
}

impl Scalar for Binary32 {
    fn cast_to_bytes(data: &[Self]) -> (r: Vec<u8>) {
        cast_slice(data)
    }

    fn cast_from_bytes(bytes: &[u8]) -> (r: Vec<Self>) {
        pod_collect_to_vec(bytes)
    }
}

/// The numbers that the bits of elements spell are the elements.
pub proof fn law_words(a: u8, b: Binary16, c: Binary32)
    ensures
        a.word() == a as nat,
        b.word() == b as nat,
        c.word() == c as nat,
{
}

/// The bytes of a value in memory, read in the byte order of the machine, spell its number.
pub proof fn law_value_bytes<T: Pod>(value: T)
    ensures
        EndianNat::<u8>::new(
            vstd::endian::endianness(),
            value_image(value).map_values(|b: u8| b as int),
        ).to_nat() == value.word(),
{
    let n = size_of::<T>();
    let x = EndianNat::<u8>::from_nat(value.word(), n);
    let y = EndianNat::<u8>::new(
        vstd::endian::endianness(),
        value_image(value).map_values(|b: u8| b as int),
    );
    value.lemma_word();
    EndianNat::<u8>::from_nat_properties(value.word(), n);
    EndianNat::<u8>::from_nat_to_nat(value.word(), n);
    assert forall|i: int| 0 <= i < n implies x.digits[i] == y.digits[i] by {
        assert(0 <= x.digits[i] < 256);
    }
    assert(x.digits =~= y.digits);
    assert(x == y);
}

/// The memory of a sequence of values is that of one value after the other: that of a sequence and
/// one value more is the memory of the sequence and behind it that of the value.
pub proof fn law_memory_push<T: Pod>(data: Seq<T>, value: T)
    ensures
        memory_image(Seq::<T>::empty()) == Seq::<u8>::empty(),
        memory_image(data.push(value)) == memory_image(data) + value_image(value),
{
    let (n, k): (int, int) = (size_of::<T>() as int, data.len() as int);
    T::lemma_size();
    law_value_image(value, value);
    assert(0 * n == 0);
    assert(memory_image(Seq::<T>::empty()) =~= Seq::<u8>::empty());
    let (left, right) = (memory_image(data.push(value)), memory_image(data) + value_image(value));
    assert((k + 1) * n == k * n + n) by (nonlinear_arith);
    assert(left.len() == right.len());
    assert forall|i: int| 0 <= i < left.len() implies left[i] == right[i] by {
        if i < k * n {
            assert(0 <= i / n < k) by (nonlinear_arith)
                requires
                    0 <= i < k * n,
                    n > 0,
            ;
            assert(data.push(value)[i / n] == data[i / n]);
        } else {
            vstd::arithmetic::div_mod::lemma_fundamental_div_mod_converse(i, n, k, i - k * n);
        }
    }
    assert(left =~= right);
}

/// Elements that are cast to bytes and cast back are what they were.
pub proof fn law_cast_round_trip<T: Scalar>(data: &[T], bytes: Vec<u8>, slice: &[u8], back: Vec<T>)
    requires
        call_ensures(T::cast_to_bytes, (data,), bytes),
        slice@ == bytes@,
        call_ensures(T::cast_from_bytes, (slice,), back),
    ensures
        bytes@.len() == data@.len() * size_of::<T>(),
        back@ == data@,
{
    law_memory_image(data@, data@);
    law_memory_image(back@, data@);
}

/// The memory of a value is as long as the value, and no two values have the same.
pub proof fn law_value_image<T: Pod>(a: T, b: T)
    ensures
        value_image(a).len() == size_of::<T>(),
        value_image(a) == value_image(b) ==> a == b,
{
    let n = size_of::<T>();
    let (x, y) = (EndianNat::<u8>::from_nat(a.word(), n), EndianNat::<u8>::from_nat(b.word(), n));
    a.lemma_word();
    b.lemma_word();
    EndianNat::<u8>::from_nat_properties(a.word(), n);
    EndianNat::<u8>::from_nat_properties(b.word(), n);
    if value_image(a) == value_image(b) {
        assert forall|i: int| 0 <= i < n implies x.digits[i] == y.digits[i] by {
            assert(value_image(a)[i] == value_image(b)[i]);
            assert(0 <= x.digits[i] < 256 && 0 <= y.digits[i] < 256);
        }
        assert(x =~= y);
        EndianNat::<u8>::from_nat_injective(a.word(), n, b.word(), n);
        a.lemma_word_injective(b);
    }
}

/// The memory of a sequence of values is as long as they are together, and no two sequences have
/// the same.
pub proof fn law_memory_image<T: Pod>(a: Seq<T>, b: Seq<T>)
    ensures
        memory_image(a).len() == a.len() * size_of::<T>(),
        memory_image(a) == memory_image(b) ==> a == b,
{
    let n = size_of::<T>() as int;
    if memory_image(a) == memory_image(b) {
        T::lemma_size();
        let (la, lb): (int, int) = (a.len() as int, b.len() as int);
        assert(memory_image(a).len() == la * n && memory_image(b).len() == lb * n);
        assert(la == lb) by (nonlinear_arith)
            requires
                la * n == lb * n,
                n > 0,
                la >= 0,
                lb >= 0,
        ;
        assert forall|k: int| 0 <= k < la implies a[k] == b[k] by {
            assert forall|j: int| 0 <= j < n implies value_image(a[k])[j] == value_image(b[k])[j] by {
                let i = k * n + j;
                assert(0 <= i < la * n) by (nonlinear_arith)
                    requires
                        0 <= k < la,
                        0 <= j < n,
                        i == k * n + j,
                ;
                vstd::arithmetic::div_mod::lemma_fundamental_div_mod_converse(i, n, k, j);
                assert(memory_image(a)[i] == value_image(a[k])[j]);
                assert(memory_image(b)[i] == value_image(b[k])[j]);
            }
            law_value_image(a[k], b[k]);
            law_value_image(b[k], a[k]);
            assert(value_image(a[k]) =~= value_image(b[k]));
        }
        assert(a =~= b);
    }
}

} // verus!
