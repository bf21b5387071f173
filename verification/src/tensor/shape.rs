//! Shapes of tensors and the order in which a tensor keeps its elements.

use crate::text::{append_decimal, decimal};
use vstd::prelude::*;

verus! {

/// The shape of a [`Tensor`](crate::tensor::Tensor).
/// Note that the fastest-moving axis occupies the lowest shape index, which is opposite to that in
/// `torch`.
#[derive(Debug, Clone, Copy, Eq, Hash)]
pub struct TensorShape([usize; 4]);

impl View for TensorShape {
    type V = Seq<usize>;

    closed spec fn view(&self) -> Seq<usize> {
        self.0@
    }
}

/// The number of elements of a tensor whose axes have the extents `axes`.
pub open spec fn volume(axes: Seq<usize>) -> nat {
    (axes[0] as nat) * (axes[1] as nat) * (axes[2] as nat) * (axes[3] as nat)
}

/// The distance between two elements of a tensor that are neighbours along `axis`.
pub open spec fn stride(axes: Seq<usize>, axis: int) -> nat
    decreases axis,
{
    if axis <= 0 {
        1
    } else {
        stride(axes, axis - 1) * (axes[axis - 1] as nat)
    }
}

/// The position at which a tensor with extents `axes` keeps the element at `indices`.
pub open spec fn position(axes: Seq<usize>, indices: Seq<usize>) -> nat {
    (indices[0] as nat) * stride(axes, 0) + (indices[1] as nat) * stride(axes, 1) + (
    indices[2] as nat) * stride(axes, 2) + (indices[3] as nat) * stride(axes, 3)
}

/// The place of `indices` among the elements of axis `axis` and of the axes above it.
pub open spec fn outer_position(axes: Seq<usize>, indices: Seq<usize>, axis: int) -> nat
    decreases 3 - axis,
{
    if axis >= 3 {
        indices[3] as nat
    } else {
        outer_position(axes, indices, axis + 1) * (axes[axis] as nat) + (indices[axis] as nat)
    }
}

/// Whether every step on the way to the position of `indices` can be counted.
pub open spec fn countable(axes: Seq<usize>, indices: Seq<usize>) -> bool {
    forall|axis: int| 0 <= axis <= 3 ==> outer_position(axes, indices, axis) <= usize::MAX
}

/// Whether `indices` names an element of a tensor with extents `axes`.
pub open spec fn in_range(axes: Seq<usize>, indices: Seq<usize>) -> bool {
    forall|i: int| 0 <= i < 4 ==> indices[i] < axes[i]
}

impl TensorShape {
    /// The number of elements of a tensor of this shape.
    pub open spec fn volume(self) -> nat {
        volume(self@)
    }

    /// The number of elements of a tensor of this shape, or `None` where that is no `usize`.
    pub fn checked_len(&self) -> (r: Option<usize>)
        ensures
            r == (if self.volume() <= usize::MAX {
                Some(self.volume() as usize)
            } else {
                None
            }),
            r is Some <==> self@[0] * self@[1] * self@[2] * self@[3] <= usize::MAX,
            r matches Some(len) ==> len == self@[0] * self@[1] * self@[2] * self@[3],
    {
        let (a, b, c, d): (usize, usize, usize, usize) = (
            self.0[0],
            self.0[1],
            self.0[2],
            self.0[3],
        );
        proof {
            lemma_volume_bounds(a as nat, b as nat, c as nat, d as nat);
        }
        if a == 0 || b == 0 || c == 0 || d == 0 {
            return Some(0);
        }
        match a.checked_mul(b) {
            Some(ab) => match ab.checked_mul(c) {
                Some(abc) => abc.checked_mul(d),
                None => None,
            },
            None => None,
        }
    }

    /// The number of elements of a tensor of this shape.
    pub fn len(&self) -> (r: usize)
        requires
            self.volume() <= usize::MAX,
        ensures
            r == self.volume(),
            r == self@[0] * self@[1] * self@[2] * self@[3],
    {
        match self.checked_len() {
            Some(len) => len,
            None => 0,
        }
    }

    /// The extents, in parentheses.
    pub open spec fn text(self) -> Seq<char> {
        "("@ + decimal(self@[0] as nat) + ", "@ + decimal(self@[1] as nat) + ", "@ + decimal(
            self@[2] as nat,
        ) + ", "@ + decimal(self@[3] as nat) + ")"@
    }

    /// The extents, in parentheses.
    pub fn to_string(&self) -> (r: String)
        ensures
            r@ == self.text(),
            r@ == "("@ + decimal(self@[0] as nat) + ", "@ + decimal(self@[1] as nat) + ", "@
                + decimal(self@[2] as nat) + ", "@ + decimal(self@[3] as nat) + ")"@,
    {
        let mut text = String::new();
        text.append("(");
        append_decimal(&mut text, self.0[0] as u64);
        text.append(", ");
        append_decimal(&mut text, self.0[1] as u64);
        text.append(", ");
        append_decimal(&mut text, self.0[2] as u64);
        text.append(", ");
        append_decimal(&mut text, self.0[3] as u64);
        text.append(")");
        assert(text@ =~= self.text());
        text
    }

    /// A mutable reference to the extent of axis `index`.
    pub fn index_mut(&mut self, index: usize) -> (r: &mut usize)
        requires
            index < 4,
        ensures
            *r == old(self)@[index as int],
            final(self)@ == old(self)@.update(index as int, *final(r)),
    {
        &mut self.0[index]
    }
}

/// The product of four extents is zero where one of them is, and bounds each of its prefixes where
/// none is.
proof fn lemma_volume_bounds(a: nat, b: nat, c: nat, d: nat)
    ensures
        a == 0 || b == 0 || c == 0 || d == 0 ==> a * b * c * d == 0,
        a > 0 && b > 0 && c > 0 && d > 0 ==> a * b <= a * b * c <= a * b * c * d,
{
    if a > 0 && b > 0 && c > 0 && d > 0 {
        let ab = a * b;
        assert(ab <= ab * c) by (nonlinear_arith)
            requires
                c >= 1,
                ab >= 0,
        ;
        let abc = ab * c;
        assert(abc <= abc * d) by (nonlinear_arith)
            requires
                d >= 1,
                abc >= 0,
        ;
    } else {
        assert(a * b * c * d == 0) by (nonlinear_arith)
            requires
                a == 0 || b == 0 || c == 0 || d == 0,
        ;
    }
}

impl Default for TensorShape {
    fn default() -> (r: Self)
        ensures
            r@ == seq![0usize, 0usize, 0usize, 0usize],
    {
        TensorShape([0, 0, 0, 0])
    }
}

impl vstd::std_specs::core::IndexSpecImpl<usize> for TensorShape {
    open spec fn index_req(&self, index: &usize) -> bool {
        *index < 4
    }
}

impl std::ops::Index<usize> for TensorShape {
    type Output = usize;

    fn index(&self, index: usize) -> (r: &usize)
        ensures
            *r == self@[index as int],
    {
        &self.0[index]
    }
}

impl PartialEq for TensorShape {
    fn eq(&self, other: &Self) -> (r: bool) {
        let equal = self.0[0] == other.0[0] && self.0[1] == other.0[1] && self.0[2] == other.0[2]
            && self.0[3] == other.0[3];
        proof {
            if equal {
                assert(self@ =~= other@);
            }
        }
        equal
    }
}

impl vstd::std_specs::cmp::PartialEqSpecImpl for TensorShape {
    open spec fn obeys_eq_spec() -> bool {
        true
    }

    open spec fn eq_spec(&self, other: &Self) -> bool {
        self@ == other@
    }
}

/// A tensor has as many elements as its extents multiplied: with one more along an axis it has one
/// more layer, of as many elements as the other extents multiplied, and with none it has none.
pub proof fn law_volume(axes: Seq<usize>)
    ensures
        volume(axes) == axes[0] * axes[1] * axes[2] * axes[3],
        axes.len() == 4 && axes[0] < usize::MAX ==> volume(
            axes.update(0, (axes[0] + 1) as usize),
        ) == volume(axes) + axes[1] * axes[2] * axes[3],
        axes.len() == 4 && axes[1] < usize::MAX ==> volume(
            axes.update(1, (axes[1] + 1) as usize),
        ) == volume(axes) + axes[0] * axes[2] * axes[3],
        axes.len() == 4 && axes[2] < usize::MAX ==> volume(
            axes.update(2, (axes[2] + 1) as usize),
        ) == volume(axes) + axes[0] * axes[1] * axes[3],
        axes.len() == 4 && axes[3] < usize::MAX ==> volume(
            axes.update(3, (axes[3] + 1) as usize),
        ) == volume(axes) + axes[0] * axes[1] * axes[2],
        axes[0] == 0 || axes[1] == 0 || axes[2] == 0 || axes[3] == 0 <==> volume(axes) == 0,
{
    let (a, b, c, d): (int, int, int, int) = (
        axes[0] as int,
        axes[1] as int,
        axes[2] as int,
        axes[3] as int,
    );
    assert((a + 1) * b * c * d == a * b * c * d + b * c * d) by (nonlinear_arith);
    assert(a * (b + 1) * c * d == a * b * c * d + a * c * d) by (nonlinear_arith);
    assert(a * b * (c + 1) * d == a * b * c * d + a * b * d) by (nonlinear_arith);
    assert(a * b * c * (d + 1) == a * b * c * d + a * b * c) by (nonlinear_arith);
    assert(a == 0 || b == 0 || c == 0 || d == 0 <==> a * b * c * d == 0) by (nonlinear_arith);
}

/// The number of elements of a shape is found exactly where it is a `usize`, and then it is the
/// product of the extents.
pub proof fn law_len(shape: TensorShape, checked: Option<usize>, len: usize)
    requires
        call_ensures(TensorShape::checked_len, (&shape,), checked),
        checked is Some ==> call_ensures(TensorShape::len, (&shape,), len),
    ensures
        checked is Some <==> shape@[0] * shape@[1] * shape@[2] * shape@[3] <= usize::MAX,
        checked is Some ==> checked == Some(len) && len == shape@[0] * shape@[1] * shape@[2]
            * shape@[3],
{
}

/// Two shapes are equal exactly where they are along every axis.
pub proof fn law_equal(a: TensorShape, b: TensorShape, r: bool)
    requires
        call_ensures(TensorShape::eq, (&a, &b), r),
    ensures
        r <==> a@[0] == b@[0] && a@[1] == b@[1] && a@[2] == b@[2] && a@[3] == b@[3],
{
    if a@[0] == b@[0] && a@[1] == b@[1] && a@[2] == b@[2] && a@[3] == b@[3] {
        assert(a@ =~= b@);
    }
}

/// The steps on the way to a position can be counted exactly where none of the three sums on it is
/// too large.
pub proof fn law_countable(axes: Seq<usize>, indices: Seq<usize>)
    ensures
        countable(axes, indices) <==> {
            &&& indices[3] * axes[2] + indices[2] <= usize::MAX
            &&& (indices[3] * axes[2] + indices[2]) * axes[1] + indices[1] <= usize::MAX
            &&& ((indices[3] * axes[2] + indices[2]) * axes[1] + indices[1]) * axes[0]
                + indices[0] <= usize::MAX
        },
{
    reveal_with_fuel(outer_position, 4);
    if countable(axes, indices) {
        assert(outer_position(axes, indices, 2) <= usize::MAX);
        assert(outer_position(axes, indices, 1) <= usize::MAX);
        assert(outer_position(axes, indices, 0) <= usize::MAX);
    }
}

/// The text of a shape is its extents in order, in parentheses and with commas between them.
pub proof fn law_text(shape: TensorShape, r: String)
    requires
        call_ensures(TensorShape::to_string, (&shape,), r),
    ensures
        r@ == "("@ + decimal(shape@[0] as nat) + ", "@ + decimal(shape@[1] as nat) + ", "@
            + decimal(shape@[2] as nat) + ", "@ + decimal(shape@[3] as nat) + ")"@,
        shape.text() == r@,
{
}

/// An element is named by an index below the extent of each axis.
pub proof fn law_in_range(axes: Seq<usize>, indices: Seq<usize>)
    ensures
        in_range(axes, indices) <==> indices[0] < axes[0] && indices[1] < axes[1] && indices[2]
            < axes[2] && indices[3] < axes[3],
{
    if in_range(axes, indices) {
        assert(indices[0] < axes[0] && indices[1] < axes[1] && indices[2] < axes[2] && indices[3]
            < axes[3]);
    }
}

/// What is written to the extent of an axis is what is read from it, and the other extents are read
/// as they were.
pub proof fn law_write_read(
    shape: &mut TensorShape,
    index: usize,
    place: &mut usize,
    other: usize,
    before: &usize,
    after: &usize,
)
    requires
        index < 4,
        other < 4,
        call_ensures(<TensorShape as std::ops::Index<usize>>::index, (&*shape, other), before),
        call_ensures(TensorShape::index_mut, (shape, index), place),
        call_ensures(
            <TensorShape as std::ops::Index<usize>>::index,
            (&*final(shape), other),
            after,
        ),
    ensures
        other == index ==> *after == *final(place) && *before == *old(place),
        other != index ==> *after == *before,
{
    law_rank(*old(shape));
}

/// Every shape has four axes.
pub proof fn law_rank(shape: TensorShape)
    ensures
        shape@.len() == 4,
{
}

/// The strides, written out.
pub proof fn lemma_strides(axes: Seq<usize>)
    ensures
        stride(axes, 0) == 1,
        stride(axes, 1) == axes[0] as nat,
        stride(axes, 2) == (axes[0] as nat) * (axes[1] as nat),
        stride(axes, 3) == (axes[0] as nat) * (axes[1] as nat) * (axes[2] as nat),
        stride(axes, 4) == volume(axes),
{
    reveal_with_fuel(stride, 5);
    assert(1 * (axes[0] as nat) == axes[0] as nat);
}

/// What is found by going from the slowest axis down to the fastest is the position.
pub proof fn lemma_outer_position(axes: Seq<usize>, indices: Seq<usize>)
    ensures
        outer_position(axes, indices, 0) == position(axes, indices),
{
    lemma_strides(axes);
    reveal_with_fuel(outer_position, 4);
    let (a, b, c): (int, int, int) = (axes[0] as int, axes[1] as int, axes[2] as int);
    let (i, j, k, l): (int, int, int, int) = (
        indices[0] as int,
        indices[1] as int,
        indices[2] as int,
        indices[3] as int,
    );
    assert(((l * c + k) * b + j) * a + i == i * 1 + j * a + k * (a * b) + l * (a * b * c))
        by (nonlinear_arith);
}

} // verus!
