//! What holds of tensors as a whole.

use crate::tensor::device::{
    elements, Buffer, BufferAddress, BufferBinding, BufferCopy, BufferDescriptor,
    BufferInitDescriptor, BufferUsages, CommandEncoder, Device, TensorBuffer,
};
use crate::tensor::error::TensorError;
use crate::tensor::scalar::{
    law_memory_image, law_value_image, memory_image, value_image, Pod, Scalar,
};
use crate::tensor::shape::{
    countable, in_range, law_rank, lemma_outer_position, lemma_strides, outer_position, position,
    stride, volume, TensorShape,
};
use crate::tensor::transfer::{copy_request, downloaded, uploaded, CopyTensor};
use crate::tensor::{fits, Tensor, TensorCpu, TensorGpu};
use std::borrow::Cow;
use std::ops::Range;
use std::sync::Arc;
use vstd::arithmetic::div_mod::{lemma_fundamental_div_mod, lemma_fundamental_div_mod_converse};
use vstd::layout::size_of;
use vstd::prelude::*;

verus! {

/// A digit below `radix` put behind a number below `bound` gives a number below their product.
proof fn lemma_digit_below(outer: int, bound: int, digit: int, radix: int)
    requires
        0 <= outer < bound,
        0 <= digit < radix,
    ensures
        0 <= outer * radix + digit < bound * radix,
{
    assert(0 <= outer * radix + digit < bound * radix) by (nonlinear_arith)
        requires
            0 <= outer < bound,
            0 <= digit < radix,
    ;
}

/// The extents multiplied from the slowest axis down to the fastest give the volume.
proof fn lemma_volume(axes: Seq<usize>)
    ensures
        volume(axes) == (((axes[3] as int) * (axes[2] as int)) * (axes[1] as int)) * (
        axes[0] as int),
{
    let (a, b, c, d): (int, int, int, int) = (
        axes[0] as int,
        axes[1] as int,
        axes[2] as int,
        axes[3] as int,
    );
    assert(a * b * c * d == ((d * c) * b) * a) by (nonlinear_arith);
}

/// Every element of a tensor has a place among its elements, which can be found where the elements
/// can be counted.
pub proof fn law_position_below_volume(axes: Seq<usize>, indices: Seq<usize>)
    requires
        in_range(axes, indices),
    ensures
        position(axes, indices) < volume(axes),
        volume(axes) <= usize::MAX ==> countable(axes, indices),
{
    let (a, b, c, d): (int, int, int, int) = (
        axes[0] as int,
        axes[1] as int,
        axes[2] as int,
        axes[3] as int,
    );
    lemma_outer_position(axes, indices);
    lemma_volume(axes);
    reveal_with_fuel(outer_position, 4);
    assert(indices[0] < axes[0] && indices[1] < axes[1] && indices[2] < axes[2] && indices[3]
        < axes[3]);
    let o3 = indices[3] as int;
    let o2 = o3 * c + indices[2];
    let o1 = o2 * b + indices[1];
    lemma_digit_below(o3, d, indices[2] as int, c);
    lemma_digit_below(o2, d * c, indices[1] as int, b);
    lemma_digit_below(o1, (d * c) * b, indices[0] as int, a);
    if volume(axes) <= usize::MAX {
        assert(d <= d * c <= (d * c) * b <= ((d * c) * b) * a) by (nonlinear_arith)
            requires
                a >= 1,
                b >= 1,
                c >= 1,
                d >= 1,
        ;
        assert forall|axis: int| 0 <= axis <= 3 implies outer_position(axes, indices, axis)
            <= usize::MAX by {
            if axis == 0 {
            } else if axis == 1 {
            } else if axis == 2 {
            }
        }
    }
}

/// No two elements of a tensor have the same place.
pub proof fn law_position_injective(axes: Seq<usize>, left: Seq<usize>, right: Seq<usize>)
    requires
        left.len() == 4,
        right.len() == 4,
        in_range(axes, left),
        in_range(axes, right),
        position(axes, left) == position(axes, right),
    ensures
        left == right,
{
    lemma_outer_position(axes, left);
    lemma_outer_position(axes, right);
    reveal_with_fuel(outer_position, 4);
    assert forall|i: int| 0 <= i < 4 implies left[i] == right[i] by {
        assert forall|axis: int| 0 <= axis < 3 && outer_position(axes, left, axis)
            == outer_position(axes, right, axis) implies outer_position(axes, left, axis + 1)
            == outer_position(axes, right, axis + 1) && left[axis] == right[axis] by {
            let n = outer_position(axes, left, axis) as int;
            assert(left[axis] < axes[axis] && right[axis] < axes[axis]);
            lemma_fundamental_div_mod_converse(
                n,
                axes[axis] as int,
                outer_position(axes, left, axis + 1) as int,
                left[axis] as int,
            );
            lemma_fundamental_div_mod_converse(
                n,
                axes[axis] as int,
                outer_position(axes, right, axis + 1) as int,
                right[axis] as int,
            );
        }
        assert(outer_position(axes, left, 0) == outer_position(axes, right, 0));
        assert(outer_position(axes, left, 1) == outer_position(axes, right, 1));
        assert(outer_position(axes, left, 2) == outer_position(axes, right, 2));
    }
    assert(left =~= right);
}

/// Every place below the number of elements is that of an element.
pub proof fn law_position_onto(axes: Seq<usize>, place: nat) -> (indices: Seq<usize>)
    requires
        place < volume(axes),
    ensures
        indices.len() == 4,
        in_range(axes, indices),
        position(axes, indices) == place,
{
    let (a, b, c, d): (int, int, int, int) = (
        axes[0] as int,
        axes[1] as int,
        axes[2] as int,
        axes[3] as int,
    );
    lemma_volume(axes);
    let (i0, o1) = lemma_split(place as int, (d * c) * b, a);
    let (i1, o2) = lemma_split(o1, d * c, b);
    let (i2, o3) = lemma_split(o2, d, c);
    let indices = seq![i0 as usize, i1 as usize, i2 as usize, o3 as usize];
    lemma_outer_position(axes, indices);
    reveal_with_fuel(outer_position, 4);
    indices
}

/// A number below a product splits into a digit below the second factor and a number below the
/// first.
proof fn lemma_split(n: int, bound: int, radix: int) -> (r: (int, int))
    requires
        0 <= n < bound * radix,
        0 <= radix,
    ensures
        0 <= r.0 < radix,
        0 <= r.1 < bound,
        n == r.1 * radix + r.0,
{
    assert(radix > 0) by (nonlinear_arith)
        requires
            0 <= n < bound * radix,
            0 <= radix,
    ;
    lemma_fundamental_div_mod(n, radix);
    let (digit, outer) = (n % radix, n / radix);
    assert(radix * outer == outer * radix) by (nonlinear_arith);
    assert(0 <= outer < bound) by (nonlinear_arith)
        requires
            n == outer * radix + digit,
            0 <= digit < radix,
            0 <= n < bound * radix,
    ;
    (digit, outer)
}

/// One step along an axis is a step by its stride. The fastest-moving axis is the lowest: there
/// neighbours lie side by side, and an axis above it moves as slowly as all below it take to go
/// round.
pub proof fn law_strides(axes: Seq<usize>, indices: Seq<usize>, axis: int)
    requires
        indices.len() == 4,
        0 <= axis < 4,
        indices[axis] < usize::MAX,
    ensures
        position(axes, indices.update(axis, (indices[axis] + 1) as usize)) == position(
            axes,
            indices,
        ) + stride(axes, axis),
        stride(axes, 0) == 1,
        stride(axes, axis + 1) == stride(axes, axis) * axes[axis],
        stride(axes, 4) == volume(axes),
{
    lemma_strides(axes);
    let (n, step) = (indices[axis] as int, stride(axes, axis) as int);
    assert((n + 1) * step == n * step + step) by (nonlinear_arith);
}

/// In the memory of a tensor the bytes of an element begin where the number of bytes of the
/// elements before it says.
pub proof fn law_element_address<T: Pod>(axes: Seq<usize>, indices: Seq<usize>, data: Seq<T>)
    requires
        in_range(axes, indices),
        data.len() == volume(axes),
    ensures
        ({
            let place = position(axes, indices) as int;
            let start = place * size_of::<T>();
            &&& start + size_of::<T>() <= memory_image(data).len()
            &&& memory_image(data).subrange(start, start + size_of::<T>()) == value_image(
                data[place],
            )
        }),
{
    let place = position(axes, indices) as int;
    let size = size_of::<T>() as int;
    let len = data.len() as int;
    law_position_below_volume(axes, indices);
    law_value_image(data[place], data[place]);
    assert(0 <= place * size && place * size + size <= len * size) by (nonlinear_arith)
        requires
            0 <= place < len,
            0 <= size,
    ;
    assert(memory_image(data).len() == len * size);
    let bytes = memory_image(data).subrange(place * size, place * size + size);
    assert forall|j: int| 0 <= j < size implies bytes[j] == value_image(data[place])[j] by {
        lemma_fundamental_div_mod_converse(place * size + j, size, place, j);
    }
    assert(bytes =~= value_image(data[place]));
}

/// What was uploaded comes back: a tensor that goes to the device and is read again from there has
/// the same elements, the same shape, the same name and the same context. Here `memory` is what the
/// buffer of the tensor holds: it begins with what [`TensorCpu::upload`] put there.
pub proof fn law_upload_download<'a, C, H, T: Scalar>(
    cpu: TensorCpu<'a, C, T>,
    gpu: TensorGpu<'a, C, H, T>,
    back: TensorCpu<'a, C, T>,
    memory: Seq<u8>,
)
    requires
        cpu.wf(),
        uploaded(cpu, gpu),
        memory_image(cpu.elements()).is_prefix_of(memory),
        downloaded(gpu, gpu.bytes(memory), back),
    ensures
        back.elements() == cpu.elements(),
        back@.shape == cpu@.shape,
        back@.name == cpu@.name,
        back@.context == cpu@.context,
{
    let image = memory_image(cpu.elements());
    law_memory_image(back.elements(), cpu.elements());
    law_memory_image(cpu.elements(), cpu.elements());
    assert(gpu.bytes(memory) =~= image);
}

/// What was copied is there: once the device has served the request that copies `src` to `dst`,
/// the bytes of `dst` are those of `src`, and the bytes around them are as they were.
pub proof fn law_copy<'a, 'b, C, H, T: Scalar>(
    src: TensorGpu<'a, C, H, T>,
    dst: TensorGpu<'b, C, H, T>,
    source: Seq<u8>,
    destination: Seq<u8>,
)
    requires
        src.wf(),
        dst.wf(),
        src@.shape@ == dst@.shape@,
        source.len() == src@.data.buffer.size,
        destination.len() == dst@.data.buffer.size,
    ensures
        ({
            let outcome = copy_request(src, dst).outcome(source, destination);
            &&& outcome.len() == destination.len()
            &&& dst.bytes(outcome) == src.bytes(source)
            &&& forall|i: int|
                0 <= i < destination.len() && !(dst@.data.offset <= i < dst@.data.offset
                    + dst.byte_len()) ==> outcome[i] == destination[i]
        }),
{
    let outcome = copy_request(src, dst).outcome(source, destination);
    assert(dst.bytes(outcome) =~= src.bytes(source));
}

/// A tensor that has been copied to another is read from there: where the bytes of `src` are those
/// of `elements`, and `back` is what reading `dst` gives after the copy, `back` has these elements.
pub proof fn law_copy_download<'a, 'b, C, H, T: Scalar>(
    src: TensorGpu<'a, C, H, T>,
    dst: TensorGpu<'b, C, H, T>,
    source: Seq<u8>,
    destination: Seq<u8>,
    back: TensorCpu<'b, C, T>,
    elements: Seq<T>,
)
    requires
        src.wf(),
        dst.wf(),
        src@.shape@ == dst@.shape@,
        source.len() == src@.data.buffer.size,
        destination.len() == dst@.data.buffer.size,
        src.bytes(source) == memory_image(elements),
        downloaded(
            dst,
            dst.bytes(copy_request(src, dst).outcome(source, destination)),
            back,
        ),
    ensures
        back.elements() == elements,
        back@.shape@ == src@.shape@,
{
    law_copy(src, dst, source, destination);
    law_memory_image(back.elements(), elements);
}

/// A tensor for which the device created a buffer can be made again from its own parts.
pub proof fn law_parts_fit<'a, C, H, T: Scalar>(tensor: TensorGpu<'a, C, H, T>)
    requires
        tensor.wf(),
    ensures
        fits(tensor@.shape, tensor@.data, size_of::<T>()),
{
}

/// The first element of a tensor is at place zero, and a step along an axis is a step over as many
/// elements as the axes below it have together. So the place of every element is settled.
pub proof fn law_shape_index<'a, C, D: Device, T: Scalar>(
    tensor: Tensor<'a, C, D, T>,
    indices: TensorShape,
    place: usize,
    next: TensorShape,
    next_place: usize,
    axis: int,
)
    requires
        call_ensures(Tensor::<C, D, T>::shape_index, (&tensor, indices), place),
        call_ensures(Tensor::<C, D, T>::shape_index, (&tensor, next), next_place),
        0 <= axis < 4,
        indices@[axis] < usize::MAX,
        next@ == indices@.update(axis, (indices@[axis] + 1) as usize),
    ensures
        indices@ == seq![0usize, 0usize, 0usize, 0usize] ==> place == 0,
        axis == 0 ==> next_place == place + 1,
        axis == 1 ==> next_place == place + tensor@.shape@[0],
        axis == 2 ==> next_place == place + tensor@.shape@[0] * tensor@.shape@[1],
        axis == 3 ==> next_place == place + tensor@.shape@[0] * tensor@.shape@[1]
            * tensor@.shape@[2],
        place == position(tensor@.shape@, indices@),
{
    law_rank(indices);
    let axes = tensor@.shape@;
    let (a, b, c): (int, int, int) = (axes[0] as int, axes[1] as int, axes[2] as int);
    let step: int = if axis == 0 {
        1
    } else if axis == 1 {
        a
    } else if axis == 2 {
        a * b
    } else {
        a * b * c
    };
    let n = indices@[axis] as int;
    assert((n + 1) * step == n * step + step) by (nonlinear_arith);
    if indices@ == seq![0usize, 0usize, 0usize, 0usize] {
        assert(indices@[0] == 0 && indices@[1] == 0 && indices@[2] == 0 && indices@[3] == 0);
        assert(0 * a == 0 && 0 * (a * b) == 0 && 0 * (a * b * c) == 0) by (nonlinear_arith);
    }
}

/// Elements of a tensor at different indices have different places, all below the number of
/// elements.
pub proof fn law_shape_index_distinct<'a, C, D: Device, T: Scalar>(
    tensor: Tensor<'a, C, D, T>,
    left: TensorShape,
    left_place: usize,
    right: TensorShape,
    right_place: usize,
)
    requires
        call_ensures(Tensor::<C, D, T>::shape_index, (&tensor, left), left_place),
        call_ensures(Tensor::<C, D, T>::shape_index, (&tensor, right), right_place),
        forall|i: int| 0 <= i < 4 ==> left@[i] < tensor@.shape@[i],
        forall|i: int| 0 <= i < 4 ==> right@[i] < tensor@.shape@[i],
    ensures
        left_place < tensor@.shape@[0] * tensor@.shape@[1] * tensor@.shape@[2] * tensor@.shape@[3],
        left_place == right_place <==> left@ == right@,
{
    law_rank(left);
    law_rank(right);
    law_position_below_volume(tensor@.shape@, left@);
    if left_place == right_place {
        law_position_injective(tensor@.shape@, left@, right@);
    }
}

/// A tensor has the bytes of its elements: as many as the elements before the end take.
pub proof fn law_byte_size<'a, C, D: Device, T: Scalar>(
    tensor: Tensor<'a, C, D, T>,
    bytes: usize,
    len: usize,
    offset: usize,
    element: usize,
)
    requires
        call_ensures(Tensor::<C, D, T>::byte_size, (&tensor,), bytes),
        call_ensures(TensorShape::len, (&tensor@.shape,), len),
        call_ensures(Tensor::<C, D, T>::byte_offset, (len,), offset),
        call_ensures(T::byte_size, (), element),
    ensures
        bytes == offset,
        bytes == len * element,
        len == tensor@.shape@[0] * tensor@.shape@[1] * tensor@.shape@[2] * tensor@.shape@[3],
        tensor.byte_len() == bytes,
{
}

/// A tensor on the host is made exactly of as many elements as its extents multiplied, and it is
/// made of what was given; otherwise both numbers are reported.
pub proof fn law_new_cpu<'a, C, T: Scalar>(
    context: C,
    shape: TensorShape,
    name: Option<&'a str>,
    data: Vec<T>,
    r: Result<TensorCpu<'a, C, T>, TensorError>,
)
    requires
        call_ensures(TensorCpu::<C, T>::new, (context, shape, name, data), r),
    ensures
        r is Ok <==> data@.len() == shape@[0] * shape@[1] * shape@[2] * shape@[3],
        r matches Ok(t) ==> {
            &&& t@.context == context
            &&& t@.shape == shape
            &&& t@.name == name
            &&& t.elements() == data@
        },
        r matches Err(e) ==> e is Size && e->Size_0 == shape@[0] * shape@[1] * shape@[2]
            * shape@[3] && e->Size_1 == data@.len(),
{
}

/// The elements of a tensor on the host are read as they were given: as a whole, one by one and
/// in ranges.
pub proof fn law_read_cpu<'a, C, T: Scalar>(
    context: C,
    shape: TensorShape,
    name: Option<&'a str>,
    data: Vec<T>,
    r: Result<TensorCpu<'a, C, T>, TensorError>,
    whole: &[T],
    index: usize,
    element: &T,
    range: Range<usize>,
    part: &[T],
)
    requires
        call_ensures(TensorCpu::<C, T>::new, (context, shape, name, data), r),
        r is Ok,
        call_ensures(TensorCpu::<C, T>::as_slice, (&r->Ok_0,), whole),
        call_ensures(
            <TensorCpu::<C, T> as std::ops::Index<usize>>::index,
            (&r->Ok_0, index),
            element,
        ),
        call_ensures(
            <TensorCpu::<C, T> as std::ops::Index<Range<usize>>>::index,
            (&r->Ok_0, range),
            part,
        ),
    ensures
        whole@ == data@,
        *element == data@[index as int],
        part@ == data@.subrange(range.start as int, range.end as int),
{
}

/// A tensor on the device is made exactly where it ends inside its buffer, wherever it begins and
/// however large the buffer is, and it is made of what was given; otherwise the three numbers are
/// reported.
pub proof fn law_new_gpu<'a, C, H, T: Scalar>(
    context: C,
    shape: TensorShape,
    name: Option<&'a str>,
    data: TensorBuffer<H>,
    r: Result<TensorGpu<'a, C, H, T>, TensorError>,
)
    requires
        call_ensures(TensorGpu::<C, H, T>::new, (context, shape, name, data), r),
    ensures
        ({
            let size = (shape@[0] * shape@[1] * shape@[2] * shape@[3]) * size_of::<T>();
            &&& r is Ok <==> data.offset + size <= data.buffer.size
            &&& r matches Ok(t) ==> t@.context == context && t@.shape == shape && t@.name == name
                && t@.data.buffer == data.buffer && t@.data.offset == data.offset
            &&& r matches Err(e) ==> e is Overflow && e->buffer_size == data.buffer.size
                && e->offset == data.offset && e->size == size
        }),
{
}

/// What holds a tensor at one place holds it at every place before, and so does every larger
/// buffer.
pub proof fn law_new_gpu_monotone<'a, C, H, T: Scalar>(
    context: C,
    shape: TensorShape,
    name: Option<&'a str>,
    data: TensorBuffer<H>,
    r: Result<TensorGpu<'a, C, H, T>, TensorError>,
    other: TensorBuffer<H>,
    s: Result<TensorGpu<'a, C, H, T>, TensorError>,
)
    requires
        call_ensures(TensorGpu::<C, H, T>::new, (context, shape, name, data), r),
        call_ensures(TensorGpu::<C, H, T>::new, (context, shape, name, other), s),
        other.offset <= data.offset,
        data.buffer.size <= other.buffer.size,
        r is Ok,
    ensures
        s is Ok,
{
}

/// The buffer that is asked for when a tensor is initialized is as large as the tensor; in it the
/// tensor takes all bytes, and from its parts it can be made again.
pub proof fn law_init<'a, C, H, T: Scalar>(
    context: C,
    shape: TensorShape,
    name: Option<&'a str>,
    usage: BufferUsages,
    request: BufferDescriptor<'a>,
    buffer: Buffer<H>,
    tensor: TensorGpu<'a, C, H, T>,
    range: Range<BufferAddress>,
    again: Result<TensorGpu<'a, C, H, T>, TensorError>,
)
    requires
        call_ensures(TensorGpu::<C, H, T>::init_descriptor, (shape, name, usage), request),
        buffer.size == request.size,
        call_ensures(TensorGpu::<C, H, T>::init, (context, shape, name, buffer), tensor),
        call_ensures(TensorGpu::<C, H, T>::range, (&tensor,), range),
        call_ensures(TensorGpu::<C, H, T>::new, (context, shape, name, tensor@.data), again),
    ensures
        request.size == (shape@[0] * shape@[1] * shape@[2] * shape@[3]) * size_of::<T>(),
        request.label == name,
        request.usage == usage,
        !request.mapped_at_creation,
        range.start == 0,
        range.end == request.size,
        *tensor@.data.buffer == buffer,
        tensor@.context == context,
        tensor@.shape == shape,
        tensor@.name == name,
        again is Ok,
{
}

/// What is bound of a tensor is what it takes of its buffer, no more and no less. Where it takes
/// nothing, no size is given.
pub proof fn law_binding<'a, 'b, C, H, T: Scalar>(
    tensor: &'b TensorGpu<'a, C, H, T>,
    binding: BufferBinding<'b, H>,
    range: Range<BufferAddress>,
)
    requires
        call_ensures(TensorGpu::<C, H, T>::binding, (tensor,), binding),
        call_ensures(TensorGpu::<C, H, T>::range, (tensor,), range),
    ensures
        *binding.buffer == *tensor@.data.buffer,
        binding.offset == tensor@.data.offset == range.start,
        range.end == range.start + (tensor@.shape@[0] * tensor@.shape@[1] * tensor@.shape@[2]
            * tensor@.shape@[3]) * size_of::<T>(),
        range.end <= tensor@.data.buffer.size,
        binding.size is None <==> range.start == range.end,
        binding.size matches Some(size) ==> range.end == range.start + size,
{
}

/// What goes to the device comes back: a tensor is uploaded, the device puts the contents at the
/// beginning of a buffer, which it may make longer, and the bytes that the tensor takes there are
/// read. What is made of them has the elements of the tensor, its shape, its name and its context.
pub proof fn law_round_trip<'a, C, H, T: Scalar>(
    cpu: TensorCpu<'a, C, T>,
    request: BufferInitDescriptor<'a>,
    buffer: Buffer<H>,
    gpu: TensorGpu<'a, C, H, T>,
    memory: Seq<u8>,
    range: Range<BufferAddress>,
    bytes: &[u8],
    back: TensorCpu<'a, C, T>,
)
    requires
        call_ensures(TensorCpu::<C, T>::upload, (&cpu,), request),
        call_ensures(TensorGpu::<C, H, T>::from_cpu, (cpu, buffer), gpu),
        request.contents@.is_prefix_of(memory),
        call_ensures(TensorGpu::<C, H, T>::range, (&gpu,), range),
        bytes@ == memory.subrange(range.start as int, range.end as int),
        call_ensures(TensorCpu::<C, T>::from_gpu::<H>, (gpu, bytes), back),
    ensures
        request.label == cpu@.name,
        request.usage == 0x8c,
        *gpu@.data.buffer == buffer,
        back.elements() == cpu.elements(),
        back@.shape == cpu@.shape,
        back@.name == cpu@.name,
        back@.context == cpu@.context,
{
    assert(bytes@ =~= request.contents@);
    law_memory_image(back.elements(), cpu.elements());
}

/// A copy between tensors of one shape puts the elements of `src` where `dst` keeps its own, and
/// touches nothing else: once the device has served the request, the bytes of `dst` in its buffer
/// are those of `src` in the buffer of `src`, and every other buffer, that of `src` among them, and
/// every other byte hold what they held. Requests made before stay as they are.
pub proof fn law_copy_tensor<'a, 'b, C, H, T: Scalar>(
    encoder: &mut CommandEncoder<H>,
    src: &TensorGpu<'a, C, H, T>,
    dst: &TensorGpu<'b, C, H, T>,
    r: Result<(), TensorError>,
    memory: Map<Arc<Buffer<H>>, Seq<u8>>,
)
    requires
        call_ensures(
            <CommandEncoder<H> as CopyTensor<
                TensorGpu<'a, C, H, T>,
                TensorGpu<'b, C, H, T>,
            >>::copy_tensor,
            (encoder, src, dst),
            r,
        ),
        src.wf(),
        dst.wf(),
        src@.shape@ == dst@.shape@,
        src@.data.buffer != dst@.data.buffer,
        memory[src@.data.buffer].len() == src@.data.buffer.size,
        memory[dst@.data.buffer].len() == dst@.data.buffer.size,
    ensures
        r is Ok,
        ({
            let len = (src@.shape@[0] * src@.shape@[1] * src@.shape@[2] * src@.shape@[3])
                * size_of::<T>();
            let (from, to) = (src@.data.offset as int, dst@.data.offset as int);
            let count = old(encoder).copies@.len() as int;
            let after = final(encoder).copies@[count].served(memory);
            &&& final(encoder).copies@.len() == count + 1
            &&& forall|i: int|
                0 <= i < count ==> final(encoder).copies@[i] == old(encoder).copies@[i]
            &&& after[dst@.data.buffer].subrange(to, to + len)
                == memory[src@.data.buffer].subrange(from, from + len)
            &&& forall|i: int|
                0 <= i < dst@.data.buffer.size && !(to <= i < to + len)
                    ==> after[dst@.data.buffer][i] == memory[dst@.data.buffer][i]
            &&& forall|b: Arc<Buffer<H>>| b != dst@.data.buffer ==> after[b] == memory[b]
        }),
{
    let len = (src@.shape@[0] * src@.shape@[1] * src@.shape@[2] * src@.shape@[3])
        * size_of::<T>();
    let (from, to) = (src@.data.offset as int, dst@.data.offset as int);
    let after = copy_request(*src, *dst).served(memory);
    assert(after[dst@.data.buffer].subrange(to, to + len) =~= memory[src@.data.buffer].subrange(
        from,
        from + len,
    ));
}

/// A copy between tensors of different shapes is refused with both shapes, and nothing is
/// requested.
pub proof fn law_copy_refused<'a, 'b, C, H, T: Scalar>(
    encoder: &mut CommandEncoder<H>,
    src: &TensorGpu<'a, C, H, T>,
    dst: &TensorGpu<'b, C, H, T>,
    r: Result<(), TensorError>,
)
    requires
        call_ensures(
            <CommandEncoder<H> as CopyTensor<
                TensorGpu<'a, C, H, T>,
                TensorGpu<'b, C, H, T>,
            >>::copy_tensor,
            (encoder, src, dst),
            r,
        ),
        src@.shape@ != dst@.shape@,
    ensures
        r == Err::<(), TensorError>(TensorError::Shape(src@.shape, dst@.shape)),
        final(encoder).copies@ == old(encoder).copies@,
{
}

/// The request that copies one tensor to another reads the one and writes the other.
pub proof fn law_copy_request<'a, 'b, C, H, T: Scalar>(
    src: TensorGpu<'a, C, H, T>,
    dst: TensorGpu<'b, C, H, T>,
)
    requires
        src.wf(),
        dst.wf(),
        src@.shape@ == dst@.shape@,
    ensures
        copy_request(src, dst).source == src@.data.buffer,
        copy_request(src, dst).source_offset == src@.data.offset,
        copy_request(src, dst).destination == dst@.data.buffer,
        copy_request(src, dst).destination_offset == dst@.data.offset,
        copy_request(src, dst).size == (src@.shape@[0] * src@.shape@[1] * src@.shape@[2]
            * src@.shape@[3]) * size_of::<T>(),
        src@.data.offset + copy_request(src, dst).size <= src@.data.buffer.size,
        dst@.data.offset + copy_request(src, dst).size <= dst@.data.buffer.size,
{
}

/// A tensor on the host keeps its elements and no others, and one on the device keeps its bytes
/// inside its buffer, anywhere in it.
pub proof fn law_room<'a, C, H, T: Scalar>(
    cpu: TensorCpu<'a, C, T>,
    gpu: TensorGpu<'a, C, H, T>,
    vec: Vec<T>,
    slice: &'a [T],
)
    ensures
        cpu.wf() <==> cpu.elements().len() == cpu@.shape@[0] * cpu@.shape@[1] * cpu@.shape@[2]
            * cpu@.shape@[3],
        gpu.wf() <==> gpu@.data.offset + (gpu@.shape@[0] * gpu@.shape@[1] * gpu@.shape@[2]
            * gpu@.shape@[3]) * size_of::<T>() <= gpu@.data.buffer.size,
        fits(gpu@.shape, gpu@.data, size_of::<T>()) <==> gpu.wf(),
        elements(Cow::<'a, [T]>::Owned(vec)) == vec@,
        elements(Cow::<'a, [T]>::Borrowed(slice)) == slice@,
{
}

/// Whatever a tensor on the host is made of can be read from it.
pub proof fn law_parts_cpu<'a, C, T: Scalar>(
    context: C,
    shape: TensorShape,
    name: Option<&'a str>,
    data: Vec<T>,
    r: Result<TensorCpu<'a, C, T>, TensorError>,
    read: (&C, &TensorShape, &Option<&'a str>, &Cow<'a, [T]>, &Cow<'a, [T]>),
)
    requires
        call_ensures(TensorCpu::<C, T>::new, (context, shape, name, data), r),
        r is Ok,
        call_ensures(TensorCpu::<C, T>::context, (&r->Ok_0,), read.0),
        call_ensures(TensorCpu::<C, T>::shape, (&r->Ok_0,), read.1),
        call_ensures(TensorCpu::<C, T>::name, (&r->Ok_0,), read.2),
        call_ensures(TensorCpu::<C, T>::data, (&r->Ok_0,), read.3),
        call_ensures(<TensorCpu::<C, T> as std::ops::Deref>::deref, (&r->Ok_0,), read.4),
    ensures
        *read.0 == context,
        *read.1 == shape,
        *read.2 == name,
        *read.3 == Cow::<'a, [T]>::Owned(data),
        *read.4 == *read.3,
{
}

/// Whatever a tensor on the device is made of can be read from it.
pub proof fn law_parts_gpu<'a, C, H, T: Scalar>(
    context: C,
    shape: TensorShape,
    name: Option<&'a str>,
    data: TensorBuffer<H>,
    r: Result<TensorGpu<'a, C, H, T>, TensorError>,
    read: (&C, &TensorShape, &Option<&'a str>, &TensorBuffer<H>, &TensorBuffer<H>),
)
    requires
        call_ensures(TensorGpu::<C, H, T>::new, (context, shape, name, data), r),
        r is Ok,
        call_ensures(TensorGpu::<C, H, T>::context, (&r->Ok_0,), read.0),
        call_ensures(TensorGpu::<C, H, T>::shape, (&r->Ok_0,), read.1),
        call_ensures(TensorGpu::<C, H, T>::name, (&r->Ok_0,), read.2),
        call_ensures(TensorGpu::<C, H, T>::data, (&r->Ok_0,), read.3),
        call_ensures(<TensorGpu::<C, H, T> as std::ops::Deref>::deref, (&r->Ok_0,), read.4),
    ensures
        *read.0 == context,
        *read.1 == shape,
        *read.2 == name,
        *read.3 == data,
        *read.4 == data,
{
}

/// A copy can be asked for unless the shapes are equal and their bytes cannot be counted. Single
/// elements can be read up to the last, and ranges up to the end.
pub proof fn law_asked<'a, 'b, C, H, T: Scalar>(
    encoder: CommandEncoder<H>,
    src: TensorGpu<'a, C, H, T>,
    dst: TensorGpu<'b, C, H, T>,
    cpu: TensorCpu<'a, C, T>,
    index: usize,
    range: Range<usize>,
)
    ensures
        encoder.copy_req(&src, &dst) <==> (src@.shape@ == dst@.shape@ ==> (src@.shape@[0]
            * src@.shape@[1] * src@.shape@[2] * src@.shape@[3]) * size_of::<T>() <= usize::MAX),
        vstd::std_specs::core::IndexSpec::<usize>::index_req(&cpu, &index) <==> index < cpu.elements().len(),
        vstd::std_specs::core::IndexSpec::<Range<usize>>::index_req(&cpu, &range) <==> range.start <= range.end
            <= cpu.elements().len(),
{
}

/// The bytes of a tensor are those from its first byte on, as many as its elements take, and a
/// copy is in bounds where both ends are inside the buffers.
pub proof fn law_bytes<'a, C, H, T: Scalar>(
    gpu: TensorGpu<'a, C, H, T>,
    memory: Seq<u8>,
    copy: BufferCopy<H>,
)
    ensures
        gpu.bytes(memory) == memory.subrange(
            gpu@.data.offset as int,
            gpu@.data.offset + (gpu@.shape@[0] * gpu@.shape@[1] * gpu@.shape@[2] * gpu@.shape@[3])
                * size_of::<T>(),
        ),
        copy.in_bounds() <==> copy.source_offset + copy.size <= copy.source.size
            && copy.destination_offset + copy.size <= copy.destination.size,
{
}

} // verus!
