//! Tensors on the host and on the device.

pub mod device;
pub mod error;
pub mod laws;
pub mod scalar;
mod sealed;
pub mod shape;
pub mod transfer;

pub use crate::tensor::device::{
    Buffer, BufferAddress, BufferBinding, BufferCopy, BufferDescriptor, BufferInitDescriptor,
    BufferUsages, CommandEncoder, Cpu, Device, Gpu, TensorBuffer,
};
pub use crate::tensor::error::TensorError;
pub use crate::tensor::scalar::{Binary16, Binary32, Scalar};
pub use crate::tensor::shape::TensorShape;
pub use crate::tensor::transfer::CopyTensor;

use crate::tensor::device::elements;
use crate::tensor::scalar::Pod;
use crate::tensor::shape::{
    countable, lemma_outer_position, lemma_strides, outer_position, position,
};
use std::borrow::Cow;
use std::marker::PhantomData;
use std::ops::Range;
use std::sync::Arc;
use vstd::layout::size_of;
use vstd::prelude::*;

verus! {

/// A tensor of elements `T` on the device `D`, which a `C` gives access to.
pub struct Tensor<'a, C, D: Device, T> {
    context: C,
    shape: TensorShape,
    name: Option<&'a str>,
    data: D::Data,
    phantom: PhantomData<(D, T)>,
}

/// What a tensor is made of.
pub struct TensorView<'a, C, Data> {
    pub context: C,
    pub shape: TensorShape,
    pub name: Option<&'a str>,
    pub data: Data,
}

/// A tensor on the host.
pub type TensorCpu<'a, C, T> = Tensor<'a, C, Cpu<'a, T>, T>;

/// A tensor on the device.
pub type TensorGpu<'a, C, H, T> = Tensor<'a, C, Gpu<H>, T>;

impl<'a, C, D: Device, T> View for Tensor<'a, C, D, T> {
    type V = TensorView<'a, C, D::Data>;

    closed spec fn view(&self) -> TensorView<'a, C, D::Data> {
        TensorView { context: self.context, shape: self.shape, name: self.name, data: self.data }
    }
}

impl<'a, C, D: Device, T> Tensor<'a, C, D, T> {
    /// The data of a tensor has room for its elements.
    #[verifier::type_invariant]
    pub open spec fn wf(self) -> bool {
        D::holds(self@.data, self@.shape.volume(), size_of::<T>())
    }

    /// The number of bytes of the elements.
    pub open spec fn byte_len(self) -> nat {
        self@.shape.volume() * size_of::<T>()
    }

    /// The context of this tensor.
    pub fn context(&self) -> (r: &C)
        ensures
            *r == self@.context,
    {
        &self.context
    }

    /// The shape of this tensor.
    pub fn shape(&self) -> (r: &TensorShape)
        ensures
            *r == self@.shape,
    {
        &self.shape
    }

    /// The name of this tensor.
    pub fn name(&self) -> (r: &Option<&'a str>)
        ensures
            *r == self@.name,
    {
        &self.name
    }

    /// The data of this tensor.
    pub fn data(&self) -> (r: &D::Data)
        ensures
            *r == self@.data,
            D::holds(*r, self@.shape.volume(), size_of::<T>()),
    {
        proof {
            use_type_invariant(self);
        }
        &self.data
    }
}

impl<'a, C, D: Device, T: Scalar> std::ops::Deref for Tensor<'a, C, D, T> {
    type Target = D::Data;

    fn deref(&self) -> (r: &D::Data)
        ensures
            *r == self@.data,
    {
        &self.data
    }
}

impl<'a, C, D: Device, T: Scalar> Tensor<'a, C, D, T> {
    /// The number of bytes of the elements.
    pub fn byte_size(&self) -> (r: usize)
        requires
            self.byte_len() <= usize::MAX,
        ensures
            r == self.byte_len(),
            r == (self@.shape@[0] * self@.shape@[1] * self@.shape@[2] * self@.shape@[3])
                * size_of::<T>(),
    {
        proof {
            lemma_volume_fits::<T>(self.shape.volume());
        }
        self.shape.len() * T::byte_size()
    }

    /// The number of bytes of `offset` elements.
    pub fn byte_offset(offset: usize) -> (r: usize)
        requires
            offset * size_of::<T>() <= usize::MAX,
        ensures
            r == offset * size_of::<T>(),
    {
        offset * T::byte_size()
    }

    /// The place of the element at `indices` among the elements.
    pub fn shape_index(&self, indices: TensorShape) -> (r: usize)
        requires
            countable(self@.shape@, indices@),
        ensures
            r == position(self@.shape@, indices@),
            r == indices@[0] + indices@[1] * self@.shape@[0] + indices@[2] * (self@.shape@[0]
                * self@.shape@[1]) + indices@[3] * (self@.shape@[0] * self@.shape@[1]
                * self@.shape@[2]),
    {
        proof {
            let (axes, at) = (self.shape@, indices@);
            lemma_outer_position(axes, at);
            lemma_strides(axes);
            reveal_with_fuel(outer_position, 4);
            assert(outer_position(axes, at, 2) <= usize::MAX);
            assert(outer_position(axes, at, 1) <= usize::MAX);
            assert(outer_position(axes, at, 0) <= usize::MAX);
        }
        let mut index: usize = indices[3];
        index = index * self.shape[2] + indices[2];
        index = index * self.shape[1] + indices[1];
        index = index * self.shape[0] + indices[0];
        index
    }
}

impl<'a, C, T: Scalar> TensorCpu<'a, C, T> {
    /// The elements of this tensor.
    pub open spec fn elements(self) -> Seq<T> {
        elements(self@.data)
    }

    /// Creates a tensor on the host from its elements. Fails if there are more or fewer than
    /// `shape` says.
    pub fn new(context: C, shape: TensorShape, name: Option<&'a str>, data: Vec<T>) -> (r: Result<
        Self,
        TensorError,
    >)
        requires
            shape.volume() <= usize::MAX,
        ensures
            if shape.volume() == data@.len() {
                r matches Ok(t) && t@ == (TensorView {
                    context,
                    shape,
                    name,
                    data: Cow::<'a, [T]>::Owned(data),
                })
            } else {
                r == Err::<Self, TensorError>(
                    TensorError::Size(shape.volume() as usize, data@.len() as usize),
                )
            },
            r is Ok <==> shape@[0] * shape@[1] * shape@[2] * shape@[3] == data@.len(),
            r matches Ok(t) ==> {
                &&& t@.context == context
                &&& t@.shape == shape
                &&& t@.name == name
                &&& t.elements() == data@
            },
            r matches Err(e) ==> {
                &&& e is Size
                &&& e->Size_0 == shape@[0] * shape@[1] * shape@[2] * shape@[3]
                &&& e->Size_1 == data@.len()
            },
    {
        if shape.len() != data.len() {
            return Err(TensorError::Size(shape.len(), data.len()));
        }
        Ok(Tensor { context, shape, name, data: Cow::Owned(data), phantom: PhantomData })
    }

    /// The elements of this tensor.
    pub fn as_slice(&self) -> (r: &[T])
        ensures
            r@ == self.elements(),
            r@.len() == self@.shape.volume(),
    {
        proof {
            use_type_invariant(self);
        }
        match &self.data {
            Cow::Borrowed(slice) => slice,
            Cow::Owned(vec) => vec.as_slice(),
        }
    }
}

impl<'a, C, T: Scalar> vstd::std_specs::core::IndexSpecImpl<usize> for TensorCpu<'a, C, T> {
    open spec fn index_req(&self, index: &usize) -> bool {
        *index < self.elements().len()
    }
}

impl<'a, C, T: Scalar> std::ops::Index<usize> for TensorCpu<'a, C, T> {
    type Output = T;

    fn index(&self, index: usize) -> (r: &T)
        ensures
            *r == self.elements()[index as int],
    {
        &self.as_slice()[index]
    }
}

impl<'a, C, T: Scalar> vstd::std_specs::core::IndexSpecImpl<Range<usize>> for TensorCpu<'a, C, T> {
    open spec fn index_req(&self, index: &Range<usize>) -> bool {
        index.start <= index.end <= self.elements().len()
    }
}

impl<'a, C, T: Scalar> std::ops::Index<Range<usize>> for TensorCpu<'a, C, T> {
    type Output = [T];

    fn index(&self, index: Range<usize>) -> (r: &[T])
        ensures
            r@ == self.elements().subrange(index.start as int, index.end as int),
    {
        &self.as_slice()[index]
    }
}

/// Whether a tensor of shape `shape`, with elements of `byte_size` bytes, that begins where `data`
/// says ends inside its buffer.
pub open spec fn fits<H>(shape: TensorShape, data: TensorBuffer<H>, byte_size: nat) -> bool {
    data.offset + shape.volume() * byte_size <= data.buffer.size
}

impl<'a, C, H, T: Scalar> TensorGpu<'a, C, H, T> {
    /// Creates a GPU tensor from a [`TensorBuffer`].
    /// Fails if the buffer overflows. A tensor may end where the buffer ends.
    pub fn new(
        context: C,
        shape: TensorShape,
        name: Option<&'a str>,
        data: TensorBuffer<H>,
    ) -> (r: Result<Self, TensorError>)
        requires
            shape.volume() <= usize::MAX,
            shape.volume() * size_of::<T>() <= u64::MAX,
        ensures
            if fits(shape, data, size_of::<T>()) {
                r matches Ok(t) && t@ == (TensorView { context, shape, name, data })
            } else {
                r == Err::<Self, TensorError>(
                    TensorError::Overflow {
                        buffer_size: data.buffer.size,
                        offset: data.offset,
                        size: (shape.volume() * size_of::<T>()) as u64,
                    },
                )
            },
            r is Ok <==> data.offset + (shape@[0] * shape@[1] * shape@[2] * shape@[3])
                * size_of::<T>() <= data.buffer.size,
            r matches Ok(t) ==> {
                &&& t@.context == context
                &&& t@.shape == shape
                &&& t@.name == name
                &&& t@.data.buffer == data.buffer
                &&& t@.data.offset == data.offset
            },
            r matches Err(e) ==> {
                &&& e is Overflow
                &&& e->buffer_size == data.buffer.size
                &&& e->offset == data.offset
                &&& e->size == (shape@[0] * shape@[1] * shape@[2] * shape@[3]) * size_of::<T>()
            },
    {
        let size = shape.len() as u64 * T::byte_size() as u64;
        let buffer_size = data.buffer.size;
        if data.offset > buffer_size || size > buffer_size - data.offset {
            return Err(TensorError::Overflow { buffer_size, offset: data.offset, size });
        }
        Ok(Tensor { context, shape, name, data, phantom: PhantomData })
    }

    /// The buffer to create for a GPU tensor with a given shape.
    pub fn init_descriptor(shape: TensorShape, name: Option<&'a str>, usage: BufferUsages) -> (r:
        BufferDescriptor<'a>)
        requires
            shape.volume() <= usize::MAX,
            shape.volume() * size_of::<T>() <= u64::MAX,
        ensures
            r.label == name,
            r.size == shape.volume() * size_of::<T>(),
            r.size == (shape@[0] * shape@[1] * shape@[2] * shape@[3]) * size_of::<T>(),
            r.usage == usage,
            !r.mapped_at_creation,
    {
        let size = shape.len() as u64 * T::byte_size() as u64;
        BufferDescriptor { label: name, size, usage, mapped_at_creation: false }
    }

    /// Initialize a GPU tensor with a given shape, once the device has created `buffer` for it.
    pub fn init(context: C, shape: TensorShape, name: Option<&'a str>, buffer: Buffer<H>) -> (r:
        Self)
        requires
            shape.volume() * size_of::<T>() <= buffer.size,
        ensures
            r@ == (TensorView {
                context,
                shape,
                name,
                data: TensorBuffer { buffer: Arc::new(buffer), offset: 0 },
            }),
            r@.context == context,
            r@.shape == shape,
            r@.name == name,
            *r@.data.buffer == buffer,
            r@.data.offset == 0,
    {
        let data = TensorBuffer { buffer: Arc::new(buffer), offset: 0 };
        Tensor { context, shape, name, data, phantom: PhantomData }
    }
}

/// Where the bytes of a number of elements can be counted, so can the elements.
proof fn lemma_volume_fits<T: Pod>(volume: nat)
    ensures
        volume <= volume * size_of::<T>(),
{
    T::lemma_size();
    let n = size_of::<T>();
    assert(volume <= volume * n) by (nonlinear_arith)
        requires
            n >= 1,
    ;
}

} // verus!
