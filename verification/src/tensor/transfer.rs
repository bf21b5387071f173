//! Tensors on their way between the host and the device, and from one buffer to another.

use crate::tensor::device::{
    Buffer, BufferAddress, BufferBinding, BufferCopy, BufferInitDescriptor, CommandEncoder,
    TensorBuffer, COPY_DST, COPY_SRC, STORAGE,
};
use crate::tensor::error::TensorError;
use crate::tensor::scalar::{memory_image, Scalar};
use crate::tensor::{Tensor, TensorCpu, TensorGpu};
use std::borrow::Cow;
use std::marker::PhantomData;
use std::ops::Range;
use std::sync::Arc;
use vstd::layout::size_of;
use vstd::prelude::*;

verus! {

/// Whether `gpu` is what `cpu` is on the device: in the same context, of the same shape and name,
/// and from the first byte of its buffer on.
pub open spec fn uploaded<'a, C, H, T: Scalar>(
    cpu: TensorCpu<'a, C, T>,
    gpu: TensorGpu<'a, C, H, T>,
) -> bool {
    &&& gpu@.context == cpu@.context
    &&& gpu@.shape == cpu@.shape
    &&& gpu@.name == cpu@.name
    &&& gpu@.data.offset == 0
}

/// Whether `cpu` is what `gpu` is on the host, where `bytes` were read from the device: in the same
/// context, of the same shape and name, and with the elements whose memory is `bytes`.
pub open spec fn downloaded<'a, C, H, T: Scalar>(
    gpu: TensorGpu<'a, C, H, T>,
    bytes: Seq<u8>,
    cpu: TensorCpu<'a, C, T>,
) -> bool {
    &&& cpu@.context == gpu@.context
    &&& cpu@.shape == gpu@.shape
    &&& cpu@.name == gpu@.name
    &&& memory_image(cpu.elements()) == bytes
}

/// The request that copies the elements of `src` to `dst`.
pub open spec fn copy_request<'a, 'b, C, H, T: Scalar>(
    src: TensorGpu<'a, C, H, T>,
    dst: TensorGpu<'b, C, H, T>,
) -> BufferCopy<H> {
    BufferCopy {
        source: src@.data.buffer,
        source_offset: src@.data.offset,
        destination: dst@.data.buffer,
        destination_offset: dst@.data.offset,
        size: src.byte_len() as BufferAddress,
    }
}

impl<'a, C, T: Scalar> TensorCpu<'a, C, T> {
    /// The buffer to create for this tensor on the device.
    pub fn upload(&self) -> (r: BufferInitDescriptor<'a>)
        ensures
            r.label == self@.name,
            r.contents@ == memory_image(self.elements()),
            r.contents@.len() == self.byte_len(),
            r.usage == STORAGE | COPY_DST | COPY_SRC,
            r.usage == 0x8c,
    {
        assert(0x80u32 | 0x8u32 | 0x4u32 == 0x8c) by (bit_vector);
        let contents = T::cast_to_bytes(self.as_slice());
        BufferInitDescriptor { label: self.name, contents, usage: STORAGE | COPY_DST | COPY_SRC }
    }

    /// The tensor on the host with the elements of `value`, once `bytes` have been read from
    /// where it lies.
    pub fn from_gpu<H>(value: TensorGpu<'a, C, H, T>, bytes: &[u8]) -> (r: Self)
        requires
            bytes@.len() == value.byte_len(),
        ensures
            downloaded(value, bytes@, r),
            r@.context == value@.context,
            r@.shape == value@.shape,
            r@.name == value@.name,
            memory_image(r.elements()) == bytes@,
    {
        let ghost (volume, size): (nat, nat) = (value@.shape.volume(), size_of::<T>());
        proof {
            T::lemma_size();
            vstd::arithmetic::div_mod::lemma_mod_multiples_basic(volume as int, size as int);
        }
        let data = T::cast_from_bytes(bytes);
        proof {
            let len = data@.len();
            assert(len == volume) by (nonlinear_arith)
                requires
                    len * size == volume * size,
                    size > 0,
            ;
        }
        let Tensor { context, shape, name, .. } = value;
        Tensor { context, shape, name, data: Cow::Owned(data), phantom: PhantomData }
    }
}

impl<'a, C, H, T: Scalar> TensorGpu<'a, C, H, T> {
    /// The part of `memory`, which the buffer of this tensor holds, that its elements take.
    pub open spec fn bytes(self, memory: Seq<u8>) -> Seq<u8> {
        memory.subrange(
            self@.data.offset as int,
            self@.data.offset + self.byte_len(),
        )
    }

    /// The part of its buffer that this tensor takes, to be bound to a pipeline.
    pub fn binding(&self) -> (r: BufferBinding<'_, H>)
        requires
            self.byte_len() <= usize::MAX,
        ensures
            *r.buffer == *self@.data.buffer,
            r.offset == self@.data.offset,
            r.size == (if self.byte_len() == 0 {
                None
            } else {
                Some(self.byte_len() as BufferAddress)
            }),
    {
        let size = self.byte_size() as BufferAddress;
        BufferBinding {
            buffer: &self.data.buffer,
            offset: self.data.offset,
            size: if size == 0 {
                None
            } else {
                Some(size)
            },
        }
    }

    /// The tensor on the device with the elements of `value`, once the device has created
    /// `buffer` for it.
    pub fn from_cpu(value: TensorCpu<'a, C, T>, buffer: Buffer<H>) -> (r: Self)
        requires
            value.byte_len() <= buffer.size,
        ensures
            uploaded(value, r),
            r@.context == value@.context,
            r@.shape == value@.shape,
            r@.name == value@.name,
            *r@.data.buffer == buffer,
            r@.data.offset == 0,
            r@.data == (TensorBuffer { buffer: Arc::new(buffer), offset: 0 }),
    {
        let Tensor { context, shape, name, .. } = value;
        TensorGpu::init(context, shape, name, buffer)
    }

    /// The part of its buffer that this tensor takes.
    pub fn range(&self) -> (r: Range<BufferAddress>)
        requires
            self.byte_len() <= usize::MAX,
        ensures
            r.start == self@.data.offset,
            r.end == self@.data.offset + self.byte_len(),
            r.end <= self@.data.buffer.size,
    {
        proof {
            use_type_invariant(self);
        }
        let size = self.byte_size() as BufferAddress;
        self.data.offset..self.data.offset + size
    }
}

/// Something that copies the elements of one tensor to another.
pub trait CopyTensor<Source, Destination> {
    /// Whether a copy of `src` to `dst` can be asked for.
    spec fn copy_req(&self, src: &Source, dst: &Destination) -> bool;

    /// Copies the elements of `src` to `dst`. Fails if their shapes do not match.
    fn copy_tensor(&mut self, src: &Source, dst: &Destination) -> (r: Result<(), TensorError>)
        requires
            old(self).copy_req(src, dst),
    ;
}

impl<'a, 'b, C, H, T: Scalar> CopyTensor<
    TensorGpu<'a, C, H, T>,
    TensorGpu<'b, C, H, T>,
> for CommandEncoder<H> {
    open spec fn copy_req(
        &self,
        src: &TensorGpu<'a, C, H, T>,
        dst: &TensorGpu<'b, C, H, T>,
    ) -> bool {
        src@.shape@ == dst@.shape@ ==> src.byte_len() <= usize::MAX
    }

    fn copy_tensor(&mut self, src: &TensorGpu<'a, C, H, T>, dst: &TensorGpu<'b, C, H, T>) -> (r:
        Result<(), TensorError>)
        ensures
            if src@.shape@ == dst@.shape@ {
                &&& r == Ok::<(), TensorError>(())
                &&& final(self).copies@ == old(self).copies@.push(copy_request(*src, *dst))
                &&& copy_request(*src, *dst).size == src.byte_len()
                &&& copy_request(*src, *dst).in_bounds()
                &&& final(self).copies@.len() == old(self).copies@.len() + 1
                &&& final(self).copies@.last().source == src@.data.buffer
                &&& final(self).copies@.last().source_offset == src@.data.offset
                &&& final(self).copies@.last().destination == dst@.data.buffer
                &&& final(self).copies@.last().destination_offset == dst@.data.offset
                &&& final(self).copies@.last().size == (src@.shape@[0] * src@.shape@[1]
                    * src@.shape@[2] * src@.shape@[3]) * size_of::<T>()
                &&& forall|i: int|
                    0 <= i < old(self).copies@.len() ==> final(self).copies@[i] == old(
                        self,
                    ).copies@[i]
            } else {
                &&& r == Err::<(), TensorError>(TensorError::Shape(src@.shape, dst@.shape))
                &&& *final(self) == *old(self)
            },
    {
        if src.shape != dst.shape {
            return Err(TensorError::Shape(src.shape, dst.shape));
        }
        proof {
            use_type_invariant(src);
            use_type_invariant(dst);
        }
        let size = src.byte_size() as BufferAddress;
        self.copies.push(
            BufferCopy {
                source: src.data.buffer.clone(),
                source_offset: src.data.offset,
                destination: dst.data.buffer.clone(),
                destination_offset: dst.data.offset,
                size,
            },
        );
        Ok(())
    }
}

} // verus!
