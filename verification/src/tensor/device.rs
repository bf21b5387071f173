//! The devices that tensors live on, and the buffers of the device that is not the host.

use crate::tensor::scalar::Scalar;
use crate::tensor::sealed::Sealed;
use std::borrow::Cow;
use std::marker::PhantomData;
use std::sync::Arc;
use vstd::prelude::*;

verus! {

/// A number of bytes in a buffer, or a place in it.
pub type BufferAddress = u64;

/// What a buffer may be used for: a set of the flags below, which are those of WebGPU's
/// `GPUBufferUsage`.
pub type BufferUsages = u32;

/// The buffer may be the source of a copy.
pub const COPY_SRC: BufferUsages = 0x4;

/// The buffer may be the destination of a copy.
pub const COPY_DST: BufferUsages = 0x8;

/// The buffer may be bound as storage.
pub const STORAGE: BufferUsages = 0x80;

/// A buffer of the device.
#[derive(Debug)]
pub struct Buffer<H> {
    /// What the device knows the buffer by.
    pub handle: H,
    /// The length of the buffer in bytes.
    pub size: BufferAddress,
}

/// A place in a buffer, from which on a tensor keeps its elements.
#[derive(Debug)]
pub struct TensorBuffer<H> {
    pub buffer: Arc<Buffer<H>>,
    pub offset: BufferAddress,
}

impl<H> Clone for TensorBuffer<H> {
    /// Another reference to the same buffer.
    fn clone(&self) -> (r: Self)
        ensures
            r == *self,
    {
        TensorBuffer { buffer: self.buffer.clone(), offset: self.offset }
    }
}

/// A request to create a buffer.
#[derive(Debug, Clone, Copy)]
pub struct BufferDescriptor<'a> {
    pub label: Option<&'a str>,
    pub size: BufferAddress,
    pub usage: BufferUsages,
    pub mapped_at_creation: bool,
}

/// A request to create a buffer that begins with `contents`.
#[derive(Debug)]
pub struct BufferInitDescriptor<'a> {
    pub label: Option<&'a str>,
    pub contents: Vec<u8>,
    pub usage: BufferUsages,
}

/// A part of a buffer, to be bound to a pipeline.
#[derive(Debug)]
pub struct BufferBinding<'b, H> {
    pub buffer: &'b Buffer<H>,
    pub offset: BufferAddress,
    /// The number of bytes, or `None` for all up to the end of the buffer.
    pub size: Option<BufferAddress>,
}

/// A request to copy bytes from one buffer to another.
#[derive(Debug)]
pub struct BufferCopy<H> {
    pub source: Arc<Buffer<H>>,
    pub source_offset: BufferAddress,
    pub destination: Arc<Buffer<H>>,
    pub destination_offset: BufferAddress,
    pub size: BufferAddress,
}

impl<H> BufferCopy<H> {
    /// Whether the copy reads and writes inside its buffers.
    pub open spec fn in_bounds(self) -> bool {
        &&& self.source_offset + self.size <= self.source.size
        &&& self.destination_offset + self.size <= self.destination.size
    }

    /// What the destination holds after the copy, where the source held `source` and the
    /// destination held `destination`.
    pub open spec fn outcome(self, source: Seq<u8>, destination: Seq<u8>) -> Seq<u8> {
        Seq::new(
            destination.len(),
            |i: int|
                if self.destination_offset <= i < self.destination_offset + self.size {
                    source[i - self.destination_offset + self.source_offset]
                } else {
                    destination[i]
                },
        )
    }

    /// What the buffers of the device hold after the copy, where they held `memory`.
    pub open spec fn served(self, memory: Map<Arc<Buffer<H>>, Seq<u8>>) -> Map<
        Arc<Buffer<H>>,
        Seq<u8>,
    > {
        memory.insert(
            self.destination,
            self.outcome(memory[self.source], memory[self.destination]),
        )
    }
}

/// A list of requests to the device, in the order in which it is to serve them.
#[derive(Debug)]
pub struct CommandEncoder<H> {
    pub copies: Vec<BufferCopy<H>>,
}

/// A device that tensors live on.
pub trait Device: Sealed {
    /// How the device keeps the elements of a tensor.
    type Data: Clone;

    /// Whether `data` can be that of a tensor of `len` elements of `byte_size` bytes each.
    spec fn holds(data: Self::Data, len: nat, byte_size: nat) -> bool;
}

/// The host.
pub struct Cpu<'a, T>(&'a PhantomData<T>);

/// The device, which knows its buffers by an `H`.
pub struct Gpu<H>(PhantomData<H>);

impl<'a, T> Sealed for Cpu<'a, T> {

}

impl<H> Sealed for Gpu<H> {

}

/// The elements in `data`.
pub open spec fn elements<'a, T: Scalar>(data: Cow<'a, [T]>) -> Seq<T> {
    match data {
        Cow::Borrowed(slice) => slice@,
        Cow::Owned(vec) => vec@,
    }
}

impl<'a, T: Scalar> Device for Cpu<'a, T> {
    type Data = Cow<'a, [T]>;

    open spec fn holds(data: Self::Data, len: nat, byte_size: nat) -> bool {
        elements(data).len() == len
    }
}

impl<H> Device for Gpu<H> {
    type Data = TensorBuffer<H>;

    open spec fn holds(data: Self::Data, len: nat, byte_size: nat) -> bool {
        data.offset + len * byte_size <= data.buffer.size
    }
}

} // verus!
