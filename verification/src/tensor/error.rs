//! Why a tensor is refused.

use crate::tensor::device::BufferAddress;
use crate::tensor::shape::TensorShape;
use crate::text::{append_decimal, decimal};
use vstd::prelude::*;

verus! {

/// Why a tensor cannot be made or copied.
#[derive(Debug, Clone, Copy)]
pub enum TensorError {
    Size(usize, usize),
    Shape(TensorShape, TensorShape),
    Overflow { buffer_size: BufferAddress, offset: BufferAddress, size: BufferAddress },
    DeviceError,
}

impl TensorError {
    /// The message of this error.
    pub open spec fn text(self) -> Seq<char> {
        match self {
            TensorError::Size(a, b) => "Data size not match: "@ + decimal(a as nat) + " vs. "@
                + decimal(b as nat),
            TensorError::Shape(a, b) => "Tensor shape not match: "@ + a.text() + " vs. "@
                + b.text(),
            TensorError::Overflow { buffer_size, offset, size } =>
            "Buffer overflow with buffer size: "@ + decimal(buffer_size as nat)
                + ", slice offset: "@ + decimal(offset as nat) + " and size: "@ + decimal(
                size as nat,
            ),
            TensorError::DeviceError => "Tensor not on the same device"@,
        }
    }

    /// The message of this error.
    pub fn to_string(&self) -> (r: String)
        ensures
            r@ == self.text(),
    {
        let mut text = String::new();
        match self {
            TensorError::Size(a, b) => {
                text.append("Data size not match: ");
                append_decimal(&mut text, *a as u64);
                text.append(" vs. ");
                append_decimal(&mut text, *b as u64);
            },
            TensorError::Shape(a, b) => {
                text.append("Tensor shape not match: ");
                text.append(a.to_string().as_str());
                text.append(" vs. ");
                text.append(b.to_string().as_str());
            },
            TensorError::Overflow { buffer_size, offset, size } => {
                text.append("Buffer overflow with buffer size: ");
                append_decimal(&mut text, *buffer_size);
                text.append(", slice offset: ");
                append_decimal(&mut text, *offset);
                text.append(" and size: ");
                append_decimal(&mut text, *size);
            },
            TensorError::DeviceError => {
                text.append("Tensor not on the same device");
            },
        }
        assert(text@ =~= self.text());
        text
    }
}

/// The message about two sizes names both, in the order in which they are compared.
pub proof fn law_size_message(a: usize, b: usize, r: String)
    requires
        call_ensures(TensorError::to_string, (&TensorError::Size(a, b),), r),
    ensures
        r@ == "Data size not match: "@ + decimal(a as nat) + " vs. "@ + decimal(b as nat),
{
}

/// The message about two shapes names the extents of both, in the order in which they are compared.
pub proof fn law_shape_message(a: TensorShape, b: TensorShape, x: String, y: String, r: String)
    requires
        call_ensures(TensorShape::to_string, (&a,), x),
        call_ensures(TensorShape::to_string, (&b,), y),
        call_ensures(TensorError::to_string, (&TensorError::Shape(a, b),), r),
    ensures
        r@ == "Tensor shape not match: "@ + x@ + " vs. "@ + y@,
{
}

/// The message about a buffer names its size, and where the tensor begins and how long it is.
pub proof fn law_overflow_message(
    buffer_size: BufferAddress,
    offset: BufferAddress,
    size: BufferAddress,
    r: String,
)
    requires
        call_ensures(
            TensorError::to_string,
            (&TensorError::Overflow { buffer_size, offset, size },),
            r,
        ),
    ensures
        r@ == "Buffer overflow with buffer size: "@ + decimal(buffer_size as nat)
            + ", slice offset: "@ + decimal(offset as nat) + " and size: "@ + decimal(size as nat),
{
}

/// The message about another device.
pub proof fn law_device_message(r: String)
    requires
        call_ensures(TensorError::to_string, (&TensorError::DeviceError,), r),
    ensures
        r@ == "Tensor not on the same device"@,
{
}

} // verus!
