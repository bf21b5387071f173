//! Keeps the sets of scalars and devices closed.

use vstd::prelude::*;

verus! {

/// Implemented by the scalars and the devices of this library, and by nothing else.
pub trait Sealed {

}

impl Sealed for u8 {

}

impl Sealed for u16 {

}

impl Sealed for u32 {

}

} // verus!
