//! Tensors on the host and on a GPU, and the descriptions from which models and their states are
//! built.
//!
//! The device itself stays outside. A tensor carries a context of any type `C`, which gives access
//! to the device, and a buffer of the device is known by a handle of any type `H`. Where the device
//! has work to do, this library says what to ask of it, and takes what it answers.

pub mod model;
pub mod tensor;
pub mod text;
