//! Descriptions of models and of their states.

pub mod builder;
pub mod flags;
pub mod info;
pub mod lora;

pub use crate::model::builder::{
    BackedStateTrait, ModelBuilder, ModelStateTrait, ModelTrait, StateBuilder,
};
pub use crate::model::flags::LayerFlags;
pub use crate::model::info::{ModelError, ModelInfo, ModelVersion, Quantization};
pub use crate::model::lora::{Lora, LoraBlend, LoraBlendPattern, PatternError};
