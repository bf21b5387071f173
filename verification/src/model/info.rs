//! What is known of a model.

use crate::model::flags::LayerFlags;
use crate::text::{append_decimal, decimal};
use vstd::prelude::*;

verus! {

/// The architecture of a model.
#[derive(Debug, Clone, Copy, PartialEq, Eq, Hash, Structural)]
pub enum ModelVersion {
    V4,
    V5,
}

/// Why a model or a state refuses a request.
#[derive(Debug, Clone, Copy, PartialEq, Eq, Hash, Structural)]
pub enum ModelError {
    BatchSize(usize, usize),
    BatchOutOfRange { batch: usize, max: usize },
}

impl ModelError {
    /// The message of this error.
    pub open spec fn text(self) -> Seq<char> {
        match self {
            ModelError::BatchSize(lhs, rhs) => "input batch size "@ + decimal(lhs as nat)
                + " not match "@ + decimal(rhs as nat),
            ModelError::BatchOutOfRange { batch, max } => "batch "@ + decimal(batch as nat)
                + " out of range of max "@ + decimal(max as nat),
        }
    }

    /// The message of this error.
    pub fn to_string(&self) -> (r: String)
        ensures
            r@ == self.text(),
    {
        let mut text = String::new();
        match self {
            ModelError::BatchSize(lhs, rhs) => {
                text.append("input batch size ");
                append_decimal(&mut text, *lhs as u64);
                text.append(" not match ");
                append_decimal(&mut text, *rhs as u64);
            },
            ModelError::BatchOutOfRange { batch, max } => {
                text.append("batch ");
                append_decimal(&mut text, *batch as u64);
                text.append(" out of range of max ");
                append_decimal(&mut text, *max as u64);
            },
        }
        assert(text@ =~= self.text());
        text
    }
}

/// The message about two batch sizes names both, in the order in which they are compared.
pub proof fn law_batch_size_message(lhs: usize, rhs: usize, r: String)
    requires
        call_ensures(ModelError::to_string, (&ModelError::BatchSize(lhs, rhs),), r),
    ensures
        r@ == "input batch size "@ + decimal(lhs as nat) + " not match "@ + decimal(rhs as nat),
{
}

/// The message about a batch names it and how many there are.
pub proof fn law_batch_range_message(batch: usize, max: usize, r: String)
    requires
        call_ensures(ModelError::to_string, (&ModelError::BatchOutOfRange { batch, max },), r),
    ensures
        r@ == "batch "@ + decimal(batch as nat) + " out of range of max "@ + decimal(max as nat),
{
}

/// The sizes of a model.
#[derive(Debug, PartialEq, Eq, Hash, Structural)]
pub struct ModelInfo {
    pub version: ModelVersion,
    pub num_layers: usize,
    pub num_emb: usize,
    pub num_hidden: usize,
    pub num_vocab: usize,
    pub head_size: usize,
}

impl Clone for ModelInfo {
    fn clone(&self) -> (r: Self)
        ensures
            r == *self,
    {
        ModelInfo {
            version: self.version,
            num_layers: self.num_layers,
            num_emb: self.num_emb,
            num_hidden: self.num_hidden,
            num_vocab: self.num_vocab,
            head_size: self.head_size,
        }
    }
}

/// How the matrices of a model are quantized.
#[derive(Debug, Clone, Copy)]
pub enum Quantization {
    /// No quantization.
    Unquantized,
    /// Use int8 quantization, given layers to be quantized.
    Int8(LayerFlags),
}

impl Default for Quantization {
    fn default() -> (r: Self)
        ensures
            r == Quantization::Unquantized,
    {
        Quantization::Unquantized
    }
}

} // verus!
