//! What models and their states offer, and how they are built.

use crate::model::flags::{law_membership, LayerFlags};
use crate::model::info::{ModelInfo, Quantization};
use crate::model::lora::Lora;
use crate::tensor::error::TensorError;
use crate::tensor::scalar::Binary32;
use vstd::prelude::*;

verus! {

/// The state of a model on the host.
pub trait BackedStateTrait: Sized {
    /// What gives access to the device.
    type Context;

    fn from_builder(builder: StateBuilder<Self::Context>) -> Self;

    fn max_batch(&self) -> usize;
}

/// The state of a model on the device.
pub trait ModelStateTrait: Sized {
    /// What gives access to the device.
    type Context;

    /// Why a transfer between host and device fails.
    type Error;

    type BackedState: BackedStateTrait<Context = Self::Context>;

    fn from_builder(builder: StateBuilder<Self::Context>) -> Self;

    fn max_batch(&self) -> usize;

    /// Load the state from host. Their shapes must match.
    fn load(&self, backed: &Self::BackedState) -> Result<(), Self::Error>;

    /// Load one batch from host. The shape of the backed state should be of one batch.
    fn load_batch(&self, backed: &Self::BackedState, batch: usize) -> Result<(), Self::Error>;

    /// Back the entire device state to host.
    fn back(&self) -> Self::BackedState;

    /// Back one batch of the device state to host.
    fn back_batch(&self, batch: usize) -> Result<Self::BackedState, Self::Error>;

    /// Copy one device state to another. Their shapes must match.
    fn blit(&self, other: &Self) -> Result<(), TensorError>;

    /// Copy one batch from the source state to another.
    fn blit_batch(&self, other: &Self, from_batch: usize, to_batch: usize) -> Result<
        (),
        TensorError,
    >;
}

/// A model.
pub trait ModelTrait: Sized {
    /// What gives access to the device.
    type Context;

    /// Why a model cannot be built or run.
    type Error;

    type ModelState: ModelStateTrait<Context = Self::Context>;

    fn from_builder(builder: ModelBuilder<'_, Self::Context>) -> Result<Self, Self::Error>;

    fn info(&self) -> &ModelInfo;

    /// Softmax of the input tensors.
    fn softmax(&self, input: Vec<Option<Vec<Binary32>>>) -> Result<
        Vec<Option<Vec<Binary32>>>,
        Self::Error,
    >;

    /// Run the model for a batch of tokens as input.
    /// The length of `tokens` must match the number of batches in `state`.
    /// `tokens` may have slots with no tokens, for which `run` won't compute that batch and will
    /// return an empty vector in that corresponding slot.
    fn run(&self, tokens: &mut Vec<Vec<u16>>, state: &Self::ModelState) -> Result<
        Vec<Option<Vec<Binary32>>>,
        Self::Error,
    >;
}

/// Create a model.
pub struct ModelBuilder<'a, C> {
    pub context: C,
    pub data: &'a [u8],
    pub lora: Vec<Lora<'a>>,
    pub quant: Quantization,
    pub head_chunk_size: usize,
    pub token_chunk_size: usize,
}

impl<'a, C> ModelBuilder<'a, C> {
    /// A builder of the model whose weights are `data`, without LoRA and without quantization.
    pub fn new(context: &C, data: &'a [u8]) -> (r: Self) where C: Clone
        ensures
            cloned(*context, r.context),
            r.data == data,
            r.lora@ == Seq::<Lora<'a>>::empty(),
            r.quant == Quantization::Unquantized,
            r.head_chunk_size == 4096,
            r.token_chunk_size == 32,
    {
        ModelBuilder {
            context: context.clone(),
            data,
            lora: vec![],
            quant: Quantization::Unquantized,
            head_chunk_size: 4096,
            token_chunk_size: 32,
        }
    }

    /// This builder with another quantization.
    pub open spec fn set_quant(self, quant: Quantization) -> Self {
        ModelBuilder { quant, ..self }
    }

    /// This builder with another head chunk size.
    pub open spec fn set_head_chunk_size(self, value: usize) -> Self {
        ModelBuilder { head_chunk_size: value, ..self }
    }

    /// This builder with another token chunk size.
    pub open spec fn set_token_chunk_size(self, value: usize) -> Self {
        ModelBuilder { token_chunk_size: value, ..self }
    }

    /// This builder with other LoRAs.
    pub open spec fn set_lora(self, lora: Vec<Lora<'a>>) -> Self {
        ModelBuilder { lora, ..self }
    }

    /// Sets the quantization.
    pub fn with_quant(self, quant: Quantization) -> (r: Self)
        ensures
            r == self.set_quant(quant),
            r.quant == quant,
            r.context == self.context,
            r.data == self.data,
            r.lora == self.lora,
            r.head_chunk_size == self.head_chunk_size,
            r.token_chunk_size == self.token_chunk_size,
    {
        ModelBuilder { quant, ..self }
    }

    /// Adds a LoRA behind those that are there.
    pub fn add_lora(self, lora: Lora<'a>) -> (r: Self)
        ensures
            r.lora@ == self.lora@.push(lora),
            r == self.set_lora(r.lora),
            r.context == self.context,
            r.data == self.data,
            r.quant == self.quant,
            r.head_chunk_size == self.head_chunk_size,
            r.token_chunk_size == self.token_chunk_size,
    {
        let mut builder = self;
        builder.lora.push(lora);
        builder
    }

    /// Sets the head chunk size.
    pub fn with_head_chunk_size(self, value: usize) -> (r: Self)
        ensures
            r == self.set_head_chunk_size(value),
            r.head_chunk_size == value,
            r.context == self.context,
            r.data == self.data,
            r.lora == self.lora,
            r.quant == self.quant,
            r.token_chunk_size == self.token_chunk_size,
    {
        ModelBuilder { head_chunk_size: value, ..self }
    }

    /// Sets the token chunk size.
    pub fn with_token_chunk_size(self, value: usize) -> (r: Self)
        ensures
            r == self.set_token_chunk_size(value),
            r.token_chunk_size == value,
            r.context == self.context,
            r.data == self.data,
            r.lora == self.lora,
            r.quant == self.quant,
            r.head_chunk_size == self.head_chunk_size,
    {
        ModelBuilder { token_chunk_size: value, ..self }
    }

    /// Builds the model: what `M` makes of this builder.
    pub fn build<M, S>(self) -> (r: Result<M, M::Error>) where
        S: ModelStateTrait<Context = C>,
        M: ModelTrait<ModelState = S, Context = C>,

        ensures
            call_ensures(M::from_builder, (self,), r),
    {
        M::from_builder(self)
    }
}

/// Create a model state.
/// - `max_batch`: The maximum number of runtime slots.
/// - `chunk_size`: Internally, the state is split into chunks of layers, since there is a size
/// limit on one GPU buffer (128 MB).
/// If there is only one batch, it is recommended to set `chunk_size` to `info.num_layers`.
pub struct StateBuilder<C> {
    pub context: C,
    pub info: ModelInfo,
    pub max_batch: usize,
    pub chunk_size: usize,
}

impl<C> StateBuilder<C> {
    /// A builder of a state of one batch, with all layers in one chunk.
    pub fn new(context: &C, info: &ModelInfo) -> (r: Self) where C: Clone
        ensures
            cloned(*context, r.context),
            r.info == *info,
            r.max_batch == 1,
            r.chunk_size == info.num_layers,
    {
        StateBuilder {
            context: context.clone(),
            info: info.clone(),
            max_batch: 1,
            chunk_size: info.num_layers,
        }
    }

    /// This builder with another number of slots.
    pub open spec fn set_max_batch(self, value: usize) -> Self {
        StateBuilder { max_batch: value, ..self }
    }

    /// This builder with another chunk size.
    pub open spec fn set_chunk_size(self, value: usize) -> Self {
        StateBuilder { chunk_size: value, ..self }
    }

    /// Sets the maximum number of runtime slots.
    pub fn with_max_batch(self, value: usize) -> (r: Self)
        ensures
            r == self.set_max_batch(value),
            r.max_batch == value,
            r.context == self.context,
            r.info == self.info,
            r.chunk_size == self.chunk_size,
    {
        StateBuilder { max_batch: value, ..self }
    }

    /// Sets the number of layers in a chunk.
    pub fn with_chunk_size(self, value: usize) -> (r: Self)
        ensures
            r == self.set_chunk_size(value),
            r.chunk_size == value,
            r.context == self.context,
            r.info == self.info,
            r.max_batch == self.max_batch,
    {
        StateBuilder { chunk_size: value, ..self }
    }

    /// Builds the state on the device: what `S` makes of this builder.
    pub fn build<S: ModelStateTrait<Context = C>>(self) -> (r: S)
        ensures
            call_ensures(S::from_builder, (self,), r),
    {
        S::from_builder(self)
    }

    /// Builds the state on the host: what `B` makes of this builder.
    pub fn build_backed<B: BackedStateTrait<Context = C>>(self) -> (r: B)
        ensures
            call_ensures(B::from_builder, (self,), r),
    {
        B::from_builder(self)
    }
}

/// The settings of a state are independent of each other: they may come in any order. Of a setting
/// that comes twice the last counts.
pub proof fn law_state_settings<C>(
    builder: StateBuilder<C>,
    max_batch: usize,
    chunk_size: usize,
    value: usize,
)
    ensures
        builder.set_max_batch(max_batch).set_chunk_size(chunk_size) == builder.set_chunk_size(
            chunk_size,
        ).set_max_batch(max_batch),
        builder.set_max_batch(value).set_max_batch(max_batch) == builder.set_max_batch(max_batch),
        builder.set_chunk_size(value).set_chunk_size(chunk_size) == builder.set_chunk_size(
            chunk_size,
        ),
{
}

/// The settings of a model are independent of each other and of its LoRAs: they may come in any
/// order. Of a setting that comes twice the last counts.
pub proof fn law_model_settings<'a, C>(
    builder: ModelBuilder<'a, C>,
    quant: Quantization,
    head: usize,
    token: usize,
    lora: Vec<Lora<'a>>,
    other: Quantization,
    value: usize,
)
    ensures
        builder.set_quant(quant).set_head_chunk_size(head) == builder.set_head_chunk_size(
            head,
        ).set_quant(quant),
        builder.set_quant(quant).set_token_chunk_size(token) == builder.set_token_chunk_size(
            token,
        ).set_quant(quant),
        builder.set_head_chunk_size(head).set_token_chunk_size(token)
            == builder.set_token_chunk_size(token).set_head_chunk_size(head),
        builder.set_lora(lora).set_quant(quant) == builder.set_quant(quant).set_lora(lora),
        builder.set_lora(lora).set_head_chunk_size(head) == builder.set_head_chunk_size(
            head,
        ).set_lora(lora),
        builder.set_lora(lora).set_token_chunk_size(token) == builder.set_token_chunk_size(
            token,
        ).set_lora(lora),
        builder.set_quant(other).set_quant(quant) == builder.set_quant(quant),
        builder.set_head_chunk_size(value).set_head_chunk_size(head)
            == builder.set_head_chunk_size(head),
        builder.set_token_chunk_size(value).set_token_chunk_size(token)
            == builder.set_token_chunk_size(token),
{
}

/// A state has as many slots as were asked for, whatever the number, and all else as it was; so
/// who asks for different numbers gets different states.
pub proof fn law_with_max_batch<C>(
    builder: StateBuilder<C>,
    value: usize,
    r: StateBuilder<C>,
    other: usize,
    s: StateBuilder<C>,
)
    requires
        call_ensures(StateBuilder::<C>::with_max_batch, (builder, value), r),
        call_ensures(StateBuilder::<C>::with_max_batch, (builder, other), s),
    ensures
        r.max_batch == value,
        r.chunk_size == builder.chunk_size,
        r.info == builder.info,
        r.context == builder.context,
        r == s <==> value == other,
{
}

/// A state has as many layers in a chunk as were asked for, whatever the number, and all else as
/// it was; so who asks for different numbers gets different states.
pub proof fn law_with_chunk_size<C>(
    builder: StateBuilder<C>,
    value: usize,
    r: StateBuilder<C>,
    other: usize,
    s: StateBuilder<C>,
)
    requires
        call_ensures(StateBuilder::<C>::with_chunk_size, (builder, value), r),
        call_ensures(StateBuilder::<C>::with_chunk_size, (builder, other), s),
    ensures
        r.chunk_size == value,
        r.max_batch == builder.max_batch,
        r.info == builder.info,
        r.context == builder.context,
        r == s <==> value == other,
{
}

/// What is asked of a new builder of a state, in either order, is what the state gets; of the model
/// it gets what the builder was made from.
pub proof fn law_state_request<C: Clone>(
    context: C,
    info: ModelInfo,
    max_batch: usize,
    chunk_size: usize,
    fresh: StateBuilder<C>,
    wide: StateBuilder<C>,
    done: StateBuilder<C>,
    split: StateBuilder<C>,
    done_too: StateBuilder<C>,
)
    requires
        call_ensures(StateBuilder::<C>::new, (&context, &info), fresh),
        call_ensures(StateBuilder::<C>::with_max_batch, (fresh, max_batch), wide),
        call_ensures(StateBuilder::<C>::with_chunk_size, (wide, chunk_size), done),
        call_ensures(StateBuilder::<C>::with_chunk_size, (fresh, chunk_size), split),
        call_ensures(StateBuilder::<C>::with_max_batch, (split, max_batch), done_too),
    ensures
        done.max_batch == max_batch,
        done.chunk_size == chunk_size,
        done.info == info,
        cloned(context, done.context),
        done_too == done,
        wide.chunk_size == info.num_layers,
        split.max_batch == 1,
{
}

/// A model is quantized as was asked for, whatever the layers, and has all else as it was; so who
/// asks for different layers gets different models.
pub proof fn law_with_quant<'a, C>(
    builder: ModelBuilder<'a, C>,
    quant: Quantization,
    r: ModelBuilder<'a, C>,
    other: Quantization,
    s: ModelBuilder<'a, C>,
)
    requires
        call_ensures(ModelBuilder::<C>::with_quant, (builder, quant), r),
        call_ensures(ModelBuilder::<C>::with_quant, (builder, other), s),
    ensures
        r.quant == quant,
        r.context == builder.context,
        r.data == builder.data,
        r.lora == builder.lora,
        r.head_chunk_size == builder.head_chunk_size,
        r.token_chunk_size == builder.token_chunk_size,
        r == s <==> quant == other,
{
}

/// The layers that are quantized are those that were asked for, one by one.
pub proof fn law_quantized_layers<'a, C>(
    builder: ModelBuilder<'a, C>,
    layers: LayerFlags,
    r: ModelBuilder<'a, C>,
)
    requires
        call_ensures(ModelBuilder::<C>::with_quant, (builder, Quantization::Int8(layers)), r),
    ensures
        r.quant is Int8,
        forall|layer: u64|
            r.quant->Int8_0@.contains(layer) <==> layer < 64 && (layers.spec_bits() >> layer) & 1
                == 1,
{
    assert forall|layer: u64|
        r.quant->Int8_0@.contains(layer) <==> layer < 64 && (layers.spec_bits() >> layer) & 1
            == 1 by {
        law_membership(layers, layer);
    }
}

/// A model has the head chunk size that was asked for, whatever the number, and all else as it was;
/// so who asks for different numbers gets different models.
pub proof fn law_with_head_chunk_size<'a, C>(
    builder: ModelBuilder<'a, C>,
    value: usize,
    r: ModelBuilder<'a, C>,
    other: usize,
    s: ModelBuilder<'a, C>,
)
    requires
        call_ensures(ModelBuilder::<C>::with_head_chunk_size, (builder, value), r),
        call_ensures(ModelBuilder::<C>::with_head_chunk_size, (builder, other), s),
    ensures
        r.head_chunk_size == value,
        r.context == builder.context,
        r.data == builder.data,
        r.lora == builder.lora,
        r.quant == builder.quant,
        r.token_chunk_size == builder.token_chunk_size,
        r == s <==> value == other,
{
}

/// A model has the token chunk size that was asked for, whatever the number, and all else as it
/// was; so who asks for different numbers gets different models.
pub proof fn law_with_token_chunk_size<'a, C>(
    builder: ModelBuilder<'a, C>,
    value: usize,
    r: ModelBuilder<'a, C>,
    other: usize,
    s: ModelBuilder<'a, C>,
)
    requires
        call_ensures(ModelBuilder::<C>::with_token_chunk_size, (builder, value), r),
        call_ensures(ModelBuilder::<C>::with_token_chunk_size, (builder, other), s),
    ensures
        r.token_chunk_size == value,
        r.context == builder.context,
        r.data == builder.data,
        r.lora == builder.lora,
        r.quant == builder.quant,
        r.head_chunk_size == builder.head_chunk_size,
        r == s <==> value == other,
{
}

/// A LoRA that is added comes last, after those that were there before in the order in which they
/// came; and all else is as it was.
pub proof fn law_add_lora<'a, C>(
    builder: ModelBuilder<'a, C>,
    first: Lora<'a>,
    r: ModelBuilder<'a, C>,
    second: Lora<'a>,
    s: ModelBuilder<'a, C>,
)
    requires
        call_ensures(ModelBuilder::<C>::add_lora, (builder, first), r),
        call_ensures(ModelBuilder::<C>::add_lora, (r, second), s),
    ensures
        s.lora@.len() == builder.lora@.len() + 2,
        s.lora@[s.lora@.len() - 2] == first,
        s.lora@[s.lora@.len() - 1] == second,
        forall|i: int| 0 <= i < builder.lora@.len() ==> s.lora@[i] == builder.lora@[i],
        s.context == builder.context,
        s.data == builder.data,
        s.quant == builder.quant,
        s.head_chunk_size == builder.head_chunk_size,
        s.token_chunk_size == builder.token_chunk_size,
{
}

/// What is asked of a new builder of a model is what the model gets; what is not asked for it gets
/// as a new builder has it.
pub proof fn law_model_request<'a, C: Clone>(
    context: C,
    data: &'a [u8],
    quant: Quantization,
    head: usize,
    token: usize,
    lora: Lora<'a>,
    fresh: ModelBuilder<'a, C>,
    quantized: ModelBuilder<'a, C>,
    headed: ModelBuilder<'a, C>,
    chunked: ModelBuilder<'a, C>,
    done: ModelBuilder<'a, C>,
)
    requires
        call_ensures(ModelBuilder::<C>::new, (&context, data), fresh),
        call_ensures(ModelBuilder::<C>::with_quant, (fresh, quant), quantized),
        call_ensures(ModelBuilder::<C>::with_head_chunk_size, (quantized, head), headed),
        call_ensures(ModelBuilder::<C>::with_token_chunk_size, (headed, token), chunked),
        call_ensures(ModelBuilder::<C>::add_lora, (chunked, lora), done),
    ensures
        done.quant == quant,
        done.head_chunk_size == head,
        done.token_chunk_size == token,
        done.lora@.len() == 1,
        done.lora@[0] == lora,
        done.data == data,
        cloned(context, done.context),
        quantized.head_chunk_size == 4096,
        headed.token_chunk_size == 32,
        fresh.quant == Quantization::Unquantized,
{
}

} // verus!
