use web_rwkv::model::{
    BackedStateTrait, LayerFlags, Lora, LoraBlend, LoraBlendPattern, ModelBuilder, ModelError,
    ModelInfo, ModelStateTrait, ModelTrait, ModelVersion, Quantization, StateBuilder,
};
use web_rwkv::tensor::{Binary32, TensorError};

fn info() -> ModelInfo {
    ModelInfo {
        version: ModelVersion::V5,
        num_layers: 24,
        num_emb: 1024,
        num_hidden: 3584,
        num_vocab: 65536,
        head_size: 64,
    }
}

struct Backed {
    context: &'static str,
    max_batch: usize,
    chunk_size: usize,
}

impl BackedStateTrait for Backed {
    type Context = &'static str;

    fn from_builder(builder: StateBuilder<&'static str>) -> Self {
        let StateBuilder { context, max_batch, chunk_size, .. } = builder;
        Backed { context, max_batch, chunk_size }
    }

    fn max_batch(&self) -> usize {
        self.max_batch
    }
}

struct State {
    backed: Backed,
    info: ModelInfo,
}

impl ModelStateTrait for State {
    type Context = &'static str;
    type Error = ModelError;
    type BackedState = Backed;

    fn from_builder(builder: StateBuilder<&'static str>) -> Self {
        let info = builder.info.clone();
        State { backed: Backed::from_builder(builder), info }
    }

    fn max_batch(&self) -> usize {
        self.backed.max_batch
    }

    fn load(&self, backed: &Backed) -> Result<(), ModelError> {
        if backed.max_batch == self.backed.max_batch {
            Ok(())
        } else {
            Err(ModelError::BatchSize(backed.max_batch, self.backed.max_batch))
        }
    }

    fn load_batch(&self, _backed: &Backed, batch: usize) -> Result<(), ModelError> {
        let max = self.backed.max_batch;
        if batch < max {
            Ok(())
        } else {
            Err(ModelError::BatchOutOfRange { batch, max })
        }
    }

    fn back(&self) -> Backed {
        Backed { ..self.backed }
    }

    fn back_batch(&self, _batch: usize) -> Result<Backed, ModelError> {
        Ok(Backed { max_batch: 1, ..self.backed })
    }

    fn blit(&self, _other: &Self) -> Result<(), TensorError> {
        Ok(())
    }

    fn blit_batch(&self, _other: &Self, _from: usize, _to: usize) -> Result<(), TensorError> {
        Err(TensorError::DeviceError)
    }
}

#[derive(Debug)]
struct Model {
    info: ModelInfo,
    head_chunk_size: usize,
    token_chunk_size: usize,
    lora: Vec<Vec<u8>>,
    int8: Option<u64>,
}

impl ModelTrait for Model {
    type Context = &'static str;
    type Error = String;
    type ModelState = State;

    fn from_builder(builder: ModelBuilder<'_, &'static str>) -> Result<Self, String> {
        if builder.data.is_empty() {
            return Err(format!("no data in {}", builder.context));
        }
        Ok(Model {
            info: info(),
            head_chunk_size: builder.head_chunk_size,
            token_chunk_size: builder.token_chunk_size,
            lora: builder.lora.iter().map(|l| l.data.to_vec()).collect(),
            int8: match builder.quant {
                Quantization::Unquantized => None,
                Quantization::Int8(layers) => Some(layers.bits()),
            },
        })
    }

    fn info(&self) -> &ModelInfo {
        &self.info
    }

    fn softmax(
        &self,
        input: Vec<Option<Vec<Binary32>>>,
    ) -> Result<Vec<Option<Vec<Binary32>>>, String> {
        Ok(input)
    }

    fn run(
        &self,
        tokens: &mut Vec<Vec<u16>>,
        state: &State,
    ) -> Result<Vec<Option<Vec<Binary32>>>, String> {
        if tokens.len() != state.max_batch() {
            return Err(ModelError::BatchSize(tokens.len(), state.max_batch()).to_string());
        }
        Ok(tokens.drain(..).map(|_| None).collect())
    }
}

#[test]
fn layer_flags_of_one_layer() {
    for layer in 0..64 {
        let flags = LayerFlags::from_layer(layer);
        assert_eq!(flags.bits(), 1 << layer);
        for other in 0..64 {
            assert_eq!(flags.contains_layer(other), layer == other);
        }
    }
}

#[test]
fn layer_flags_of_several_layers() {
    let flags = LayerFlags::from_layer(0).union(LayerFlags::from_layer(5));
    let flags = flags.union(LayerFlags::from_layer(63));
    assert_eq!(flags.bits(), 0x8000_0000_0000_0021);
    assert_eq!(flags, LayerFlags::from_bits_retain(0x8000_0000_0000_0021));
    assert!(flags.contains_layer(63));
    assert!(!flags.contains_layer(1));
    assert!(flags.contains(LayerFlags::from_bits_retain(0x21)));
    assert!(!flags.contains(LayerFlags::from_bits_retain(0x23)));
    assert!(flags.contains(LayerFlags::empty()));
    assert!(!LayerFlags::default().contains(flags));
    assert_eq!(LayerFlags::default(), LayerFlags::empty());
    assert_eq!(LayerFlags::empty().bits(), 0);
}

#[test]
fn quantization_is_off_by_default() {
    assert!(matches!(Quantization::default(), Quantization::Unquantized));
}

#[test]
fn model_errors_have_messages() {
    assert_eq!(ModelError::BatchSize(3, 12).to_string(), "input batch size 3 not match 12");
    assert_eq!(
        ModelError::BatchOutOfRange { batch: 4, max: 0 }.to_string(),
        "batch 4 out of range of max 0"
    );
}

#[test]
fn blend_pattern_keeps_pattern_and_factor() {
    let p = LoraBlendPattern::new(r"blocks\.1\.ffn", 0.25f32.to_bits()).unwrap();
    assert_eq!(p.pattern(), r"blocks\.1\.ffn");
    assert_eq!(f32::from_bits(p.alpha()), 0.25);
    let q = p.clone();
    assert_eq!((q.pattern(), q.alpha()), (p.pattern(), p.alpha()));
}

#[test]
fn blend_pattern_refuses_what_is_no_regex() {
    for pattern in ["foo(bar", r"\w{1000}", "a**(", r"\e"] {
        let refused = LoraBlendPattern::new(pattern, 0).unwrap_err();
        let reason = regex::Regex::new(pattern).unwrap_err().to_string();
        assert_eq!(refused.message, reason);
    }
}

#[test]
fn blend_pattern_goes_by_how_compiling_came_out() {
    let p = LoraBlendPattern::from_outcome("a+", 3, Ok(())).unwrap();
    assert_eq!((p.pattern(), p.alpha()), ("a+", 3));
    let refused = LoraBlendPattern::from_outcome("a(", 3, Err("no".to_string())).unwrap_err();
    assert_eq!(refused.message, "no");
}

#[test]
fn full_blend_is_one_pattern_for_all_blocks() {
    let patterns = LoraBlend::Full(0.5f32.to_bits()).into_patterns();
    assert_eq!(patterns.len(), 1);
    assert_eq!(patterns[0].pattern(), r"blocks\.[0-9]+\.([0-9a-zA-Z\.\_]+)");
    assert_eq!(f32::from_bits(patterns[0].alpha()), 0.5);
    let regex = regex::Regex::new(patterns[0].pattern()).unwrap();
    assert!(regex.is_match("blocks.12.att.time_mix_k"));
    assert!(!regex.is_match("emb.weight"));
}

#[test]
fn default_blend_is_full_with_factor_one() {
    let patterns = LoraBlend::default().into_patterns();
    assert_eq!(patterns.len(), 1);
    assert_eq!(f32::from_bits(patterns[0].alpha()), 1.0);
}

#[test]
fn blend_by_patterns_is_those_patterns() {
    let patterns = vec![
        LoraBlendPattern::new("a", 1).unwrap(),
        LoraBlendPattern::new("b", 2).unwrap(),
    ];
    let blend = LoraBlend::Patterns(patterns);
    let copy = blend.clone();
    let once = blend.into_patterns();
    let texts: Vec<_> = once.iter().map(|p| (p.pattern(), p.alpha())).collect();
    assert_eq!(texts, [("a", 1), ("b", 2)]);
    let again = copy.into_patterns();
    let texts: Vec<_> = again.iter().map(|p| (p.pattern(), p.alpha())).collect();
    assert_eq!(texts, [("a", 1), ("b", 2)]);
}

#[test]
fn model_builder_starts_with_defaults() {
    let builder = ModelBuilder::new(&"gpu", &[1, 2, 3]);
    assert_eq!(builder.context, "gpu");
    assert_eq!(builder.data, [1, 2, 3]);
    assert!(builder.lora.is_empty());
    assert!(matches!(builder.quant, Quantization::Unquantized));
    assert_eq!(builder.head_chunk_size, 4096);
    assert_eq!(builder.token_chunk_size, 32);
}

#[test]
fn model_builder_hands_its_settings_on() {
    let layers = LayerFlags::from_layer(2).union(LayerFlags::from_layer(3));
    let model = ModelBuilder::new(&"gpu", &[0])
        .with_token_chunk_size(1)
        .with_quant(Quantization::Int8(layers))
        .add_lora(Lora { data: &[7], blend: LoraBlend::default() })
        .with_head_chunk_size(8)
        .add_lora(Lora { data: &[8, 9], blend: LoraBlend::default() })
        .with_token_chunk_size(64)
        .build::<Model, State>()
        .unwrap();
    assert_eq!(model.head_chunk_size, 8);
    assert_eq!(model.token_chunk_size, 64);
    assert_eq!(model.lora, vec![vec![7], vec![8, 9]]);
    assert_eq!(model.int8, Some(12));
    assert_eq!(*model.info(), info());
    assert_eq!(model.softmax(vec![Some(vec![1])]), Ok(vec![Some(vec![1])]));
}

#[test]
fn model_builder_hands_the_error_back() {
    let refused = ModelBuilder::new(&"gpu", &[]).build::<Model, State>();
    assert_eq!(refused.unwrap_err(), "no data in gpu");
}

#[test]
fn state_builder_starts_with_one_batch_in_one_chunk() {
    let builder = StateBuilder::new(&"gpu", &info());
    assert_eq!(builder.context, "gpu");
    assert_eq!(builder.info, info());
    assert_eq!(builder.max_batch, 1);
    assert_eq!(builder.chunk_size, 24);
}

#[test]
fn state_builder_hands_its_settings_on() {
    let one = || StateBuilder::new(&"gpu", &info()).with_max_batch(9).with_chunk_size(6);
    let other = || StateBuilder::new(&"gpu", &info()).with_chunk_size(6).with_max_batch(9);
    for builder in [one(), other(), one().with_max_batch(2).with_max_batch(9)] {
        let backed = builder.build_backed::<Backed>();
        assert_eq!((backed.context, backed.max_batch(), backed.chunk_size), ("gpu", 9, 6));
    }
    let state = one().build::<State>();
    assert_eq!((state.max_batch(), state.backed.chunk_size), (9, 6));
    assert_eq!(state.info, info());
    assert_eq!(
        state.load(&other().with_max_batch(2).build_backed()),
        Err(ModelError::BatchSize(2, 9))
    );
}
