//! LoRA weights and how they are blended into a model.

use crate::tensor::scalar::Binary32;
use vstd::prelude::*;

verus! {

/// Why a pattern is refused.
#[derive(Debug, PartialEq, Eq)]
pub struct PatternError {
    /// What the regular expression engine has against the pattern.
    pub message: String,
}

/// What [`regex::Regex::new`] has against `pattern`, or `None` where it compiles it. It depends on
/// the number of bits in an address besides, since a pattern is also refused where too many bytes
/// are needed to keep it compiled.
pub uninterp spec fn regex_refusal(pattern: Seq<char>, address_bits: nat) -> Option<Seq<char>>;

/// What the regular expression engine has against `pattern` on this machine, or `None` where it
/// compiles it.
pub open spec fn refusal(pattern: Seq<char>) -> Option<Seq<char>> {
    regex_refusal(pattern, usize::BITS as nat)
}

/// The pattern that matches all weights of all blocks.
pub open spec fn default_pattern() -> Seq<char> {
    r"blocks\.[0-9]+\.([0-9a-zA-Z\.\_]+)"@
}

/// Calls [`regex::Regex::new`], and keeps of what it gives only whether it succeeded and the
/// message where it did not. Trusted: both depend on nothing but the pattern and the machine; and
/// the one pattern that this library itself brings along compiles, on any machine.
#[verifier::external_body]
fn try_compile(pattern: &str) -> (r: Result<(), String>)
    ensures
        r is Ok <==> regex_refusal(pattern@, usize::BITS as nat) is None,
        r matches Err(message) ==> regex_refusal(pattern@, usize::BITS as nat) == Some(message@),
        pattern@ == default_pattern() ==> r is Ok,
{
    match regex::Regex::new(pattern) {
        Ok(_) => Ok(()),
        Err(error) => Err(error.to_string()),
    }
}

/// A set of tensors in a model, and how strongly the weights for them are blended in.
#[derive(Debug)]
pub struct LoraBlendPattern {
    /// A regex pattern that matches tensors in the model.
    pattern: String,
    /// The blend factor.
    alpha: Binary32,
}

/// What a [`LoraBlendPattern`] is made of.
pub struct PatternView {
    pub pattern: Seq<char>,
    pub alpha: Binary32,
}

impl View for LoraBlendPattern {
    type V = PatternView;

    closed spec fn view(&self) -> PatternView {
        PatternView { pattern: self.pattern@, alpha: self.alpha }
    }
}

impl LoraBlendPattern {
    /// The pattern compiles.
    #[verifier::type_invariant]
    pub open spec fn wf(self) -> bool {
        refusal(self@.pattern) is None
    }

    /// Blends into the tensors that `pattern` matches, with factor `alpha`. Fails if `pattern` is
    /// no regular expression.
    #[inline]
    pub fn new(pattern: &str, alpha: Binary32) -> (r: Result<Self, PatternError>)
        ensures
            match refusal(pattern@) {
                None => r matches Ok(p) && p@ == (PatternView { pattern: pattern@, alpha }),
                Some(message) => r matches Err(e) && e.message@ == message,
            },
            pattern@ == default_pattern() ==> r is Ok,
            r is Ok <==> regex_refusal(pattern@, usize::BITS as nat) is None,
            r matches Ok(p) ==> p@.pattern == pattern@ && p@.alpha == alpha,
            r matches Err(e) ==> regex_refusal(pattern@, usize::BITS as nat) == Some(e.message@),
    {
        let outcome = try_compile(pattern);
        LoraBlendPattern::from_outcome(pattern, alpha, outcome)
    }

    /// What [`new`](LoraBlendPattern::new) gives where compiling `pattern` came out as `outcome`
    /// says: nothing, or a message that says why not.
    pub fn from_outcome(pattern: &str, alpha: Binary32, outcome: Result<(), String>) -> (r: Result<
        Self,
        PatternError,
    >)
        requires
            outcome is Ok ==> refusal(pattern@) is None,
        ensures
            match outcome {
                Ok(_) => r matches Ok(p) && p@ == (PatternView { pattern: pattern@, alpha }),
                Err(message) => r == Err::<Self, PatternError>(PatternError { message }),
            },
            r is Ok <==> outcome is Ok,
            r matches Ok(p) ==> p@.pattern == pattern@ && p@.alpha == alpha,
    {
        match outcome {
            Ok(_) => Ok(LoraBlendPattern { pattern: pattern.to_owned(), alpha }),
            Err(message) => Err(PatternError { message }),
        }
    }

    /// The pattern.
    pub fn pattern(&self) -> (r: &str)
        ensures
            r@ == self@.pattern,
            refusal(r@) is None,
    {
        proof {
            use_type_invariant(self);
        }
        self.pattern.as_str()
    }

    /// The blend factor.
    #[inline]
    pub fn alpha(&self) -> (r: Binary32)
        ensures
            r == self@.alpha,
    {
        self.alpha
    }
}

impl Clone for LoraBlendPattern {
    fn clone(&self) -> (r: Self)
        ensures
            r == *self,
    {
        proof {
            use_type_invariant(self);
        }
        LoraBlendPattern { pattern: self.pattern.clone(), alpha: self.alpha }
    }
}

/// What the weights of a LoRA are blended into, and how strongly.
#[derive(Debug)]
pub enum LoraBlend {
    /// All weights of all blocks, with the same factor.
    Full(Binary32),
    /// The tensors that the patterns match, with the factor of each.
    Patterns(Vec<LoraBlendPattern>),
}

/// The bit pattern of the number one.
pub const ONE: Binary32 = 0x3f80_0000;

impl Default for LoraBlend {
    fn default() -> (r: Self)
        ensures
            r == LoraBlend::Full(ONE),
            r == LoraBlend::Full(0x3f80_0000),
    {
        LoraBlend::Full(ONE)
    }
}

impl LoraBlend {
    /// The patterns that say the same.
    pub open spec fn patterns(self) -> Seq<PatternView> {
        match self {
            LoraBlend::Full(alpha) => seq![PatternView { pattern: default_pattern(), alpha }],
            LoraBlend::Patterns(patterns) => patterns@.map_values(|p: LoraBlendPattern| p@),
        }
    }

    /// The patterns that say the same.
    pub fn into_patterns(self) -> (r: Vec<LoraBlendPattern>)
        ensures
            r@.map_values(|p: LoraBlendPattern| p@) == self.patterns(),
            self matches LoraBlend::Patterns(patterns) ==> r == patterns,
            self matches LoraBlend::Full(alpha) ==> r@.len() == 1 && r@[0]@.pattern
                == default_pattern() && r@[0]@.alpha == alpha,
    {
        match self {
            LoraBlend::Full(alpha) => {
                let mut patterns: Vec<LoraBlendPattern> = vec![];
                if let Ok(pattern) = LoraBlendPattern::new(
                    r"blocks\.[0-9]+\.([0-9a-zA-Z\.\_]+)",
                    alpha,
                ) {
                    patterns.push(pattern);
                }
                assert(patterns@.len() == 1 && patterns@[0]@.alpha == alpha);
                assert(patterns@.map_values(|p: LoraBlendPattern| p@) =~= self.patterns());
                patterns
            },
            LoraBlend::Patterns(patterns) => patterns,
        }
    }
}

impl Clone for LoraBlend {
    fn clone(&self) -> (r: Self)
        ensures
            self matches LoraBlend::Full(_) ==> r == *self,
            self matches LoraBlend::Patterns(_) ==> r matches LoraBlend::Patterns(_),
            self matches LoraBlend::Patterns(patterns) ==> r->Patterns_0@ == patterns@,
            r.patterns() == self.patterns(),
    {
        match self {
            LoraBlend::Full(alpha) => LoraBlend::Full(*alpha),
            LoraBlend::Patterns(patterns) => {
                let copy = patterns.clone();
                assert(copy@ =~= patterns@);
                LoraBlend::Patterns(copy)
            },
        }
    }
}

/// The weights of a LoRA, and how they are blended into a model.
pub struct Lora<'a> {
    pub data: &'a [u8],
    pub blend: LoraBlend,
}

/// A full blend is one pattern, that of all weights of all blocks, with the factor that was asked
/// for, whatever it is; so who asks for different factors gets different ones.
pub proof fn law_full_blend(
    alpha: Binary32,
    r: Vec<LoraBlendPattern>,
    other: Binary32,
    s: Vec<LoraBlendPattern>,
)
    requires
        call_ensures(LoraBlend::into_patterns, (LoraBlend::Full(alpha),), r),
        call_ensures(LoraBlend::into_patterns, (LoraBlend::Full(other),), s),
    ensures
        r@.len() == 1,
        r@[0]@.pattern == r"blocks\.[0-9]+\.([0-9a-zA-Z\.\_]+)"@,
        r@[0]@.alpha == alpha,
        r@[0]@ == s@[0]@ <==> alpha == other,
{
}

/// A blend by patterns is those patterns, in the order in which they were given and with their
/// factors.
pub proof fn law_blend_by_patterns(patterns: Vec<LoraBlendPattern>, r: Vec<LoraBlendPattern>)
    requires
        call_ensures(LoraBlend::into_patterns, (LoraBlend::Patterns(patterns),), r),
    ensures
        r@.len() == patterns@.len(),
        forall|i: int| 0 <= i < patterns@.len() ==> r@[i] == patterns@[i],
{
}

/// The patterns that a blend stands for are those that it gives.
pub proof fn law_blend_patterns(blend: LoraBlend, r: Vec<LoraBlendPattern>)
    requires
        call_ensures(LoraBlend::into_patterns, (blend,), r),
    ensures
        blend.patterns().len() == r@.len(),
        forall|i: int| 0 <= i < r@.len() ==> blend.patterns()[i] == r@[i]@,
        blend is Full ==> blend.patterns().len() == 1 && blend.patterns()[0].alpha
            == blend->Full_0,
{
    let views = r@.map_values(|p: LoraBlendPattern| p@);
    assert(views == blend.patterns());
    assert forall|i: int| 0 <= i < r@.len() implies blend.patterns()[i] == r@[i]@ by {
        assert(views[i] == r@[i]@);
    }
}

/// A copy of a blend gives the same patterns with the same factors.
pub proof fn law_blend_copy(
    blend: LoraBlend,
    copy: LoraBlend,
    r: Vec<LoraBlendPattern>,
    s: Vec<LoraBlendPattern>,
)
    requires
        call_ensures(LoraBlend::clone, (&blend,), copy),
        call_ensures(LoraBlend::into_patterns, (blend,), r),
        call_ensures(LoraBlend::into_patterns, (copy,), s),
    ensures
        r@.len() == s@.len(),
        forall|i: int| 0 <= i < r@.len() ==> r@[i]@ == s@[i]@,
{
    law_blend_patterns(blend, r);
    law_blend_patterns(copy, s);
}

/// A pattern that was accepted says what it was made of, whatever that is; and one is accepted
/// exactly where the regular expression engine has nothing against it.
pub proof fn law_pattern_parts(
    pattern: &str,
    alpha: Binary32,
    r: Result<LoraBlendPattern, PatternError>,
    text: &str,
    factor: Binary32,
)
    requires
        call_ensures(LoraBlendPattern::new, (pattern, alpha), r),
        r is Ok ==> call_ensures(LoraBlendPattern::pattern, (&r->Ok_0,), text),
        r is Ok ==> call_ensures(LoraBlendPattern::alpha, (&r->Ok_0,), factor),
    ensures
        r is Ok <==> regex_refusal(pattern@, usize::BITS as nat) is None,
        r is Ok ==> text@ == pattern@ && factor == alpha,
        r is Err ==> regex_refusal(pattern@, usize::BITS as nat) == Some(r->Err_0.message@),
{
}

/// The patterns that say the same as a blend are, as a blend, what they say.
pub proof fn law_patterns_stable(blend: LoraBlend, patterns: Vec<LoraBlendPattern>)
    requires
        patterns@.map_values(|p: LoraBlendPattern| p@) == blend.patterns(),
    ensures
        LoraBlend::Patterns(patterns).patterns() == blend.patterns(),
{
}

} // verus!
