//! Enumerations used by context parameters.

use vstd::prelude::*;

verus! {

/// What a context is for.
#[derive(Clone, Copy, Debug, PartialEq, Eq, Structural)]
pub enum LlamaContextType {
    /// An ordinary context.
    Default,
    /// A draft context for multi-token prediction.
    Mtp,
}

impl LlamaContextType {
    /// The native code.
    pub open spec fn native_code(self) -> u32 {
        match self {
            LlamaContextType::Default => 0,
            LlamaContextType::Mtp => 1,
        }
    }

    /// Returns the native code.
    pub fn native(self) -> (code: u32)
        ensures
            code == self.native_code(),
    {
        match self {
            LlamaContextType::Default => 0,
            LlamaContextType::Mtp => 1,
        }
    }
}

/// How rotary position embeddings are scaled.
#[derive(Clone, Copy, Debug, PartialEq, Eq, Structural)]
pub enum RopeScalingType {
    /// As the model specifies.
    Unspecified,
    /// No scaling.
    Unscaled,
    /// Linear scaling.
    Linear,
    /// YaRN scaling.
    Yarn,
}

impl RopeScalingType {
    /// The native code.
    pub open spec fn native_code(self) -> int {
        match self {
            RopeScalingType::Unspecified => -1,
            RopeScalingType::Unscaled => 0,
            RopeScalingType::Linear => 1,
            RopeScalingType::Yarn => 2,
        }
    }

    /// Returns the native code.
    pub fn native(self) -> (code: i32)
        ensures
            code == self.native_code(),
    {
        match self {
            RopeScalingType::Unspecified => -1,
            RopeScalingType::Unscaled => 0,
            RopeScalingType::Linear => 1,
            RopeScalingType::Yarn => 2,
        }
    }
}

/// How token embeddings are pooled by sequence.
#[derive(Clone, Copy, Debug, PartialEq, Eq, Structural)]
pub enum LlamaPoolingType {
    /// As the model specifies.
    Unspecified,
    /// No pooling.
    Unpooled,
    /// The mean of the tokens.
    Mean,
    /// The first token.
    Cls,
    /// The last token.
    Last,
    /// A classification head for ranking.
    Rank,
}

impl LlamaPoolingType {
    /// The native code.
    pub open spec fn native_code(self) -> int {
        match self {
            LlamaPoolingType::Unspecified => -1,
            LlamaPoolingType::Unpooled => 0,
            LlamaPoolingType::Mean => 1,
            LlamaPoolingType::Cls => 2,
            LlamaPoolingType::Last => 3,
            LlamaPoolingType::Rank => 4,
        }
    }

    /// Returns the native code.
    pub fn native(self) -> (code: i32)
        ensures
            code == self.native_code(),
    {
        match self {
            LlamaPoolingType::Unspecified => -1,
            LlamaPoolingType::Unpooled => 0,
            LlamaPoolingType::Mean => 1,
            LlamaPoolingType::Cls => 2,
            LlamaPoolingType::Last => 3,
            LlamaPoolingType::Rank => 4,
        }
    }
}

/// Native codes count the variants up from their first: from zero for context types, and from
/// minus one, which leaves the choice to the model, for position scaling and pooling.
pub proof fn law_native_codes_count_the_variants(
    context_type: LlamaContextType,
    scaling: RopeScalingType,
    pooling: LlamaPoolingType,
)
    ensures
        context_type == LlamaContextType::Default <==> context_type.native_code() == 0,
        context_type == LlamaContextType::Mtp <==> context_type.native_code() == 1,
        scaling == RopeScalingType::Unspecified <==> scaling.native_code() == -1,
        scaling == RopeScalingType::Unscaled <==> scaling.native_code() == 0,
        scaling == RopeScalingType::Linear <==> scaling.native_code() == 1,
        scaling == RopeScalingType::Yarn <==> scaling.native_code() == 2,
        pooling == LlamaPoolingType::Unspecified <==> pooling.native_code() == -1,
        pooling == LlamaPoolingType::Unpooled <==> pooling.native_code() == 0,
        pooling == LlamaPoolingType::Mean <==> pooling.native_code() == 1,
        pooling == LlamaPoolingType::Cls <==> pooling.native_code() == 2,
        pooling == LlamaPoolingType::Last <==> pooling.native_code() == 3,
        pooling == LlamaPoolingType::Rank <==> pooling.native_code() == 4,
{
}

} // verus!
