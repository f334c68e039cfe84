//! Tokens of a model's vocabulary.

use vstd::prelude::*;

verus! {

/// A token id.
#[derive(Clone, Copy, Debug, PartialEq, Eq, PartialOrd, Ord, Hash, Structural)]
pub struct LlamaToken(pub i32);

} // verus!
