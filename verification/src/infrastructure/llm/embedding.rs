//! The index of tools by embedding.
use vstd::prelude::*;

verus! {

/// Builds the index the agent picks its tools from.
pub struct Embedding;

} // verus!
