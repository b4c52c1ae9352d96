//! Placeholder for a speech model: it can be named, and nothing runs on it.
use vstd::prelude::*;

verus! {

/// A speech model. No operation is implemented for it.
pub struct WhisperModel {}

/// An execution context of a speech model. No operation is implemented for
/// it.
pub struct WhisperContext {}

} // verus!
