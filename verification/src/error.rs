//! Error type of the library.
use vstd::prelude::*;

verus! {

/// Errors reported by the library.
#[derive(Debug, Clone)]
pub enum CoreError {
    /// Parameters are out of their allowed range.
    InvalidParams(String),
    /// Polynomial fitting failed.
    FitFailed(String),
    /// No sharpening strength could be selected.
    NoValidRoot { reason: String },
    /// A buffer does not hold the number of components its dimensions imply.
    BufferLengthMismatch { expected_len: usize, got_len: usize },
    /// Width or height is zero.
    EmptyImage,
}

} // verus!
