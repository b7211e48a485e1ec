//! What the program is told on its command line.

use vstd::prelude::*;

verus! {

/// The arguments of one run.
#[derive(Debug, Clone, PartialEq, Eq)]
pub struct Args {
    /// Path to a ggml model to load for speech to text.
    pub model: String,
    /// Path to a .wav file to process as a command.
    pub wav: String,
}

} // verus!
