//! The per-image result of a re-conversion run, and the skip check for files
//! that are already small enough.

use vstd::prelude::*;

verus! {

/// The result of processing one input image: either a new, smaller file was
/// written, or the input was already under the target size and left alone.
///
/// Paths are carried as raw bytes, as the operating system hands them over.
#[derive(Debug, PartialEq)]
pub enum ConversionOutcome {
    Converted { original_size: u64, new_size: u64, new_path: Vec<u8> },
    Skipped { original_size: u64 },
}

/// Decides the fast path: a file strictly smaller than the target is skipped
/// outright, with no decoding and no write. Returns `None` when the file must
/// be shrunk.
pub fn skip_outcome(original_size: u64, target_size: usize) -> (r: Option<ConversionOutcome>)
    ensures
        r == (if original_size < target_size as u64 {
            Some(ConversionOutcome::Skipped { original_size })
        } else {
            None::<ConversionOutcome>
        }),
{
    if original_size < target_size as u64 {
        Some(ConversionOutcome::Skipped { original_size })
    } else {
        None
    }
}

} // verus!
