//! Shrinks oversized image files by re-encoding them with a fixed, ordered
//! catalog of codec settings until the output fits strictly under a target
//! byte size.
//!
//! The library holds the decision logic: the skip check for already-small
//! files, the ordered strategy catalog, the first-fit selection over encoding
//! attempts, and the derivation of the output path. Reading and writing files
//! is left to the caller, which hands the file's bytes in and writes the
//! planned output back out.

use vstd::prelude::*;

pub mod codec;
pub mod naming;
pub mod outcome;
pub mod reconvert;
pub mod strategy;

verus! {

/// The default target size in bytes: 15 MiB. An output is accepted only when
/// it is strictly smaller than the target.
pub const DEFAULT_TARGET_SIZE: usize = 15728640;

} // verus!
