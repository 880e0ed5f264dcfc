//! Typed failures of the pipeline.
//!
//! Any of these inside a batch job marks that job's structured result;
//! callers receive the per-job outcome instead of an abort. Creating the
//! output directory when it already exists is tolerated and never blocks
//! the write that follows; a permission denial or any other write failure
//! is fatal to the owning job.

use vstd::prelude::*;

verus! {

/// What went wrong when touching the filesystem, reduced to the kinds the
/// pipeline distinguishes.
#[derive(Clone, Copy, PartialEq, Eq, Structural, Debug)]
pub enum IoErrorKind {
    /// The path already exists; tolerated for the output directory.
    AlreadyExists,
    /// Permission denied; fatal.
    PermissionDenied,
    /// Any other filesystem failure; fatal.
    Other,
}

/// A job's typed failure.
#[derive(Clone, Copy, PartialEq, Eq, Structural, Debug)]
pub enum CertError {
    /// The template bytes are not a decodable image.
    DecodeError,
    /// A write failed with the given kind.
    IoError(IoErrorKind),
    /// The shaping or typeface backend failed to initialize.
    LayoutError,
    /// The mail relay refused authentication or transmission.
    TransportError,
    /// A malformed address, or a field needed for e-mail is missing.
    DataError,
}

/// Whether the outcome of creating the output directory is fatal. `None`
/// is a fresh directory; an `AlreadyExists` error is the tolerated case.
pub open spec fn spec_dir_outcome_fatal(outcome: Option<IoErrorKind>) -> bool {
    match outcome {
        Option::None => false,
        Option::Some(k) => !(k is AlreadyExists),
    }
}

/// Decides whether creating the output directory failed for real. A
/// directory that already exists is tolerated: the decision is `false`,
/// and the write that follows proceeds.
pub fn dir_outcome_fatal(outcome: &Option<IoErrorKind>) -> (r: bool)
    ensures
        r == spec_dir_outcome_fatal(*outcome),
{
    match outcome {
        Option::None => false,
        Option::Some(k) => match k {
            IoErrorKind::AlreadyExists => false,
            IoErrorKind::PermissionDenied => true,
            IoErrorKind::Other => true,
        },
    }
}

} // verus!
