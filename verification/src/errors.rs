//! The failure taxonomy of the core operations.
use vstd::prelude::*;

use crate::render::{push_dec_i64, signed_dec_chars};

verus! {

/// Why a core operation failed.
///
/// - `LockFailure`: a shared-state guard could not be acquired because a
///   prior holder terminated abnormally while holding it.
/// - `SamplingError`: the underlying metrics source failed; the boundary
///   layer that performs the OS queries attaches the cause text.
/// - `InvalidDimensions`: a resize request carried a non-positive width or
///   height; the offending values are kept.
/// - `InvalidArgument`: a mode or content descriptor outside the accepted
///   domain was offered to the coordinator.
#[derive(Debug, Clone, Copy, PartialEq, Eq, Structural)]
pub enum IslandError {
    LockFailure,
    SamplingError,
    InvalidDimensions { width: i64, height: i64 },
    InvalidArgument,
}

impl IslandError {
    /// A short human-readable description of the failure; a rejected
    /// resize carries the offending values.
    pub fn message(&self) -> (r: String)
        ensures
            self is LockFailure ==> r@ == "shared state lock is poisoned"@,
            self is SamplingError ==> r@ == "host metrics query failed"@,
            self matches IslandError::InvalidDimensions { width, height } ==> r@
                == "invalid window dimensions: "@ + signed_dec_chars(width as int) + "x"@
                + signed_dec_chars(height as int),
            self is InvalidArgument ==> r@ == "unknown island mode or content type"@,
    {
        match self {
            IslandError::LockFailure => String::from_str("shared state lock is poisoned"),
            IslandError::SamplingError => String::from_str("host metrics query failed"),
            IslandError::InvalidDimensions { width, height } => {
                let mut s = String::from_str("invalid window dimensions: ");
                push_dec_i64(&mut s, *width);
                s.append("x");
                push_dec_i64(&mut s, *height);
                proof {
                    assert(s@ =~= "invalid window dimensions: "@ + signed_dec_chars(
                        width as int,
                    ) + "x"@ + signed_dec_chars(height as int));
                }
                s
            },
            IslandError::InvalidArgument => String::from_str(
                "unknown island mode or content type",
            ),
        }
    }
}

} // verus!
