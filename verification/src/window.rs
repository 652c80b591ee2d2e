//! Window-geometry decisions made before any platform call.
//!
//! The windowing system itself is an external collaborator; this module only
//! validates requested sizes and computes the startup placement, in logical
//! pixels.
use vstd::prelude::*;

use crate::errors::IslandError;

verus! {

/// Logical width of the island window at startup.
pub const DEFAULT_WINDOW_WIDTH: i64 = 320;

/// Logical height of the island window at startup.
pub const DEFAULT_WINDOW_HEIGHT: i64 = 40;

/// A resize command that passed validation and may be handed to the
/// windowing collaborator.
#[derive(Debug, Clone, Copy, PartialEq, Eq, Structural)]
pub struct ResizeRequest {
    pub width: i64,
    pub height: i64,
}

/// Checks a requested window size before any platform call is attempted.
/// Non-positive dimensions are rejected with `InvalidDimensions`, carrying
/// the offending values; a positive pair is passed through unchanged.
pub fn validate_resize(width: i64, height: i64) -> (r: Result<ResizeRequest, IslandError>)
    ensures
        r is Ok <==> width > 0 && height > 0,
        r is Ok ==> r->Ok_0 == (ResizeRequest { width, height }),
        r is Err ==> r->Err_0 == (IslandError::InvalidDimensions { width, height }),
{
    if width <= 0 || height <= 0 {
        Err(IslandError::InvalidDimensions { width, height })
    } else {
        Ok(ResizeRequest { width, height })
    }
}

/// Startup placement: the window sits flush with the top edge and centered
/// horizontally on a monitor of the given logical width.
pub fn initial_placement(monitor_width: i64) -> (p: (i64, i64))
    requires
        DEFAULT_WINDOW_WIDTH <= monitor_width,
    ensures
        p.0 == (monitor_width - DEFAULT_WINDOW_WIDTH) / 2,
        p.1 == 0,
{
    ((monitor_width - DEFAULT_WINDOW_WIDTH) / 2, 0)
}

} // verus!
