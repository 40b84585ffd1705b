//! Failures that end a session.

use vstd::prelude::*;

verus! {

/// Why a frame could not be processed. None of these is worth a retry: each
/// shows that what the capture side delivers does not fit the session.
#[derive(Clone, Copy, Debug, PartialEq, Eq, Structural)]
pub enum FrameError {
    /// The source frame is narrower or lower than the output window.
    Size,
    /// A row of the crop would read past the end of the source buffer.
    Bounds,
    /// The output buffer would be larger than a buffer can be.
    Alloc,
}

} // verus!
