//! Where the frames of a video come from.

use vstd::prelude::*;
use crate::ascii::AsciiImage;

verus! {

/// A source of video frames, one grid for each call. How frames are decoded,
/// paced or ended is left to the type that implements it.
pub trait FrameSource {
    /// The next frame.
    fn get_frames() -> AsciiImage;
}

} // verus!
