//! Frame-rate record of the video capture.
use vstd::prelude::*;

verus! {

/// Frame rate as numerator over denominator (frames per second).
#[derive(Debug, Clone, Copy, PartialEq, Eq, Structural)]
pub struct FrameRate {
    pub numerator: u32,
    pub denominator: u32,
}

impl Default for FrameRate {
    /// 30000/1001 (29.97 frames per second), used where detection fails.
    fn default() -> (r: FrameRate)
        ensures
            r.numerator == 30000 && r.denominator == 1001,
    {
        FrameRate { numerator: 30000, denominator: 1001 }
    }
}

} // verus!
