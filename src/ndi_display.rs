//! Settings of the display loop that shows a video-network source on the
//! local framebuffer.
use vstd::prelude::*;
use vstd::string::StringExecFns;

verus! {

/// Display loop settings.
pub struct NdiDisplayConfig {
    /// Name of the source to search for (partial match).
    pub source_name: String,
    /// Framebuffer device path.
    pub fb_device: String,
    /// Seconds to search for the source before giving up.
    pub find_timeout_secs: u32,
}

impl Default for NdiDisplayConfig {
    /// No source name, the first framebuffer, 30 seconds to find the source.
    fn default() -> (r: NdiDisplayConfig)
        ensures
            r.source_name@ == Seq::<char>::empty(),
            r.fb_device@ == "/dev/fb0"@,
            r.find_timeout_secs == 30,
    {
        NdiDisplayConfig {
            source_name: String::new(),
            fb_device: String::from_str("/dev/fb0"),
            find_timeout_secs: 30,
        }
    }
}

/// Empty polls (of 100 ms each) after which the receiver reconnects: 10 s.
pub const RECONNECT_AFTER_EMPTY_POLLS: u32 = 100;

/// Empty polls after which the silence is reported: 5 s.
pub const WARN_AFTER_EMPTY_POLLS: u32 = 50;

/// Outcome of one poll of the receiver.
#[derive(Debug, Clone, Copy, PartialEq, Eq, Structural)]
pub enum PollOutcome {
    /// A frame arrived.
    Frame,
    /// No frame within the poll timeout.
    Empty,
    /// The receiver failed.
    Error,
}

/// What the display loop does after a poll.
#[derive(Debug, Clone, Copy, PartialEq, Eq, Structural)]
pub enum DisplayStep {
    /// Show the frame that arrived.
    Show,
    /// Poll again.
    Wait,
    /// Poll again, reporting that no frame came for a while.
    WarnSilent,
    /// Drop the receiver and connect again.
    Reconnect,
}

/// The display loop's decision after a poll, given the empty polls counted
/// so far: a frame is shown and resets the count; an error reconnects; an
/// empty poll is counted, reported at the warning count and reconnects at the
/// reconnect count.
pub fn after_poll(empty_polls: u32, outcome: PollOutcome) -> (r: (u32, DisplayStep))
    ensures
        outcome == PollOutcome::Frame ==> r == (0u32, DisplayStep::Show),
        outcome == PollOutcome::Error ==> r == (empty_polls, DisplayStep::Reconnect),
        outcome == PollOutcome::Empty ==> {
            let n = if empty_polls == u32::MAX { u32::MAX } else { (empty_polls + 1) as u32 };
            &&& r.0 == n
            &&& r.1 == (if n >= RECONNECT_AFTER_EMPTY_POLLS {
                DisplayStep::Reconnect
            } else if n == WARN_AFTER_EMPTY_POLLS {
                DisplayStep::WarnSilent
            } else {
                DisplayStep::Wait
            })
        },
{
    match outcome {
        PollOutcome::Frame => (0, DisplayStep::Show),
        PollOutcome::Error => (empty_polls, DisplayStep::Reconnect),
        PollOutcome::Empty => {
            let n = empty_polls.saturating_add(1);
            if n >= RECONNECT_AFTER_EMPTY_POLLS {
                (n, DisplayStep::Reconnect)
            } else if n == WARN_AFTER_EMPTY_POLLS {
                (n, DisplayStep::WarnSilent)
            } else {
                (n, DisplayStep::Wait)
            }
        },
    }
}

} // verus!
