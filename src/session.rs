//! Session supervision: the life of one audio session as a state machine, the
//! capture watchdog, the supervisor that restarts failed sessions, and the
//! mute toggle driven by button events.
//!
//! The decisions are made here; the caller performs the hardware and network
//! work, hands the outcome back as an event, and carries out the action.
use vstd::prelude::*;

verus! {

/// Interval between statistics reports and watchdog checks, in milliseconds.
pub const REPORT_INTERVAL_MS: u64 = 10000;

/// Pause before the supervisor starts a new session, in milliseconds.
pub const RESTART_BACKOFF_MS: u64 = 2000;

/// First pause between attempts to open the audio devices, in milliseconds.
pub const OPEN_RETRY_BASE_MS: u64 = 250;

/// Longest pause between attempts to open the audio devices, in milliseconds.
pub const OPEN_RETRY_MAX_MS: u64 = 2000;

/// Input event type of a key.
pub const EV_KEY: u16 = 1;

/// Key code of the power button.
pub const KEY_POWER: u16 = 116;

/// Why a session failed.
#[derive(Debug, Clone, Copy, PartialEq, Eq, Structural)]
pub enum SessionError {
    /// The capture device failed and could not be recovered in place.
    Capture,
    /// The playback device failed and could not be recovered in place.
    Playback,
    /// No sample was captured during a whole report interval.
    Stall,
}

/// Where a session stands.
#[derive(Debug, Clone, Copy, PartialEq, Eq, Structural)]
pub enum SessionState {
    /// Acquiring the hardware.
    Opening,
    /// Running the period loop.
    Running,
    /// Stopped on request.
    Terminated,
    /// Stopped on an error; the supervisor takes over.
    Failed(SessionError),
}

/// What happened since the last event.
#[derive(Debug, Clone, Copy, PartialEq, Eq, Structural)]
pub enum SessionEvent {
    /// Both audio devices were opened.
    DevicesOpened,
    /// A device could not be opened.
    DevicesUnavailable,
    /// One capture period was read, of this many frames.
    Captured(u64),
    /// A capture read failed; `recovered` tells whether the in-place recovery worked.
    CaptureFailed(bool),
    /// A playback write failed; `recovered` tells whether the in-place recovery worked.
    PlaybackFailed(bool),
    /// A report interval has passed.
    ReportDue,
    /// The stop signal was observed.
    StopRequested,
}

/// What the caller does next.
#[derive(Debug, Clone, Copy, PartialEq, Eq, Structural)]
pub enum SessionAction {
    /// Carry on.
    Continue,
    /// Try to open the devices again after this many milliseconds.
    RetryOpenAfter(u64),
    /// Report the interval's statistics and carry on.
    Report,
    /// Close the session's resources: it has ended.
    Close,
}

/// What the supervisor does once a session has ended.
#[derive(Debug, Clone, Copy, PartialEq, Eq, Structural)]
pub enum SupervisorAction {
    /// Start a new session after this many milliseconds.
    RestartAfter(u64),
    /// Leave: the stop signal was seen or the session stopped cleanly.
    Exit,
    /// The session has not ended.
    Wait,
}

/// The pause before the next attempt to open the devices, after `attempts`
/// failed ones: doubling from the base, capped.
pub open spec fn open_backoff(attempts: u32) -> u64 {
    if attempts >= 3 {
        OPEN_RETRY_MAX_MS
    } else if attempts == 2 {
        1000
    } else if attempts == 1 {
        500
    } else {
        OPEN_RETRY_BASE_MS
    }
}

/// One audio session.
pub struct Session {
    /// Where the session stands.
    pub state: SessionState,
    /// Frames captured since the last report.
    pub captured_in_interval: u64,
    /// Failed attempts to open the devices.
    pub open_attempts: u32,
}

impl Session {
    /// A session about to open its devices.
    pub fn new() -> (r: Session)
        ensures
            r.state == SessionState::Opening,
            r.captured_in_interval == 0,
            r.open_attempts == 0,
    {
        Session { state: SessionState::Opening, captured_in_interval: 0, open_attempts: 0 }
    }

    /// The session has ended, cleanly or not.
    pub open spec fn ended(&self) -> bool {
        self.state is Terminated || self.state is Failed
    }

    /// Applies one event.
    ///
    /// A stop request ends any live session. While opening, an unavailable
    /// device is retried with a growing pause. While running, captured frames
    /// feed the watchdog; a device error that recovery could not mend fails
    /// the session; at each report a whole interval without a captured frame
    /// fails it with a stall. An ended session ignores every event.
    pub fn on_event(&mut self, ev: SessionEvent) -> (r: SessionAction)
        ensures
            old(self).ended() ==> *final(self) == *old(self) && r == SessionAction::Continue,
            !old(self).ended() && ev == SessionEvent::StopRequested ==> final(self).state
                == SessionState::Terminated && r == SessionAction::Close,
            !old(self).ended() && ev != SessionEvent::StopRequested ==> match old(self).state {
                SessionState::Opening => match ev {
                    SessionEvent::DevicesOpened => {
                        &&& final(self).state == SessionState::Running
                        &&& final(self).captured_in_interval == 0
                        &&& final(self).open_attempts == old(self).open_attempts
                        &&& r == SessionAction::Continue
                    },
                    SessionEvent::DevicesUnavailable => {
                        &&& final(self).state == SessionState::Opening
                        &&& final(self).captured_in_interval == old(self).captured_in_interval
                        &&& final(self).open_attempts == (if old(self).open_attempts
                            == u32::MAX { u32::MAX } else { (old(self).open_attempts + 1) as u32 })
                        &&& r == SessionAction::RetryOpenAfter(
                            open_backoff(old(self).open_attempts),
                        )
                    },
                    _ => *final(self) == *old(self) && r == SessionAction::Continue,
                },
                _ => match ev {
                    SessionEvent::Captured(n) => {
                        &&& final(self).state == SessionState::Running
                        &&& final(self).captured_in_interval == (if old(
                            self,
                        ).captured_in_interval + n > u64::MAX { u64::MAX } else { (old(
                            self,
                        ).captured_in_interval + n) as u64 })
                        &&& final(self).open_attempts == old(self).open_attempts
                        &&& r == SessionAction::Continue
                    },
                    SessionEvent::CaptureFailed(recovered) => {
                        &&& final(self).state == (if recovered {
                            SessionState::Running
                        } else {
                            SessionState::Failed(SessionError::Capture)
                        })
                        &&& final(self).captured_in_interval == old(self).captured_in_interval
                        &&& final(self).open_attempts == old(self).open_attempts
                        &&& r == (if recovered {
                            SessionAction::Continue
                        } else {
                            SessionAction::Close
                        })
                    },
                    SessionEvent::PlaybackFailed(recovered) => {
                        &&& final(self).state == (if recovered {
                            SessionState::Running
                        } else {
                            SessionState::Failed(SessionError::Playback)
                        })
                        &&& final(self).captured_in_interval == old(self).captured_in_interval
                        &&& final(self).open_attempts == old(self).open_attempts
                        &&& r == (if recovered {
                            SessionAction::Continue
                        } else {
                            SessionAction::Close
                        })
                    },
                    SessionEvent::ReportDue => {
                        &&& final(self).state == (if old(self).captured_in_interval == 0 {
                            SessionState::Failed(SessionError::Stall)
                        } else {
                            SessionState::Running
                        })
                        &&& final(self).captured_in_interval == 0
                        &&& final(self).open_attempts == old(self).open_attempts
                        &&& r == (if old(self).captured_in_interval == 0 {
                            SessionAction::Close
                        } else {
                            SessionAction::Report
                        })
                    },
                    _ => *final(self) == *old(self) && r == SessionAction::Continue,
                },
            },
    {
        match self.state {
            SessionState::Terminated => return SessionAction::Continue,
            SessionState::Failed(_) => return SessionAction::Continue,
            _ => {},
        }
        if let SessionEvent::StopRequested = ev {
            self.state = SessionState::Terminated;
            return SessionAction::Close;
        }
        match self.state {
            SessionState::Opening => match ev {
                SessionEvent::DevicesOpened => {
                    self.state = SessionState::Running;
                    self.captured_in_interval = 0;
                    SessionAction::Continue
                },
                SessionEvent::DevicesUnavailable => {
                    let pause = open_backoff_ms(self.open_attempts);
                    self.open_attempts = self.open_attempts.saturating_add(1);
                    SessionAction::RetryOpenAfter(pause)
                },
                _ => SessionAction::Continue,
            },
            _ => match ev {
                SessionEvent::Captured(n) => {
                    self.captured_in_interval = self.captured_in_interval.saturating_add(n);
                    SessionAction::Continue
                },
                SessionEvent::CaptureFailed(recovered) => {
                    if recovered {
                        SessionAction::Continue
                    } else {
                        self.state = SessionState::Failed(SessionError::Capture);
                        SessionAction::Close
                    }
                },
                SessionEvent::PlaybackFailed(recovered) => {
                    if recovered {
                        SessionAction::Continue
                    } else {
                        self.state = SessionState::Failed(SessionError::Playback);
                        SessionAction::Close
                    }
                },
                SessionEvent::ReportDue => {
                    let stalled = self.captured_in_interval == 0;
                    self.captured_in_interval = 0;
                    if stalled {
                        self.state = SessionState::Failed(SessionError::Stall);
                        SessionAction::Close
                    } else {
                        SessionAction::Report
                    }
                },
                _ => SessionAction::Continue,
            },
        }
    }
}

/// The pause before the next attempt to open the devices.
pub fn open_backoff_ms(attempts: u32) -> (r: u64)
    ensures
        r == open_backoff(attempts),
{
    if attempts >= 3 {
        OPEN_RETRY_MAX_MS
    } else if attempts == 2 {
        1000
    } else if attempts == 1 {
        500
    } else {
        OPEN_RETRY_BASE_MS
    }
}

/// What the supervisor does with a session in `state`, given whether the
/// stop signal is still clear (`running`).
pub open spec fn supervise_spec(state: SessionState, running: bool) -> SupervisorAction {
    match state {
        SessionState::Failed(_) => if running {
            SupervisorAction::RestartAfter(RESTART_BACKOFF_MS)
        } else {
            SupervisorAction::Exit
        },
        SessionState::Terminated => SupervisorAction::Exit,
        _ => if running {
            SupervisorAction::Wait
        } else {
            SupervisorAction::Exit
        },
    }
}

/// The supervisor's decision: a failed session is followed by a new one
/// after a fixed pause, for as long as no stop signal is seen.
pub fn supervise(state: SessionState, running: bool) -> (r: SupervisorAction)
    ensures
        r == supervise_spec(state, running),
{
    match state {
        SessionState::Failed(_) => if running {
            SupervisorAction::RestartAfter(RESTART_BACKOFF_MS)
        } else {
            SupervisorAction::Exit
        },
        SessionState::Terminated => SupervisorAction::Exit,
        _ => if running {
            SupervisorAction::Wait
        } else {
            SupervisorAction::Exit
        },
    }
}

/// A press of the power button: a key event, of that key, going down.
pub open spec fn is_toggle_spec(event_type: u16, code: u16, value: i32) -> bool {
    event_type == EV_KEY && code == KEY_POWER && value == 1
}

/// Whether an input event is a press of the mute button.
pub fn is_mute_toggle(event_type: u16, code: u16, value: i32) -> (r: bool)
    ensures
        r == is_toggle_spec(event_type, code, value),
{
    event_type == EV_KEY && code == KEY_POWER && value == 1
}

/// The mute flag after an input event: flipped by a press of the button,
/// kept by anything else.
pub fn mute_after_event(muted: bool, event_type: u16, code: u16, value: i32) -> (r: bool)
    ensures
        r == (if is_toggle_spec(event_type, code, value) {
            !muted
        } else {
            muted
        }),
{
    if is_mute_toggle(event_type, code, value) {
        !muted
    } else {
        muted
    }
}

/// Counters of one session, diffed at each report.
pub struct SessionStats {
    /// Packets sent since the session started (wrapping).
    pub packets_sent: u64,
    /// Packets received since the session started (wrapping).
    pub packets_received: u64,
    /// Samples captured since the last report.
    pub samples_captured: u64,
    /// Packets sent at the last report.
    pub sent_at_report: u64,
    /// Packets received at the last report.
    pub received_at_report: u64,
}

/// Counts of one report interval.
#[derive(Debug, Clone, Copy, PartialEq, Eq, Structural)]
pub struct IntervalReport {
    pub packets_sent: u64,
    pub packets_received: u64,
    pub samples_captured: u64,
}

impl SessionStats {
    /// All counters at zero.
    pub fn new() -> (r: SessionStats)
        ensures
            r.packets_sent == 0 && r.packets_received == 0 && r.samples_captured == 0,
            r.sent_at_report == 0 && r.received_at_report == 0,
    {
        SessionStats {
            packets_sent: 0,
            packets_received: 0,
            samples_captured: 0,
            sent_at_report: 0,
            received_at_report: 0,
        }
    }

    /// Closes an interval: the packets sent and received since the previous
    /// report (the counters wrap), and the samples captured, whose counter
    /// starts again from zero.
    pub fn report(&mut self) -> (r: IntervalReport)
        ensures
            r.packets_sent == (old(self).packets_sent - old(self).sent_at_report) % 0x1_0000_0000_0000_0000,
            r.packets_received == (old(self).packets_received - old(self).received_at_report)
                % 0x1_0000_0000_0000_0000,
            r.samples_captured == old(self).samples_captured,
            final(self).packets_sent == old(self).packets_sent,
            final(self).packets_received == old(self).packets_received,
            final(self).sent_at_report == old(self).packets_sent,
            final(self).received_at_report == old(self).packets_received,
            final(self).samples_captured == 0,
    {
        let r = IntervalReport {
            packets_sent: self.packets_sent.wrapping_sub(self.sent_at_report),
            packets_received: self.packets_received.wrapping_sub(self.received_at_report),
            samples_captured: self.samples_captured,
        };
        self.sent_at_report = self.packets_sent;
        self.received_at_report = self.packets_received;
        self.samples_captured = 0;
        r
    }
}

} // verus!
