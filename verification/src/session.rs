//! Session I/O multiplexer: the state machine that drives an interactive
//! session from terminal probing through raw mode, the branch race, and the
//! unconditional terminal restore.
//!
//! The driver decides; the caller performs each returned action (probe the
//! terminal, apply raw mode, run the copy loops, restore, report) and hands
//! the resulting event back. The central guarantee is that the terminal
//! restore is requested exactly once whenever raw mode was applied, no
//! matter which branch of the race finished first or how it finished.

use vstd::prelude::*;

use crate::errors::RshError;

verus! {

/// The phases of an interactive session.
#[derive(Clone, Copy, PartialEq, Eq, Structural, Debug)]
pub enum SessionState {
    Idle,
    ModeCapturing,
    Running,
    Restoring,
    Done,
}

/// What the caller must do next.
#[derive(Clone, Copy, PartialEq, Eq, Structural, Debug)]
pub enum SessionAction {
    /// Check that stdin has a controlling terminal.
    ProbeTerminal,
    /// Capture the terminal attributes and switch to raw mode.
    ApplyRawMode,
    /// Start the copy loops, the resize feed and the completion wait.
    RunBranches,
    /// Reapply the captured terminal attributes.
    RestoreTerminal,
    /// The session is over; report the outcome.
    Report,
}

/// What the caller observed while performing the previous action.
#[derive(Clone, Copy, Debug)]
pub enum SessionEvent {
    /// The session starts.
    Start,
    /// Stdin has no controlling terminal.
    TerminalProbeFailed,
    /// Stdin has a controlling terminal.
    TerminalProbePassed,
    /// Switching to raw mode failed.
    RawModeFailed,
    /// Raw mode is in effect; the pre-mutation attributes are captured.
    RawModeApplied,
    /// The first of the racing branches finished, cleanly or with the
    /// given error; the other branches are abandoned.
    BranchFinished(Option<RshError>),
    /// The restore ran; `true` means it succeeded.
    RestoreFinished(bool),
}

/// The session driver: holds the phase, whether raw mode was ever applied,
/// how many restores were requested, and the session's outcome.
pub struct SessionDriver {
    pub state: SessionState,
    /// The terminal-identity probe passed.
    pub probe_passed: bool,
    /// Raw mode was applied, so a restore is owed.
    pub raw_mode_applied: bool,
    /// How many `RestoreTerminal` actions were issued.
    pub restores_issued: u64,
    /// The error that ended the session, if any.
    pub primary_error: Option<RshError>,
    /// The restore itself failed; reported alongside the primary error,
    /// never in its place.
    pub restore_failed: bool,
}

/// The driver before any event.
pub open spec fn spec_init() -> SessionDriver {
    SessionDriver {
        state: SessionState::Idle,
        probe_passed: false,
        raw_mode_applied: false,
        restores_issued: 0,
        primary_error: None,
        restore_failed: false,
    }
}

/// Which events may be delivered in which phase. Branch outcomes are
/// restricted to what a copy loop, the resize feed or the completion wait
/// can produce.
pub open spec fn event_allowed(d: SessionDriver, ev: SessionEvent) -> bool {
    match ev {
        SessionEvent::Start => d.state == SessionState::Idle,
        SessionEvent::TerminalProbeFailed => d.state == SessionState::ModeCapturing
            && !d.probe_passed,
        SessionEvent::TerminalProbePassed => d.state == SessionState::ModeCapturing
            && !d.probe_passed,
        SessionEvent::RawModeFailed => d.state == SessionState::ModeCapturing && d.probe_passed,
        SessionEvent::RawModeApplied => d.state == SessionState::ModeCapturing && d.probe_passed,
        SessionEvent::BranchFinished(e) => d.state == SessionState::Running && (e is None
            || e == Some(RshError::ChannelError) || e == Some(RshError::SignalSubscriptionError)),
        SessionEvent::RestoreFinished(_) => d.state == SessionState::Restoring,
    }
}

/// The transition relation: the driver after an event, and the action the
/// caller must perform next.
pub open spec fn spec_step(d: SessionDriver, ev: SessionEvent) -> (SessionDriver, SessionAction) {
    match ev {
        SessionEvent::Start => (
            SessionDriver { state: SessionState::ModeCapturing, ..d },
            SessionAction::ProbeTerminal,
        ),
        SessionEvent::TerminalProbeFailed => (
            SessionDriver {
                state: SessionState::Done,
                primary_error: Some(RshError::NotATerminal),
                ..d
            },
            SessionAction::Report,
        ),
        SessionEvent::TerminalProbePassed => (
            SessionDriver { probe_passed: true, ..d },
            SessionAction::ApplyRawMode,
        ),
        SessionEvent::RawModeFailed => (
            SessionDriver {
                state: SessionState::Done,
                primary_error: Some(RshError::TerminalConfigError),
                ..d
            },
            SessionAction::Report,
        ),
        SessionEvent::RawModeApplied => (
            SessionDriver { state: SessionState::Running, raw_mode_applied: true, ..d },
            SessionAction::RunBranches,
        ),
        SessionEvent::BranchFinished(e) => (
            SessionDriver {
                state: SessionState::Restoring,
                primary_error: e,
                restores_issued: (d.restores_issued + 1) as u64,
                ..d
            },
            SessionAction::RestoreTerminal,
        ),
        SessionEvent::RestoreFinished(ok) => (
            SessionDriver { state: SessionState::Done, restore_failed: !ok, ..d },
            SessionAction::Report,
        ),
    }
}

impl SessionDriver {
    /// The driver's invariant: a restore is issued exactly once, at the
    /// transition out of `Running`, and only when raw mode was applied;
    /// a session refused before raw mode owes and issues no restore.
    pub open spec fn wf(self) -> bool {
        &&& self.restores_issued <= 1
        &&& (self.raw_mode_applied ==> self.probe_passed)
        &&& (self.raw_mode_applied ==> self.state == SessionState::Running || self.state
            == SessionState::Restoring || self.state == SessionState::Done)
        &&& (self.state == SessionState::Running ==> self.raw_mode_applied)
        &&& (self.state == SessionState::Restoring ==> self.raw_mode_applied)
        &&& (self.restores_issued == 1 <==> (self.state == SessionState::Restoring || (self.state
            == SessionState::Done && self.raw_mode_applied)))
        &&& (self.state == SessionState::Idle || self.state == SessionState::ModeCapturing
            || self.state == SessionState::Running ==> self.primary_error is None)
        &&& (self.primary_error == Some(RshError::NotATerminal) ==> !self.probe_passed
            && !self.raw_mode_applied && self.restores_issued == 0)
        &&& (self.state == SessionState::Idle || self.state == SessionState::ModeCapturing
            ==> !self.raw_mode_applied && self.restores_issued == 0)
    }

    /// A fresh driver, before the session starts.
    pub fn new() -> (d: SessionDriver)
        ensures
            d == spec_init(),
            d.wf(),
    {
        SessionDriver {
            state: SessionState::Idle,
            probe_passed: false,
            raw_mode_applied: false,
            restores_issued: 0,
            primary_error: None,
            restore_failed: false,
        }
    }

    /// Feeds one event to the driver and returns the next action, exactly
    /// as the transition relation prescribes. The invariant is preserved.
    pub fn step(&mut self, ev: SessionEvent) -> (a: SessionAction)
        requires
            old(self).wf(),
            event_allowed(*old(self), ev),
        ensures
            *final(self) == spec_step(*old(self), ev).0,
            a == spec_step(*old(self), ev).1,
            final(self).wf(),
    {
        match ev {
            SessionEvent::Start => {
                self.state = SessionState::ModeCapturing;
                SessionAction::ProbeTerminal
            },
            SessionEvent::TerminalProbeFailed => {
                self.state = SessionState::Done;
                self.primary_error = Some(RshError::NotATerminal);
                SessionAction::Report
            },
            SessionEvent::TerminalProbePassed => {
                self.probe_passed = true;
                SessionAction::ApplyRawMode
            },
            SessionEvent::RawModeFailed => {
                self.state = SessionState::Done;
                self.primary_error = Some(RshError::TerminalConfigError);
                SessionAction::Report
            },
            SessionEvent::RawModeApplied => {
                self.state = SessionState::Running;
                self.raw_mode_applied = true;
                SessionAction::RunBranches
            },
            SessionEvent::BranchFinished(e) => {
                self.state = SessionState::Restoring;
                self.primary_error = e;
                self.restores_issued = self.restores_issued + 1;
                SessionAction::RestoreTerminal
            },
            SessionEvent::RestoreFinished(ok) => {
                self.state = SessionState::Done;
                self.restore_failed = !ok;
                SessionAction::Report
            },
        }
    }
}

/// The driver after a whole event sequence.
pub open spec fn run_trace(d: SessionDriver, evs: Seq<SessionEvent>) -> SessionDriver
    decreases evs.len(),
{
    if evs.len() == 0 {
        d
    } else {
        run_trace(spec_step(d, evs[0]).0, evs.skip(1))
    }
}

/// Every event of the sequence is allowed in the phase it meets.
pub open spec fn trace_allowed(d: SessionDriver, evs: Seq<SessionEvent>) -> bool
    decreases evs.len(),
{
    evs.len() == 0 || (event_allowed(d, evs[0]) && trace_allowed(
        spec_step(d, evs[0]).0,
        evs.skip(1),
    ))
}

/// How many times a given action is issued along an event sequence.
pub open spec fn count_actions(
    d: SessionDriver,
    evs: Seq<SessionEvent>,
    a: SessionAction,
) -> int
    decreases evs.len(),
{
    if evs.len() == 0 {
        0
    } else {
        (if spec_step(d, evs[0]).1 == a {
            1int
        } else {
            0int
        }) + count_actions(spec_step(d, evs[0]).0, evs.skip(1), a)
    }
}

/// Along an allowed trace the invariant is preserved, and the restore and
/// raw-mode action counts are mirrored in the driver's fields.
proof fn lemma_trace_accounting(d: SessionDriver, evs: Seq<SessionEvent>)
    requires
        d.wf(),
        trace_allowed(d, evs),
    ensures
        run_trace(d, evs).wf(),
        count_actions(d, evs, SessionAction::RestoreTerminal) == run_trace(d, evs).restores_issued
            - d.restores_issued,
        count_actions(d, evs, SessionAction::ApplyRawMode) == (if run_trace(d, evs).probe_passed
            && !d.probe_passed {
            1int
        } else {
            0int
        }),
        run_trace(d, evs).probe_passed ==> d.probe_passed || d.state
            == SessionState::Idle || d.state == SessionState::ModeCapturing,
        d.probe_passed ==> run_trace(d, evs).probe_passed,
    decreases evs.len(),
{
    if evs.len() != 0 {
        let d1 = spec_step(d, evs[0]).0;
        assert(d1.wf());
        lemma_trace_accounting(d1, evs.skip(1));
    }
}

/// The event sequence holds a successful raw-mode switch.
pub open spec fn contains_raw_applied(evs: Seq<SessionEvent>) -> bool {
    exists|k: int| 0 <= k < evs.len() && evs[k] is RawModeApplied
}

/// The raw-mode flag records exactly whether the raw-mode switch succeeded
/// somewhere along the trace.
proof fn lemma_raw_flag_tracks_event(d: SessionDriver, evs: Seq<SessionEvent>)
    requires
        trace_allowed(d, evs),
    ensures
        run_trace(d, evs).raw_mode_applied <==> (d.raw_mode_applied || contains_raw_applied(evs)),
    decreases evs.len(),
{
    if evs.len() == 0 {
    } else {
        let d1 = spec_step(d, evs[0]).0;
        lemma_raw_flag_tracks_event(d1, evs.skip(1));
        if contains_raw_applied(evs.skip(1)) {
            let k = choose|k: int| 0 <= k < evs.skip(1).len() && evs.skip(1)[k] is RawModeApplied;
            assert(evs[k + 1] is RawModeApplied);
        }
        if contains_raw_applied(evs) {
            let k = choose|k: int| 0 <= k < evs.len() && evs[k] is RawModeApplied;
            if k > 0 {
                assert(evs.skip(1)[k - 1] is RawModeApplied);
            }
        }
        if evs[0] is RawModeApplied {
            assert(contains_raw_applied(evs));
        }
    }
}

/// For every session in which the raw-mode switch succeeded, the terminal
/// restore is requested exactly once by the time the session is done, no
/// matter which branch of the race finished first or how it finished.
pub proof fn lemma_restore_exactly_once(evs: Seq<SessionEvent>)
    requires
        trace_allowed(spec_init(), evs),
        run_trace(spec_init(), evs).state == SessionState::Done,
        contains_raw_applied(evs),
    ensures
        count_actions(spec_init(), evs, SessionAction::RestoreTerminal) == 1,
{
    lemma_raw_flag_tracks_event(spec_init(), evs);
    lemma_trace_accounting(spec_init(), evs);
}

/// A session refused because stdin has no controlling terminal ends with
/// the not-a-terminal error before any terminal attribute is touched: no
/// raw-mode application and no restore is ever requested.
pub proof fn lemma_not_a_terminal_touches_nothing(evs: Seq<SessionEvent>)
    requires
        trace_allowed(spec_init(), evs),
        run_trace(spec_init(), evs).primary_error == Some(RshError::NotATerminal),
    ensures
        count_actions(spec_init(), evs, SessionAction::ApplyRawMode) == 0,
        count_actions(spec_init(), evs, SessionAction::RestoreTerminal) == 0,
        !run_trace(spec_init(), evs).raw_mode_applied,
{
    lemma_trace_accounting(spec_init(), evs);
}

} // verus!
