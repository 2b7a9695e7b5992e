//! The session coordinator: one session per enumerated display, each run to
//! its terminal state on its own inputs, none observing another's state.
//!
//! Enumeration, capture, and the windowing event loops are collaborators
//! outside this crate. They hand the coordinator the enumeration result,
//! one capture result per display, and the per-display input snapshots;
//! the coordinator decides what every session does with them.

use vstd::prelude::*;
use crate::machine::{InputSnapshot, SelectionState, advance_spec};
use crate::session::{CapturedFrame, Screen, init};

verus! {

/// Display enumeration failed; the whole operation aborts with no sessions
/// created.
#[derive(Clone, Copy, PartialEq, Eq, Structural, Debug)]
pub enum EnumerationError {
    /// The platform display query is unavailable.
    PlatformUnavailable,
    /// The query succeeded but reported no displays.
    NoDisplays,
}

/// Capturing one display's framebuffer failed; fatal to that one session
/// only, never retried.
#[derive(Clone, Copy, PartialEq, Eq, Structural, Debug)]
pub enum CaptureError {
    PermissionDenied,
    /// The display disconnected mid-capture.
    DisplayDisconnected,
    /// The capture provider failed for any other reason.
    ProviderFailed,
}

/// How one per-display session ended.
#[derive(Clone, Copy, PartialEq, Eq, Structural, Debug)]
pub enum SessionOutcome {
    /// Capture failed, so the session never presented its overlay.
    CaptureFailed { error: CaptureError },
    /// The session ran. `exited` says whether a terminal event (Escape or
    /// window close) arrived before the inputs ran out; `selection` is the
    /// state the session ended in.
    Ran { exited: bool, selection: SelectionState },
}

/// A session's state after consuming the input snapshots in order, first
/// snapshot first, together with whether a terminal event arrived. A tick
/// holding a terminal event stops the session without advancing the state;
/// every other tick advances it by one transition.
pub open spec fn run_ticks(s: SelectionState, script: Seq<InputSnapshot>) -> (SelectionState, bool)
    decreases script.len(),
{
    if script.len() == 0 {
        (s, false)
    } else if script.first().escape_pressed || script.first().close_requested {
        (s, true)
    } else {
        run_ticks(advance_spec(s, script.first()), script.drop_first())
    }
}

/// The outcome one display's session owes: its capture error if the
/// capture failed, else the result of running the machine from `Idle` over
/// that display's own inputs — and nothing else's.
pub open spec fn session_outcome_spec(
    capture: Result<CapturedFrame, CaptureError>,
    script: Seq<InputSnapshot>,
) -> SessionOutcome {
    match capture {
        Result::Err(e) => SessionOutcome::CaptureFailed { error: e },
        Result::Ok(_) => SessionOutcome::Ran {
            exited: run_ticks(SelectionState::Idle, script).1,
            selection: run_ticks(SelectionState::Idle, script).0,
        },
    }
}

/// Run one display's session to its end: start in `Idle` with the captured
/// frame, tick once per input snapshot, stop at the first terminal event
/// or when the inputs run out, and release the frame.
pub fn run_session(
    screen: Screen,
    capture: Result<CapturedFrame, CaptureError>,
    script: &Vec<InputSnapshot>,
) -> (r: SessionOutcome)
    requires
        screen.wf(),
        capture matches Ok(f) ==> f.wf(),
    ensures
        r == session_outcome_spec(capture, script@),
{
    match capture {
        Result::Err(e) => SessionOutcome::CaptureFailed { error: e },
        Result::Ok(frame) => {
            let mut session = init(screen, frame);
            let mut idx: usize = 0;
            let mut exited: bool = false;
            proof {
                assert(script@.subrange(0, script@.len() as int) =~= script@);
            }
            while idx < script.len() && !exited
                invariant
                    session.wf(),
                    idx <= script@.len(),
                    !exited ==> run_ticks(SelectionState::Idle, script@) == run_ticks(
                        session.selection,
                        script@.subrange(idx as int, script@.len() as int),
                    ),
                    exited ==> run_ticks(SelectionState::Idle, script@) == (
                        session.selection,
                        true,
                    ),
                decreases script@.len() - idx, (if exited {
                    0int
                } else {
                    1int
                }),
            {
                let ghost suffix = script@.subrange(idx as int, script@.len() as int);
                proof {
                    assert(suffix.first() == script@[idx as int]);
                    assert(suffix.drop_first() =~= script@.subrange(
                        idx as int + 1,
                        script@.len() as int,
                    ));
                }
                let input = script[idx];
                let out = session.tick(&input);
                if out.exit {
                    exited = true;
                } else {
                    idx = idx + 1;
                }
            }
            SessionOutcome::Ran { exited, selection: session.selection }
        },
    }
}

/// Run the whole screenshot operation on already-collected collaborator
/// data: abort with the enumeration error if enumeration failed, else run
/// one session per display and return one outcome per display, in
/// enumeration order. Each display's outcome is a function of its own
/// capture result and its own inputs alone, so one session's capture
/// failure neither corrupts nor blocks any sibling session.
pub fn run_screenshot(
    screens: Result<Vec<Screen>, EnumerationError>,
    captures: Vec<Result<CapturedFrame, CaptureError>>,
    scripts: &Vec<Vec<InputSnapshot>>,
) -> (r: Result<Vec<SessionOutcome>, EnumerationError>)
    requires
        screens matches Ok(ss) ==> {
            &&& captures@.len() == ss@.len()
            &&& scripts@.len() == ss@.len()
            &&& forall|i: int| 0 <= i < ss@.len() ==> (#[trigger] ss@[i]).wf()
            &&& forall|i: int|
                0 <= i < ss@.len() ==> ((#[trigger] captures@[i]) matches Ok(f) ==> f.wf())
        },
    ensures
        screens matches Err(e) ==> r == Result::<Vec<SessionOutcome>, EnumerationError>::Err(e),
        screens matches Ok(ss) ==> {
            &&& r matches Ok(outs)
            &&& outs@.len() == ss@.len()
            &&& forall|i: int|
                0 <= i < ss@.len() ==> (#[trigger] outs@[i]) == session_outcome_spec(
                    captures@[i],
                    scripts@[i]@,
                )
        },
{
    match screens {
        Result::Err(e) => Result::Err(e),
        Result::Ok(ss) => {
            let mut caps = captures;
            let mut outcomes: Vec<SessionOutcome> = Vec::new();
            let mut i: usize = 0;
            while i < ss.len()
                invariant
                    i <= ss@.len(),
                    caps@ == captures@.subrange(i as int, captures@.len() as int),
                    captures@.len() == ss@.len(),
                    scripts@.len() == ss@.len(),
                    forall|k: int| 0 <= k < ss@.len() ==> (#[trigger] ss@[k]).wf(),
                    forall|k: int|
                        0 <= k < ss@.len() ==> ((#[trigger] captures@[k]) matches Ok(f)
                            ==> f.wf()),
                    outcomes@.len() == i,
                    forall|k: int|
                        0 <= k < i ==> (#[trigger] outcomes@[k]) == session_outcome_spec(
                            captures@[k],
                            scripts@[k]@,
                        ),
                decreases ss@.len() - i,
            {
                proof {
                    assert(caps@[0] == captures@[i as int]);
                    assert(caps@.remove(0) =~= captures@.subrange(
                        i as int + 1,
                        captures@.len() as int,
                    ));
                }
                let cap = caps.remove(0);
                let outcome = run_session(ss[i], cap, &scripts[i]);
                outcomes.push(outcome);
                i = i + 1;
            }
            Result::Ok(outcomes)
        },
    }
}

} // verus!
