//! The selection state machine: a pure per-tick transition function from
//! (state, input snapshot) to (new state, cursor request).

use vstd::prelude::*;
use crate::geometry::{Point, SelectionRect, normalize_spec};
use crate::handle::{CursorIcon, ResizeHandle, cursor_for, cursor_for_spec, hit_test, hit_test_spec};

verus! {

/// One snapshot of the windowing layer's input, collected once per tick.
/// The button and key fields are edge events: true only on the tick where
/// the press or release happened.
#[derive(Clone, Copy, PartialEq, Eq, Structural, Debug)]
pub struct InputSnapshot {
    /// Pointer position in logical coordinates.
    pub pointer: Point,
    /// The primary button was pressed this tick.
    pub button_pressed: bool,
    /// The primary button was released this tick.
    pub button_released: bool,
    /// The Escape key was pressed this tick.
    pub escape_pressed: bool,
    /// The OS asked the overlay window to close.
    pub close_requested: bool,
}

/// The selection lifecycle phase.
#[derive(Clone, Copy, PartialEq, Eq, Structural, Debug)]
pub enum SelectionPhase {
    Idle,
    Selecting,
    Selected,
}

/// The selection state: the phase together with the rectangle, which exists
/// only once a drag has started. While `Selecting`, `rect.end` tracks the
/// pointer every tick; once `Selected`, the rectangle is frozen.
#[derive(Clone, Copy, PartialEq, Eq, Structural, Debug)]
pub enum SelectionState {
    Idle,
    Selecting { rect: SelectionRect },
    Selected { rect: SelectionRect },
}

/// What the session should do with the OS cursor this tick.
#[derive(Clone, Copy, PartialEq, Eq, Structural, Debug)]
pub enum CursorRequest {
    /// Hide the OS cursor and draw a crosshair at the pointer instead
    /// (only while `Idle`, when no rectangle exists to hit-test).
    Crosshair,
    /// Show the OS cursor with this icon.
    Icon(CursorIcon),
}

impl SelectionState {
    pub open spec fn phase_spec(self) -> SelectionPhase {
        match self {
            SelectionState::Idle => SelectionPhase::Idle,
            SelectionState::Selecting { .. } => SelectionPhase::Selecting,
            SelectionState::Selected { .. } => SelectionPhase::Selected,
        }
    }

    /// The rectangle, if one exists (`Selecting` or `Selected`).
    pub open spec fn rect_spec(self) -> Option<SelectionRect> {
        match self {
            SelectionState::Idle => None,
            SelectionState::Selecting { rect } => Some(rect),
            SelectionState::Selected { rect } => Some(rect),
        }
    }

    pub fn phase(&self) -> (p: SelectionPhase)
        ensures
            p == self.phase_spec(),
    {
        match self {
            SelectionState::Idle => SelectionPhase::Idle,
            SelectionState::Selecting { .. } => SelectionPhase::Selecting,
            SelectionState::Selected { .. } => SelectionPhase::Selected,
        }
    }

    pub fn rect(&self) -> (r: Option<SelectionRect>)
        ensures
            r == self.rect_spec(),
    {
        match self {
            SelectionState::Idle => None,
            SelectionState::Selecting { rect } => Some(*rect),
            SelectionState::Selected { rect } => Some(*rect),
        }
    }
}

/// The per-tick transition:
/// - `Idle` + button press: start a drag at the pointer, `start = end =
///   pointer`, phase becomes `Selecting`; any other input leaves `Idle`.
/// - `Selecting` + button release: freeze `end` at the pointer, phase
///   becomes `Selected`; otherwise stay `Selecting` with `end` tracking the
///   pointer this tick.
/// - `Selected`: the rectangle stays frozen whatever the input; commit and
///   cancel are actions of the surrounding session, not phase transitions.
pub open spec fn advance_spec(s: SelectionState, i: InputSnapshot) -> SelectionState {
    match s {
        SelectionState::Idle => if i.button_pressed {
            SelectionState::Selecting {
                rect: SelectionRect { start: i.pointer, end: i.pointer },
            }
        } else {
            SelectionState::Idle
        },
        SelectionState::Selecting { rect } => if i.button_released {
            SelectionState::Selected {
                rect: SelectionRect { start: rect.start, end: i.pointer },
            }
        } else {
            SelectionState::Selecting {
                rect: SelectionRect { start: rect.start, end: i.pointer },
            }
        },
        SelectionState::Selected { rect } => SelectionState::Selected { rect },
    }
}

/// The handle under the pointer, recomputed from the state after the tick's
/// transition: none while `Idle`, otherwise the hit-test of the rectangle's
/// normalized bounds.
pub open spec fn active_handle_spec(s: SelectionState, pointer: Point) -> Option<ResizeHandle> {
    match s.rect_spec() {
        None => None,
        Some(rect) => Some(hit_test_spec(normalize_spec(rect), pointer)),
    }
}

/// The cursor request for the state after the tick's transition: a
/// crosshair while `Idle`, otherwise the icon of the active handle.
pub open spec fn cursor_request_spec(s: SelectionState, pointer: Point) -> CursorRequest {
    match active_handle_spec(s, pointer) {
        None => CursorRequest::Crosshair,
        Some(h) => CursorRequest::Icon(cursor_for_spec(h)),
    }
}

/// Advance the state machine by one tick and compute the cursor request for
/// the new state. Pure: performs no I/O and cannot fail; degenerate
/// (zero-area) rectangles are valid states.
pub fn advance(s: SelectionState, input: &InputSnapshot) -> (r: (SelectionState, CursorRequest))
    ensures
        r.0 == advance_spec(s, *input),
        r.1 == cursor_request_spec(r.0, input.pointer),
{
    let next: SelectionState = match s {
        SelectionState::Idle => if input.button_pressed {
            SelectionState::Selecting {
                rect: SelectionRect { start: input.pointer, end: input.pointer },
            }
        } else {
            SelectionState::Idle
        },
        SelectionState::Selecting { rect } => if input.button_released {
            SelectionState::Selected {
                rect: SelectionRect { start: rect.start, end: input.pointer },
            }
        } else {
            SelectionState::Selecting {
                rect: SelectionRect { start: rect.start, end: input.pointer },
            }
        },
        SelectionState::Selected { rect } => SelectionState::Selected { rect },
    };
    let cursor: CursorRequest = match next.rect() {
        None => CursorRequest::Crosshair,
        Some(rect) => CursorRequest::Icon(cursor_for(hit_test(&rect.normalized(), input.pointer))),
    };
    (next, cursor)
}

/// Phase transition closure: from `Idle` only a button-press edge causes a
/// transition, and only to `Selecting`; from `Selecting` only a
/// button-release edge causes one, and only to `Selected`; from `Selected`
/// no input changes the state at all.
pub proof fn lemma_phase_transitions(s: SelectionState, i: InputSnapshot)
    ensures
        s is Idle ==> advance_spec(s, i).phase_spec() == if i.button_pressed {
            SelectionPhase::Selecting
        } else {
            SelectionPhase::Idle
        },
        s is Idle && !i.button_pressed ==> advance_spec(s, i) == s,
        s is Selecting ==> advance_spec(s, i).phase_spec() == if i.button_released {
            SelectionPhase::Selected
        } else {
            SelectionPhase::Selecting
        },
        s is Selected ==> advance_spec(s, i) == s,
{
}

/// The state after a whole sequence of ticks, first input applied first.
pub open spec fn advance_star(s: SelectionState, inputs: Seq<InputSnapshot>) -> SelectionState
    decreases inputs.len(),
{
    if inputs.len() == 0 {
        s
    } else {
        advance_star(advance_spec(s, inputs.first()), inputs.drop_first())
    }
}

/// Tracking completeness: while `Selecting`, over any run of ticks none of
/// which releases the button, the phase stays `Selecting`, the drag anchor
/// is kept, and `end` equals the most recent tick's pointer position — no
/// sample is ever dropped.
pub proof fn lemma_tracking_completeness(s: SelectionState, inputs: Seq<InputSnapshot>)
    requires
        s is Selecting,
        inputs.len() > 0,
        forall|k: int| 0 <= k < inputs.len() ==> !inputs[k].button_released,
    ensures
        advance_star(s, inputs) == (SelectionState::Selecting {
            rect: SelectionRect { start: s->Selecting_rect.start, end: inputs.last().pointer },
        }),
    decreases inputs.len(),
{
    let stepped = advance_spec(s, inputs.first());
    assert(stepped == (SelectionState::Selecting {
        rect: SelectionRect { start: s->Selecting_rect.start, end: inputs.first().pointer },
    }));
    if inputs.len() == 1 {
        assert(advance_star(s, inputs) == advance_star(stepped, inputs.drop_first()));
        assert(inputs.drop_first().len() == 0);
    } else {
        assert(forall|k: int|
            0 <= k < inputs.drop_first().len() ==> !inputs.drop_first()[k].button_released);
        lemma_tracking_completeness(stepped, inputs.drop_first());
        assert(inputs.drop_first().last() == inputs.last());
    }
}

} // verus!
