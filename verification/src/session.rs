//! The per-display session: one screen, one captured frame, one selection
//! state machine, advanced one tick at a time. The surrounding event loop
//! (owned by the windowing collaborator) calls `tick` once per input batch,
//! performs the cursor side effects, and draws what the tick directs.

use vstd::prelude::*;
use crate::geometry::{Bounds, Point, normalize_spec};
use crate::handle::{ResizeHandle, hit_test_spec};
use crate::machine::{
    CursorRequest, InputSnapshot, SelectionState, advance, advance_spec, cursor_request_spec,
};

verus! {

/// Total length of each crosshair segment drawn while `Idle`, in logical
/// pixels. The OS cursor is hidden then, so the crosshair shows the
/// pointer position against the frozen background before any rectangle
/// exists.
pub const CROSSHAIR_ARM: i32 = 20;

/// Side of the square action buttons shown under a frozen selection, in
/// logical pixels.
pub const ACTION_BUTTON_SIZE: i32 = 20;

/// How many action buttons the row holds.
pub const ACTION_BUTTON_COUNT: i32 = 6;

/// Vertical margin between the selection's bottom edge and the button row,
/// in logical pixels.
pub const ACTION_BUTTON_MARGIN: i32 = 10;

/// One physical display, as the display enumerator reports it. Immutable
/// once enumerated. The scale factor is carried in percent (200 for a 2x
/// HiDPI display) so that logical sizes are exact integer data.
#[derive(Clone, Copy, PartialEq, Eq, Structural, Debug)]
pub struct Screen {
    pub id: u32,
    /// Origin of this display in the global desktop, logical coordinates.
    pub x: i32,
    pub y: i32,
    /// Physical framebuffer size in pixels; enumeration guarantees both > 0.
    pub width: u32,
    pub height: u32,
    /// Scale factor in percent; enumeration guarantees > 0.
    pub scale_percent: u32,
    pub is_primary: bool,
}

impl Screen {
    pub open spec fn wf(self) -> bool {
        self.width > 0 && self.height > 0 && self.scale_percent > 0
    }

    pub fn new(
        id: u32,
        x: i32,
        y: i32,
        width: u32,
        height: u32,
        scale_percent: u32,
        is_primary: bool,
    ) -> (s: Screen)
        requires
            width > 0,
            height > 0,
            scale_percent > 0,
        ensures
            s == (Screen { id, x, y, width, height, scale_percent, is_primary }),
            s.wf(),
    {
        Screen { id, x, y, width, height, scale_percent, is_primary }
    }

    /// Logical size of the display: the physical size divided by the scale
    /// factor (rounded toward zero).
    pub fn logical_size(&self) -> (r: (u64, u64))
        requires
            self.wf(),
        ensures
            r.0 == self.width * 100 / (self.scale_percent as int),
            r.1 == self.height * 100 / (self.scale_percent as int),
    {
        (
            (self.width as u64) * 100 / (self.scale_percent as u64),
            (self.height as u64) * 100 / (self.scale_percent as u64),
        )
    }
}

/// One frozen capture of a display's framebuffer: RGBA8, row-major,
/// top-left origin. Captured once at session start and never re-captured
/// during the session's lifetime.
#[derive(Debug)]
pub struct CapturedFrame {
    pub width: u32,
    pub height: u32,
    pub pixels: Vec<u8>,
}

impl CapturedFrame {
    /// Four bytes per pixel.
    pub open spec fn wf(self) -> bool {
        self.pixels@.len() == self.width * self.height * 4
    }

    /// Build a frame from a raw capture, validating the buffer length:
    /// `Some` exactly when the buffer holds `width * height * 4` bytes.
    pub fn new(width: u32, height: u32, pixels: Vec<u8>) -> (r: Option<CapturedFrame>)
        ensures
            r is Some <==> pixels@.len() == width * height * 4,
            r matches Some(f) ==> f.width == width && f.height == height && f.pixels@ == pixels@
                && f.wf(),
    {
        proof {
            assert(0 <= (width as int) * (height as int) * 4 < 0x40000000000000000)
                by (nonlinear_arith)
                requires
                    0 <= width < 0x100000000,
                    0 <= height < 0x100000000,
            ;
        }
        let expected: u128 = (width as u128) * (height as u128) * 4;
        if (pixels.len() as u128) == expected {
            Some(CapturedFrame { width, height, pixels })
        } else {
            None
        }
    }
}

/// Endpoints of the crosshair drawn at the pointer while `Idle`: a
/// horizontal and a vertical segment of `CROSSHAIR_ARM` logical pixels
/// total, centered on the pointer.
#[derive(Clone, Copy, PartialEq, Eq, Structural, Debug)]
pub struct Crosshair {
    pub left: Point,
    pub right: Point,
    pub top: Point,
    pub bottom: Point,
}

/// An integer clamped into `i32` range.
pub open spec fn clamp_i32(v: int) -> i32 {
    if v < i32::MIN {
        i32::MIN
    } else if v > i32::MAX {
        i32::MAX
    } else {
        v as i32
    }
}

fn clamp_to_i32(v: i64) -> (r: i32)
    ensures
        r == clamp_i32(v as int),
{
    if v < i32::MIN as i64 {
        i32::MIN
    } else if v > i32::MAX as i64 {
        i32::MAX
    } else {
        v as i32
    }
}

pub open spec fn crosshair_spec(p: Point) -> Crosshair {
    Crosshair {
        left: Point { x: clamp_i32(p.x - CROSSHAIR_ARM / 2), y: p.y },
        right: Point { x: clamp_i32(p.x + CROSSHAIR_ARM / 2), y: p.y },
        top: Point { x: p.x, y: clamp_i32(p.y - CROSSHAIR_ARM / 2) },
        bottom: Point { x: p.x, y: clamp_i32(p.y + CROSSHAIR_ARM / 2) },
    }
}

/// The crosshair centered at the pointer, clamped to coordinate range.
pub fn crosshair_at(p: Point) -> (c: Crosshair)
    ensures
        c == crosshair_spec(p),
{
    let half: i64 = (CROSSHAIR_ARM / 2) as i64;
    Crosshair {
        left: Point { x: clamp_to_i32(p.x as i64 - half), y: p.y },
        right: Point { x: clamp_to_i32(p.x as i64 + half), y: p.y },
        top: Point { x: p.x, y: clamp_to_i32(p.y as i64 - half) },
        bottom: Point { x: p.x, y: clamp_to_i32(p.y as i64 + half) },
    }
}

/// Where the action-button row is anchored: below the bottom-right corner
/// of the normalized selection, shifted left by the row's width, clamped to
/// coordinate range.
pub open spec fn button_anchor_spec(b: Bounds) -> Point {
    Point {
        x: clamp_i32(b.max_x - ACTION_BUTTON_SIZE * ACTION_BUTTON_COUNT),
        y: clamp_i32(b.max_y + ACTION_BUTTON_MARGIN),
    }
}

pub fn button_anchor(b: &Bounds) -> (p: Point)
    ensures
        p == button_anchor_spec(*b),
{
    Point {
        x: clamp_to_i32(
            b.max_x as i64 - (ACTION_BUTTON_SIZE as i64) * (ACTION_BUTTON_COUNT as i64),
        ),
        y: clamp_to_i32(b.max_y as i64 + ACTION_BUTTON_MARGIN as i64),
    }
}

/// What the overlay renderer is asked to draw for the current selection:
/// the normalized rectangle, the handle under the pointer, and — once the
/// selection is frozen — the action-button row's anchor.
#[derive(Clone, Copy, PartialEq, Eq, Structural, Debug)]
pub struct SelectionView {
    pub bounds: Bounds,
    pub handle: ResizeHandle,
    /// `Some` exactly while the phase is `Selected`.
    pub buttons: Option<Point>,
}

/// What one tick asks the surrounding loop to do, in order: apply the
/// cursor side effects, then draw the frozen frame with the crosshair or
/// the selection overlay, then exit the loop if `exit` is set.
#[derive(Clone, Copy, PartialEq, Eq, Structural, Debug)]
pub struct TickOutput {
    /// A terminal event (Escape edge or window-close request) arrived.
    pub exit: bool,
    /// Which cursor to request this tick.
    pub cursor: CursorRequest,
    /// OS cursor visibility: hidden while `Idle`, shown otherwise.
    pub cursor_visible: bool,
    /// `Some` exactly while `Idle`: the crosshair to draw at the pointer.
    pub crosshair: Option<Crosshair>,
    /// `Some` exactly while a rectangle exists.
    pub selection: Option<SelectionView>,
}

/// The selection overlay for a state and pointer: none while `Idle`,
/// otherwise the normalized bounds, the recomputed handle, and the button
/// row anchor once frozen.
pub open spec fn selection_view_spec(s: SelectionState, pointer: Point) -> Option<SelectionView> {
    match s.rect_spec() {
        None => None,
        Some(rect) => Some(
            SelectionView {
                bounds: normalize_spec(rect),
                handle: hit_test_spec(normalize_spec(rect), pointer),
                buttons: if s is Selected {
                    Some(button_anchor_spec(normalize_spec(rect)))
                } else {
                    None
                },
            },
        ),
    }
}

/// The per-display session. Owns its screen, its frozen capture, and its
/// selection state; shares nothing with other sessions.
pub struct Session {
    pub screen: Screen,
    pub frame: CapturedFrame,
    pub selection: SelectionState,
}

impl Session {
    pub open spec fn wf(self) -> bool {
        self.screen.wf() && self.frame.wf()
    }

    /// One tick: feed the input snapshot to the state machine, then report
    /// what to draw and which cursor to request for the new state. When a
    /// terminal event (Escape or window close) arrives, the tick only
    /// signals exit and leaves the state untouched — nothing further is
    /// rendered or advanced that tick.
    pub fn tick(&mut self, input: &InputSnapshot) -> (out: TickOutput)
        requires
            old(self).wf(),
        ensures
            final(self).wf(),
            final(self).screen == old(self).screen,
            final(self).frame == old(self).frame,
            out.exit == (input.escape_pressed || input.close_requested),
            out.exit ==> final(self).selection == old(self).selection,
            !out.exit ==> final(self).selection == advance_spec(old(self).selection, *input),
            out.cursor == cursor_request_spec(final(self).selection, input.pointer),
            out.cursor_visible == !(final(self).selection is Idle),
            out.crosshair == (if final(self).selection is Idle {
                Some(crosshair_spec(input.pointer))
            } else {
                Option::<Crosshair>::None
            }),
            out.selection == selection_view_spec(final(self).selection, input.pointer),
    {
        let exit: bool = input.escape_pressed || input.close_requested;
        if !exit {
            let (next, _cursor) = advance(self.selection, input);
            self.selection = next;
        }
        let selection_view: Option<SelectionView> = match self.selection.rect() {
            None => None,
            Some(rect) => {
                let bounds = rect.normalized();
                let handle = crate::handle::hit_test(&bounds, input.pointer);
                let buttons: Option<Point> = match self.selection {
                    SelectionState::Selected { .. } => Some(button_anchor(&bounds)),
                    _ => None,
                };
                Some(SelectionView { bounds, handle, buttons })
            },
        };
        let cursor: CursorRequest = match &selection_view {
            None => CursorRequest::Crosshair,
            Some(v) => CursorRequest::Icon(crate::handle::cursor_for(v.handle)),
        };
        let crosshair: Option<Crosshair> = match self.selection {
            SelectionState::Idle => Some(crosshair_at(input.pointer)),
            _ => None,
        };
        let cursor_visible: bool = match self.selection {
            SelectionState::Idle => false,
            _ => true,
        };
        TickOutput { exit, cursor, cursor_visible, crosshair, selection: selection_view }
    }
}

/// Start a session for one display: take ownership of the frozen capture
/// and begin in `Idle`, with no rectangle.
pub fn init(screen: Screen, frame: CapturedFrame) -> (s: Session)
    requires
        screen.wf(),
        frame.wf(),
    ensures
        s.wf(),
        s.screen == screen,
        s.frame == frame,
        s.selection == SelectionState::Idle,
{
    Session { screen, frame, selection: SelectionState::Idle }
}

/// The normalized bounds of a frozen selection, if the phase is `Selected`.
pub open spec fn frozen_bounds_spec(s: SelectionState) -> Option<Bounds> {
    match s {
        SelectionState::Selected { rect } => Some(normalize_spec(rect)),
        _ => None,
    }
}

/// End a session: release the captured frame and window resources, handing
/// back the frozen rectangle's bounds — what a commit action (copy, save)
/// would consume — or `None` if no selection was frozen.
pub fn cleanup(session: Session) -> (r: Option<Bounds>)
    ensures
        r == frozen_bounds_spec(session.selection),
{
    match session.selection {
        SelectionState::Selected { rect } => Some(rect.normalized()),
        _ => None,
    }
}

} // verus!
