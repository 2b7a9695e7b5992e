use screencrop::geometry::{Point, SelectionRect};
use screencrop::handle::CursorIcon;
use screencrop::machine::{advance, CursorRequest, InputSnapshot, SelectionPhase, SelectionState};

fn idle_input(x: i32, y: i32) -> InputSnapshot {
    InputSnapshot {
        pointer: Point { x, y },
        button_pressed: false,
        button_released: false,
        escape_pressed: false,
        close_requested: false,
    }
}

fn press(x: i32, y: i32) -> InputSnapshot {
    InputSnapshot {
        button_pressed: true,
        ..idle_input(x, y)
    }
}

fn release(x: i32, y: i32) -> InputSnapshot {
    InputSnapshot {
        button_released: true,
        ..idle_input(x, y)
    }
}

#[test]
fn drag_scenario_press_track_release() {
    // Press at (50,50): phase becomes Selecting with a zero-area rectangle.
    let (s1, _) = advance(SelectionState::Idle, &press(50, 50));
    assert_eq!(s1.phase(), SelectionPhase::Selecting);
    assert_eq!(
        s1.rect(),
        Some(SelectionRect {
            start: Point { x: 50, y: 50 },
            end: Point { x: 50, y: 50 },
        })
    );

    // The pointer moves over several ticks; `end` matches every tick.
    let mut s = s1;
    let path = [(80, 60), (120, 90), (160, 120), (199, 149)];
    for &(x, y) in path.iter() {
        let (next, _) = advance(s, &idle_input(x, y));
        assert_eq!(next.phase(), SelectionPhase::Selecting);
        let r = next.rect().unwrap();
        assert_eq!(r.start, Point { x: 50, y: 50 });
        assert_eq!(r.end, Point { x, y });
        s = next;
    }

    // Release at (200,150): phase becomes Selected, rectangle frozen there.
    let (s2, _) = advance(s, &release(200, 150));
    assert_eq!(s2.phase(), SelectionPhase::Selected);
    let r = s2.rect().unwrap();
    assert_eq!(r.start, Point { x: 50, y: 50 });
    assert_eq!(r.end, Point { x: 200, y: 150 });
    let b = r.normalized();
    assert_eq!(b.min_x, 50);
    assert_eq!(b.max_x, 200);
    assert_eq!(b.min_y, 50);
    assert_eq!(b.max_y, 150);
}

#[test]
fn idle_ignores_everything_but_press() {
    let (s, c) = advance(SelectionState::Idle, &idle_input(12, 34));
    assert_eq!(s, SelectionState::Idle);
    assert_eq!(c, CursorRequest::Crosshair);
    let (s2, _) = advance(SelectionState::Idle, &release(12, 34));
    assert_eq!(s2, SelectionState::Idle);
}

#[test]
fn selecting_only_leaves_on_release() {
    let (s1, _) = advance(SelectionState::Idle, &press(10, 10));
    // A second press edge while selecting does not change the phase.
    let (s2, _) = advance(s1, &press(20, 25));
    assert_eq!(s2.phase(), SelectionPhase::Selecting);
    assert_eq!(
        s2.rect(),
        Some(SelectionRect {
            start: Point { x: 10, y: 10 },
            end: Point { x: 20, y: 25 },
        })
    );
}

#[test]
fn selected_rectangle_stays_frozen() {
    let (s1, _) = advance(SelectionState::Idle, &press(10, 10));
    let (s2, _) = advance(s1, &release(60, 70));
    for input in [idle_input(5, 5), press(90, 90), release(1, 1)] {
        let (next, _) = advance(s2, &input);
        assert_eq!(next, s2);
    }
}

#[test]
fn tracking_keeps_latest_of_many_distinct_positions() {
    let (mut s, _) = advance(SelectionState::Idle, &press(0, 0));
    for k in 1..40i32 {
        let (next, _) = advance(s, &idle_input(k * 3, k * 7));
        s = next;
    }
    let r = s.rect().unwrap();
    assert_eq!(r.end, Point { x: 117, y: 273 });
    assert_eq!(r.start, Point { x: 0, y: 0 });
}

#[test]
fn cursor_request_follows_new_state() {
    // The press tick already hit-tests the new zero-area rectangle: the
    // pointer sits on its top-left corner.
    let (_, c) = advance(SelectionState::Idle, &press(50, 50));
    assert_eq!(c, CursorRequest::Icon(CursorIcon::ResizeNwSe));

    // While dragging, the pointer is always the tracked corner, so the
    // cursor stays a diagonal resize icon.
    let (s1, _) = advance(SelectionState::Idle, &press(0, 0));
    let (s2, c2) = advance(s1, &idle_input(100, 100));
    assert_eq!(c2, CursorRequest::Icon(CursorIcon::ResizeNwSe));

    // Once frozen, moving the pointer to the middle requests the four-way
    // move icon; moving it far outside requests the default pointer.
    let (s3, _) = advance(s2, &release(200, 100));
    let (_, c3) = advance(s3, &idle_input(100, 50));
    assert_eq!(c3, CursorRequest::Icon(CursorIcon::ResizeAll));
    let (_, c4) = advance(s3, &idle_input(500, 500));
    assert_eq!(c4, CursorRequest::Icon(CursorIcon::Arrow));
}

#[test]
fn press_and_release_in_one_tick_starts_a_drag() {
    // Edge flags can coincide in one snapshot; the press is consumed first
    // and the release is left for a later tick.
    let input = InputSnapshot {
        button_pressed: true,
        button_released: true,
        ..idle_input(5, 5)
    };
    let (s, _) = advance(SelectionState::Idle, &input);
    assert_eq!(s.phase(), SelectionPhase::Selecting);
}
