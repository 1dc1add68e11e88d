use logisim_shell::input::{InputEvent, Pos, PtrButton};
use logisim_shell::touch::TouchTranslater;

fn pos(x: i32, y: i32) -> Pos {
    Pos { x, y }
}

#[test]
fn long_press_right_clicks() {
    // A press held stationary past the hold time becomes one right click.
    let mut tr = TouchTranslater::default();
    let mut out: Vec<InputEvent> = Vec::new();
    tr.phase_start(0, pos(100, 100), 0, &mut out);
    tr.update(600, &mut out);
    assert_eq!(
        out,
        vec![
            InputEvent::Hover(pos(100, 100)),
            InputEvent::Press(pos(100, 100), PtrButton::Left),
            InputEvent::Click(pos(100, 100), PtrButton::Right),
        ]
    );
    // The following release is suppressed: no left click.
    let mut rest: Vec<InputEvent> = Vec::new();
    tr.phase_end(0, pos(100, 100), &mut rest);
    assert_eq!(
        rest,
        vec![InputEvent::Release(PtrButton::Left), InputEvent::PointerLeft]
    );
}

#[test]
fn tap_left_clicks_once() {
    // A quick tap: press, release, exactly one left click at the lift point.
    let mut tr = TouchTranslater::default();
    let mut out: Vec<InputEvent> = Vec::new();
    tr.phase_start(0, pos(50, 50), 0, &mut out);
    tr.phase_end(0, pos(51, 50), &mut out);
    assert_eq!(
        out,
        vec![
            InputEvent::Hover(pos(50, 50)),
            InputEvent::Press(pos(50, 50), PtrButton::Left),
            InputEvent::Release(PtrButton::Left),
            InputEvent::Click(pos(51, 50), PtrButton::Left),
            InputEvent::PointerLeft,
        ]
    );
}

#[test]
fn drag_past_radius_does_not_click() {
    // Moving 60 px from the press exceeds the 50 px hold radius: no click.
    let mut tr = TouchTranslater::default();
    let mut out: Vec<InputEvent> = Vec::new();
    tr.phase_start(0, pos(0, 0), 0, &mut out);
    tr.phase_move(0, pos(60, 0), &mut out);
    tr.phase_end(0, pos(60, 0), &mut out);
    assert_eq!(
        out,
        vec![
            InputEvent::Hover(pos(0, 0)),
            InputEvent::Press(pos(0, 0), PtrButton::Left),
            InputEvent::Hover(pos(60, 0)),
            InputEvent::Release(PtrButton::Left),
            InputEvent::PointerLeft,
        ]
    );
}

#[test]
fn drag_within_radius_still_clicks() {
    // Moves inside the hold radius keep the tap a click candidate.
    let mut tr = TouchTranslater::default();
    let mut out: Vec<InputEvent> = Vec::new();
    tr.phase_start(0, pos(0, 0), 0, &mut out);
    tr.phase_move(0, pos(30, 0), &mut out);
    tr.phase_end(0, pos(30, 0), &mut out);
    assert_eq!(
        out,
        vec![
            InputEvent::Hover(pos(0, 0)),
            InputEvent::Press(pos(0, 0), PtrButton::Left),
            InputEvent::Hover(pos(30, 0)),
            InputEvent::Release(PtrButton::Left),
            InputEvent::Click(pos(30, 0), PtrButton::Left),
            InputEvent::PointerLeft,
        ]
    );
}

#[test]
fn pinch_open_zooms() {
    // Two fingers: the second press ends the single-finger gesture, and the
    // move emits one zoom at the gesture's anchor.
    let mut tr = TouchTranslater::default();
    let mut out: Vec<InputEvent> = Vec::new();
    tr.phase_start(0, pos(0, 0), 0, &mut out);
    tr.phase_start(1, pos(10, 0), 0, &mut out);
    tr.phase_move(1, pos(20, 0), &mut out);
    // Squared distances: start 100, after the move 400.
    // Delta in ten-thousandths: (400 - 100) * 3 = 900, i.e. 0.09.
    assert_eq!(
        out,
        vec![
            InputEvent::Hover(pos(0, 0)),
            InputEvent::Press(pos(0, 0), PtrButton::Left),
            InputEvent::PointerLeft,
            InputEvent::Release(PtrButton::Left),
            InputEvent::Zoom(pos(5, 0), 900),
        ]
    );
    match &out[4] {
        InputEvent::Zoom(_, delta) => {
            assert_eq!((*delta as f64) / 10000.0, (400.0 - 100.0) * 0.0003);
        }
        other => panic!("expected a zoom event, got {other:?}"),
    }
}

#[test]
fn pinch_move_at_start_distance_is_silent() {
    // A move that restores the starting distance emits no zoom event.
    let mut tr = TouchTranslater::default();
    let mut out: Vec<InputEvent> = Vec::new();
    tr.phase_start(0, pos(0, 0), 0, &mut out);
    tr.phase_start(1, pos(10, 0), 0, &mut out);
    out.clear();
    // Mirroring the second pointer keeps the squared distance at its start
    // value: no zoom event, though the previous distance is refreshed.
    tr.phase_move(1, pos(-10, 0), &mut out);
    assert_eq!(out, Vec::<InputEvent>::new());
    // Only a genuine change emits, measured against the refreshed distance.
    tr.phase_move(1, pos(20, 0), &mut out);
    assert_eq!(out, vec![InputEvent::Zoom(pos(5, 0), 900)]);
}

#[test]
fn pinch_close_ends_zoom() {
    // Lifting one of two fingers closes the gesture; the last finger taps no
    // click because the release was suppressed by the second press.
    let mut tr = TouchTranslater::default();
    let mut out: Vec<InputEvent> = Vec::new();
    tr.phase_start(0, pos(0, 0), 0, &mut out);
    tr.phase_start(1, pos(10, 0), 0, &mut out);
    out.clear();
    tr.phase_end(1, pos(10, 0), &mut out);
    assert_eq!(
        out,
        vec![InputEvent::Release(PtrButton::Left), InputEvent::PointerLeft]
    );
}

#[test]
fn unknown_pointer_indices_are_ignored() {
    // A move or end for an index that never went down changes nothing and, for
    // the end, emits nothing.
    let mut tr = TouchTranslater::default();
    let mut out: Vec<InputEvent> = Vec::new();
    tr.phase_end(7, pos(1, 1), &mut out);
    assert_eq!(out, Vec::<InputEvent>::new());
    tr.phase_start(0, pos(0, 0), 0, &mut out);
    out.clear();
    // A move with a foreign index still hovers (one pointer is live) but does
    // not disturb the press.
    tr.phase_move(3, pos(10, 0), &mut out);
    assert_eq!(out, vec![InputEvent::Hover(pos(10, 0))]);
    out.clear();
    tr.phase_end(0, pos(0, 0), &mut out);
    assert_eq!(
        out,
        vec![
            InputEvent::Release(PtrButton::Left),
            InputEvent::Click(pos(0, 0), PtrButton::Left),
            InputEvent::PointerLeft,
        ]
    );
}

#[test]
fn repeated_start_on_live_index_is_ignored() {
    let mut tr = TouchTranslater::default();
    let mut out: Vec<InputEvent> = Vec::new();
    tr.phase_start(0, pos(0, 0), 0, &mut out);
    out.clear();
    tr.phase_start(0, pos(5, 5), 0, &mut out);
    assert_eq!(out, Vec::<InputEvent>::new());
}

#[test]
fn update_within_hold_time_is_silent() {
    let mut tr = TouchTranslater::default();
    let mut out: Vec<InputEvent> = Vec::new();
    tr.phase_start(0, pos(0, 0), 0, &mut out);
    out.clear();
    tr.update(500, &mut out);
    assert_eq!(out, Vec::<InputEvent>::new());
    tr.update(501, &mut out);
    assert_eq!(out, vec![InputEvent::Click(pos(0, 0), PtrButton::Right)]);
}
