use logisim_shell::driver::{
    content_rect, pointer_pressed, pointer_released, BlobKind, FrameDriver, HostCmd, Insets,
    MainEvent, Phase, PixelRect, PtrPress, WinSize,
};
use logisim_shell::input::{typed_char_cmd, CharCmd, InputEvent, InputState, Key, Modifiers, Pos, PtrButton};
use logisim_shell::text::TextField;
use logisim_shell::Id;

fn pos(x: i32, y: i32) -> Pos {
    Pos { x, y }
}

#[test]
fn save_state_saves_all_three_blobs() {
    let mut d = FrameDriver::new();
    let mut cmds: Vec<HostCmd> = Vec::new();
    d.on_main_event(MainEvent::SaveState, &mut cmds);
    assert_eq!(
        cmds,
        vec![
            HostCmd::SaveBlob(BlobKind::Settings),
            HostCmd::SaveBlob(BlobKind::Library),
            HostCmd::SaveBlob(BlobKind::Scene),
        ]
    );
}

#[test]
fn resume_loads_blobs_and_runs() {
    let mut d = FrameDriver::new();
    let mut cmds: Vec<HostCmd> = Vec::new();
    d.on_main_event(MainEvent::Resume, &mut cmds);
    assert_eq!(
        cmds,
        vec![
            HostCmd::LoadBlob(BlobKind::Settings),
            HostCmd::LoadBlob(BlobKind::Library),
            HostCmd::LoadBlob(BlobKind::Scene),
        ]
    );
    assert_eq!(d.phase, Phase::Running);
    assert!(d.running());
}

#[test]
fn pause_and_destroy_transitions() {
    let mut d = FrameDriver::new();
    let mut cmds: Vec<HostCmd> = Vec::new();
    d.on_main_event(MainEvent::Resume, &mut cmds);
    cmds.clear();
    d.on_main_event(MainEvent::Pause, &mut cmds);
    assert_eq!(cmds, vec![HostCmd::PauseApp]);
    assert_eq!(d.phase, Phase::Paused);
    assert!(!d.running());
    d.on_main_event(MainEvent::Destroy, &mut cmds);
    assert!(d.quitting());
}

#[test]
fn window_lifecycle_commands() {
    let mut d = FrameDriver::new();
    let mut cmds: Vec<HostCmd> = Vec::new();
    let size = WinSize { width: 800, height: 600 };
    // A resize without a window is ignored.
    d.on_main_event(MainEvent::WindowResized { size }, &mut cmds);
    assert_eq!(cmds, Vec::<HostCmd>::new());
    // The window arriving resumes the application on it.
    d.on_main_event(MainEvent::InitWindow { window: Some(size) }, &mut cmds);
    assert_eq!(cmds, vec![HostCmd::ResumeApp(size)]);
    cmds.clear();
    let grown = WinSize { width: 1024, height: 768 };
    d.on_main_event(MainEvent::WindowResized { size: grown }, &mut cmds);
    assert_eq!(cmds, vec![HostCmd::UpdateSize(grown)]);
    assert_eq!(d.window, Some(grown));
    d.on_main_event(MainEvent::TerminateWindow, &mut cmds);
    assert_eq!(d.window, None);
}

#[test]
fn low_memory_is_log_only() {
    let mut d = FrameDriver::new();
    let mut cmds: Vec<HostCmd> = Vec::new();
    d.on_main_event(MainEvent::LowMemory, &mut cmds);
    assert_eq!(cmds, Vec::<HostCmd>::new());
}

#[test]
fn frame_tick_counts_and_publishes_fps() {
    let mut d = FrameDriver::new();
    // Not running: no draw.
    assert!(!d.frame_tick(0));
    let mut cmds: Vec<HostCmd> = Vec::new();
    d.on_main_event(MainEvent::Resume, &mut cmds);
    // The first tick of a fresh second publishes the running count.
    assert!(d.frame_tick(1_000));
    assert_eq!(d.fps, 1);
    assert!(d.frame_tick(1_100));
    assert!(d.frame_tick(1_200));
    assert_eq!(d.frame_count, 2);
    // A second later the two counted frames become the rate.
    assert!(d.frame_tick(2_000));
    assert_eq!(d.fps, 3);
    assert_eq!(d.frame_count, 0);
}

#[test]
fn end_frame_reconciles_and_mirrors() {
    let mut d = FrameDriver::new();
    let f = TextField { text: vec!['h', 'i'], sel_start: 2, sel_end: 2, compose: None };
    let r = d.end_frame(Some(f.clone()));
    assert!(r.show_keyboard && r.push_state && !r.hide_keyboard);
    assert_eq!(d.text_mirror, Some(f.clone()));
    // The echoed field is quiet.
    let r2 = d.end_frame(Some(f));
    assert!(!r2.show_keyboard && !r2.push_state && !r2.hide_keyboard);
    // The field going away hides the keyboard.
    let r3 = d.end_frame(None);
    assert!(r3.hide_keyboard && !r3.show_keyboard && !r3.push_state);
}

#[test]
fn content_rect_shrinks_by_insets() {
    let win = PixelRect { min: pos(0, 0), max: pos(1080, 2400) };
    let insets = Insets { top: 80, right: 0, bottom: 40, left: 0 };
    let r = content_rect(win, insets);
    assert_eq!(r.min, pos(0, 80));
    assert_eq!(r.max, pos(1080, 2360));
}

#[test]
fn desktop_click_gate_clicks_near_and_soon() {
    let mut input = InputState::new();
    let mut press: Option<PtrPress> = None;
    input.on_event(InputEvent::Hover(pos(10, 10)));
    pointer_pressed(&mut input, &mut press, PtrButton::Left, 1_000);
    input.on_event(InputEvent::Hover(pos(11, 10)));
    pointer_released(&mut input, &mut press, PtrButton::Left, 1_500);
    assert_eq!(
        input.events,
        vec![
            InputEvent::Hover(pos(10, 10)),
            InputEvent::Press(pos(10, 10), PtrButton::Left),
            InputEvent::Hover(pos(11, 10)),
            InputEvent::Click(pos(10, 10), PtrButton::Left),
            InputEvent::Release(PtrButton::Left),
        ]
    );
    assert_eq!(press, None);
}

#[test]
fn desktop_click_gate_rejects_late_or_far_releases() {
    // Too late: two seconds have passed.
    let mut input = InputState::new();
    let mut press: Option<PtrPress> = None;
    pointer_pressed(&mut input, &mut press, PtrButton::Right, 0);
    pointer_released(&mut input, &mut press, PtrButton::Right, 2_000);
    assert_eq!(
        input.events,
        vec![
            InputEvent::Press(pos(0, 0), PtrButton::Right),
            InputEvent::Release(PtrButton::Right),
        ]
    );
    // Too far: five squared pixels away.
    let mut input2 = InputState::new();
    let mut press2: Option<PtrPress> = None;
    pointer_pressed(&mut input2, &mut press2, PtrButton::Left, 0);
    input2.on_event(InputEvent::Hover(pos(3, 0)));
    pointer_released(&mut input2, &mut press2, PtrButton::Left, 100);
    assert_eq!(
        input2.events,
        vec![
            InputEvent::Press(pos(0, 0), PtrButton::Left),
            InputEvent::Hover(pos(3, 0)),
            InputEvent::Release(PtrButton::Left),
        ]
    );
    // A different button releasing does not click.
    let mut input3 = InputState::new();
    let mut press3: Option<PtrPress> = None;
    pointer_pressed(&mut input3, &mut press3, PtrButton::Left, 0);
    pointer_released(&mut input3, &mut press3, PtrButton::Middle, 10);
    assert_eq!(
        input3.events,
        vec![
            InputEvent::Press(pos(0, 0), PtrButton::Left),
            InputEvent::Release(PtrButton::Middle),
        ]
    );
}

#[test]
fn input_state_tracks_pointer_and_modifiers() {
    let mut s = InputState::new();
    assert!(s.ptr_gone());
    s.on_event(InputEvent::Hover(pos(5, 6)));
    assert!(!s.ptr_gone());
    assert_eq!(s.ptr_pos(), pos(5, 6));
    s.on_event(InputEvent::PointerLeft);
    assert!(s.ptr_gone());
    assert_eq!(s.ptr_pos(), pos(5, 6));
    s.on_event(InputEvent::PressKey(Key::Command));
    assert!(s.modifiers().cmd);
    s.on_event(InputEvent::ReleaseKey(Key::Command));
    assert!(!s.modifiers().cmd);
    s.on_event(InputEvent::Type('a'));
    s.on_event(InputEvent::Paste(String::from("hello")));
    assert_eq!(s.events.len(), 6);
    s.update();
    assert_eq!(s.events.len(), 0);
}

#[test]
fn input_state_folds_batches() {
    let mut s = InputState::new();
    s.on_events(vec![
        InputEvent::Hover(pos(1, 2)),
        InputEvent::Press(pos(1, 2), PtrButton::Left),
        InputEvent::Scroll(pos(0, -3)),
    ]);
    assert_eq!(s.events.len(), 3);
    assert_eq!(s.ptr_pos(), pos(1, 2));
    assert!(!s.ptr_gone());
}

#[test]
fn typed_characters_honor_clipboard_shortcuts() {
    let plain = Modifiers { shift: false, cmd: false, option: false };
    let cmd = Modifiers { shift: false, cmd: true, option: false };
    assert_eq!(typed_char_cmd('v', plain), CharCmd::Text('v'));
    assert_eq!(typed_char_cmd('v', cmd), CharCmd::RequestPaste);
    assert_eq!(typed_char_cmd('c', cmd), CharCmd::CopyActiveField);
    assert_eq!(typed_char_cmd('x', cmd), CharCmd::Text('x'));
}

#[test]
fn ids_are_deterministic_in_process() {
    assert_eq!(Id::new(42u64), Id::new(42u64));
    assert_eq!(Id::new("wire-7"), Id::new("wire-7"));
    assert_ne!(Id::new("wire-7").0, Id::new("wire-8").0);
}
