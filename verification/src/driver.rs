//! The frame driver: the window-lifecycle state machine, the fixed-cadence
//! frame counter, the content-rectangle computation, and the desktop pointer
//! click gate.
//!
//! The driver decides; the host performs. Every lifecycle event maps to a
//! new state and a list of host commands (load or save a persistence blob,
//! pause or resume the application, forward a resize). The host executes the
//! commands and reports the next event.

use vstd::prelude::*;
use crate::input::{InputEvent, InputState, Pos, PtrButton};
use crate::input::{spec_fold_events, spec_mods_after, spec_ptr_after};
use crate::text::{reconcile, spec_reconcile, SyncActions, TextField};
use crate::touch::{dist_sq, dist_sq_px, elapsed};

verus! {

/// A window size in pixels.
#[derive(Clone, Copy, Debug, PartialEq, Eq, Structural)]
pub struct WinSize {
    pub width: u32,
    pub height: u32,
}

/// Where the shell stands in its life.
#[derive(Clone, Copy, Debug, PartialEq, Eq, Structural)]
pub enum Phase {
    /// Started, not yet resumed.
    Booting,
    /// Resumed and drawing frames.
    Running,
    /// Paused by the host; surfaces dropped.
    Paused,
    /// Told to quit; the tick loop exits.
    Quitting,
}

/// One of the three persistence blobs.
#[derive(Clone, Copy, Debug, PartialEq, Eq, Structural)]
pub enum BlobKind {
    Settings,
    Library,
    Scene,
}

/// A lifecycle event reported by the host.
#[derive(Clone, Copy, Debug, PartialEq, Eq, Structural)]
pub enum MainEvent {
    /// The host asks for the state to be persisted.
    SaveState,
    /// The activity paused.
    Pause,
    /// The activity resumed.
    Resume,
    /// A native window exists (or could not be obtained).
    InitWindow { window: Option<WinSize> },
    /// The native window is gone.
    TerminateWindow,
    /// The window changed size.
    WindowResized { size: WinSize },
    /// A redraw was requested; the tick loop draws anyway.
    RedrawNeeded,
    /// Input arrived; the tick loop drains input anyway.
    InputAvailable,
    /// The configuration changed.
    ConfigChanged,
    /// The host is low on memory; logged by the host, no action.
    LowMemory,
    /// The activity is being destroyed.
    Destroy,
    /// Anything else.
    Unknown,
}

/// A command the host must perform for the driver.
#[derive(Clone, Copy, Debug, PartialEq, Eq, Structural)]
pub enum HostCmd {
    /// Serialize the blob and write it to its fixed path.
    SaveBlob(BlobKind),
    /// Read the blob from its fixed path, if present, and hand it to the
    /// application; absence or a parse failure is logged, not fatal.
    LoadBlob(BlobKind),
    /// Tell the application to drop its surfaces.
    PauseApp,
    /// Acquire the surface and let the application build its GPU state,
    /// blocking until done.
    ResumeApp(WinSize),
    /// Forward the new size to the application.
    UpdateSize(WinSize),
}

/// The frame driver's state.
pub struct FrameDriver {
    pub phase: Phase,
    pub window: Option<WinSize>,
    pub frame_count: u32,
    pub fps: u32,
    pub last_fps_update_millis: u64,
    /// The locally cached mirror of the host IME state.
    pub text_mirror: Option<TextField>,
}

/// The state and host commands after one lifecycle event.
pub open spec fn spec_on_main_event(s: FrameDriver, ev: MainEvent) -> (FrameDriver, Seq<HostCmd>) {
    match ev {
        MainEvent::SaveState => (
            s,
            seq![
                HostCmd::SaveBlob(BlobKind::Settings),
                HostCmd::SaveBlob(BlobKind::Library),
                HostCmd::SaveBlob(BlobKind::Scene),
            ],
        ),
        MainEvent::Pause => (FrameDriver { phase: Phase::Paused, ..s }, seq![HostCmd::PauseApp]),
        MainEvent::Resume => (
            FrameDriver { phase: Phase::Running, ..s },
            seq![
                HostCmd::LoadBlob(BlobKind::Settings),
                HostCmd::LoadBlob(BlobKind::Library),
                HostCmd::LoadBlob(BlobKind::Scene),
            ],
        ),
        MainEvent::InitWindow { window } => match window {
            Some(size) => (FrameDriver { window: Some(size), ..s }, seq![HostCmd::ResumeApp(size)]),
            None => (FrameDriver { window: None, ..s }, Seq::empty()),
        },
        MainEvent::TerminateWindow => (FrameDriver { window: None, ..s }, Seq::empty()),
        MainEvent::WindowResized { size } => {
            if s.window is Some {
                (FrameDriver { window: Some(size), ..s }, seq![HostCmd::UpdateSize(size)])
            } else {
                (s, Seq::empty())
            }
        },
        MainEvent::Destroy => (FrameDriver { phase: Phase::Quitting, ..s }, Seq::empty()),
        _ => (s, Seq::empty()),
    }
}

/// The frame counter after one tick: while running, each tick counts a frame,
/// and once a wall-clock second has passed the counted frames become the
/// frame rate.
pub open spec fn spec_frame_tick(s: FrameDriver, now: u64) -> (FrameDriver, bool) {
    if s.phase is Running {
        let count: u32 = if s.frame_count == u32::MAX {
            u32::MAX
        } else {
            (s.frame_count + 1) as u32
        };
        if elapsed(s.last_fps_update_millis, now) >= 1000 {
            (
                FrameDriver { frame_count: 0, fps: count, last_fps_update_millis: now, ..s },
                true,
            )
        } else {
            (FrameDriver { frame_count: count, ..s }, true)
        }
    } else {
        (s, false)
    }
}

impl FrameDriver {
    /// The freshly started driver: booting, no window, no mirror, epoch
    /// counters.
    pub fn new() -> (s: Self)
        ensures
            s.phase == Phase::Booting,
            s.window is None,
            s.frame_count == 0,
            s.fps == 0,
            s.last_fps_update_millis == 0,
            s.text_mirror is None,
    {
        FrameDriver {
            phase: Phase::Booting,
            window: None,
            frame_count: 0,
            fps: 0,
            last_fps_update_millis: 0,
            text_mirror: None,
        }
    }

    /// Whether the tick loop should keep polling.
    pub fn running(&self) -> (r: bool)
        ensures
            r == (self.phase is Running),
    {
        matches!(self.phase, Phase::Running)
    }

    /// Whether the shell was told to quit.
    pub fn quitting(&self) -> (r: bool)
        ensures
            r == (self.phase is Quitting),
    {
        matches!(self.phase, Phase::Quitting)
    }

    /// Applies one lifecycle event: moves the state machine and appends the
    /// commands the host must perform, in order.
    pub fn on_main_event(&mut self, ev: MainEvent, out: &mut Vec<HostCmd>)
        ensures
            *final(self) == spec_on_main_event(*old(self), ev).0,
            final(out)@ == old(out)@ + spec_on_main_event(*old(self), ev).1,
    {
        match ev {
            MainEvent::SaveState => {
                out.push(HostCmd::SaveBlob(BlobKind::Settings));
                out.push(HostCmd::SaveBlob(BlobKind::Library));
                out.push(HostCmd::SaveBlob(BlobKind::Scene));
            }
            MainEvent::Pause => {
                self.phase = Phase::Paused;
                out.push(HostCmd::PauseApp);
            }
            MainEvent::Resume => {
                self.phase = Phase::Running;
                out.push(HostCmd::LoadBlob(BlobKind::Settings));
                out.push(HostCmd::LoadBlob(BlobKind::Library));
                out.push(HostCmd::LoadBlob(BlobKind::Scene));
            }
            MainEvent::InitWindow { window } => {
                self.window = window;
                if let Some(size) = window {
                    out.push(HostCmd::ResumeApp(size));
                }
            }
            MainEvent::TerminateWindow => {
                self.window = None;
            }
            MainEvent::WindowResized { size } => {
                if self.window.is_some() {
                    self.window = Some(size);
                    out.push(HostCmd::UpdateSize(size));
                }
            }
            MainEvent::Destroy => {
                self.phase = Phase::Quitting;
            }
            _ => {}
        }
    }

    /// Counts one tick of the main loop; returns whether a frame should be
    /// drawn. Once a wall-clock second has passed, the frames counted since
    /// then become the published frame rate.
    pub fn frame_tick(&mut self, now_millis: u64) -> (draw: bool)
        ensures
            (*final(self), draw) == spec_frame_tick(*old(self), now_millis),
    {
        if !matches!(self.phase, Phase::Running) {
            return false;
        }
        let count = if self.frame_count == u32::MAX {
            u32::MAX
        } else {
            self.frame_count + 1
        };
        if now_millis.saturating_sub(self.last_fps_update_millis) >= 1000 {
            self.frame_count = 0;
            self.fps = count;
            self.last_fps_update_millis = now_millis;
        } else {
            self.frame_count = count;
        }
        true
    }

    /// Ends a frame: diffs the application's active text field against the
    /// mirror, adopts the field as the new mirror, and returns the IME
    /// commands the host must issue.
    pub fn end_frame(&mut self, active: Option<TextField>) -> (r: SyncActions)
        ensures
            r == spec_reconcile(old(self).text_mirror, active),
            final(self).text_mirror == active,
            final(self).phase == old(self).phase,
            final(self).window == old(self).window,
            final(self).frame_count == old(self).frame_count,
            final(self).fps == old(self).fps,
            final(self).last_fps_update_millis == old(self).last_fps_update_millis,
    {
        let r = reconcile(&self.text_mirror, &active);
        self.text_mirror = active;
        r
    }
}

impl Default for FrameDriver {
    /// The freshly started driver.
    fn default() -> (s: Self)
        ensures
            s.phase == Phase::Booting,
            s.window is None,
            s.frame_count == 0,
            s.fps == 0,
            s.last_fps_update_millis == 0,
            s.text_mirror is None,
    {
        FrameDriver::new()
    }
}

/// An i32 value clamped to its range.
pub open spec fn sat32(v: int) -> i32 {
    if v > i32::MAX {
        i32::MAX
    } else if v < i32::MIN {
        i32::MIN
    } else {
        v as i32
    }
}

/// An axis-aligned pixel rectangle.
#[derive(Clone, Copy, Debug, PartialEq, Eq, Structural)]
pub struct PixelRect {
    pub min: Pos,
    pub max: Pos,
}

/// The system insets around the drawable area, in pixels.
#[derive(Clone, Copy, Debug, PartialEq, Eq, Structural)]
pub struct Insets {
    pub top: i32,
    pub right: i32,
    pub bottom: i32,
    pub left: i32,
}

/// The window rectangle shrunk by the display insets: what the drawable
/// content rectangle is.
pub open spec fn spec_content_rect(win: PixelRect, insets: Insets) -> PixelRect {
    PixelRect {
        min: Pos { x: sat32(win.min.x + insets.left), y: sat32(win.min.y + insets.top) },
        max: Pos { x: sat32(win.max.x - insets.right), y: sat32(win.max.y - insets.bottom) },
    }
}

/// Saturating i32 addition.
fn add_sat_i32(a: i32, b: i32) -> (r: i32)
    ensures
        r == sat32(a + b),
{
    match a.checked_add(b) {
        Some(v) => v,
        None => if b > 0 {
            i32::MAX
        } else {
            i32::MIN
        },
    }
}

/// Saturating i32 subtraction.
fn sub_sat_i32(a: i32, b: i32) -> (r: i32)
    ensures
        r == sat32(a - b),
{
    match a.checked_sub(b) {
        Some(v) => v,
        None => if b < 0 {
            i32::MAX
        } else {
            i32::MIN
        },
    }
}

/// Shrinks the window rectangle by the display insets, each edge saturating.
pub fn content_rect(win: PixelRect, insets: Insets) -> (r: PixelRect)
    ensures
        r == spec_content_rect(win, insets),
{
    PixelRect {
        min: Pos { x: add_sat_i32(win.min.x, insets.left), y: add_sat_i32(win.min.y, insets.top) },
        max: Pos {
            x: sub_sat_i32(win.max.x, insets.right),
            y: sub_sat_i32(win.max.y, insets.bottom),
        },
    }
}

/// One recorded desktop mouse press: which button went down, where, and when.
#[derive(Clone, Copy, Debug, PartialEq, Eq, Structural)]
pub struct PtrPress {
    pub button: PtrButton,
    pub pos: Pos,
    pub millis: u64,
}

/// The events a desktop button release emits: if the same button was pressed
/// within five squared pixels of the current position and less than two
/// seconds ago, a click at the press position precedes the release.
pub open spec fn spec_click_gate(
    press: Option<PtrPress>,
    button: PtrButton,
    pos: Pos,
    now: u64,
) -> Seq<InputEvent> {
    match press {
        Some(p) => {
            if p.button == button && dist_sq(pos, p.pos) < 5 && p.millis <= now && now - p.millis
                < 2000 {
                seq![InputEvent::Click(p.pos, button), InputEvent::Release(button)]
            } else {
                seq![InputEvent::Release(button)]
            }
        },
        None => seq![InputEvent::Release(button)],
    }
}

/// A desktop mouse button going down: a press event at the last known pointer
/// position, recorded for the click gate.
pub fn pointer_pressed(
    input: &mut InputState,
    press: &mut Option<PtrPress>,
    button: PtrButton,
    now_millis: u64,
)
    ensures
        final(input).events@ == old(input).events@.push(
            InputEvent::Press(old(input).ptr_pos, button),
        ),
        (final(input).ptr_pos, final(input).ptr_present) == spec_ptr_after(
            InputEvent::Press(old(input).ptr_pos, button),
            old(input).ptr_pos,
            old(input).ptr_present,
        ),
        final(input).mods == old(input).mods,
        final(input).millis == old(input).millis,
        final(input).active_text_field == old(input).active_text_field,
        *final(press) == Some(
            PtrPress { button, pos: old(input).ptr_pos, millis: now_millis },
        ),
{
    let pos = input.ptr_pos();
    input.on_event(InputEvent::Press(pos, button));
    *press = Some(PtrPress { button, pos, millis: now_millis });
}

/// A desktop mouse button going up: the click gate decides whether a click
/// precedes the release, and the recorded press is consumed.
pub fn pointer_released(
    input: &mut InputState,
    press: &mut Option<PtrPress>,
    button: PtrButton,
    now_millis: u64,
)
    ensures
        final(input).events@ == old(input).events@ + spec_click_gate(
            *old(press),
            button,
            old(input).ptr_pos,
            now_millis,
        ),
        (final(input).ptr_pos, final(input).ptr_present, final(input).mods) == spec_fold_events(
            old(input).ptr_pos,
            old(input).ptr_present,
            old(input).mods,
            spec_click_gate(*old(press), button, old(input).ptr_pos, now_millis),
        ),
        final(input).millis == old(input).millis,
        final(input).active_text_field == old(input).active_text_field,
        *final(press) is None,
{
    let pos = input.ptr_pos();
    if let Some(p) = *press {
        let d = dist_sq_px(pos, p.pos);
        if p.button == button && d < 5 && p.millis <= now_millis && now_millis - p.millis < 2000 {
            input.on_event(InputEvent::Click(p.pos, button));
        }
        *press = None;
    }
    input.on_event(InputEvent::Release(button));
    proof {
        let a0 = old(input).ptr_pos;
        let b0 = old(input).ptr_present;
        let c0 = old(input).mods;
        let evs = spec_click_gate(*old(press), button, a0, now_millis);
        let rel = seq![InputEvent::Release(button)];
        assert(rel.skip(1) =~= Seq::<InputEvent>::empty());
        if evs.len() == 2 {
            assert(evs.skip(1) =~= rel);
            let st1 = spec_ptr_after(evs[0], a0, b0);
            let md1 = spec_mods_after(evs[0], c0);
            assert(spec_fold_events(a0, b0, c0, evs) == spec_fold_events(st1.0, st1.1, md1, rel));
            let st2 = spec_ptr_after(rel[0], st1.0, st1.1);
            let md2 = spec_mods_after(rel[0], md1);
            assert(spec_fold_events(st1.0, st1.1, md1, rel) == spec_fold_events(
                st2.0,
                st2.1,
                md2,
                rel.skip(1),
            ));
            assert(spec_fold_events(st2.0, st2.1, md2, Seq::<InputEvent>::empty()) == (
                st2.0,
                st2.1,
                md2,
            ));
        } else {
            assert(evs =~= rel);
            let st1 = spec_ptr_after(rel[0], a0, b0);
            let md1 = spec_mods_after(rel[0], c0);
            assert(spec_fold_events(a0, b0, c0, rel) == spec_fold_events(
                st1.0,
                st1.1,
                md1,
                rel.skip(1),
            ));
            assert(spec_fold_events(st1.0, st1.1, md1, Seq::<InputEvent>::empty()) == (
                st1.0,
                st1.1,
                md1,
            ));
        }
        assert(final(input).events@ =~= old(input).events@ + evs);
    }
}

} // verus!
