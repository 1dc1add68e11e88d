//! The abstract input surface handed to the application: pointer, key and
//! text events, and the per-frame aggregate they fold into.
//!
//! Pointer positions are whole pixels; hosts that report fractional positions
//! round before handing them in.

use vstd::prelude::*;
use crate::text::TextField;

verus! {

/// A pointer position in whole pixels.
#[derive(Clone, Copy, Debug, PartialEq, Eq, Structural)]
pub struct Pos {
    pub x: i32,
    pub y: i32,
}

/// A pointer button.
#[derive(Clone, Copy, Debug, PartialEq, Eq, Structural)]
pub enum PtrButton {
    Left,
    Middle,
    Right,
    Back,
    Forward,
    Other(u16),
}

/// The named keys the application understands.
#[derive(Clone, Copy, Debug, PartialEq, Eq, Structural)]
pub enum Key {
    Shift,
    Command,
    Option,
    Backspace,
    Enter,
    Esc,
    Left,
    Right,
    Up,
    Down,
    Tab,
    Space,
    Delete,
    Insert,
    Home,
    End,
    PageUp,
    PageDown,
    F1,
    F2,
    F3,
    F4,
    F5,
    F6,
    F7,
    F8,
    F9,
    F10,
    F11,
    F12,
}

/// One abstract input event, as consumed by the application.
///
/// `Zoom` carries a magnification delta in ten-thousandths: the value divided
/// by 10000 is the unitless magnification ratio.
#[derive(Clone, Debug, PartialEq, Eq)]
pub enum InputEvent {
    Hover(Pos),
    PointerLeft,
    Press(Pos, PtrButton),
    Release(PtrButton),
    Click(Pos, PtrButton),
    Zoom(Pos, i128),
    Scroll(Pos),
    Type(char),
    PressKey(Key),
    ReleaseKey(Key),
    Paste(String),
}

/// The keyboard modifiers currently held.
#[derive(Clone, Copy, Debug, PartialEq, Eq, Structural)]
pub struct Modifiers {
    pub shift: bool,
    pub cmd: bool,
    pub option: bool,
}

/// The per-frame fold target: every synthetic event of the frame in
/// host-delivered order, the wall-clock time of the frame, the last known
/// pointer position, the modifier state, and the text field the application
/// declared active while drawing.
pub struct InputState {
    pub events: Vec<InputEvent>,
    pub millis: u64,
    pub ptr_pos: Pos,
    pub ptr_present: bool,
    pub mods: Modifiers,
    pub active_text_field: Option<TextField>,
}

/// The pointer position after an event: pointer events move it, `PointerLeft`
/// marks the pointer gone without forgetting where it was.
pub open spec fn spec_ptr_after(e: InputEvent, pos: Pos, present: bool) -> (Pos, bool) {
    match e {
        InputEvent::Hover(p) => (p, true),
        InputEvent::Press(p, _) => (p, true),
        InputEvent::Click(p, _) => (p, true),
        InputEvent::PointerLeft => (pos, false),
        _ => (pos, present),
    }
}

/// The modifier state after an event: pressing or releasing a modifier key
/// sets or clears its flag.
pub open spec fn spec_mods_after(e: InputEvent, m: Modifiers) -> Modifiers {
    match e {
        InputEvent::PressKey(k) => match k {
            Key::Shift => Modifiers { shift: true, ..m },
            Key::Command => Modifiers { cmd: true, ..m },
            Key::Option => Modifiers { option: true, ..m },
            _ => m,
        },
        InputEvent::ReleaseKey(k) => match k {
            Key::Shift => Modifiers { shift: false, ..m },
            Key::Command => Modifiers { cmd: false, ..m },
            Key::Option => Modifiers { option: false, ..m },
            _ => m,
        },
        _ => m,
    }
}

/// The pointer and modifier state after a whole batch of events, folded in
/// order.
pub open spec fn spec_fold_events(
    pos: Pos,
    present: bool,
    mods: Modifiers,
    es: Seq<InputEvent>,
) -> (Pos, bool, Modifiers)
    decreases es.len(),
{
    if es.len() == 0 {
        (pos, present, mods)
    } else {
        let step = spec_ptr_after(es[0], pos, present);
        spec_fold_events(step.0, step.1, spec_mods_after(es[0], mods), es.skip(1))
    }
}

impl InputState {
    /// An idle aggregate: no events, epoch time, pointer gone at the origin,
    /// no modifiers, no active field.
    pub fn new() -> (s: Self)
        ensures
            s.events@ == Seq::<InputEvent>::empty(),
            s.millis == 0,
            s.ptr_pos == (Pos { x: 0, y: 0 }),
            !s.ptr_present,
            s.mods == Modifiers::default_spec(),
            s.active_text_field is None,
    {
        InputState {
            events: Vec::new(),
            millis: 0,
            ptr_pos: Pos { x: 0, y: 0 },
            ptr_present: false,
            mods: Modifiers { shift: false, cmd: false, option: false },
            active_text_field: None,
        }
    }

    /// Folds one event into the frame: appends it and tracks the pointer and
    /// modifier state it implies.
    pub fn on_event(&mut self, e: InputEvent)
        ensures
            final(self).events@ == old(self).events@.push(e),
            (final(self).ptr_pos, final(self).ptr_present) == spec_ptr_after(
                e,
                old(self).ptr_pos,
                old(self).ptr_present,
            ),
            final(self).mods == spec_mods_after(e, old(self).mods),
            final(self).millis == old(self).millis,
            final(self).active_text_field == old(self).active_text_field,
    {
        match &e {
            InputEvent::Hover(p) => {
                self.ptr_pos = *p;
                self.ptr_present = true;
            }
            InputEvent::Press(p, _) => {
                self.ptr_pos = *p;
                self.ptr_present = true;
            }
            InputEvent::Click(p, _) => {
                self.ptr_pos = *p;
                self.ptr_present = true;
            }
            InputEvent::PointerLeft => {
                self.ptr_present = false;
            }
            InputEvent::PressKey(k) => {
                match k {
                    Key::Shift => self.mods.shift = true,
                    Key::Command => self.mods.cmd = true,
                    Key::Option => self.mods.option = true,
                    _ => {}
                }
            }
            InputEvent::ReleaseKey(k) => {
                match k {
                    Key::Shift => self.mods.shift = false,
                    Key::Command => self.mods.cmd = false,
                    Key::Option => self.mods.option = false,
                    _ => {}
                }
            }
            _ => {}
        }
        self.events.push(e);
    }

    /// Folds a batch of events in order.
    pub fn on_events(&mut self, es: Vec<InputEvent>)
        ensures
            final(self).events@ == old(self).events@ + es@,
            (final(self).ptr_pos, final(self).ptr_present, final(self).mods) == spec_fold_events(
                old(self).ptr_pos,
                old(self).ptr_present,
                old(self).mods,
                es@,
            ),
            final(self).millis == old(self).millis,
            final(self).active_text_field == old(self).active_text_field,
    {
        let mut es = es;
        let ghost all = es@;
        while es.len() > 0
            invariant
                es@.len() <= all.len(),
                es@ == all.subrange(all.len() - es@.len(), all.len() as int),
                self.events@ == old(self).events@ + all.subrange(0, all.len() - es@.len()),
                spec_fold_events(self.ptr_pos, self.ptr_present, self.mods, es@)
                    == spec_fold_events(
                    old(self).ptr_pos,
                    old(self).ptr_present,
                    old(self).mods,
                    all,
                ),
                self.millis == old(self).millis,
                self.active_text_field == old(self).active_text_field,
            decreases es@.len(),
        {
            let ghost k: int = all.len() - es@.len();
            let ghost before = es@;
            let e = es.remove(0);
            proof {
                assert(e == all[k]);
                assert(es@ =~= all.subrange(k + 1, all.len() as int));
                assert(all.subrange(0, k + 1) =~= all.subrange(0, k).push(all[k]));
                assert(before.skip(1) =~= es@);
            }
            self.on_event(e);
        }
        proof {
            assert(all.subrange(0, all.len() as int) =~= all);
        }
    }

    /// The last known pointer position.
    pub fn ptr_pos(&self) -> (p: Pos)
        ensures
            p == self.ptr_pos,
    {
        self.ptr_pos
    }

    /// Whether the pointer has left the surface.
    pub fn ptr_gone(&self) -> (r: bool)
        ensures
            r == !self.ptr_present,
    {
        !self.ptr_present
    }

    /// The current modifier state.
    pub fn modifiers(&self) -> (m: Modifiers)
        ensures
            m == self.mods,
    {
        self.mods
    }

    /// Replaces the active text field, as delivered by the host IME.
    pub fn set_text_input(&mut self, f: Option<TextField>)
        ensures
            final(self).active_text_field == f,
            final(self).events@ == old(self).events@,
            final(self).millis == old(self).millis,
            final(self).ptr_pos == old(self).ptr_pos,
            final(self).ptr_present == old(self).ptr_present,
            final(self).mods == old(self).mods,
    {
        self.active_text_field = f;
    }

    /// Ends the frame: the events were consumed by the application's draw, so
    /// the fold target empties for the next frame.
    pub fn update(&mut self)
        ensures
            final(self).events@ == Seq::<InputEvent>::empty(),
            final(self).millis == old(self).millis,
            final(self).ptr_pos == old(self).ptr_pos,
            final(self).ptr_present == old(self).ptr_present,
            final(self).mods == old(self).mods,
            final(self).active_text_field == old(self).active_text_field,
    {
        self.events.clear();
    }
}

/// What one typed printable character means under the current modifiers:
/// the paste shortcut asks the host for its clipboard text, the copy shortcut
/// copies the active text field to the clipboard, anything else is plain
/// text for the application.
#[derive(Clone, Copy, Debug, PartialEq, Eq, Structural)]
pub enum CharCmd {
    RequestPaste,
    CopyActiveField,
    Text(char),
}

/// The meaning of a typed character under the given modifiers.
pub open spec fn spec_typed_char_cmd(c: char, mods: Modifiers) -> CharCmd {
    if mods.cmd && c == 'v' {
        CharCmd::RequestPaste
    } else if mods.cmd && c == 'c' {
        CharCmd::CopyActiveField
    } else {
        CharCmd::Text(c)
    }
}

/// Decides what a typed character means under the given modifiers.
pub fn typed_char_cmd(c: char, mods: Modifiers) -> (r: CharCmd)
    ensures
        r == spec_typed_char_cmd(c, mods),
{
    if mods.cmd && c == 'v' {
        CharCmd::RequestPaste
    } else if mods.cmd && c == 'c' {
        CharCmd::CopyActiveField
    } else {
        CharCmd::Text(c)
    }
}

impl Default for Modifiers {
    /// No modifier held.
    fn default() -> (m: Self)
        ensures
            m == Modifiers::default_spec(),
    {
        Modifiers { shift: false, cmd: false, option: false }
    }
}

impl Modifiers {
    /// The value `Default::default` returns: no modifier held.
    pub open spec fn default_spec() -> Modifiers {
        Modifiers { shift: false, cmd: false, option: false }
    }
}

} // verus!
