//! The key-event normalizer: maps raw platform key events, looked up through
//! the host's per-device key character map, into unicode text and abstract
//! key events, combining dead-key accents with the following base character.
//!
//! The host performs the two map lookups (`get`, and `get_dead_char` when an
//! accent is pending) and hands their plain results in; the normalizer makes
//! every decision and owns the pending-accent state.

use vstd::prelude::*;
use crate::input::{InputEvent, Key};

verus! {

/// A key action as reported by the host.
#[derive(Clone, Copy, Debug, PartialEq, Eq, Structural)]
pub enum KeyAction {
    Up,
    Down,
    Other,
}

/// A successful key-character-map entry.
#[derive(Clone, Copy, Debug, PartialEq, Eq, Structural)]
pub enum MapChar {
    /// The key produces this unicode scalar.
    Unicode(char),
    /// The key is a dead key producing this combining accent.
    CombiningAccent(char),
    /// The key produces no character.
    NoChar,
}

/// The outcome of the host's key-character-map lookup.
#[derive(Clone, Copy, Debug, PartialEq, Eq, Structural)]
pub enum MapLookup {
    /// The map was consulted and answered.
    Found(MapChar),
    /// The map was consulted and failed.
    GetFailed,
    /// No map could be obtained for the device.
    MapUnavailable,
}

/// The outcome of the host's dead-key combination lookup.
#[derive(Clone, Copy, Debug, PartialEq, Eq, Structural)]
pub enum DeadKeyLookup {
    /// Accent and base combine to this scalar.
    Combined(char),
    /// The pair does not combine.
    NoCombination,
    /// The lookup failed.
    Failed,
}

/// What one key event produced: at most one abstract key event and at most
/// one character (unicode or prospective accent) to type.
#[derive(Clone, Debug, PartialEq, Eq)]
pub struct KeyOutput {
    pub event: Option<InputEvent>,
    pub chr: Option<MapChar>,
}

/// The normalizer's state: the pending dead-key accent, if any.
#[derive(Clone, Copy, Debug, PartialEq, Eq, Structural)]
pub struct KeyNormalizer {
    pub combining_accent: Option<char>,
}

/// The backspace key becomes an abstract key event: `PressKey` on the up
/// action and `ReleaseKey` on the down action, as the host shell has always
/// delivered it.
pub open spec fn spec_del_output(action: KeyAction) -> KeyOutput {
    match action {
        KeyAction::Up => KeyOutput {
            event: Some(InputEvent::PressKey(Key::Backspace)),
            chr: None,
        },
        KeyAction::Down => KeyOutput {
            event: Some(InputEvent::ReleaseKey(Key::Backspace)),
            chr: None,
        },
        KeyAction::Other => KeyOutput { event: None, chr: None },
    }
}

/// The accent state and output after one key event. A `Unicode` character on
/// a down action combines with a pending accent (or passes through when none
/// is pending) and always clears the accent; a dead key stores its accent on
/// a down action and is reported either way; a failed map lookup clears the
/// accent; a character-less key and an unavailable map leave it intact.
pub open spec fn spec_on_key(
    s: KeyNormalizer,
    action: KeyAction,
    is_del: bool,
    map: MapLookup,
    dead: DeadKeyLookup,
) -> (KeyNormalizer, KeyOutput) {
    if is_del {
        (s, spec_del_output(action))
    } else {
        match map {
            MapLookup::Found(MapChar::Unicode(c)) => {
                if action == KeyAction::Down {
                    let chr = match s.combining_accent {
                        Some(_) => match dead {
                            DeadKeyLookup::Combined(k) => Some(MapChar::Unicode(k)),
                            DeadKeyLookup::NoCombination => None,
                            DeadKeyLookup::Failed => None,
                        },
                        None => Some(MapChar::Unicode(c)),
                    };
                    (KeyNormalizer { combining_accent: None }, KeyOutput { event: None, chr })
                } else {
                    (s, KeyOutput { event: None, chr: None })
                }
            },
            MapLookup::Found(MapChar::CombiningAccent(a)) => {
                let s2 = if action == KeyAction::Down {
                    KeyNormalizer { combining_accent: Some(a) }
                } else {
                    s
                };
                (s2, KeyOutput { event: None, chr: Some(MapChar::CombiningAccent(a)) })
            },
            MapLookup::Found(MapChar::NoChar) => (s, KeyOutput { event: None, chr: None }),
            MapLookup::GetFailed => (
                KeyNormalizer { combining_accent: None },
                KeyOutput { event: None, chr: None },
            ),
            MapLookup::MapUnavailable => (s, KeyOutput { event: None, chr: None }),
        }
    }
}

impl KeyNormalizer {
    /// No accent pending.
    pub fn new() -> (s: Self)
        ensures
            s.combining_accent is None,
    {
        KeyNormalizer { combining_accent: None }
    }

    /// The pending accent, which tells the host whether the dead-key lookup
    /// is needed for the next key.
    pub fn pending_accent(&self) -> (a: Option<char>)
        ensures
            a == self.combining_accent,
    {
        self.combining_accent
    }

    /// Normalizes one key event, given the host's lookup results: `map` is
    /// the key-character-map entry for the key, and `dead` the combination of
    /// the pending accent with that character (consulted only when an accent
    /// is pending and the map produced a unicode character on a down action).
    pub fn on_key(
        &mut self,
        action: KeyAction,
        is_del: bool,
        map: MapLookup,
        dead: DeadKeyLookup,
    ) -> (out: KeyOutput)
        ensures
            (*final(self), out) == spec_on_key(*old(self), action, is_del, map, dead),
    {
        if is_del {
            let event = match action {
                KeyAction::Up => Some(InputEvent::PressKey(Key::Backspace)),
                KeyAction::Down => Some(InputEvent::ReleaseKey(Key::Backspace)),
                KeyAction::Other => None,
            };
            return KeyOutput { event, chr: None };
        }
        match map {
            MapLookup::Found(MapChar::Unicode(c)) => {
                if matches!(action, KeyAction::Down) {
                    let chr = match self.combining_accent {
                        Some(_) => match dead {
                            DeadKeyLookup::Combined(k) => Some(MapChar::Unicode(k)),
                            DeadKeyLookup::NoCombination => None,
                            DeadKeyLookup::Failed => None,
                        },
                        None => Some(MapChar::Unicode(c)),
                    };
                    self.combining_accent = None;
                    KeyOutput { event: None, chr }
                } else {
                    KeyOutput { event: None, chr: None }
                }
            }
            MapLookup::Found(MapChar::CombiningAccent(a)) => {
                if matches!(action, KeyAction::Down) {
                    self.combining_accent = Some(a);
                }
                KeyOutput { event: None, chr: Some(MapChar::CombiningAccent(a)) }
            }
            MapLookup::Found(MapChar::NoChar) => KeyOutput { event: None, chr: None },
            MapLookup::GetFailed => {
                self.combining_accent = None;
                KeyOutput { event: None, chr: None }
            }
            MapLookup::MapUnavailable => KeyOutput { event: None, chr: None },
        }
    }
}

impl Default for KeyNormalizer {
    /// No accent pending.
    fn default() -> (s: Self)
        ensures
            s.combining_accent is None,
    {
        KeyNormalizer { combining_accent: None }
    }
}

/// The dead-key law: with accent `a` pending, if the host map resolves the
/// base key to a unicode character and the dead-key lookup combines the pair
/// to `c`, then the base key's down event produces exactly the combined
/// character `c`, no abstract key event, and a cleared accent state.
pub proof fn lemma_dead_key_combines(s: KeyNormalizer, a: char, b: char, c: char)
    requires
        s.combining_accent == Some(a),
    ensures
        ({
            let (s2, out) = spec_on_key(
                s,
                KeyAction::Down,
                false,
                MapLookup::Found(MapChar::Unicode(b)),
                DeadKeyLookup::Combined(c),
            );
            &&& out.chr == Some(MapChar::Unicode(c))
            &&& out.event is None
            &&& s2.combining_accent is None
        }),
{
}

} // verus!
