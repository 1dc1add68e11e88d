//! Text-input state and the three-way reconciliation between the host IME,
//! the application's active text field, and the locally cached mirror.
//!
//! Text is carried as a sequence of unicode scalars; span offsets count
//! scalars. The host converts to and from its own text representation.

use vstd::prelude::*;

verus! {

/// One text field: its content, the selection span, and the span the IME is
/// still composing (`None` when no composition is active).
#[derive(Clone, Debug, PartialEq, Eq)]
pub struct TextField {
    pub text: Vec<char>,
    pub sel_start: u32,
    pub sel_end: u32,
    pub compose: Option<(u32, u32)>,
}

impl TextField {
    /// Spans are ordered and stay inside the text; a composition span is
    /// never empty (an empty one collapses to `None`).
    pub open spec fn wf(&self) -> bool {
        &&& self.sel_start <= self.sel_end <= self.text@.len()
        &&& match self.compose {
            Some(span) => span.0 < span.1 <= self.text@.len(),
            None => true,
        }
    }

    /// Two fields agree on everything the IME caret shows: selection span and
    /// composition span. Content is deliberately not compared.
    pub open spec fn caret_eq(&self, other: &TextField) -> bool {
        &&& self.sel_start == other.sel_start
        &&& self.sel_end == other.sel_end
        &&& self.compose == other.compose
    }
}

/// Whether two optional text-input states agree from the IME's point of view:
/// both absent, or both present with the same caret.
pub open spec fn spec_text_input_eq(a: Option<TextField>, b: Option<TextField>) -> bool {
    match a {
        Some(fa) => match b {
            Some(fb) => fa.caret_eq(&fb),
            None => false,
        },
        None => b is None,
    }
}

/// Compares two optional text-input states on selection and composition.
pub fn text_input_eq(a: &Option<TextField>, b: &Option<TextField>) -> (r: bool)
    ensures
        r == spec_text_input_eq(*a, *b),
{
    match (a, b) {
        (Some(fa), Some(fb)) => {
            let compose_eq = match (fa.compose, fb.compose) {
                (Some(ca), Some(cb)) => ca.0 == cb.0 && ca.1 == cb.1,
                (None, None) => true,
                _ => false,
            };
            fa.sel_start == fb.sel_start && fa.sel_end == fb.sel_end && compose_eq
        }
        (None, None) => true,
        _ => false,
    }
}

/// What the shell must ask of the host after a frame was drawn: open or close
/// the soft keyboard, and whether to push the active field to the host IME.
#[derive(Clone, Copy, Debug, PartialEq, Eq, Structural)]
pub struct SyncActions {
    pub show_keyboard: bool,
    pub hide_keyboard: bool,
    pub push_state: bool,
}

/// The frame's IME commands as a function of the mirror and the active field:
/// the keyboard opens when a field appears, closes when it disappears, and the
/// field is pushed to the host whenever its caret differs from the mirror's.
pub open spec fn spec_reconcile(mirror: Option<TextField>, active: Option<TextField>) -> SyncActions {
    SyncActions {
        show_keyboard: mirror is None && active is Some,
        hide_keyboard: mirror is Some && active is None,
        push_state: active is Some && !spec_text_input_eq(active, mirror),
    }
}

/// Diffs the application's post-draw active text field against the cached
/// mirror and decides the IME commands for this frame. The caller then
/// assigns the active field to the mirror.
pub fn reconcile(mirror: &Option<TextField>, active: &Option<TextField>) -> (r: SyncActions)
    ensures
        r == spec_reconcile(*mirror, *active),
{
    let changed = !text_input_eq(active, mirror);
    SyncActions {
        show_keyboard: mirror.is_none() && active.is_some(),
        hide_keyboard: mirror.is_some() && active.is_none(),
        push_state: active.is_some() && changed,
    }
}

/// The smaller of two span ends.
pub open spec fn span_lo(a: u32, b: u32) -> u32 {
    if a <= b {
        a
    } else {
        b
    }
}

/// The larger of two span ends.
pub open spec fn span_hi(a: u32, b: u32) -> u32 {
    if a <= b {
        b
    } else {
        a
    }
}

/// A span end clamped into the text.
pub open spec fn span_clamp(v: u32, len: u32) -> u32 {
    if v <= len {
        v
    } else {
        len
    }
}

/// Whether an inbound text is exactly two scalars shorter than the previous
/// mirror: the signature of the host defect where one backspace deletes two
/// characters.
pub open spec fn repair_applies(prev: Option<TextField>, text: Seq<char>) -> bool {
    match prev {
        Some(p) => text.len() + 2 == p.text@.len(),
        None => false,
    }
}

/// Normalizes a text event delivered by the host IME: span ends are ordered
/// and clamped into the text, an empty composition span collapses to `None`,
/// and when the text arrives exactly two scalars shorter than the previous
/// mirror, the penultimate scalar of the mirror is restored at the end and
/// the selection and composition spans widen by one.
pub fn inbound_text_event(
    prev: &Option<TextField>,
    text: Vec<char>,
    sel_a: u32,
    sel_b: u32,
    compose: Option<(u32, u32)>,
) -> (f: TextField)
    requires
        text@.len() <= u32::MAX,
        prev matches Some(p) ==> p.text@.len() <= u32::MAX,
    ensures
        f.wf(),
        f.text@ == if repair_applies(*prev, text@) {
            text@.push(prev->Some_0.text@[prev->Some_0.text@.len() - 2])
        } else {
            text@
        },
        ({
            let len = text@.len() as u32;
            let lo = span_clamp(span_lo(sel_a, sel_b), len);
            let hi = span_clamp(span_hi(sel_a, sel_b), len);
            let widen: u32 = if repair_applies(*prev, text@) {
                1
            } else {
                0
            };
            &&& f.sel_start == lo
            &&& f.sel_end == hi + widen
            &&& f.compose == match compose {
                Some(span) => {
                    let clo = span_clamp(span_lo(span.0, span.1), len);
                    let chi = span_clamp(span_hi(span.0, span.1), len);
                    if clo == chi {
                        None::<(u32, u32)>
                    } else {
                        Some((clo, (chi + widen) as u32))
                    }
                },
                None => None::<(u32, u32)>,
            }
        }),
{
    let mut text = text;
    let len: u32 = text.len() as u32;

    let lo_raw = if sel_a <= sel_b {
        sel_a
    } else {
        sel_b
    };
    let hi_raw = if sel_a <= sel_b {
        sel_b
    } else {
        sel_a
    };
    let lo = if lo_raw <= len {
        lo_raw
    } else {
        len
    };
    let mut hi = if hi_raw <= len {
        hi_raw
    } else {
        len
    };

    let mut comp: Option<(u32, u32)> = match compose {
        Some(span) => {
            let clo_raw = if span.0 <= span.1 {
                span.0
            } else {
                span.1
            };
            let chi_raw = if span.0 <= span.1 {
                span.1
            } else {
                span.0
            };
            let clo = if clo_raw <= len {
                clo_raw
            } else {
                len
            };
            let chi = if chi_raw <= len {
                chi_raw
            } else {
                len
            };
            if clo == chi {
                None
            } else {
                Some((clo, chi))
            }
        }
        None => None,
    };

    let repair = match prev {
        Some(p) => p.text.len() >= 2 && text.len() == p.text.len() - 2,
        None => false,
    };
    if repair {
        let p = match prev {
            Some(p) => p,
            None => unreached(),
        };
        let restored: char = p.text[p.text.len() - 2];
        text.push(restored);
        hi = hi + 1;
        comp = match comp {
            Some(span) => Some((span.0, span.1 + 1)),
            None => None,
        };
    }

    TextField { text, sel_start: lo, sel_end: hi, compose: comp }
}

/// The reconciler is quiet when the application echoes the mirror: if the
/// active field agrees with the mirrored field, no keyboard command and no
/// IME push is issued.
pub proof fn lemma_echo_is_quiet(mirror: Option<TextField>, active: Option<TextField>)
    requires
        spec_text_input_eq(active, mirror),
    ensures
        spec_reconcile(mirror, active) == (SyncActions {
            show_keyboard: false,
            hide_keyboard: false,
            push_state: false,
        }),
{
}

} // verus!
