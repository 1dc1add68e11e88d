use logisim_shell::input::{InputEvent, Key};
use logisim_shell::keys::{DeadKeyLookup, KeyAction, KeyNormalizer, MapChar, MapLookup, KeyOutput};
use logisim_shell::text::{inbound_text_event, reconcile, text_input_eq, TextField};

fn field(text: &str, start: u32, end: u32, compose: Option<(u32, u32)>) -> TextField {
    TextField { text: text.chars().collect(), sel_start: start, sel_end: end, compose }
}

#[test]
fn reconcile_shows_keyboard_when_field_appears() {
    let r = reconcile(&None, &Some(field("hi", 2, 2, None)));
    assert!(r.show_keyboard);
    assert!(!r.hide_keyboard);
    assert!(r.push_state);
}

#[test]
fn reconcile_hides_keyboard_when_field_disappears() {
    let r = reconcile(&Some(field("hi", 2, 2, None)), &None);
    assert!(!r.show_keyboard);
    assert!(r.hide_keyboard);
    assert!(!r.push_state);
}

#[test]
fn reconcile_echo_is_quiet() {
    // The round-trip law on concrete values: when the application echoes the
    // mirrored field, no command is issued.
    let f = field("hello", 1, 3, Some((0, 2)));
    let r = reconcile(&Some(f.clone()), &Some(f));
    assert!(!r.show_keyboard && !r.hide_keyboard && !r.push_state);
}

#[test]
fn reconcile_pushes_on_caret_change_only() {
    // Content alone does not matter; the caret does.
    let mirror = field("aaaa", 1, 1, None);
    let same_caret = field("bbbb", 1, 1, None);
    assert!(!reconcile(&Some(mirror.clone()), &Some(same_caret)).push_state);
    let moved_caret = field("aaaa", 2, 2, None);
    assert!(reconcile(&Some(mirror), &Some(moved_caret)).push_state);
}

#[test]
fn text_input_eq_compares_caret() {
    let a = Some(field("abc", 1, 2, Some((0, 1))));
    let b = Some(field("xyz", 1, 2, Some((0, 1))));
    assert!(text_input_eq(&a, &b));
    let c = Some(field("abc", 1, 2, None));
    assert!(!text_input_eq(&a, &c));
    assert!(text_input_eq(&None, &None));
    assert!(!text_input_eq(&a, &None));
}

#[test]
fn inbound_event_normalizes_spans() {
    // Reversed selection ends are ordered; a collapsed compose span drops.
    let f = inbound_text_event(&None, "abcd".chars().collect(), 3, 1, Some((2, 2)));
    assert_eq!(f.text, "abcd".chars().collect::<Vec<char>>());
    assert_eq!((f.sel_start, f.sel_end), (1, 3));
    assert_eq!(f.compose, None);
    // Span ends past the text clamp to its length.
    let g = inbound_text_event(&None, "ab".chars().collect(), 9, 0, Some((5, 1)));
    assert_eq!((g.sel_start, g.sel_end), (0, 2));
    assert_eq!(g.compose, Some((1, 2)));
}

#[test]
fn inbound_event_repairs_double_backspace() {
    // The host defect: one backspace deleted two characters. The text arrives
    // two scalars shorter than the mirror, so the mirror's penultimate scalar
    // is restored and the spans widen by one.
    let mirror = Some(field("abcd", 4, 4, Some((0, 4))));
    let f = inbound_text_event(&mirror, "ab".chars().collect(), 2, 2, Some((0, 2)));
    assert_eq!(f.text, "abc".chars().collect::<Vec<char>>());
    assert_eq!((f.sel_start, f.sel_end), (2, 3));
    assert_eq!(f.compose, Some((0, 3)));
}

#[test]
fn inbound_event_without_shortfall_is_unchanged() {
    let mirror = Some(field("abcd", 4, 4, None));
    let f = inbound_text_event(&mirror, "abc".chars().collect(), 3, 3, None);
    assert_eq!(f.text, "abc".chars().collect::<Vec<char>>());
    assert_eq!((f.sel_start, f.sel_end), (3, 3));
}

#[test]
fn dead_key_combines_on_base_down() {
    // The dead-key law on concrete values: the accent arms on its down event,
    // and the base key's down event emits exactly the combined scalar.
    let mut n = KeyNormalizer::new();
    let armed = n.on_key(
        KeyAction::Down,
        false,
        MapLookup::Found(MapChar::CombiningAccent('\u{02CA}')),
        DeadKeyLookup::NoCombination,
    );
    assert_eq!(armed.chr, Some(MapChar::CombiningAccent('\u{02CA}')));
    assert_eq!(n.pending_accent(), Some('\u{02CA}'));
    let combined = n.on_key(
        KeyAction::Down,
        false,
        MapLookup::Found(MapChar::Unicode('e')),
        DeadKeyLookup::Combined('\u{00E9}'),
    );
    assert_eq!(combined.chr, Some(MapChar::Unicode('\u{00E9}')));
    assert_eq!(combined.event, None);
    assert_eq!(n.pending_accent(), None);
}

#[test]
fn failed_combination_drops_the_character() {
    let mut n = KeyNormalizer::new();
    n.on_key(
        KeyAction::Down,
        false,
        MapLookup::Found(MapChar::CombiningAccent('^')),
        DeadKeyLookup::NoCombination,
    );
    let out = n.on_key(
        KeyAction::Down,
        false,
        MapLookup::Found(MapChar::Unicode('q')),
        DeadKeyLookup::NoCombination,
    );
    assert_eq!(out.chr, None);
    assert_eq!(n.pending_accent(), None);
}

#[test]
fn del_key_maps_to_backspace_events() {
    // The backspace key's historical mapping: an abstract press on the up
    // action and a release on the down action, preserved verbatim.
    let mut n = KeyNormalizer::new();
    let up = n.on_key(KeyAction::Up, true, MapLookup::MapUnavailable, DeadKeyLookup::Failed);
    assert_eq!(up.event, Some(InputEvent::PressKey(Key::Backspace)));
    assert_eq!(up.chr, None);
    let down = n.on_key(KeyAction::Down, true, MapLookup::MapUnavailable, DeadKeyLookup::Failed);
    assert_eq!(down.event, Some(InputEvent::ReleaseKey(Key::Backspace)));
}

#[test]
fn plain_character_types_on_down_only() {
    let mut n = KeyNormalizer::new();
    let down = n.on_key(
        KeyAction::Down,
        false,
        MapLookup::Found(MapChar::Unicode('x')),
        DeadKeyLookup::Failed,
    );
    assert_eq!(down.chr, Some(MapChar::Unicode('x')));
    let up = n.on_key(
        KeyAction::Up,
        false,
        MapLookup::Found(MapChar::Unicode('x')),
        DeadKeyLookup::Failed,
    );
    assert_eq!(up, KeyOutput { event: None, chr: None });
}

#[test]
fn lookup_failures_steer_the_accent_state() {
    let mut n = KeyNormalizer::new();
    n.on_key(
        KeyAction::Down,
        false,
        MapLookup::Found(MapChar::CombiningAccent('~')),
        DeadKeyLookup::Failed,
    );
    // A character-less key leaves the accent armed.
    n.on_key(KeyAction::Down, false, MapLookup::Found(MapChar::NoChar), DeadKeyLookup::Failed);
    assert_eq!(n.pending_accent(), Some('~'));
    // An unavailable map leaves it armed too.
    n.on_key(KeyAction::Down, false, MapLookup::MapUnavailable, DeadKeyLookup::Failed);
    assert_eq!(n.pending_accent(), Some('~'));
    // A failed map lookup clears it.
    n.on_key(KeyAction::Down, false, MapLookup::GetFailed, DeadKeyLookup::Failed);
    assert_eq!(n.pending_accent(), None);
}
