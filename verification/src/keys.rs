use vstd::prelude::*;

verus! {

/// A terminal key, reduced to the payloads the translation reads.
///
/// `Other` stands for every terminal key that carries no mapping into the
/// guest's key encoding.
#[derive(Clone, Copy, Debug, PartialEq, Eq, Structural)]
pub enum Key {
    Enter,
    Backspace,
    Left,
    Right,
    Up,
    Down,
    Tab,
    Esc,
    Char(char),
    F(u8),
    Other,
}

/// How a terminal key event was produced.
#[derive(Clone, Copy, Debug, PartialEq, Eq, Structural)]
pub enum KeyKind {
    Press,
    Release,
    Repeat,
}

/// The guest's key code for a terminal key, or `None` where the key has no
/// guest equivalent and the event is to be dropped.
///
/// The letters z, x, c and v are remapped to ctrl, alt, shift and space: the
/// terminal event source does not expose per-modifier state reliably, so four
/// nearby letters simulate the modifiers.  This is ergonomic policy, not part
/// of the guest's contract, and may be overridden by a different mapping.
pub open spec fn spec_key_code(key: Key) -> Option<i32> {
    match key {
        Key::Enter => Some(13),
        Key::Backspace => Some(127),
        Key::Left => Some(0xac),
        Key::Right => Some(0xae),
        Key::Up => Some(0xad),
        Key::Down => Some(0xaf),
        Key::Tab => Some(9),
        Key::Esc => Some(27),
        Key::Char(ch) => if ch == ' ' {
            Some(32)
        } else if ch == 'z' {
            Some(157) // ctrl
        } else if ch == 'x' {
            Some(184) // alt
        } else if ch == 'c' {
            Some(16) // shift
        } else if ch == 'v' {
            Some(32) // space, the same code the space bar maps to
        } else {
            Some((ch as u32) as i32)
        },
        Key::F(n) => Some((n + 187) as i32),
        Key::Other => None,
    }
}

/// The guest's event kind for a press or release; a repeat has no guest
/// equivalent and is suppressed.
pub open spec fn spec_event_kind(kind: KeyKind) -> Option<i32> {
    match kind {
        KeyKind::Press => Some(0),
        KeyKind::Release => Some(1),
        KeyKind::Repeat => None,
    }
}

/// Translates a terminal key into the guest's key code.
pub fn key_code(key: Key) -> (r: Option<i32>)
    ensures
        r == spec_key_code(key),
{
    match key {
        Key::Enter => Some(13),
        Key::Backspace => Some(127),
        Key::Left => Some(0xac),
        Key::Right => Some(0xae),
        Key::Up => Some(0xad),
        Key::Down => Some(0xaf),
        Key::Tab => Some(9),
        Key::Esc => Some(27),
        Key::Char(ch) => {
            if ch == ' ' {
                Some(32)
            } else if ch == 'z' {
                Some(157)
            } else if ch == 'x' {
                Some(184)
            } else if ch == 'c' {
                Some(16)
            } else if ch == 'v' {
                Some(32)
            } else {
                Some(ch as i32)
            }
        },
        Key::F(n) => Some(n as i32 + 187),
        Key::Other => None,
    }
}

/// Translates a terminal event kind into the guest's event kind.
pub fn event_kind(kind: KeyKind) -> (r: Option<i32>)
    ensures
        r == spec_event_kind(kind),
{
    match kind {
        KeyKind::Press => Some(0),
        KeyKind::Release => Some(1),
        KeyKind::Repeat => None,
    }
}

/// The translation pair is a pure total function: equal inputs always map to
/// equal outputs, and a repeat kind is always suppressed.
pub proof fn lemma_translation_pure(k1: Key, k2: Key, e1: KeyKind, e2: KeyKind)
    requires
        k1 == k2,
        e1 == e2,
    ensures
        spec_key_code(k1) == spec_key_code(k2),
        spec_event_kind(e1) == spec_event_kind(e2),
        spec_event_kind(KeyKind::Repeat) is None,
{
}

} // verus!
