use vstd::prelude::*;

verus! {

/// A key event as the editor sees it.
#[derive(Clone, Copy, Debug, PartialEq, Eq, Structural)]
pub enum Key {
    Backspace,
    Left,
    Right,
    Up,
    Down,
    Home,
    End,
    PageUp,
    PageDown,
    BackTab,
    Delete,
    Insert,
    F(u8),
    Char(char),
    Alt(char),
    Ctrl(char),
    Null,
    Esc,
}

/// The letter that, held with Ctrl, ends the editing session.
pub const QUIT_LETTER: char = 'k';

pub open spec fn is_quit_key(key: Key) -> bool {
    key == Key::Ctrl(QUIT_LETTER)
}

/// Whether `key` is the quit combination, Ctrl+K.
pub fn is_quit(key: &Key) -> (r: bool)
    ensures
        r == is_quit_key(*key),
{
    match key {
        Key::Ctrl(c) => *c == QUIT_LETTER,
        _ => false,
    }
}

/// The byte a terminal sends for Ctrl held with `c`: the low five bits of `c`.
pub open spec fn ctrl_byte_of(c: char) -> int {
    (c as int) % 32
}

/// The byte a terminal sends in raw mode when `c` is typed with Ctrl held.
pub fn to_ctrl_byte(c: char) -> (r: u8)
    ensures
        r as int == ctrl_byte_of(c),
{
    let byte: u8 = (c as u32 % 256) as u8;
    let r: u8 = byte & 0b0001_1111;
    assert(r == byte % 32) by (bit_vector)
        requires
            r == byte & 0b0001_1111,
    ;
    assert((c as u32 % 256) % 32 == (c as u32) % 32) by (nonlinear_arith);
    r
}

} // verus!
