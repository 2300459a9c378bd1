use vstd::prelude::*;

verus! {

/// A key press as the input relay sees it.
#[derive(Clone, Copy, Debug, PartialEq, Eq, Structural)]
pub enum Key {
    Escape,
    Backspace,
    Tab,
    Enter,
    /// A key that produces text; the character is the first one it produces.
    Character(char),
    /// Any other named key.
    Other,
}

/// The byte sent for Ctrl with the lowercase letter `c`.
pub open spec fn ctrl_letter_byte(c: char) -> u8
    recommends
        'a' <= c <= 'z',
{
    if c <= 'i' {
        (c as u32 - 'a' as u32 + 0x01) as u8
    } else if c <= 't' {
        (c as u32 - 'j' as u32 + 0x10) as u8
    } else {
        (c as u32 - 'u' as u32 + 0x21) as u8
    }
}

/// The byte written to the terminal for a key press; 0 stands for none.
pub open spec fn key_byte(key: Key, ctrl: bool) -> u8 {
    match key {
        Key::Escape => 27,
        Key::Backspace => 8,
        Key::Tab => 9,
        Key::Enter => 13,
        Key::Character(c) => if ctrl && 'a' <= c <= 'z' {
            ctrl_letter_byte(c)
        } else {
            (c as u32 % 256) as u8
        },
        Key::Other => 0,
    }
}

/// The byte to write to the terminal for a key press, with Ctrl held or not;
/// `None` where the key sends nothing.
pub fn key_to_byte(key: Key, ctrl: bool) -> (r: Option<u8>)
    ensures
        r == (if key_byte(key, ctrl) == 0 {
            None
        } else {
            Some(key_byte(key, ctrl))
        }),
{
    let b: u8 = match key {
        Key::Escape => 27,
        Key::Backspace => 8,
        Key::Tab => 9,
        Key::Enter => 13,
        Key::Character(c) => {
            if ctrl && 'a' <= c && c <= 'z' {
                if c <= 'i' {
                    (c as u32 - 'a' as u32 + 0x01) as u8
                } else if c <= 't' {
                    (c as u32 - 'j' as u32 + 0x10) as u8
                } else {
                    (c as u32 - 'u' as u32 + 0x21) as u8
                }
            } else {
                (c as u32 % 256) as u8
            }
        },
        Key::Other => 0,
    };
    if b == 0 {
        None
    } else {
        Some(b)
    }
}

} // verus!
