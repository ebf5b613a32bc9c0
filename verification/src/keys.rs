//! Keys.

use vstd::prelude::*;

verus! {

/// Which key it is.
#[derive(Debug, Clone, Copy, PartialEq, Eq, Structural)]
pub enum KeyCode {
    Char(char),
    Enter,
    Esc,
    Backspace,
    Tab,
    Up,
    Down,
    Home,
    End,
    PageUp,
    PageDown,
    /// Any other key.
    Other,
}

/// A key that was used.
#[derive(Debug, Clone, Copy, PartialEq, Eq, Structural)]
pub struct Key {
    pub code: KeyCode,
    /// Whether the control key, and no other modifier, was held.
    pub control: bool,
    /// Whether the key went down, rather than up.
    pub press: bool,
}

/// A text being typed, after one more key.
pub open spec fn edited(buf: Seq<char>, code: KeyCode) -> Seq<char> {
    match code {
        KeyCode::Backspace => if buf.len() == 0 {
            buf
        } else {
            buf.drop_last()
        },
        KeyCode::Char(c) => buf.push(c),
        _ => buf,
    }
}

/// Whether a key goes down a list.
pub open spec fn is_down(code: KeyCode) -> bool {
    code == KeyCode::Char('j') || code == KeyCode::Down
}

/// Whether a key goes up a list.
pub open spec fn is_up(code: KeyCode) -> bool {
    code == KeyCode::Char('k') || code == KeyCode::Up
}

/// Whether a key goes to the start of a list.
pub open spec fn is_top(code: KeyCode) -> bool {
    code == KeyCode::Char('g') || code == KeyCode::Home
}

/// Whether a key goes to the end of a list.
pub open spec fn is_bottom(code: KeyCode) -> bool {
    code == KeyCode::Char('G') || code == KeyCode::End
}

/// A text being typed, after one more key.
pub fn edit(buf: String, code: KeyCode) -> (r: String)
    ensures
        r@ == edited(buf@, code),
{
    let mut buf = buf;
    match code {
        KeyCode::Backspace => {
            let _ = buf.pop();
        },
        KeyCode::Char(c) => {
            buf.push(c);
        },
        _ => {},
    }
    buf
}

impl KeyCode {
    /// Whether the key goes down a list.
    pub fn goes_down(self) -> (r: bool)
        ensures
            r == is_down(self),
    {
        self == KeyCode::Char('j') || self == KeyCode::Down
    }

    /// Whether the key goes up a list.
    pub fn goes_up(self) -> (r: bool)
        ensures
            r == is_up(self),
    {
        self == KeyCode::Char('k') || self == KeyCode::Up
    }

    /// Whether the key goes to the start of a list.
    pub fn goes_to_top(self) -> (r: bool)
        ensures
            r == is_top(self),
    {
        self == KeyCode::Char('g') || self == KeyCode::Home
    }

    /// Whether the key goes to the end of a list.
    pub fn goes_to_bottom(self) -> (r: bool)
        ensures
            r == is_bottom(self),
    {
        self == KeyCode::Char('G') || self == KeyCode::End
    }
}

} // verus!
