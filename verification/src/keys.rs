use vstd::prelude::*;

verus! {

/// The key of a key press.
#[derive(Debug, Clone, Copy, PartialEq, Eq, Structural)]
pub enum KeyCode {
    Char(char),
    Enter,
    Esc,
    Backspace,
    Delete,
    Tab,
    BackTab,
    Up,
    Down,
    Left,
    Right,
    /// Any other key (function keys, paging, and the like).
    Other,
}

/// The modifier keys held during a key press.
#[derive(Debug, Clone, Copy, PartialEq, Eq, Structural)]
pub struct Modifiers {
    pub control: bool,
    pub alt: bool,
    pub super_key: bool,
    pub shift: bool,
    /// Hyper or meta.
    pub other: bool,
}

/// A key event: the key, its modifiers, and whether it is a press (as
/// opposed to a repeat or a release).
#[derive(Debug, Clone, Copy, PartialEq, Eq, Structural)]
pub struct Key {
    pub code: KeyCode,
    pub modifiers: Modifiers,
    pub press: bool,
}

/// No modifier held.
pub open spec fn no_modifiers() -> Modifiers {
    Modifiers { control: false, alt: false, super_key: false, shift: false, other: false }
}

impl Key {
    /// A press of `code` with no modifier.
    pub fn plain(code: KeyCode) -> (k: Key)
        ensures
            k == (Key { code, modifiers: no_modifiers(), press: true }),
    {
        Key {
            code,
            modifiers: Modifiers {
                control: false,
                alt: false,
                super_key: false,
                shift: false,
                other: false,
            },
            press: true,
        }
    }

    /// A press of `code` with control held.
    pub fn control(code: KeyCode) -> (k: Key)
        ensures
            k == (Key { code, modifiers: Modifiers { control: true, ..no_modifiers() }, press: true }),
    {
        Key {
            code,
            modifiers: Modifiers {
                control: true,
                alt: false,
                super_key: false,
                shift: false,
                other: false,
            },
            press: true,
        }
    }
}

/// A key types a character: neither control, alt nor super is held.
pub open spec fn is_plain(k: Key) -> bool {
    !k.modifiers.control && !k.modifiers.alt && !k.modifiers.super_key
}

/// A key is a one-letter shortcut: no modifier at all is held.
pub open spec fn is_shortcut(k: Key) -> bool {
    k.modifiers == no_modifiers()
}

/// Whether a key types a character.
pub fn is_plain_character(k: &Key) -> (r: bool)
    ensures
        r == is_plain(*k),
{
    !k.modifiers.control && !k.modifiers.alt && !k.modifiers.super_key
}

/// Whether a key is a one-letter shortcut.
pub fn is_shortcut_character(k: &Key) -> (r: bool)
    ensures
        r == is_shortcut(*k),
{
    !k.modifiers.control && !k.modifiers.alt && !k.modifiers.super_key && !k.modifiers.shift
        && !k.modifiers.other
}

} // verus!
