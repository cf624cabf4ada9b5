//! From the virtual-key codes of the platform to semantic keys.

use vstd::prelude::*;

verus! {

/// Virtual-key code of the backspace key.
pub const VK_BACK: u16 = 0x08;
/// Virtual-key code of the tab key.
pub const VK_TAB: u16 = 0x09;
/// Virtual-key code of the enter key.
pub const VK_RETURN: u16 = 0x0D;
/// Virtual-key code of the escape key.
pub const VK_ESCAPE: u16 = 0x1B;
/// Virtual-key code of the space bar.
pub const VK_SPACE: u16 = 0x20;
/// Virtual-key code of the page-up key.
pub const VK_PRIOR: u16 = 0x21;
/// Virtual-key code of the page-down key.
pub const VK_NEXT: u16 = 0x22;
/// Virtual-key code of the end key.
pub const VK_END: u16 = 0x23;
/// Virtual-key code of the home key.
pub const VK_HOME: u16 = 0x24;
/// Virtual-key code of the left arrow.
pub const VK_LEFT: u16 = 0x25;
/// Virtual-key code of the up arrow.
pub const VK_UP: u16 = 0x26;
/// Virtual-key code of the right arrow.
pub const VK_RIGHT: u16 = 0x27;
/// Virtual-key code of the down arrow.
pub const VK_DOWN: u16 = 0x28;
/// Virtual-key code of the insert key.
pub const VK_INSERT: u16 = 0x2D;
/// Virtual-key code of the delete key.
pub const VK_DELETE: u16 = 0x2E;
/// Virtual-key code of F1; the function keys follow it without gaps.
pub const VK_F1: u16 = 0x70;
/// Virtual-key code of F24, the last function key.
pub const VK_F24: u16 = 0x87;

/// A key of the keyboard, independent of the platform that reported it.
#[derive(Clone, Copy, Debug, PartialEq, Eq, Structural)]
pub enum Key {
    ArrowDown,
    ArrowLeft,
    ArrowRight,
    ArrowUp,
    Escape,
    Tab,
    Backspace,
    Enter,
    Space,
    Insert,
    Delete,
    Home,
    End,
    PageUp,
    PageDown,
    /// A key of the digit row; the field is the digit, `0` to `9`.
    Digit(u8),
    /// A letter key; the field is the upper-case ASCII letter, `b'A'` to `b'Z'`.
    Letter(u8),
    /// A function key; the field is its number, `1` to `24`.
    Function(u8),
}

impl Key {
    /// The fields of the digit, letter and function keys are in range.
    pub open spec fn wf(self) -> bool {
        match self {
            Key::Digit(d) => d <= 9,
            Key::Letter(l) => 0x41 <= l <= 0x5A,
            Key::Function(n) => 1 <= n <= 24,
            _ => true,
        }
    }
}

/// The navigation and editing key with the given virtual-key code, if any.
pub open spec fn named_key(vk: int) -> Option<Key> {
    if vk == VK_DOWN {
        Some(Key::ArrowDown)
    } else if vk == VK_LEFT {
        Some(Key::ArrowLeft)
    } else if vk == VK_RIGHT {
        Some(Key::ArrowRight)
    } else if vk == VK_UP {
        Some(Key::ArrowUp)
    } else if vk == VK_ESCAPE {
        Some(Key::Escape)
    } else if vk == VK_TAB {
        Some(Key::Tab)
    } else if vk == VK_BACK {
        Some(Key::Backspace)
    } else if vk == VK_RETURN {
        Some(Key::Enter)
    } else if vk == VK_SPACE {
        Some(Key::Space)
    } else if vk == VK_INSERT {
        Some(Key::Insert)
    } else if vk == VK_DELETE {
        Some(Key::Delete)
    } else if vk == VK_HOME {
        Some(Key::Home)
    } else if vk == VK_END {
        Some(Key::End)
    } else if vk == VK_PRIOR {
        Some(Key::PageUp)
    } else if vk == VK_NEXT {
        Some(Key::PageDown)
    } else {
        None
    }
}

/// The key that a key message with parameter `wparam` stands for.
///
/// The parameter is the virtual-key code, and it is looked up as it
/// stands: a value that is none of the codes of the table stands for no
/// key, whatever its low bits are.
pub open spec fn key_of(wparam: int) -> Option<Key> {
    if 0x30 <= wparam <= 0x39 {
        Some(Key::Digit((wparam - 0x30) as u8))
    } else if 0x41 <= wparam <= 0x5A {
        Some(Key::Letter(wparam as u8))
    } else if VK_F1 <= wparam <= VK_F24 {
        Some(Key::Function((wparam - VK_F1 + 1) as u8))
    } else {
        named_key(wparam)
    }
}

/// Maps the `wparam` of a key message to a key, or to `None` where the code
/// is not one this library knows.
pub fn get_key(wparam: usize) -> (key: Option<Key>)
    ensures
        key == key_of(wparam as int),
        key matches Some(k) ==> k.wf(),
{
    if 0x30 <= wparam && wparam <= 0x39 {
        Some(Key::Digit((wparam - 0x30) as u8))
    } else if 0x41 <= wparam && wparam <= 0x5A {
        Some(Key::Letter(wparam as u8))
    } else if 0x70 <= wparam && wparam <= 0x87 {
        Some(Key::Function((wparam - 0x6F) as u8))
    } else if wparam > 0xFFFF {
        None
    } else {
        let vk: u16 = wparam as u16;
        if vk == VK_DOWN {
            Some(Key::ArrowDown)
        } else if vk == VK_LEFT {
            Some(Key::ArrowLeft)
        } else if vk == VK_RIGHT {
            Some(Key::ArrowRight)
        } else if vk == VK_UP {
            Some(Key::ArrowUp)
        } else if vk == VK_ESCAPE {
            Some(Key::Escape)
        } else if vk == VK_TAB {
            Some(Key::Tab)
        } else if vk == VK_BACK {
            Some(Key::Backspace)
        } else if vk == VK_RETURN {
            Some(Key::Enter)
        } else if vk == VK_SPACE {
            Some(Key::Space)
        } else if vk == VK_INSERT {
            Some(Key::Insert)
        } else if vk == VK_DELETE {
            Some(Key::Delete)
        } else if vk == VK_HOME {
            Some(Key::Home)
        } else if vk == VK_END {
            Some(Key::End)
        } else if vk == VK_PRIOR {
            Some(Key::PageUp)
        } else if vk == VK_NEXT {
            Some(Key::PageDown)
        } else {
            None
        }
    }
}

/// Codes `'0'` to `'9'` are the digit keys, `'A'` to `'Z'` the letter keys and
/// the codes from F1 to F24 the function keys, each in order; every key has
/// its code between backspace and F24, so that any value beyond, and any
/// value beyond sixteen bits in particular, is no key at all.
pub proof fn lemma_key_ranges(wparam: int)
    ensures
        0x30 <= wparam <= 0x39 ==> key_of(wparam) == Some(Key::Digit((wparam - 0x30) as u8)),
        0x41 <= wparam <= 0x5A ==> key_of(wparam) == Some(Key::Letter(wparam as u8)),
        0x70 <= wparam <= 0x87 ==> key_of(wparam) == Some(Key::Function((wparam - 0x6F) as u8)),
        key_of(wparam) is Some ==> 0x08 <= wparam <= 0x87,
        key_of(wparam) matches Some(k) ==> k.wf(),
{
}

} // verus!
