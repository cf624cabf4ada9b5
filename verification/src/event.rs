//! Semantic input events and how a window message turns into one.

use vstd::prelude::*;
use crate::keys::{get_key, key_of, Key};
use crate::words::{
    bit_set, has_bit_14, high_word, low_dword, low_word, signed_high_word,
    signed_high_word_unsigned, signed_low_word, signed_word,
};

verus! {

/// The window changed its size.
pub const WM_SIZE: u32 = 0x0005;
/// A key went down.
pub const WM_KEYDOWN: u32 = 0x0100;
/// A key went up.
pub const WM_KEYUP: u32 = 0x0101;
/// A character was typed.
pub const WM_CHAR: u32 = 0x0102;
/// A key went down while the menu key was held.
pub const WM_SYSKEYDOWN: u32 = 0x0104;
/// A key went up while the menu key was held.
pub const WM_SYSKEYUP: u32 = 0x0105;
/// The pointer moved.
pub const WM_MOUSEMOVE: u32 = 0x0200;
/// The left button went down.
pub const WM_LBUTTONDOWN: u32 = 0x0201;
/// The left button went up.
pub const WM_LBUTTONUP: u32 = 0x0202;
/// The left button was double-clicked.
pub const WM_LBUTTONDBLCLK: u32 = 0x0203;
/// The right button went down.
pub const WM_RBUTTONDOWN: u32 = 0x0204;
/// The right button went up.
pub const WM_RBUTTONUP: u32 = 0x0205;
/// The right button was double-clicked.
pub const WM_RBUTTONDBLCLK: u32 = 0x0206;
/// The middle button went down.
pub const WM_MBUTTONDOWN: u32 = 0x0207;
/// The middle button went up.
pub const WM_MBUTTONUP: u32 = 0x0208;
/// The middle button was double-clicked.
pub const WM_MBUTTONDBLCLK: u32 = 0x0209;
/// The wheel was turned.
pub const WM_MOUSEWHEEL: u32 = 0x020A;
/// The wheel was tilted sideways.
pub const WM_MOUSEHWHEEL: u32 = 0x020E;

/// The bit of a key message's `lparam` from which the repeat flag is read.
pub const KF_REPEAT: isize = 0x4000;
/// The amount by which the wheel reports one notch.
pub const WHEEL_DELTA: i32 = 120;
/// The distance, in points, that one notch of the wheel scrolls.
pub const POINTS_PER_NOTCH: i32 = 10;

/// A pointer position in pixels, relative to the client area.
#[derive(Clone, Copy, Debug, PartialEq, Eq, Structural)]
pub struct PointerPos {
    pub x: i16,
    pub y: i16,
}

/// A button of the pointing device.
#[derive(Clone, Copy, Debug, PartialEq, Eq, Structural)]
pub enum PointerButton {
    Primary,
    Secondary,
    Middle,
}

/// One piece of user input, free of platform encodings.
#[derive(Clone, Copy, Debug, PartialEq, Eq, Structural)]
pub enum InputEvent {
    /// The pointer moved to a position.
    PointerMoved(PointerPos),
    /// A button was pressed or released at a position.
    PointerButton { pos: PointerPos, button: PointerButton, pressed: bool },
    /// A printable character was typed.
    Text(char),
    /// The wheel moved. Each axis holds the distance in points multiplied by
    /// `WHEEL_DELTA`, so that one notch of the wheel reads
    /// `POINTS_PER_NOTCH * WHEEL_DELTA`.
    Scroll { x: i32, y: i32 },
    /// A key was pressed or released.
    Key { key: Key, pressed: bool, repeat: bool },
}

/// The position packed into `lparam`: x in the low word, y in the high word,
/// both signed.
pub open spec fn pointer_pos_of(lparam: int) -> PointerPos {
    PointerPos {
        x: signed_word(low_word(lparam)) as i16,
        y: signed_word(high_word(lparam)) as i16,
    }
}

/// Whether a code point is a Unicode scalar value, that is, a `char`.
pub open spec fn is_scalar_value(code: int) -> bool {
    0 <= code <= 0xD7FF || 0xE000 <= code <= 0x10_FFFF
}

/// Whether a character is a control character: C0, delete, or C1.
pub open spec fn is_control(c: char) -> bool {
    c as u32 <= 0x1F || 0x7F <= c as u32 <= 0x9F
}

/// The character that a character message with parameter `wparam` types:
/// the low thirty-two bits, if they are a scalar value and not a control
/// character.
pub open spec fn text_of(wparam: int) -> Option<char> {
    let code = wparam % 0x1_0000_0000;
    if is_scalar_value(code) && !is_control(code as char) {
        Some(code as char)
    } else {
        None
    }
}

/// The scroll distance that a wheel message with parameter `wparam` reports,
/// in points multiplied by `WHEEL_DELTA`.
pub open spec fn scroll_of(wparam: int) -> int {
    signed_word(high_word(wparam)) * POINTS_PER_NOTCH
}

/// The key event for a key message, if its code names a known key.
pub open spec fn key_event_of(wparam: int, lparam: int, pressed: bool) -> Option<InputEvent> {
    match key_of(wparam) {
        Some(key) => Some(InputEvent::Key { key, pressed, repeat: bit_set(lparam, KF_REPEAT as int) }),
        None => None,
    }
}

/// A button event at the position packed into `lparam`.
pub open spec fn button_event_of(lparam: int, button: PointerButton, pressed: bool) -> InputEvent {
    InputEvent::PointerButton { pos: pointer_pos_of(lparam), button, pressed }
}

/// The input event that a window message stands for, if any.
///
/// A double click counts as a press. A character message gives an event
/// only for a printable character, a key message only for a known key. All
/// other kinds of message give none.
pub open spec fn event_of(umsg: u32, wparam: int, lparam: int) -> Option<InputEvent> {
    if umsg == WM_MOUSEMOVE {
        Some(InputEvent::PointerMoved(pointer_pos_of(lparam)))
    } else if umsg == WM_LBUTTONDOWN || umsg == WM_LBUTTONDBLCLK {
        Some(button_event_of(lparam, PointerButton::Primary, true))
    } else if umsg == WM_LBUTTONUP {
        Some(button_event_of(lparam, PointerButton::Primary, false))
    } else if umsg == WM_RBUTTONDOWN || umsg == WM_RBUTTONDBLCLK {
        Some(button_event_of(lparam, PointerButton::Secondary, true))
    } else if umsg == WM_RBUTTONUP {
        Some(button_event_of(lparam, PointerButton::Secondary, false))
    } else if umsg == WM_MBUTTONDOWN || umsg == WM_MBUTTONDBLCLK {
        Some(button_event_of(lparam, PointerButton::Middle, true))
    } else if umsg == WM_MBUTTONUP {
        Some(button_event_of(lparam, PointerButton::Middle, false))
    } else if umsg == WM_CHAR {
        match text_of(wparam) {
            Some(c) => Some(InputEvent::Text(c)),
            None => None,
        }
    } else if umsg == WM_MOUSEWHEEL {
        Some(InputEvent::Scroll { x: 0, y: scroll_of(wparam) as i32 })
    } else if umsg == WM_MOUSEHWHEEL {
        Some(InputEvent::Scroll { x: scroll_of(wparam) as i32, y: 0 })
    } else if umsg == WM_KEYDOWN || umsg == WM_SYSKEYDOWN {
        key_event_of(wparam, lparam, true)
    } else if umsg == WM_KEYUP || umsg == WM_SYSKEYUP {
        key_event_of(wparam, lparam, false)
    } else {
        None
    }
}

/// Decodes the pointer position of a pointer message.
pub fn get_pointer_pos(lparam: isize) -> (pos: PointerPos)
    ensures
        pos == pointer_pos_of(lparam as int),
{
    PointerPos { x: signed_low_word(lparam), y: signed_high_word(lparam) }
}

/// `char::from_u32` of the standard library: the character with the given
/// code point, or `None` where the number is a surrogate or lies beyond the
/// last code point.
#[verifier::external_body]
fn char_from_u32(code: u32) -> (c: Option<char>)
    ensures
        c == (if is_scalar_value(code as int) { Some(code as char) } else { None::<char> }),
{
    char::from_u32(code)
}

/// Tells the control characters from the printable ones.
pub fn is_control_char(c: char) -> (r: bool)
    ensures
        r == is_control(c),
{
    let code: u32 = c as u32;
    code <= 0x1F || (0x7F <= code && code <= 0x9F)
}

/// Decodes the character of a character message, leaving out what is no
/// character and what is a control character.
pub fn get_text(wparam: usize) -> (text: Option<char>)
    ensures
        text == text_of(wparam as int),
{
    match char_from_u32(low_dword(wparam)) {
        Some(c) => if is_control_char(c) { None } else { Some(c) },
        None => None,
    }
}

/// Decodes the scroll distance of a wheel message.
pub fn get_scroll(wparam: usize) -> (distance: i32)
    ensures
        distance == scroll_of(wparam as int),
{
    let notches: i16 = signed_high_word_unsigned(wparam);
    notches as i32 * POINTS_PER_NOTCH
}

/// Builds the key event of a key message, if the key is known.
fn get_key_event(wparam: usize, lparam: isize, pressed: bool) -> (event: Option<InputEvent>)
    ensures
        event == key_event_of(wparam as int, lparam as int, pressed),
{
    match get_key(wparam) {
        Some(key) => Some(InputEvent::Key { key, pressed, repeat: has_bit_14(lparam) }),
        None => None,
    }
}

/// Builds a button event at the position packed into `lparam`.
fn get_button_event(lparam: isize, button: PointerButton, pressed: bool) -> (event: InputEvent)
    ensures
        event == button_event_of(lparam as int, button, pressed),
{
    InputEvent::PointerButton { pos: get_pointer_pos(lparam), button, pressed }
}

/// Decodes one window message into the input event it stands for.
pub fn decode_message(umsg: u32, wparam: usize, lparam: isize) -> (event: Option<InputEvent>)
    ensures
        event == event_of(umsg, wparam as int, lparam as int),
{
    if umsg == WM_MOUSEMOVE {
        Some(InputEvent::PointerMoved(get_pointer_pos(lparam)))
    } else if umsg == WM_LBUTTONDOWN || umsg == WM_LBUTTONDBLCLK {
        Some(get_button_event(lparam, PointerButton::Primary, true))
    } else if umsg == WM_LBUTTONUP {
        Some(get_button_event(lparam, PointerButton::Primary, false))
    } else if umsg == WM_RBUTTONDOWN || umsg == WM_RBUTTONDBLCLK {
        Some(get_button_event(lparam, PointerButton::Secondary, true))
    } else if umsg == WM_RBUTTONUP {
        Some(get_button_event(lparam, PointerButton::Secondary, false))
    } else if umsg == WM_MBUTTONDOWN || umsg == WM_MBUTTONDBLCLK {
        Some(get_button_event(lparam, PointerButton::Middle, true))
    } else if umsg == WM_MBUTTONUP {
        Some(get_button_event(lparam, PointerButton::Middle, false))
    } else if umsg == WM_CHAR {
        match get_text(wparam) {
            Some(c) => Some(InputEvent::Text(c)),
            None => None,
        }
    } else if umsg == WM_MOUSEWHEEL {
        Some(InputEvent::Scroll { x: 0, y: get_scroll(wparam) })
    } else if umsg == WM_MOUSEHWHEEL {
        Some(InputEvent::Scroll { x: get_scroll(wparam), y: 0 })
    } else if umsg == WM_KEYDOWN || umsg == WM_SYSKEYDOWN {
        get_key_event(wparam, lparam, true)
    } else if umsg == WM_KEYUP || umsg == WM_SYSKEYUP {
        get_key_event(wparam, lparam, false)
    } else {
        None
    }
}

} // verus!
