use overlay_core::event;
use overlay_core::keys;
use windows::Win32::UI::Input::KeyboardAndMouse as vk;
use windows::Win32::UI::WindowsAndMessaging as wm;

#[test]
fn message_kinds_are_those_of_the_platform() {
    assert_eq!(event::WM_SIZE, wm::WM_SIZE);
    assert_eq!(event::WM_KEYDOWN, wm::WM_KEYDOWN);
    assert_eq!(event::WM_KEYUP, wm::WM_KEYUP);
    assert_eq!(event::WM_CHAR, wm::WM_CHAR);
    assert_eq!(event::WM_SYSKEYDOWN, wm::WM_SYSKEYDOWN);
    assert_eq!(event::WM_SYSKEYUP, wm::WM_SYSKEYUP);
    assert_eq!(event::WM_MOUSEMOVE, wm::WM_MOUSEMOVE);
    assert_eq!(event::WM_LBUTTONDOWN, wm::WM_LBUTTONDOWN);
    assert_eq!(event::WM_LBUTTONUP, wm::WM_LBUTTONUP);
    assert_eq!(event::WM_LBUTTONDBLCLK, wm::WM_LBUTTONDBLCLK);
    assert_eq!(event::WM_RBUTTONDOWN, wm::WM_RBUTTONDOWN);
    assert_eq!(event::WM_RBUTTONUP, wm::WM_RBUTTONUP);
    assert_eq!(event::WM_RBUTTONDBLCLK, wm::WM_RBUTTONDBLCLK);
    assert_eq!(event::WM_MBUTTONDOWN, wm::WM_MBUTTONDOWN);
    assert_eq!(event::WM_MBUTTONUP, wm::WM_MBUTTONUP);
    assert_eq!(event::WM_MBUTTONDBLCLK, wm::WM_MBUTTONDBLCLK);
    assert_eq!(event::WM_MOUSEWHEEL, wm::WM_MOUSEWHEEL);
    assert_eq!(event::WM_MOUSEHWHEEL, wm::WM_MOUSEHWHEEL);
}

#[test]
fn wheel_and_repeat_constants_are_those_of_the_platform() {
    assert_eq!(event::WHEEL_DELTA as u32, wm::WHEEL_DELTA);
    assert_eq!(event::KF_REPEAT as u32, wm::KF_REPEAT);
}

#[test]
fn virtual_key_codes_are_those_of_the_platform() {
    assert_eq!(keys::VK_BACK, vk::VK_BACK.0);
    assert_eq!(keys::VK_TAB, vk::VK_TAB.0);
    assert_eq!(keys::VK_RETURN, vk::VK_RETURN.0);
    assert_eq!(keys::VK_ESCAPE, vk::VK_ESCAPE.0);
    assert_eq!(keys::VK_SPACE, vk::VK_SPACE.0);
    assert_eq!(keys::VK_PRIOR, vk::VK_PRIOR.0);
    assert_eq!(keys::VK_NEXT, vk::VK_NEXT.0);
    assert_eq!(keys::VK_END, vk::VK_END.0);
    assert_eq!(keys::VK_HOME, vk::VK_HOME.0);
    assert_eq!(keys::VK_LEFT, vk::VK_LEFT.0);
    assert_eq!(keys::VK_UP, vk::VK_UP.0);
    assert_eq!(keys::VK_RIGHT, vk::VK_RIGHT.0);
    assert_eq!(keys::VK_DOWN, vk::VK_DOWN.0);
    assert_eq!(keys::VK_INSERT, vk::VK_INSERT.0);
    assert_eq!(keys::VK_DELETE, vk::VK_DELETE.0);
    assert_eq!(keys::VK_F1, vk::VK_F1.0);
    assert_eq!(keys::VK_F24, vk::VK_F24.0);
}

#[test]
fn keys_are_found_under_the_codes_of_the_platform() {
    assert_eq!(keys::get_key(vk::VK_DOWN.0 as usize), Some(keys::Key::ArrowDown));
    assert_eq!(keys::get_key(vk::VK_PRIOR.0 as usize), Some(keys::Key::PageUp));
    assert_eq!(keys::get_key(vk::VK_NEXT.0 as usize), Some(keys::Key::PageDown));
    assert_eq!(keys::get_key(vk::VK_F1.0 as usize), Some(keys::Key::Function(1)));
    assert_eq!(keys::get_key(vk::VK_F20.0 as usize), Some(keys::Key::Function(20)));
    assert_eq!(keys::get_key(vk::VK_F24.0 as usize), Some(keys::Key::Function(24)));
    assert_eq!(keys::get_key(vk::VK_A.0 as usize), Some(keys::Key::Letter(b'A')));
    assert_eq!(keys::get_key(vk::VK_0.0 as usize), Some(keys::Key::Digit(0)));
    assert_eq!(keys::get_key(vk::VK_SHIFT.0 as usize), None);
}
