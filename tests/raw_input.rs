use tao::event::{DeviceEvent, DeviceId, ElementState, KeyCode};
use tao::raw_input::{device_change_event, raw_keyboard_event, raw_mouse_events, wrap_device_id, RawKeyboard, RawMouse};

fn kb(make_code: u16, flags: u16, vkey: u16, message: u32) -> RawKeyboard {
    RawKeyboard { make_code, flags, vkey, message }
}

#[test]
fn mouse_motion_wheel_and_buttons() {
    let m = RawMouse { flags: 0, last_x: 3, last_y: 0, button_flags: 0x0400 | 0x0001 | 0x0020, button_data: (-120i16) as u16 };
    assert_eq!(
        raw_mouse_events(m),
        vec![
            DeviceEvent::Motion { axis: 0, value: 3 },
            DeviceEvent::MouseMotion { delta_x: 3, delta_y: 0 },
            DeviceEvent::MouseWheel { delta_x: 0, delta_y: -120 },
            DeviceEvent::Button { button: 1, state: ElementState::Pressed },
            DeviceEvent::Button { button: 2, state: ElementState::Released },
        ]
    );
}

#[test]
fn mouse_without_change_gives_nothing() {
    let m = RawMouse { flags: 1, last_x: 0, last_y: 0, button_flags: 0, button_data: 0 };
    assert!(raw_mouse_events(m).is_empty());
    let m = RawMouse { flags: 0, last_x: 0, last_y: -2, button_flags: 0x0004 | 0x0008, button_data: 0 };
    assert_eq!(
        raw_mouse_events(m),
        vec![
            DeviceEvent::Motion { axis: 1, value: -2 },
            DeviceEvent::MouseMotion { delta_x: 0, delta_y: -2 },
            DeviceEvent::Button { button: 3, state: ElementState::Pressed },
        ]
    );
}

#[test]
fn key_with_extension_prefix() {
    assert_eq!(
        raw_keyboard_event(kb(0x1D, 2, 0x11, 0x0100), 0),
        Some(DeviceEvent::Key { physical_key: KeyCode::Scancode(0xE01D), state: ElementState::Pressed })
    );
    assert_eq!(
        raw_keyboard_event(kb(0x1E, 0, 0x41, 0x0105), 0),
        Some(DeviceEvent::Key { physical_key: KeyCode::Scancode(0x1E), state: ElementState::Released })
    );
}

#[test]
fn pause_and_print_screen_prefixes_are_swallowed() {
    assert_eq!(raw_keyboard_event(kb(0x1D, 4, 0x13, 0x0100), 0), None);
    assert_eq!(raw_keyboard_event(kb(0x2A, 2, 0x2C, 0x0100), 0), None);
    assert_eq!(
        raw_keyboard_event(kb(0x45, 0, 0x13, 0x0100), 0),
        Some(DeviceEvent::Key { physical_key: KeyCode::Scancode(0x45), state: ElementState::Pressed })
    );
}

#[test]
fn numlock_by_virtual_key() {
    assert_eq!(
        raw_keyboard_event(kb(0x45, 0, 0x90, 0x0101), 0),
        Some(DeviceEvent::Key { physical_key: KeyCode::NumLock, state: ElementState::Released })
    );
}

#[test]
fn fake_shift_on_numpad_is_suppressed() {
    for sc in [0x47u16, 0x48, 0x49, 0x4B, 0x4C, 0x4D, 0x4F, 0x50, 0x51, 0x52, 0x53] {
        assert_eq!(raw_keyboard_event(kb(sc, 0, 0x10, 0x0101), 0), None);
    }
    assert_eq!(
        raw_keyboard_event(kb(0x2A, 0, 0x10, 0x0100), 0),
        Some(DeviceEvent::Key { physical_key: KeyCode::Scancode(0x2A), state: ElementState::Pressed })
    );
}

#[test]
fn zero_make_code_uses_mapped_scancode() {
    assert_eq!(
        raw_keyboard_event(kb(0, 0, 0xB3, 0x0104), 0xE022),
        Some(DeviceEvent::Key { physical_key: KeyCode::Scancode(0xE022), state: ElementState::Pressed })
    );
}

#[test]
fn other_keyboard_messages_are_ignored() {
    assert_eq!(raw_keyboard_event(kb(0x1E, 0, 0x41, 0x0102), 0), None);
}

#[test]
fn device_changes() {
    assert_eq!(device_change_event(1), Some(DeviceEvent::Added));
    assert_eq!(device_change_event(2), Some(DeviceEvent::Removed));
    assert_eq!(device_change_event(3), None);
    assert_eq!(wrap_device_id(42), DeviceId(42));
}
