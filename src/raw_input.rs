//! Translation of raw input reports into device events.
//!
//! Raw reports come from every mouse and keyboard, whichever window has
//! the focus. Two keyboard quirks are filtered here: keys that report a
//! modifier scancode before their own (pause, print screen) have that first
//! report dropped, and the fake shift release that the system reports when
//! a numeric-pad key is struck with shift held is dropped too.

use vstd::prelude::*;

use crate::event::{DeviceEvent, DeviceId, ElementState, KeyCode};

verus! {

/// Mouse motion flag for relative motion. It is zero, so every report
/// counts as relative.
pub const MOUSE_MOVE_RELATIVE: u16 = 0;
pub const RI_MOUSE_LEFT_BUTTON_DOWN: u16 = 0x0001;
pub const RI_MOUSE_LEFT_BUTTON_UP: u16 = 0x0002;
pub const RI_MOUSE_RIGHT_BUTTON_DOWN: u16 = 0x0004;
pub const RI_MOUSE_RIGHT_BUTTON_UP: u16 = 0x0008;
pub const RI_MOUSE_MIDDLE_BUTTON_DOWN: u16 = 0x0010;
pub const RI_MOUSE_MIDDLE_BUTTON_UP: u16 = 0x0020;
pub const RI_MOUSE_WHEEL: u16 = 0x0400;

pub const RI_KEY_E0: u16 = 2;
pub const RI_KEY_E1: u16 = 4;

pub const WM_KEYDOWN: u32 = 0x0100;
pub const WM_KEYUP: u32 = 0x0101;
pub const WM_SYSKEYDOWN: u32 = 0x0104;
pub const WM_SYSKEYUP: u32 = 0x0105;

pub const VK_SHIFT: u16 = 0x10;
pub const VK_NUMLOCK: u16 = 0x90;

pub const GIDC_ARRIVAL: usize = 1;
pub const GIDC_REMOVAL: usize = 2;

/// First report of pause: left control with the E1 prefix.
pub const PAUSE_PREFIX_SCANCODE: u16 = 0xE11D;
/// First report of print screen on some keyboards: left shift with the E0 prefix.
pub const PRINT_SCREEN_PREFIX_SCANCODE: u16 = 0xE02A;

/// A raw mouse report.
#[derive(Clone, Copy, Debug, PartialEq, Eq, Structural)]
pub struct RawMouse {
    pub flags: u16,
    pub last_x: i32,
    pub last_y: i32,
    pub button_flags: u16,
    pub button_data: u16,
}

/// A raw keyboard report.
#[derive(Clone, Copy, Debug, PartialEq, Eq, Structural)]
pub struct RawKeyboard {
    pub make_code: u16,
    pub flags: u16,
    pub vkey: u16,
    pub message: u32,
}

/// Whether all bits of `flag` are set in `bits`.
pub open spec fn has_flag(bits: u16, flag: u16) -> bool {
    bits & flag == flag
}

fn has_flag_exec(bits: u16, flag: u16) -> (r: bool)
    ensures
        r == has_flag(bits, flag),
{
    bits & flag == flag
}

/// The logical id of a device, from its native handle.
pub fn wrap_device_id(handle: u64) -> (r: DeviceId)
    ensures
        r == DeviceId(handle),
{
    DeviceId(handle)
}

/// A device arrived or left.
pub fn device_change_event(wparam: usize) -> (r: Option<DeviceEvent>)
    ensures
        wparam == GIDC_ARRIVAL ==> r == Some(DeviceEvent::Added),
        wparam == GIDC_REMOVAL ==> r == Some(DeviceEvent::Removed),
        wparam != GIDC_ARRIVAL && wparam != GIDC_REMOVAL ==> r is None,
{
    if wparam == GIDC_ARRIVAL {
        Some(DeviceEvent::Added)
    } else if wparam == GIDC_REMOVAL {
        Some(DeviceEvent::Removed)
    } else {
        None
    }
}

/// The state of one button in a report: pressed if its down flag is set,
/// else released if its up flag is set.
pub open spec fn button_state(button_flags: u16, down: u16, up: u16) -> Option<ElementState> {
    if has_flag(button_flags, down) {
        Some(ElementState::Pressed)
    } else if has_flag(button_flags, up) {
        Some(ElementState::Released)
    } else {
        None
    }
}

/// The button event of button number `button`, if its state changed.
pub open spec fn button_events(button_flags: u16, down: u16, up: u16, button: u32) -> Seq<DeviceEvent> {
    match button_state(button_flags, down, up) {
        Some(state) => seq![DeviceEvent::Button { button, state }],
        None => seq![],
    }
}

/// The events of a raw mouse report, in order: motion on each axis that
/// moved, then the motion on both, the wheel, then the buttons left (1),
/// middle (2) and right (3).
pub open spec fn mouse_report_events(m: RawMouse) -> Seq<DeviceEvent> {
    let motion: Seq<DeviceEvent> = if has_flag(m.flags, MOUSE_MOVE_RELATIVE) {
        (if m.last_x != 0 { seq![DeviceEvent::Motion { axis: 0, value: m.last_x }] } else { seq![] })
            + (if m.last_y != 0 { seq![DeviceEvent::Motion { axis: 1, value: m.last_y }] } else { seq![] })
            + (if m.last_x != 0 || m.last_y != 0 {
            seq![DeviceEvent::MouseMotion { delta_x: m.last_x, delta_y: m.last_y }]
        } else {
            seq![]
        })
    } else {
        seq![]
    };
    let wheel: Seq<DeviceEvent> = if has_flag(m.button_flags, RI_MOUSE_WHEEL) {
        seq![DeviceEvent::MouseWheel { delta_x: 0, delta_y: (m.button_data as i16) as i32 }]
    } else {
        seq![]
    };
    motion + wheel + button_events(m.button_flags, RI_MOUSE_LEFT_BUTTON_DOWN, RI_MOUSE_LEFT_BUTTON_UP, 1)
        + button_events(m.button_flags, RI_MOUSE_MIDDLE_BUTTON_DOWN, RI_MOUSE_MIDDLE_BUTTON_UP, 2)
        + button_events(m.button_flags, RI_MOUSE_RIGHT_BUTTON_DOWN, RI_MOUSE_RIGHT_BUTTON_UP, 3)
}

fn push_button(events: &mut Vec<DeviceEvent>, button_flags: u16, down: u16, up: u16, button: u32)
    ensures
        final(events)@ == old(events)@ + button_events(button_flags, down, up, button),
{
    if has_flag_exec(button_flags, down) {
        events.push(DeviceEvent::Button { button, state: ElementState::Pressed });
    } else if has_flag_exec(button_flags, up) {
        events.push(DeviceEvent::Button { button, state: ElementState::Released });
    }
    assert(final(events)@ =~= old(events)@ + button_events(button_flags, down, up, button));
}

/// Translates a raw mouse report; see [`mouse_report_events`].
pub fn raw_mouse_events(m: RawMouse) -> (r: Vec<DeviceEvent>)
    ensures
        r@ == mouse_report_events(m),
{
    let mut events: Vec<DeviceEvent> = Vec::new();
    if has_flag_exec(m.flags, MOUSE_MOVE_RELATIVE) {
        if m.last_x != 0 {
            events.push(DeviceEvent::Motion { axis: 0, value: m.last_x });
        }
        if m.last_y != 0 {
            events.push(DeviceEvent::Motion { axis: 1, value: m.last_y });
        }
        if m.last_x != 0 || m.last_y != 0 {
            events.push(DeviceEvent::MouseMotion { delta_x: m.last_x, delta_y: m.last_y });
        }
    }
    if has_flag_exec(m.button_flags, RI_MOUSE_WHEEL) {
        events.push(DeviceEvent::MouseWheel { delta_x: 0, delta_y: (m.button_data as i16) as i32 });
    }
    let ghost head = events@;
    push_button(&mut events, m.button_flags, RI_MOUSE_LEFT_BUTTON_DOWN, RI_MOUSE_LEFT_BUTTON_UP, 1);
    push_button(&mut events, m.button_flags, RI_MOUSE_MIDDLE_BUTTON_DOWN, RI_MOUSE_MIDDLE_BUTTON_UP, 2);
    push_button(&mut events, m.button_flags, RI_MOUSE_RIGHT_BUTTON_DOWN, RI_MOUSE_RIGHT_BUTTON_UP, 3);
    assert(events@ =~= mouse_report_events(m));
    events
}

/// Whether `scancode` is a digit or the decimal point of the numeric pad.
pub open spec fn is_numpad_digit(scancode: u32) -> bool {
    scancode == 0x47 || scancode == 0x48 || scancode == 0x49 || scancode == 0x4B || scancode == 0x4C
        || scancode == 0x4D || scancode == 0x4F || scancode == 0x50 || scancode == 0x51
        || scancode == 0x52 || scancode == 0x53
}

/// The scancode of a keyboard report: the make code with its extension
/// prefix, or, where the device reports no make code, the scancode that the
/// system maps the virtual key to.
pub open spec fn report_scancode(k: RawKeyboard, mapped_scancode: u16) -> u16 {
    if k.make_code == 0 {
        mapped_scancode
    } else {
        k.make_code | if has_flag(k.flags, RI_KEY_E0) {
            0xE000u16
        } else if has_flag(k.flags, RI_KEY_E1) {
            0xE100u16
        } else {
            0u16
        }
    }
}

/// The key event of a raw keyboard report, if it is forwarded.
pub open spec fn keyboard_report_event(k: RawKeyboard, mapped_scancode: u16) -> Option<DeviceEvent> {
    let pressed = k.message == WM_KEYDOWN || k.message == WM_SYSKEYDOWN;
    let released = k.message == WM_KEYUP || k.message == WM_SYSKEYUP;
    let scancode = report_scancode(k, mapped_scancode);
    let code = if k.vkey == VK_NUMLOCK { KeyCode::NumLock } else { KeyCode::Scancode(scancode as u32) };
    if !pressed && !released {
        None
    } else if scancode == PAUSE_PREFIX_SCANCODE || scancode == PRINT_SCREEN_PREFIX_SCANCODE {
        None
    } else if k.vkey == VK_SHIFT && (code matches KeyCode::Scancode(sc) && is_numpad_digit(sc)) {
        None
    } else {
        Some(DeviceEvent::Key {
            physical_key: code,
            state: if pressed { ElementState::Pressed } else { ElementState::Released },
        })
    }
}

/// Translates a raw keyboard report; see [`keyboard_report_event`].
/// `mapped_scancode` is the scancode the system maps the report's virtual
/// key to; it is read only when the report has no make code.
pub fn raw_keyboard_event(k: RawKeyboard, mapped_scancode: u16) -> (r: Option<DeviceEvent>)
    ensures
        r == keyboard_report_event(k, mapped_scancode),
{
    let pressed = k.message == WM_KEYDOWN || k.message == WM_SYSKEYDOWN;
    let released = k.message == WM_KEYUP || k.message == WM_SYSKEYUP;
    if !pressed && !released {
        return None;
    }
    let state = if pressed { ElementState::Pressed } else { ElementState::Released };
    let extension: u16 = if has_flag_exec(k.flags, RI_KEY_E0) {
        0xE000
    } else if has_flag_exec(k.flags, RI_KEY_E1) {
        0xE100
    } else {
        0
    };
    let scancode: u16 = if k.make_code == 0 { mapped_scancode } else { k.make_code | extension };
    if scancode == PAUSE_PREFIX_SCANCODE || scancode == PRINT_SCREEN_PREFIX_SCANCODE {
        return None;
    }
    let code = if k.vkey == VK_NUMLOCK { KeyCode::NumLock } else { KeyCode::Scancode(scancode as u32) };
    if k.vkey == VK_SHIFT {
        match code {
            KeyCode::Scancode(sc) => {
                if sc == 0x47 || sc == 0x48 || sc == 0x49 || sc == 0x4B || sc == 0x4C || sc == 0x4D
                    || sc == 0x4F || sc == 0x50 || sc == 0x51 || sc == 0x52 || sc == 0x53 {
                    return None;
                }
            },
            KeyCode::NumLock => {},
        }
    }
    Some(DeviceEvent::Key { physical_key: code, state })
}

} // verus!
