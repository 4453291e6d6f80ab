use tao::event::{
    DeviceId, ElementState, Force, KeyCode, KeyEvent, ModifiersState, MouseButton, PhysicalPosition,
    PhysicalSize, Theme, TouchPhase, WindowEvent, WindowId,
};
use tao::router::{
    decode_key_message, modifiers_of, sys_command_of, normalize_pointer_pressure, pointer_phase, touch_event, window_pos_changed, window_resized, ProcResult,
    SubclassGuard, SysCommand, WindowState,
};

const SHIFT: ModifiersState = ModifiersState { bits: 1 };
const NONE: ModifiersState = ModifiersState { bits: 0 };

fn window() -> WindowState {
    WindowState::new(96, Theme::Light)
}

#[test]
fn pressure_in_range_is_normalized() {
    assert_eq!(normalize_pointer_pressure(1), Some(Force::Normalized(1)));
    assert_eq!(normalize_pointer_pressure(512), Some(Force::Normalized(512)));
    assert_eq!(normalize_pointer_pressure(1024), Some(Force::Normalized(1024)));
}

#[test]
fn pressure_out_of_range_is_no_force() {
    assert_eq!(normalize_pointer_pressure(0), None);
    assert_eq!(normalize_pointer_pressure(1025), None);
    assert_eq!(normalize_pointer_pressure(u32::MAX), None);
}

#[test]
fn pressure_fraction_value() {
    match normalize_pointer_pressure(256) {
        Some(Force::Normalized(n)) => assert_eq!(n as f64 / 1024.0, 0.25),
        None => panic!("no force"),
    }
}

#[test]
fn repeated_moves_enter_once_and_move_once() {
    let mut w = window();
    let mut all = Vec::new();
    let (first, track) = w.mouse_move(10, 20, NONE);
    assert!(track);
    all.extend(first.iter().copied());
    for mods in [NONE, SHIFT, NONE, SHIFT] {
        let (events, track) = w.mouse_move(10, 20, mods);
        assert!(!track);
        assert!(events.is_empty());
        all.extend(events);
    }
    assert_eq!(all.iter().filter(|e| matches!(e, WindowEvent::CursorEntered { .. })).count(), 1);
    assert_eq!(all.iter().filter(|e| matches!(e, WindowEvent::CursorMoved { .. })).count(), 1);
    assert!(matches!(all[0], WindowEvent::CursorEntered { .. }));
}

#[test]
fn move_to_new_position_reports_modifiers_first() {
    let mut w = window();
    w.mouse_move(1, 1, NONE);
    let (events, _) = w.mouse_move(2, 1, SHIFT);
    assert_eq!(
        events,
        vec![
            WindowEvent::ModifiersChanged(SHIFT),
            WindowEvent::CursorMoved { device_id: DeviceId(0), position: PhysicalPosition { x: 2, y: 1 }, modifiers: SHIFT },
        ]
    );
}

#[test]
fn leave_then_move_enters_again() {
    let mut w = window();
    w.mouse_move(1, 1, NONE);
    assert_eq!(w.mouse_leave(), WindowEvent::CursorLeft { device_id: DeviceId(0) });
    let (events, track) = w.mouse_move(1, 1, NONE);
    assert!(track);
    assert_eq!(events, vec![WindowEvent::CursorEntered { device_id: DeviceId(0) }]);
}

fn key(code: u32, state: ElementState) -> (KeyEvent, bool) {
    (KeyEvent { physical_key: KeyCode::Scancode(code), state, repeat: false }, false)
}

#[test]
fn modifier_change_precedes_key_event() {
    let mut w = window();
    let events = w.key_message(SHIFT, vec![key(0x2A, ElementState::Pressed)]);
    assert_eq!(events.len(), 2);
    assert_eq!(events[0], WindowEvent::ModifiersChanged(SHIFT));
    assert!(matches!(events[1], WindowEvent::KeyboardInput { is_synthetic: false, .. }));
    let events = w.key_message(SHIFT, vec![key(0x1E, ElementState::Pressed), key(0x1E, ElementState::Released)]);
    assert_eq!(events.len(), 2);
    assert!(events.iter().all(|e| matches!(e, WindowEvent::KeyboardInput { .. })));
    let events = w.key_message(NONE, vec![key(0x2A, ElementState::Released)]);
    assert_eq!(events[0], WindowEvent::ModifiersChanged(NONE));
    assert_eq!(w.modifiers_state, NONE);
}

#[test]
fn wheel_reports_raw_units() {
    let mut w = window();
    let events = w.mouse_wheel(-120, false, NONE);
    assert_eq!(
        events,
        vec![WindowEvent::MouseWheel { device_id: DeviceId(0), delta_x: 0, delta_y: -120, phase: TouchPhase::Moved, modifiers: NONE }]
    );
    let events = w.mouse_wheel(240, true, SHIFT);
    assert_eq!(events[0], WindowEvent::ModifiersChanged(SHIFT));
    assert!(matches!(events[1], WindowEvent::MouseWheel { delta_x: 240, delta_y: 0, .. }));
}

#[test]
fn capture_count_follows_presses() {
    let mut w = window();
    w.button_down(MouseButton::Left, NONE);
    w.button_down(MouseButton::Right, NONE);
    assert_eq!(w.mouse.capture_count, 2);
    let (events, release) = w.button_up(MouseButton::Left, NONE);
    assert!(!release);
    assert_eq!(
        events,
        vec![WindowEvent::MouseInput { device_id: DeviceId(0), state: ElementState::Released, button: MouseButton::Left, modifiers: NONE }]
    );
    let (_, release) = w.button_up(MouseButton::Right, NONE);
    assert!(release);
    let (_, release) = w.button_up(MouseButton::Middle, NONE);
    assert!(release);
    assert_eq!(w.mouse.capture_count, 0);
}

#[test]
fn self_recapture_keeps_count() {
    let mut w = window();
    w.button_down(MouseButton::Other(1), NONE);
    w.capture_changed(WindowId(7), WindowId(7));
    assert_eq!(w.mouse.capture_count, 1);
    w.capture_changed(WindowId(7), WindowId(8));
    assert_eq!(w.mouse.capture_count, 0);
}

#[test]
fn focus_events() {
    let mut w = window();
    assert_eq!(w.set_focus(SHIFT), vec![WindowEvent::ModifiersChanged(SHIFT), WindowEvent::Focused(true)]);
    assert_eq!(w.set_focus(SHIFT), vec![WindowEvent::Focused(true)]);
    assert_eq!(w.kill_focus(), vec![WindowEvent::ModifiersChanged(NONE), WindowEvent::Focused(false)]);
    assert_eq!(w.kill_focus(), vec![WindowEvent::ModifiersChanged(NONE), WindowEvent::Focused(false)]);
}

#[test]
fn sys_commands() {
    let mut w = window();
    assert_eq!(w.sys_command(SysCommand::Minimize), ProcResult::DefWindowProc);
    assert!(w.minimized);
    assert_eq!(w.sys_command(SysCommand::Restore), ProcResult::DefWindowProc);
    assert!(!w.minimized);
    assert_eq!(w.sys_command(SysCommand::ScreenSave), ProcResult::DefWindowProc);
    w.fullscreen = true;
    assert_eq!(w.sys_command(SysCommand::ScreenSave), ProcResult::Value(0));
    assert_eq!(w.sys_command(SysCommand::Other), ProcResult::DefWindowProc);
}

#[test]
fn theme_changes() {
    let mut w = window();
    assert_eq!(w.system_theme_changed(Theme::Light), None);
    assert_eq!(w.system_theme_changed(Theme::Dark), Some(WindowEvent::ThemeChanged(Theme::Dark)));
    assert_eq!(w.current_theme, Theme::Dark);
    w.preferred_theme = Some(Theme::Dark);
    assert_eq!(w.system_theme_changed(Theme::Light), None);
    assert_eq!(w.current_theme, Theme::Dark);
}

#[test]
fn frame_flags() {
    let mut w = window();
    assert_eq!(w.nc_calc_size_result(), ProcResult::DefSubclassProc);
    w.decorations = false;
    assert_eq!(w.nc_calc_size_result(), ProcResult::Value(0));
    w.set_in_size_move(true);
    assert!(w.in_size_move);
    w.set_retain_state_on_size(true);
    assert!(w.retain_state_on_size);
}

#[test]
fn moves_and_resizes() {
    assert_eq!(window_pos_changed(true, 3, 4), None);
    assert_eq!(window_pos_changed(false, -3, 4), Some(WindowEvent::Moved(PhysicalPosition { x: -3, y: 4 })));
    assert_eq!(window_resized((600 << 16) | 800), WindowEvent::Resized(PhysicalSize { width: 800, height: 600 }));
}

#[test]
fn touch_contacts() {
    let e = touch_event(0x2, 9, 10, 20, 123_456, -789).unwrap();
    match e {
        WindowEvent::Touch(t) => {
            assert_eq!(t.phase, TouchPhase::Started);
            assert_eq!(t.location_x, 1056);
            assert_eq!(t.location_y, 1911);
            assert_eq!(t.id, 9);
            assert_eq!(t.force, None);
        }
        _ => panic!("not a touch"),
    }
    assert!(matches!(touch_event(0x4, 1, 0, 0, 0, 0), Some(WindowEvent::Touch(t)) if t.phase == TouchPhase::Ended));
    assert!(matches!(touch_event(0x1, 1, 0, 0, 0, 0), Some(WindowEvent::Touch(t)) if t.phase == TouchPhase::Moved));
    assert_eq!(touch_event(0x8, 1, 0, 0, 0, 0), None);
}

#[test]
fn pointer_phases() {
    assert_eq!(pointer_phase(0x0001_0000), Some(TouchPhase::Started));
    assert_eq!(pointer_phase(0x0004_0000), Some(TouchPhase::Ended));
    assert_eq!(pointer_phase(0x0002_0000), Some(TouchPhase::Moved));
    assert_eq!(pointer_phase(0x0003_0000), Some(TouchPhase::Started));
    assert_eq!(pointer_phase(0), None);
}

#[test]
fn subclass_state_freed_after_last_call() {
    let mut g = SubclassGuard::new();
    g.enter();
    g.enter();
    g.mark_removed();
    assert!(!g.leave());
    assert!(g.leave());
    let mut g = SubclassGuard::new();
    g.enter();
    assert!(!g.leave());
}

#[test]
fn key_message_decoding() {
    // Scancode 0x1E, first press.
    let (event, synthetic) = decode_key_message(0x0100, 0x001E_0001);
    assert!(!synthetic);
    assert_eq!(event, KeyEvent { physical_key: KeyCode::Scancode(0x1E), state: ElementState::Pressed, repeat: false });
    // Extended right control, repeated press.
    let (event, _) = decode_key_message(0x0104, 0x411D_0001);
    assert_eq!(event, KeyEvent { physical_key: KeyCode::Scancode(0xE01D), state: ElementState::Pressed, repeat: true });
    // A release never repeats.
    let (event, _) = decode_key_message(0x0101, 0xC01E_0001);
    assert_eq!(event, KeyEvent { physical_key: KeyCode::Scancode(0x1E), state: ElementState::Released, repeat: false });
}

#[test]
fn system_command_decoding() {
    assert_eq!(sys_command_of(0xF120), SysCommand::Restore);
    assert_eq!(sys_command_of(0xF020), SysCommand::Minimize);
    assert_eq!(sys_command_of(0xF140), SysCommand::ScreenSave);
    assert_eq!(sys_command_of(0xF060), SysCommand::Other);
}

#[test]
fn modifier_bits() {
    assert_eq!(modifiers_of(false, false, false, false), NONE);
    assert_eq!(modifiers_of(true, false, false, false), SHIFT);
    assert_eq!(modifiers_of(true, true, true, true).bits, 0b1111);
    assert_eq!(modifiers_of(false, true, false, true).bits, 0b1010);
}
