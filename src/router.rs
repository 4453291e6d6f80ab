//! Translation of native window messages into window events, with the
//! per-window state that the translation reads and updates.
//!
//! The native side decodes each message into plain values and calls the
//! matching method here; the events that come back go to the runner in
//! order, and the native actions named by the result are performed after.

use vstd::prelude::*;

use crate::event::{
    DeviceId, ElementState, Force, ModifiersState, MouseButton, PhysicalPosition, PhysicalSize,
    KeyCode, Theme, Touch, TouchPhase, WindowEvent, WindowId, KeyEvent, WINDOW_MESSAGE_DEVICE,
};

verus! {

/// Largest raw pressure that a touch or pen sensor reports.
pub const MAX_RAW_PRESSURE: u32 = 1024;

/// Whether a raw sensor pressure lies in the valid range `(0, 1024]`.
pub open spec fn valid_raw_pressure(pressure: u32) -> bool {
    1 <= pressure <= MAX_RAW_PRESSURE
}

/// Normalizes a raw sensor pressure: a value in `(0, 1024]` becomes the
/// fraction `pressure / 1024`; anything else means the sensor gave no force
/// data, and is not clamped.
pub fn normalize_pointer_pressure(pressure: u32) -> (r: Option<Force>)
    ensures
        valid_raw_pressure(pressure) ==> r == Some(Force::Normalized(pressure)),
        !valid_raw_pressure(pressure) ==> r is None,
{
    if 1 <= pressure && pressure <= MAX_RAW_PRESSURE {
        Some(Force::Normalized(pressure))
    } else {
        None
    }
}

/// How the native side finishes a message.
#[derive(Clone, Copy, Debug, PartialEq, Eq, Structural)]
pub enum ProcResult {
    /// Pass the message on to the next procedure of the subclass chain.
    DefSubclassProc,
    /// Pass the message on to the default window procedure.
    DefWindowProc,
    /// The message was handled: answer with this value.
    Value(isize),
}

/// Mouse state of a window.
#[derive(Clone, Copy, Debug, PartialEq, Eq, Structural)]
pub struct MouseState {
    /// The position of the last cursor move reported.
    pub last_position: Option<PhysicalPosition>,
    /// How many presses hold the mouse capture.
    pub capture_count: u32,
    /// Whether the cursor is inside the window.
    pub in_window: bool,
}

/// The per-window state that message translation reads and updates.
///
/// Sizes are in logical pixels, which are physical pixels at 96 DPI.
#[derive(Clone, Copy, Debug, PartialEq, Eq, Structural)]
pub struct WindowState {
    pub modifiers_state: ModifiersState,
    pub mouse: MouseState,
    pub min_size: Option<PhysicalSize>,
    pub max_size: Option<PhysicalSize>,
    pub fullscreen: bool,
    pub preferred_theme: Option<Theme>,
    pub current_theme: Theme,
    pub dpi: u32,
    pub decorations: bool,
    pub minimized: bool,
    pub in_size_move: bool,
    pub retain_state_on_size: bool,
}

/// A system command of the window menu, as far as the translation tells
/// them apart.
#[derive(Clone, Copy, Debug, PartialEq, Eq, Structural)]
pub enum SysCommand {
    Restore,
    Minimize,
    ScreenSave,
    Other,
}

pub const SC_MINIMIZE: usize = 0xF020;
pub const SC_RESTORE: usize = 0xF120;
pub const SC_SCREENSAVE: usize = 0xF140;

/// The system command that a command message names.
pub fn sys_command_of(wparam: usize) -> (r: SysCommand)
    ensures
        r == if wparam == SC_RESTORE {
            SysCommand::Restore
        } else if wparam == SC_MINIMIZE {
            SysCommand::Minimize
        } else if wparam == SC_SCREENSAVE {
            SysCommand::ScreenSave
        } else {
            SysCommand::Other
        },
{
    if wparam == SC_RESTORE {
        SysCommand::Restore
    } else if wparam == SC_MINIMIZE {
        SysCommand::Minimize
    } else if wparam == SC_SCREENSAVE {
        SysCommand::ScreenSave
    } else {
        SysCommand::Other
    }
}

pub const MOD_SHIFT: u32 = 0b0001;
pub const MOD_CONTROL: u32 = 0b0010;
pub const MOD_ALT: u32 = 0b0100;
pub const MOD_SUPER: u32 = 0b1000;

/// The modifier set of the modifier keys held.
pub fn modifiers_of(shift: bool, control: bool, alt: bool, logo: bool) -> (r: ModifiersState)
    ensures
        r.bits == (if shift { MOD_SHIFT } else { 0 }) + (if control { MOD_CONTROL } else { 0 }) + (if alt {
            MOD_ALT
        } else {
            0
        }) + (if logo { MOD_SUPER } else { 0 }),
{
    let bits: u32 = (if shift { MOD_SHIFT } else { 0 }) + (if control { MOD_CONTROL } else { 0 }) + (if alt {
        MOD_ALT
    } else {
        0
    }) + (if logo { MOD_SUPER } else { 0 });
    ModifiersState { bits }
}

pub const WM_KEYDOWN: u32 = 0x0100;
pub const WM_SYSKEYDOWN: u32 = 0x0104;

/// The key of a key message, from its parameter: the scancode in bits 16
/// to 23, with the extension prefix where bit 24 is set; a press repeats
/// where bit 30, the previous state of the key, is set. Messages from the
/// keyboard are never synthetic.
pub open spec fn key_of_message(msg: u32, lparam: u32) -> (KeyEvent, bool) {
    let scancode = (lparam / 0x10000) % 0x100;
    let extended = (lparam / 0x100_0000) % 2 == 1;
    let pressed = msg == WM_KEYDOWN || msg == WM_SYSKEYDOWN;
    (
        KeyEvent {
            physical_key: KeyCode::Scancode(if extended { (0xE000 + scancode) as u32 } else { scancode as u32 }),
            state: if pressed { ElementState::Pressed } else { ElementState::Released },
            repeat: pressed && (lparam / 0x4000_0000) % 2 == 1,
        },
        false,
    )
}

/// Decodes the key of a key message; see [`key_of_message`].
pub fn decode_key_message(msg: u32, lparam: u32) -> (r: (KeyEvent, bool))
    ensures
        r == key_of_message(msg, lparam),
{
    let scancode: u32 = (lparam / 0x10000) % 0x100;
    let extended = (lparam / 0x100_0000) % 2 == 1;
    let pressed = msg == WM_KEYDOWN || msg == WM_SYSKEYDOWN;
    (
        KeyEvent {
            physical_key: KeyCode::Scancode(if extended { 0xE000 + scancode } else { scancode }),
            state: if pressed { ElementState::Pressed } else { ElementState::Released },
            repeat: pressed && (lparam / 0x4000_0000) % 2 == 1,
        },
        false,
    )
}

/// The modifier events that bring `held` to `current`.
pub open spec fn modifier_events(held: ModifiersState, current: ModifiersState) -> Seq<WindowEvent> {
    if held != current {
        seq![WindowEvent::ModifiersChanged(current)]
    } else {
        seq![]
    }
}

/// The keyboard events for key reports of the keyboard translator.
pub open spec fn key_events(keys: Seq<(KeyEvent, bool)>) -> Seq<WindowEvent> {
    keys.map_values(|k: (KeyEvent, bool)| WindowEvent::KeyboardInput {
        device_id: DeviceId(WINDOW_MESSAGE_DEVICE),
        event: k.0,
        is_synthetic: k.1,
    })
}

/// The window after a cursor move to `p`, and the events it brings: the
/// cursor enters if it was outside; a move to a new position reports the
/// modifiers first if they changed, then the move.
pub open spec fn cursor_move(s: WindowState, p: PhysicalPosition, current: ModifiersState) -> (WindowState, Seq<WindowEvent>) {
    let entered: Seq<WindowEvent> = if !s.mouse.in_window {
        seq![WindowEvent::CursorEntered { device_id: DeviceId(WINDOW_MESSAGE_DEVICE) }]
    } else {
        seq![]
    };
    let moved = s.mouse.last_position != Some(p);
    let s1 = WindowState {
        mouse: MouseState { in_window: true, last_position: Some(p), ..s.mouse },
        ..s
    };
    if moved {
        (
            WindowState { modifiers_state: current, ..s1 },
            entered + modifier_events(s.modifiers_state, current) + seq![
                WindowEvent::CursorMoved {
                    device_id: DeviceId(WINDOW_MESSAGE_DEVICE),
                    position: p,
                    modifiers: current,
                },
            ],
        )
    } else {
        (s1, entered)
    }
}

/// The event of a mouse button press or release.
pub open spec fn button_event(state: ElementState, button: MouseButton, modifiers: ModifiersState) -> WindowEvent {
    WindowEvent::MouseInput {
        device_id: DeviceId(WINDOW_MESSAGE_DEVICE),
        state,
        button,
        modifiers,
    }
}

impl WindowState {
    /// The state of a new window at `dpi`, decorated, with the cursor outside.
    pub fn new(dpi: u32, current_theme: Theme) -> (r: WindowState)
        ensures
            r.modifiers_state.bits == 0,
            r.mouse == (MouseState { last_position: None, capture_count: 0, in_window: false }),
            r.min_size is None && r.max_size is None,
            !r.fullscreen,
            r.preferred_theme is None,
            r.current_theme == current_theme,
            r.dpi == dpi,
            r.decorations && !r.minimized && !r.in_size_move && !r.retain_state_on_size,
    {
        WindowState {
            modifiers_state: ModifiersState::empty(),
            mouse: MouseState { last_position: None, capture_count: 0, in_window: false },
            min_size: None,
            max_size: None,
            fullscreen: false,
            preferred_theme: None,
            current_theme,
            dpi,
            decorations: true,
            minimized: false,
            in_size_move: false,
            retain_state_on_size: false,
        }
    }

    /// Takes in the modifiers held now; if they differ from those last
    /// reported, a modifier event goes to `events`. Gives back the modifiers
    /// held now.
    pub fn update_modifiers(&mut self, current: ModifiersState, events: &mut Vec<WindowEvent>) -> (r: ModifiersState)
        ensures
            r == current,
            final(events)@ == old(events)@ + modifier_events(old(self).modifiers_state, current),
            *final(self) == (WindowState { modifiers_state: current, ..*old(self) }),
    {
        if self.modifiers_state != current {
            self.modifiers_state = current;
            events.push(WindowEvent::ModifiersChanged(current));
        }
        proof {
            assert(final(events)@ =~= old(events)@ + modifier_events(old(self).modifiers_state, current));
        }
        current
    }

    /// A key message: the modifier event, if the modifiers changed, comes
    /// strictly before the key events of the message.
    pub fn key_message(&mut self, current: ModifiersState, keys: Vec<(KeyEvent, bool)>) -> (r: Vec<WindowEvent>)
        ensures
            r@ == modifier_events(old(self).modifiers_state, current) + key_events(keys@),
            *final(self) == (WindowState { modifiers_state: current, ..*old(self) }),
    {
        let mut events: Vec<WindowEvent> = Vec::new();
        self.update_modifiers(current, &mut events);
        let ghost head = events@;
        let mut i: usize = 0;
        while i < keys.len()
            invariant
                i <= keys@.len(),
                events@ == head + key_events(keys@.take(i as int)),
            decreases keys@.len() - i,
        {
            let (event, is_synthetic) = keys[i];
            events.push(WindowEvent::KeyboardInput {
                device_id: DeviceId(WINDOW_MESSAGE_DEVICE),
                event,
                is_synthetic,
            });
            proof {
                assert(keys@.take(i as int + 1) =~= keys@.take(i as int).push(keys@[i as int]));
                assert(key_events(keys@.take(i as int + 1)) =~= key_events(keys@.take(i as int)).push(
                    WindowEvent::KeyboardInput {
                        device_id: DeviceId(WINDOW_MESSAGE_DEVICE),
                        event,
                        is_synthetic,
                    },
                ));
            }
            i = i + 1;
        }
        proof {
            assert(keys@.take(keys@.len() as int) =~= keys@);
        }
        events
    }

    /// A cursor move to `(x, y)`. Gives back the events and whether the
    /// cursor entered, in which case the native side asks to be told when
    /// it leaves. A move to the position last reported reports no move.
    pub fn mouse_move(&mut self, x: i32, y: i32, current: ModifiersState) -> (r: (Vec<WindowEvent>, bool))
        ensures
            (*final(self), r.0@) == cursor_move(*old(self), PhysicalPosition { x, y }, current),
            r.1 == !old(self).mouse.in_window,
    {
        let mut events: Vec<WindowEvent> = Vec::new();
        let was_outside = !self.mouse.in_window;
        self.mouse.in_window = true;
        if was_outside {
            events.push(WindowEvent::CursorEntered { device_id: DeviceId(WINDOW_MESSAGE_DEVICE) });
        }
        let position = PhysicalPosition { x, y };
        let cursor_moved = match self.mouse.last_position {
            Some(p) => p != position,
            None => true,
        };
        self.mouse.last_position = Some(position);
        if cursor_moved {
            let modifiers = self.update_modifiers(current, &mut events);
            events.push(WindowEvent::CursorMoved {
                device_id: DeviceId(WINDOW_MESSAGE_DEVICE),
                position,
                modifiers,
            });
        }
        proof {
            let expected = cursor_move(*old(self), position, current);
            assert(events@ =~= expected.1);
        }
        (events, was_outside)
    }

    /// The cursor left the window.
    pub fn mouse_leave(&mut self) -> (r: WindowEvent)
        ensures
            r == (WindowEvent::CursorLeft { device_id: DeviceId(WINDOW_MESSAGE_DEVICE) }),
            *final(self) == (WindowState {
                mouse: MouseState { in_window: false, ..old(self).mouse },
                ..*old(self)
            }),
    {
        self.mouse.in_window = false;
        WindowEvent::CursorLeft { device_id: DeviceId(WINDOW_MESSAGE_DEVICE) }
    }

    /// A wheel turn of `delta` native units, vertical or horizontal.
    pub fn mouse_wheel(&mut self, delta: i16, horizontal: bool, current: ModifiersState) -> (r: Vec<WindowEvent>)
        ensures
            r@ == modifier_events(old(self).modifiers_state, current) + seq![
                WindowEvent::MouseWheel {
                    device_id: DeviceId(WINDOW_MESSAGE_DEVICE),
                    delta_x: if horizontal { delta as i32 } else { 0 },
                    delta_y: if horizontal { 0 } else { delta as i32 },
                    phase: TouchPhase::Moved,
                    modifiers: current,
                },
            ],
            *final(self) == (WindowState { modifiers_state: current, ..*old(self) }),
    {
        let mut events: Vec<WindowEvent> = Vec::new();
        let modifiers = self.update_modifiers(current, &mut events);
        let d = delta as i32;
        events.push(WindowEvent::MouseWheel {
            device_id: DeviceId(WINDOW_MESSAGE_DEVICE),
            delta_x: if horizontal { d } else { 0 },
            delta_y: if horizontal { 0 } else { d },
            phase: TouchPhase::Moved,
            modifiers,
        });
        proof {
            assert(events@ =~= modifier_events(old(self).modifiers_state, current) + seq![
                WindowEvent::MouseWheel {
                    device_id: DeviceId(WINDOW_MESSAGE_DEVICE),
                    delta_x: if horizontal { delta as i32 } else { 0 },
                    delta_y: if horizontal { 0 } else { delta as i32 },
                    phase: TouchPhase::Moved,
                    modifiers: current,
                },
            ]);
        }
        events
    }

    /// A button press: the press takes the mouse capture (the native side
    /// captures the mouse), then the modifiers and the press are reported.
    /// The count of presses saturates at `u32::MAX`.
    pub fn button_down(&mut self, button: MouseButton, current: ModifiersState) -> (r: Vec<WindowEvent>)
        ensures
            r@ == modifier_events(old(self).modifiers_state, current) + seq![
                button_event(ElementState::Pressed, button, current),
            ],
            *final(self) == (WindowState {
                modifiers_state: current,
                mouse: MouseState {
                    capture_count: if old(self).mouse.capture_count == u32::MAX {
                        u32::MAX
                    } else {
                        (old(self).mouse.capture_count + 1) as u32
                    },
                    ..old(self).mouse
                },
                ..*old(self)
            }),
    {
        self.mouse.capture_count = self.mouse.capture_count.saturating_add(1);
        let mut events: Vec<WindowEvent> = Vec::new();
        let modifiers = self.update_modifiers(current, &mut events);
        events.push(WindowEvent::MouseInput {
            device_id: DeviceId(WINDOW_MESSAGE_DEVICE),
            state: ElementState::Pressed,
            button,
            modifiers,
        });
        proof {
            assert(events@ =~= modifier_events(old(self).modifiers_state, current) + seq![
                button_event(ElementState::Pressed, button, current),
            ]);
        }
        events
    }

    /// A button release: one press less holds the capture; when none is
    /// left the native side releases it (second result). Then the modifiers
    /// and the release are reported.
    pub fn button_up(&mut self, button: MouseButton, current: ModifiersState) -> (r: (Vec<WindowEvent>, bool))
        ensures
            r.0@ == modifier_events(old(self).modifiers_state, current) + seq![
                button_event(ElementState::Released, button, current),
            ],
            r.1 == (final(self).mouse.capture_count == 0),
            *final(self) == (WindowState {
                modifiers_state: current,
                mouse: MouseState {
                    capture_count: if old(self).mouse.capture_count == 0 {
                        0
                    } else {
                        (old(self).mouse.capture_count - 1) as u32
                    },
                    ..old(self).mouse
                },
                ..*old(self)
            }),
    {
        let release = self.release_mouse();
        let mut events: Vec<WindowEvent> = Vec::new();
        let modifiers = self.update_modifiers(current, &mut events);
        events.push(WindowEvent::MouseInput {
            device_id: DeviceId(WINDOW_MESSAGE_DEVICE),
            state: ElementState::Released,
            button,
            modifiers,
        });
        proof {
            assert(events@ =~= modifier_events(old(self).modifiers_state, current) + seq![
                button_event(ElementState::Released, button, current),
            ]);
        }
        (events, release)
    }

    /// One press less holds the mouse capture; the count does not go below
    /// zero. Gives back whether none is left, so that the capture is released.
    pub fn release_mouse(&mut self) -> (r: bool)
        ensures
            final(self).mouse.capture_count == if old(self).mouse.capture_count == 0 {
                0
            } else {
                (old(self).mouse.capture_count - 1) as u32
            },
            r == (final(self).mouse.capture_count == 0),
            *final(self) == (WindowState {
                mouse: MouseState { capture_count: final(self).mouse.capture_count, ..old(self).mouse },
                ..*old(self)
            }),
    {
        self.mouse.capture_count = self.mouse.capture_count.saturating_sub(1);
        self.mouse.capture_count == 0
    }

    /// The mouse capture moved to `new_capture`. The count is reset only
    /// when another window took it: a window that captures again keeps it.
    pub fn capture_changed(&mut self, window: WindowId, new_capture: WindowId)
        ensures
            new_capture != window ==> *final(self) == (WindowState {
                mouse: MouseState { capture_count: 0, ..old(self).mouse },
                ..*old(self)
            }),
            new_capture == window ==> *final(self) == *old(self),
    {
        if new_capture != window {
            self.mouse.capture_count = 0;
        }
    }

    /// The window gained the keyboard focus.
    pub fn set_focus(&mut self, current: ModifiersState) -> (r: Vec<WindowEvent>)
        ensures
            r@ == modifier_events(old(self).modifiers_state, current) + seq![WindowEvent::Focused(true)],
            *final(self) == (WindowState { modifiers_state: current, ..*old(self) }),
    {
        let mut events: Vec<WindowEvent> = Vec::new();
        self.update_modifiers(current, &mut events);
        events.push(WindowEvent::Focused(true));
        proof {
            assert(events@ =~= modifier_events(old(self).modifiers_state, current) + seq![WindowEvent::Focused(true)]);
        }
        events
    }

    /// The window lost the keyboard focus: no modifier counts as held, which
    /// is always reported, then the loss of focus.
    pub fn kill_focus(&mut self) -> (r: Vec<WindowEvent>)
        ensures
            r@ == seq![
                WindowEvent::ModifiersChanged(ModifiersState { bits: 0 }),
                WindowEvent::Focused(false),
            ],
            *final(self) == (WindowState { modifiers_state: ModifiersState { bits: 0 }, ..*old(self) }),
    {
        self.modifiers_state = ModifiersState::empty();
        let mut events: Vec<WindowEvent> = Vec::new();
        events.push(WindowEvent::ModifiersChanged(ModifiersState::empty()));
        events.push(WindowEvent::Focused(false));
        proof {
            assert(events@ =~= seq![
                WindowEvent::ModifiersChanged(ModifiersState { bits: 0 }),
                WindowEvent::Focused(false),
            ]);
        }
        events
    }

    /// An interactive move or resize starts or ends.
    pub fn set_in_size_move(&mut self, in_size_move: bool)
        ensures
            *final(self) == (WindowState { in_size_move, ..*old(self) }),
    {
        self.in_size_move = in_size_move;
    }

    /// Whether the window keeps its maximized or fullscreen state on resize.
    pub fn set_retain_state_on_size(&mut self, retain: bool)
        ensures
            *final(self) == (WindowState { retain_state_on_size: retain, ..*old(self) }),
    {
        self.retain_state_on_size = retain;
    }

    /// A system command: restore and minimize update the minimized flag; the
    /// screen saver is held off while the window is fullscreen. Everything
    /// else goes to the default window procedure.
    pub fn sys_command(&mut self, command: SysCommand) -> (r: ProcResult)
        ensures
            command == SysCommand::Restore ==> *final(self) == (WindowState { minimized: false, ..*old(self) }),
            command == SysCommand::Minimize ==> *final(self) == (WindowState { minimized: true, ..*old(self) }),
            command != SysCommand::Restore && command != SysCommand::Minimize ==> *final(self) == *old(self),
            r == if command == SysCommand::ScreenSave && old(self).fullscreen {
                ProcResult::Value(0)
            } else {
                ProcResult::DefWindowProc
            },
    {
        match command {
            SysCommand::Restore => {
                self.minimized = false;
            },
            SysCommand::Minimize => {
                self.minimized = true;
            },
            _ => {},
        }
        if command == SysCommand::ScreenSave && self.fullscreen {
            ProcResult::Value(0)
        } else {
            ProcResult::DefWindowProc
        }
    }

    /// The system theme changed to `system_theme`. A window with a preferred
    /// theme keeps it; otherwise a change of its theme is reported.
    pub fn system_theme_changed(&mut self, system_theme: Theme) -> (r: Option<WindowEvent>)
        ensures
            old(self).preferred_theme is None && old(self).current_theme != system_theme ==> r == Some(
                WindowEvent::ThemeChanged(system_theme),
            ) && *final(self) == (WindowState { current_theme: system_theme, ..*old(self) }),
            !(old(self).preferred_theme is None && old(self).current_theme != system_theme) ==> r is None
                && *final(self) == *old(self),
    {
        if self.preferred_theme.is_none() && self.current_theme != system_theme {
            self.current_theme = system_theme;
            Some(WindowEvent::ThemeChanged(system_theme))
        } else {
            None
        }
    }

    /// How a request to compute the client area is answered: a window
    /// without decorations answers itself, so that it has no frame.
    pub fn nc_calc_size_result(&self) -> (r: ProcResult)
        ensures
            r == if self.decorations { ProcResult::DefSubclassProc } else { ProcResult::Value(0) },
    {
        if self.decorations {
            ProcResult::DefSubclassProc
        } else {
            ProcResult::Value(0)
        }
    }
}

/// A window was moved, unless the native flags say its position was kept.
pub fn window_pos_changed(no_move: bool, x: i32, y: i32) -> (r: Option<WindowEvent>)
    ensures
        no_move ==> r is None,
        !no_move ==> r == Some(WindowEvent::Moved(PhysicalPosition { x, y })),
{
    if no_move {
        None
    } else {
        Some(WindowEvent::Moved(PhysicalPosition { x, y }))
    }
}

/// A window was resized: the client size comes in the low and high words
/// of the message's parameter.
pub fn window_resized(lparam: u32) -> (r: WindowEvent)
    ensures
        r == WindowEvent::Resized(PhysicalSize { width: lparam % 0x10000, height: lparam / 0x10000 }),
{
    WindowEvent::Resized(PhysicalSize { width: lparam % 0x10000, height: lparam / 0x10000 })
}

/// Keeps the reference count of a window procedure's own state: the state
/// may be freed only once its subclass was removed and no call of the
/// procedure is still running, as a nested message loop can re-enter it.
#[derive(Clone, Copy, Debug, PartialEq, Eq, Structural)]
pub struct SubclassGuard {
    pub recurse_depth: u32,
    pub subclass_removed: bool,
}

impl SubclassGuard {
    pub fn new() -> (r: SubclassGuard)
        ensures
            r.recurse_depth == 0,
            !r.subclass_removed,
    {
        SubclassGuard { recurse_depth: 0, subclass_removed: false }
    }

    /// A call of the procedure starts.
    pub fn enter(&mut self)
        requires
            old(self).recurse_depth < u32::MAX,
        ensures
            final(self).recurse_depth == old(self).recurse_depth + 1,
            final(self).subclass_removed == old(self).subclass_removed,
    {
        self.recurse_depth = self.recurse_depth + 1;
    }

    /// The subclass was removed from the window.
    pub fn mark_removed(&mut self)
        ensures
            final(self).recurse_depth == old(self).recurse_depth,
            final(self).subclass_removed,
    {
        self.subclass_removed = true;
    }

    /// A call of the procedure ends; gives back whether the state may be
    /// freed now.
    pub fn leave(&mut self) -> (r: bool)
        requires
            old(self).recurse_depth > 0,
        ensures
            final(self).recurse_depth == old(self).recurse_depth - 1,
            final(self).subclass_removed == old(self).subclass_removed,
            r == (final(self).subclass_removed && final(self).recurse_depth == 0),
    {
        self.recurse_depth = self.recurse_depth - 1;
        self.subclass_removed && self.recurse_depth == 0
    }
}

/// In the events of a key message, a change of the modifiers comes first,
/// strictly before every key event; without a change only key events come.
pub proof fn lemma_modifiers_before_keys(held: ModifiersState, current: ModifiersState, keys: Seq<(KeyEvent, bool)>)
    ensures
        ({
            let out = modifier_events(held, current) + key_events(keys);
            &&& held != current ==> out.len() == keys.len() + 1 && out[0] == WindowEvent::ModifiersChanged(current)
                && forall|i: int| 1 <= i < out.len() ==> (#[trigger] out[i]) is KeyboardInput
            &&& held == current ==> out.len() == keys.len() && forall|i: int|
                0 <= i < out.len() ==> (#[trigger] out[i]) is KeyboardInput
        }),
{
    let out = modifier_events(held, current) + key_events(keys);
    let k = modifier_events(held, current).len() as int;
    assert forall|i: int| k <= i < out.len() implies (#[trigger] out[i]) is KeyboardInput by {
        assert(out[i] == key_events(keys)[i - k]);
    }
}

/// The window after cursor moves to `p`, one for each entry of `mods`, the
/// modifiers held at that move, and the events they bring in order.
pub open spec fn cursor_moves(s: WindowState, p: PhysicalPosition, mods: Seq<ModifiersState>) -> (WindowState, Seq<WindowEvent>)
    decreases mods.len(),
{
    if mods.len() == 0 {
        (s, seq![])
    } else {
        let first = cursor_move(s, p, mods[0]);
        let rest = cursor_moves(first.0, p, mods.drop_first());
        (rest.0, first.1 + rest.1)
    }
}

/// Once the cursor moved to `p`, any number of further moves to `p` brings
/// no event and changes nothing, whatever modifiers are held; the first
/// move brings exactly one `CursorEntered` if the cursor was outside, and
/// none otherwise.
pub proof fn lemma_repeated_move_is_silent(
    s: WindowState,
    p: PhysicalPosition,
    first: ModifiersState,
    mods: Seq<ModifiersState>,
)
    ensures
        cursor_moves(cursor_move(s, p, first).0, p, mods).1.len() == 0,
        cursor_moves(cursor_move(s, p, first).0, p, mods).0 == cursor_move(s, p, first).0,
        !s.mouse.in_window ==> cursor_move(s, p, first).1[0] is CursorEntered,
        forall|i: int|
            0 <= i < cursor_move(s, p, first).1.len() && (#[trigger] cursor_move(s, p, first).1[i]) is CursorEntered
                ==> i == 0 && !s.mouse.in_window,
    decreases mods.len(),
{
    let s1 = cursor_move(s, p, first).0;
    if mods.len() > 0 {
        assert(cursor_move(s1, p, mods[0]).0 == s1);
        assert(cursor_move(s1, p, mods[0]).1 =~= seq![]);
        lemma_repeated_move_is_silent(s, p, first, mods.drop_first());
    }
}

pub const TOUCHEVENTF_MOVE: u32 = 0x0001;
pub const TOUCHEVENTF_DOWN: u32 = 0x0002;
pub const TOUCHEVENTF_UP: u32 = 0x0004;
pub const POINTER_FLAG_DOWN: u32 = 0x0001_0000;
pub const POINTER_FLAG_UPDATE: u32 = 0x0002_0000;
pub const POINTER_FLAG_UP: u32 = 0x0004_0000;

/// The phase named by touch flags: a contact that starts, else one that
/// ends, else one that moves; flags that name none give no phase.
pub open spec fn phase_of(flags: u32, down: u32, up: u32, moved: u32) -> Option<TouchPhase> {
    if flags & down != 0 {
        Some(TouchPhase::Started)
    } else if flags & up != 0 {
        Some(TouchPhase::Ended)
    } else if flags & moved != 0 {
        Some(TouchPhase::Moved)
    } else {
        None
    }
}

fn phase_from_flags(flags: u32, down: u32, up: u32, moved: u32) -> (r: Option<TouchPhase>)
    ensures
        r == phase_of(flags, down, up, moved),
{
    if flags & down != 0 {
        Some(TouchPhase::Started)
    } else if flags & up != 0 {
        Some(TouchPhase::Ended)
    } else if flags & moved != 0 {
        Some(TouchPhase::Moved)
    } else {
        None
    }
}

/// The phase of a pointer contact from its pointer flags.
pub fn pointer_phase(pointer_flags: u32) -> (r: Option<TouchPhase>)
    ensures
        r == phase_of(pointer_flags, POINTER_FLAG_DOWN, POINTER_FLAG_UP, POINTER_FLAG_UPDATE),
{
    phase_from_flags(pointer_flags, POINTER_FLAG_DOWN, POINTER_FLAG_UP, POINTER_FLAG_UPDATE)
}

/// The remainder of `x / m` with the sign of `x`, as integer division
/// toward zero leaves it.
pub open spec fn rem_trunc(x: int, m: int) -> int {
    if x >= 0 {
        x % m
    } else {
        -((-x) % m)
    }
}

/// The location of a touch in hundredths of a client pixel: the whole
/// client pixel that the system maps the contact to, and the hundredths
/// that the raw location, in hundredths of a screen pixel, carries past it.
pub open spec fn touch_location(client: i32, raw: i32) -> int {
    client * 100 + rem_trunc(raw as int, 100)
}

fn touch_coordinate(client: i32, raw: i32) -> (r: i64)
    ensures
        r == touch_location(client, raw),
{
    let raw64 = raw as i64;
    let frac: i64 = if raw64 >= 0 { raw64 % 100 } else { -((-raw64) % 100) };
    client as i64 * 100 + frac
}

/// A contact of a touch message: `client_x` and `client_y` are the whole
/// client pixel of the contact, `raw_x` and `raw_y` its screen location in
/// hundredths of a pixel. A contact whose flags name no phase is skipped.
/// Touch messages carry no pressure.
pub fn touch_event(flags: u32, id: u32, client_x: i32, client_y: i32, raw_x: i32, raw_y: i32) -> (r: Option<WindowEvent>)
    ensures
        phase_of(flags, TOUCHEVENTF_DOWN, TOUCHEVENTF_UP, TOUCHEVENTF_MOVE) matches Some(phase) ==> r == Some(
            WindowEvent::Touch(Touch {
                device_id: DeviceId(WINDOW_MESSAGE_DEVICE),
                phase,
                location_x: touch_location(client_x, raw_x) as i64,
                location_y: touch_location(client_y, raw_y) as i64,
                force: None,
                id: id as u64,
            }),
        ),
        phase_of(flags, TOUCHEVENTF_DOWN, TOUCHEVENTF_UP, TOUCHEVENTF_MOVE) is None ==> r is None,
{
    match phase_from_flags(flags, TOUCHEVENTF_DOWN, TOUCHEVENTF_UP, TOUCHEVENTF_MOVE) {
        Some(phase) => Some(
            WindowEvent::Touch(Touch {
                device_id: DeviceId(WINDOW_MESSAGE_DEVICE),
                phase,
                location_x: touch_coordinate(client_x, raw_x),
                location_y: touch_coordinate(client_y, raw_y),
                force: None,
                id: id as u64,
            }),
        ),
        None => None,
    }
}

} // verus!
