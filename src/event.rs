//! The events handed to the application and the values they carry.
//!
//! Instants are nanoseconds on the monotonic clock of the process; window
//! and device identities are the native handles, taken as integers.

use vstd::prelude::*;

verus! {

/// Identity of a native window.
#[derive(Clone, Copy, Debug, PartialEq, Eq, Structural)]
pub struct WindowId(pub usize);

/// Logical identity of an input device, derived from the native device handle.
#[derive(Clone, Copy, Debug, PartialEq, Eq, Structural)]
pub struct DeviceId(pub u64);

/// The raw device id of events that native window messages attribute to no
/// particular device.
pub const WINDOW_MESSAGE_DEVICE: u64 = 0;

/// How eagerly the loop returns control, as set by the application.
#[derive(Clone, Copy, Debug, PartialEq, Eq, Structural)]
pub enum ControlFlow {
    /// Start a new cycle as soon as the current one ends.
    Poll,
    /// Wait for the next native message.
    Wait,
    /// Wait for the next native message or until the given instant.
    WaitUntil(u64),
    /// Leave the loop.
    Exit,
}

/// Why a new cycle of events started.
#[derive(Clone, Copy, Debug, PartialEq, Eq, Structural)]
pub enum StartCause {
    /// The instant asked for by `WaitUntil` was reached.
    ResumeTimeReached { start: u64, requested_resume: u64 },
    /// A native message arrived before the wait ended.
    WaitCancelled { start: u64, requested_resume: Option<u64> },
    /// The loop polls.
    Poll,
    /// First cycle of the loop.
    Init,
}

/// Pressure of a touch or pen contact, in 1024ths of the sensor's full range.
///
/// `Normalized(n)` stands for the fraction `n / 1024`; a valid value has
/// `1 <= n <= 1024`.
#[derive(Clone, Copy, Debug, PartialEq, Eq, Structural)]
pub enum Force {
    Normalized(u32),
}

/// Pressed or released.
#[derive(Clone, Copy, Debug, PartialEq, Eq, Structural)]
pub enum ElementState {
    Pressed,
    Released,
}

/// A mouse button; `Other` carries the native number of an extra button.
#[derive(Clone, Copy, Debug, PartialEq, Eq, Structural)]
pub enum MouseButton {
    Left,
    Right,
    Middle,
    Other(u16),
}

/// Phase of a touch contact.
#[derive(Clone, Copy, Debug, PartialEq, Eq, Structural)]
pub enum TouchPhase {
    Started,
    Moved,
    Ended,
    Cancelled,
}

/// The modifier keys held, as a bit set.
#[derive(Clone, Copy, Debug, PartialEq, Eq, Structural)]
pub struct ModifiersState {
    pub bits: u32,
}

impl ModifiersState {
    /// No modifier held.
    pub fn empty() -> (r: ModifiersState)
        ensures
            r.bits == 0,
    {
        ModifiersState { bits: 0 }
    }
}

/// A physical key: the scancode as the keyboard reports it, with the
/// extension prefix in the high byte, or the num-lock key, which shares its
/// scancode with pause.
#[derive(Clone, Copy, Debug, PartialEq, Eq, Structural)]
pub enum KeyCode {
    NumLock,
    Scancode(u32),
}

/// A key press or release as the keyboard translator reports it.
#[derive(Clone, Copy, Debug, PartialEq, Eq, Structural)]
pub struct KeyEvent {
    pub physical_key: KeyCode,
    pub state: ElementState,
    pub repeat: bool,
}

/// Light or dark appearance of a window.
#[derive(Clone, Copy, Debug, PartialEq, Eq, Structural)]
pub enum Theme {
    Light,
    Dark,
}

/// A size in physical pixels.
#[derive(Clone, Copy, Debug, PartialEq, Eq, Structural)]
pub struct PhysicalSize {
    pub width: u32,
    pub height: u32,
}

/// A position in physical pixels.
#[derive(Clone, Copy, Debug, PartialEq, Eq, Structural)]
pub struct PhysicalPosition {
    pub x: i32,
    pub y: i32,
}

/// A touch contact. The location is in hundredths of a physical pixel.
#[derive(Clone, Copy, Debug, PartialEq, Eq, Structural)]
pub struct Touch {
    pub device_id: DeviceId,
    pub phase: TouchPhase,
    pub location_x: i64,
    pub location_y: i64,
    pub force: Option<Force>,
    pub id: u64,
}

/// What happened to a window.
///
/// Wheel deltas are in native wheel units: one notch is 120.
#[derive(Clone, Copy, Debug, PartialEq, Eq, Structural)]
pub enum WindowEvent {
    Resized(PhysicalSize),
    Moved(PhysicalPosition),
    CloseRequested,
    Destroyed,
    Focused(bool),
    KeyboardInput { device_id: DeviceId, event: KeyEvent, is_synthetic: bool },
    ModifiersChanged(ModifiersState),
    CursorMoved { device_id: DeviceId, position: PhysicalPosition, modifiers: ModifiersState },
    CursorEntered { device_id: DeviceId },
    CursorLeft { device_id: DeviceId },
    MouseWheel { device_id: DeviceId, delta_x: i32, delta_y: i32, phase: TouchPhase, modifiers: ModifiersState },
    MouseInput { device_id: DeviceId, state: ElementState, button: MouseButton, modifiers: ModifiersState },
    Touch(Touch),
    /// The DPI changed; `new_inner_size` is the client size that the window
    /// is given, which the application may change before it is applied.
    ScaleFactorChanged { dpi: u32, new_inner_size: PhysicalSize },
    ThemeChanged(Theme),
}

/// Raw input from a device, independent of any window.
#[derive(Clone, Copy, Debug, PartialEq, Eq, Structural)]
pub enum DeviceEvent {
    Added,
    Removed,
    /// Relative motion on one axis (0 horizontal, 1 vertical).
    Motion { axis: u32, value: i32 },
    MouseMotion { delta_x: i32, delta_y: i32 },
    /// Wheel motion in native wheel units: one notch is 120.
    MouseWheel { delta_x: i32, delta_y: i32 },
    Button { button: u32, state: ElementState },
    Key { physical_key: KeyCode, state: ElementState },
}

/// An event of the loop, as the application callback receives it.
#[derive(Clone, Debug)]
pub enum Event<T> {
    NewEvents(StartCause),
    WindowEvent { window_id: WindowId, event: WindowEvent },
    DeviceEvent { device_id: DeviceId, event: DeviceEvent },
    UserEvent(T),
    GlobalShortcutEvent(u16),
    MainEventsCleared,
    RedrawRequested(WindowId),
    RedrawEventsCleared,
    LoopDestroyed,
}

} // verus!
