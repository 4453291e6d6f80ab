//! Extension traits of the event loop and the window builder on Unix.

use vstd::prelude::*;

verus! {

/// Event loops that can be created on a thread other than the main one.
pub trait EventLoopExtUnix {
    /// Creates an event loop on the calling thread, whichever it is.
    fn new_any_thread() -> Self where Self: Sized;
}

/// Window attributes that only the Unix backend reads.
#[derive(Clone, Copy, Debug, PartialEq, Eq, Structural)]
pub struct PlatformSpecificWindowBuilderAttributes {
    /// Whether the window stays out of the taskbar.
    pub skip_taskbar: bool,
}

/// The attributes a window is created with, as far as this crate reads them.
#[derive(Clone, Copy, Debug, PartialEq, Eq, Structural)]
pub struct WindowBuilder {
    pub platform_specific: PlatformSpecificWindowBuilderAttributes,
}

impl WindowBuilder {
    /// A builder with the default attributes: the window shows in the taskbar.
    pub fn new() -> (r: WindowBuilder)
        ensures
            !r.platform_specific.skip_taskbar,
    {
        WindowBuilder { platform_specific: PlatformSpecificWindowBuilderAttributes { skip_taskbar: false } }
    }
}

/// Unix attributes of a window builder.
pub trait WindowBuilderExtUnix {
    /// Whether the window stays out of the taskbar.
    fn with_skip_taskbar(self, skip: bool) -> (r: WindowBuilder)
        ensures
            r.platform_specific.skip_taskbar == skip,
    ;
}

impl WindowBuilderExtUnix for WindowBuilder {
    fn with_skip_taskbar(self, skip: bool) -> (r: WindowBuilder) {
        let mut b = self;
        b.platform_specific.skip_taskbar = skip;
        b
    }
}

} // verus!
