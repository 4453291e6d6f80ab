//! Geometry of a DPI change: the new client size that keeps the window's
//! logical size, the outer rectangle that keeps the cursor's place in the
//! title bar while the window is dragged, and the bounded nudge that moves
//! the rectangle onto the monitor that reported the new DPI.
//!
//! Scale factors are DPI values over 96. Rounding is to the nearest pixel,
//! halves away from zero, and a result that does not fit its type
//! saturates.

use vstd::prelude::*;

use crate::event::{PhysicalSize, WindowEvent};
use crate::router::WindowState;

verus! {

/// The DPI at which a logical pixel is a physical pixel.
pub const BASE_DPI: u32 = 96;

/// A rectangle in screen pixels; `right` and `bottom` lie past its last pixel.
#[derive(Clone, Copy, Debug, PartialEq, Eq, Structural)]
pub struct Rect {
    pub left: i32,
    pub top: i32,
    pub right: i32,
    pub bottom: i32,
}

/// `x` saturated into the range of `i32`.
pub open spec fn clamp_i32(x: int) -> i32 {
    if x < i32::MIN {
        i32::MIN
    } else if x > i32::MAX {
        i32::MAX
    } else {
        x as i32
    }
}

/// `x` saturated into the range of `u32`.
pub open spec fn clamp_u32(x: int) -> u32 {
    if x < 0 {
        0
    } else if x > u32::MAX {
        u32::MAX
    } else {
        x as u32
    }
}

/// `v` pixels at `old_dpi` measured at `new_dpi`: `v * new_dpi / old_dpi`,
/// rounded. At a DPI of zero the scale is infinite: a length of zero
/// stays zero and any other becomes as large as it can be.
pub open spec fn rescale(v: u32, old_dpi: u32, new_dpi: u32) -> u32 {
    if old_dpi == 0 {
        if v > 0 && new_dpi > 0 {
            u32::MAX
        } else {
            0
        }
    } else {
        clamp_u32((2 * v * new_dpi + old_dpi) / (2 * old_dpi as int))
    }
}

/// The quotient `num / den` rounded toward zero; zero for a zero divisor.
pub open spec fn div_trunc(num: int, den: int) -> int {
    if den == 0 {
        0
    } else if (num >= 0) == (den > 0) {
        abs(num) / abs(den)
    } else {
        -(abs(num) / abs(den))
    }
}

pub open spec fn abs(x: int) -> int {
    if x < 0 {
        -x
    } else {
        x
    }
}

/// Rescales `v` pixels from `old_dpi` to `new_dpi`.
pub fn rescale_pixels(v: u32, old_dpi: u32, new_dpi: u32) -> (r: u32)
    ensures
        r == rescale(v, old_dpi, new_dpi),
{
    if old_dpi == 0 {
        if v > 0 && new_dpi > 0 {
            u32::MAX
        } else {
            0
        }
    } else {
        assert((v as u128) * (new_dpi as u128) <= 0xFFFF_FFFF * 0xFFFF_FFFF) by (nonlinear_arith)
            requires
                v <= 0xFFFF_FFFFu32,
                new_dpi <= 0xFFFF_FFFFu32,
        ;
        let num: u128 = 2 * ((v as u128) * (new_dpi as u128)) + old_dpi as u128;
        assert(2 * ((v as int) * (new_dpi as int)) == 2 * v * new_dpi) by (nonlinear_arith);
        let q: u128 = num / (2 * old_dpi as u128);
        if q > u32::MAX as u128 {
            u32::MAX
        } else {
            q as u32
        }
    }
}

/// The client size a window gets when its DPI goes from `old_dpi` to
/// `new_dpi`: the same logical size, unless the window may not be resized
/// (it is fullscreen or maximized, and its size already fits the new DPI).
pub fn scaled_inner_size(old_size: PhysicalSize, old_dpi: u32, new_dpi: u32, allow_resize: bool) -> (r: PhysicalSize)
    ensures
        allow_resize ==> r == (PhysicalSize {
            width: rescale(old_size.width, old_dpi, new_dpi),
            height: rescale(old_size.height, old_dpi, new_dpi),
        }),
        !allow_resize ==> r == old_size,
{
    if allow_resize {
        PhysicalSize {
            width: rescale_pixels(old_size.width, old_dpi, new_dpi),
            height: rescale_pixels(old_size.height, old_dpi, new_dpi),
        }
    } else {
        old_size
    }
}

/// What a DPI change is, once the window took in the new DPI.
#[derive(Clone, Copy, Debug, PartialEq, Eq, Structural)]
pub struct DpiChange {
    pub old_dpi: u32,
    pub new_dpi: u32,
    /// Whether the client size follows the new DPI.
    pub allow_resize: bool,
}

impl WindowState {
    /// The window's DPI becomes `new_dpi`. Gives back the change, or `None`
    /// if the DPI stays as it was, in which case the message needs no more
    /// work. A fullscreen or maximized window keeps its size.
    pub fn dpi_changed(&mut self, new_dpi: u32, maximized: bool) -> (r: Option<DpiChange>)
        ensures
            *final(self) == (WindowState { dpi: new_dpi, ..*old(self) }),
            old(self).dpi == new_dpi ==> r is None,
            old(self).dpi != new_dpi ==> r == Some(DpiChange {
                old_dpi: old(self).dpi,
                new_dpi,
                allow_resize: !old(self).fullscreen && !maximized,
            }),
    {
        let old_dpi = self.dpi;
        self.dpi = new_dpi;
        if old_dpi == new_dpi {
            None
        } else {
            Some(DpiChange { old_dpi, new_dpi, allow_resize: !self.fullscreen && !maximized })
        }
    }

    /// The smallest and largest client sizes in physical pixels at the
    /// window's DPI, where the window has them.
    pub fn min_max_track_sizes(&self) -> (r: (Option<PhysicalSize>, Option<PhysicalSize>))
        ensures
            r.0 == match self.min_size {
                Some(s) => Some(
                    PhysicalSize { width: rescale(s.width, BASE_DPI, self.dpi), height: rescale(s.height, BASE_DPI, self.dpi) },
                ),
                None => None,
            },
            r.1 == match self.max_size {
                Some(s) => Some(
                    PhysicalSize { width: rescale(s.width, BASE_DPI, self.dpi), height: rescale(s.height, BASE_DPI, self.dpi) },
                ),
                None => None,
            },
    {
        let min = match self.min_size {
            Some(s) => Some(scaled_inner_size(s, BASE_DPI, self.dpi, true)),
            None => None,
        };
        let max = match self.max_size {
            Some(s) => Some(scaled_inner_size(s, BASE_DPI, self.dpi, true)),
            None => None,
        };
        (min, max)
    }
}

/// The event that tells the application of a DPI change, with the client
/// size it is given.
pub fn scale_factor_changed(change: DpiChange, new_inner_size: PhysicalSize) -> (r: WindowEvent)
    ensures
        r == (WindowEvent::ScaleFactorChanged { dpi: change.new_dpi, new_inner_size }),
{
    WindowEvent::ScaleFactorChanged { dpi: change.new_dpi, new_inner_size }
}

fn clamp_to_i32(x: i128) -> (r: i32)
    ensures
        r == clamp_i32(x as int),
{
    if x < i32::MIN as i128 {
        i32::MIN
    } else if x > i32::MAX as i128 {
        i32::MAX
    } else {
        x as i32
    }
}

/// The client rectangle of the new size placed where the suggested outer
/// rectangle puts the client area: its upper-left corner is the suggested
/// one moved in by the frame margins, which are the distances from the
/// suggested rectangle to the same rectangle adjusted for the frame.
pub open spec fn client_rect(suggested: Rect, adjusted: Rect, size: PhysicalSize) -> Rect {
    let x = clamp_i32(suggested.left + (suggested.left - adjusted.left));
    let y = clamp_i32(suggested.top + (suggested.top - adjusted.top));
    Rect { left: x, top: y, right: clamp_i32(x + size.width), bottom: clamp_i32(y + size.height) }
}

/// Places the new client size at the suggested position; see [`client_rect`].
pub fn conservative_client_rect(suggested: Rect, adjusted: Rect, size: PhysicalSize) -> (r: Rect)
    ensures
        r == client_rect(suggested, adjusted, size),
{
    let x = clamp_to_i32(2 * (suggested.left as i128) - adjusted.left as i128);
    let y = clamp_to_i32(2 * (suggested.top as i128) - adjusted.top as i128);
    Rect {
        left: x,
        top: y,
        right: clamp_to_i32(x as i128 + size.width as i128),
        bottom: clamp_to_i32(y as i128 + size.height as i128),
    }
}

/// The outer rectangle moved sideways so that the cursor keeps its
/// relative horizontal place: the cursor at `cursor_x` lay at the fraction
/// `(cursor_x - left) / width` of the suggested rectangle, and lies at the
/// same fraction of the new one, rounded toward zero. A suggested
/// rectangle of no width gives the fraction zero.
pub open spec fn dragged_rect(rect: Rect, suggested: Rect, cursor_x: i32) -> Rect {
    let offset = div_trunc(
        (cursor_x - suggested.left) * (rect.right - rect.left),
        suggested.right - suggested.left,
    );
    let bias = cursor_x - offset - rect.left;
    Rect { left: clamp_i32(rect.left + bias), right: clamp_i32(rect.right + bias), ..rect }
}

/// Moves the outer rectangle of a dragged window; see [`dragged_rect`].
pub fn keep_cursor_in_title(rect: Rect, suggested: Rect, cursor_x: i32) -> (r: Rect)
    ensures
        r == dragged_rect(rect, suggested, cursor_x),
{
    let a: i128 = cursor_x as i128 - suggested.left as i128;
    let b: i128 = rect.right as i128 - rect.left as i128;
    assert(-0x4_0000_0000_0000_0000 <= a * b <= 0x4_0000_0000_0000_0000) by (nonlinear_arith)
        requires
            -0x2_0000_0000 <= a <= 0x2_0000_0000,
            -0x2_0000_0000 <= b <= 0x2_0000_0000,
    ;
    let num: i128 = a * b;
    let den: i128 = suggested.right as i128 - suggested.left as i128;
    let offset: i128 = if den == 0 {
        0
    } else {
        let an: i128 = if num < 0 { -num } else { num };
        let ad: i128 = if den < 0 { -den } else { den };
        if (num >= 0) == (den > 0) {
            an / ad
        } else {
            -(an / ad)
        }
    };
    let bias: i128 = cursor_x as i128 - offset - rect.left as i128;
    Rect {
        left: clamp_to_i32(rect.left as i128 + bias),
        right: clamp_to_i32(rect.right as i128 + bias),
        ..rect
    }
}

/// The direction in which a rectangle moves from the monitor `wrong` onto
/// the monitor `target`, from the edges they share; zero on an axis where
/// they share none.
pub open spec fn nudge_delta(wrong: Rect, target: Rect) -> (int, int) {
    (
        if wrong.left == target.right {
            -1
        } else if wrong.right == target.left {
            1
        } else {
            0
        },
        if wrong.bottom == target.top {
            1
        } else if wrong.top == target.bottom {
            -1
        } else {
            0
        },
    )
}

/// How many steps the nudge takes at most: the width plus the height of
/// the target monitor.
pub open spec fn nudge_bound(target: Rect) -> int {
    (target.right - target.left) + (target.bottom - target.top)
}

/// `rect` moved `k` steps in the direction `d`.
pub open spec fn shifted(rect: Rect, d: (int, int), k: int) -> Rect {
    Rect {
        left: clamp_i32(rect.left + d.0 * k),
        top: clamp_i32(rect.top + d.1 * k),
        right: clamp_i32(rect.right + d.0 * k),
        bottom: clamp_i32(rect.bottom + d.1 * k),
    }
}

fn shift_rect(rect: Rect, dx: i64, dy: i64, k: i64) -> (r: Rect)
    requires
        -1 <= dx <= 1,
        -1 <= dy <= 1,
        0 <= k <= 0x4_0000_0000,
    ensures
        r == shifted(rect, (dx as int, dy as int), k as int),
{
    assert(-0x4_0000_0000 <= dx * k <= 0x4_0000_0000) by (nonlinear_arith)
        requires
            -1 <= dx <= 1,
            0 <= k <= 0x4_0000_0000,
    ;
    assert(-0x4_0000_0000 <= dy * k <= 0x4_0000_0000) by (nonlinear_arith)
        requires
            -1 <= dy <= 1,
            0 <= k <= 0x4_0000_0000,
    ;
    let ox: i128 = (dx * k) as i128;
    let oy: i128 = (dy * k) as i128;
    Rect {
        left: clamp_to_i32(rect.left as i128 + ox),
        top: clamp_to_i32(rect.top as i128 + oy),
        right: clamp_to_i32(rect.right as i128 + ox),
        bottom: clamp_to_i32(rect.bottom as i128 + oy),
    }
}

/// Nudges a rectangle that lies on the monitor `wrong` onto the monitor
/// `target`, one pixel at a time, at most [`nudge_bound`] steps: it stops
/// at the first step where `on_target` says the rectangle is on the target
/// monitor, and after the last step otherwise. Gives back the rectangle and
/// the number of steps taken.
pub fn nudge_onto_monitor<F: Fn(Rect) -> bool>(rect: Rect, wrong: Rect, target: Rect, on_target: F) -> (r: (Rect, u64))
    requires
        forall|x: Rect| on_target.requires((x,)),
    ensures
        r.0 == shifted(rect, nudge_delta(wrong, target), r.1 as int),
        r.1 <= if nudge_bound(target) > 0 { nudge_bound(target) } else { 0 },
        forall|j: int|
            1 <= j < r.1 ==> on_target.ensures((shifted(rect, nudge_delta(wrong, target), j),), false),
        r.1 < nudge_bound(target) ==> on_target.ensures((r.0,), true),
{
    let dx: i64 = if wrong.left == target.right {
        -1
    } else if wrong.right == target.left {
        1
    } else {
        0
    };
    let dy: i64 = if wrong.bottom == target.top {
        1
    } else if wrong.top == target.bottom {
        -1
    } else {
        0
    };
    let ghost d = nudge_delta(wrong, target);
    let bound: i64 = (target.right as i64 - target.left as i64) + (target.bottom as i64 - target.top as i64);
    let mut k: i64 = 0;
    let mut cur = rect;
    assert(cur == shifted(rect, d, 0));
    while k < bound
        invariant
            d == (dx as int, dy as int),
            d == nudge_delta(wrong, target),
            -1 <= dx <= 1,
            -1 <= dy <= 1,
            bound == nudge_bound(target),
            bound <= 0x4_0000_0000,
            0 <= k,
            k <= bound || k == 0,
            cur == shifted(rect, d, k as int),
            forall|x: Rect| on_target.requires((x,)),
            forall|j: int| 1 <= j <= k ==> on_target.ensures((shifted(rect, d, j),), false),
        decreases bound - k,
    {
        k = k + 1;
        cur = shift_rect(rect, dx, dy, k);
        if on_target(cur) {
            return (cur, k as u64);
        }
    }
    (cur, k as u64)
}

} // verus!
