//! Viewport reconciliation: translating the dock layout's reserved
//! rectangle into a device-pixel camera viewport, or clearing the
//! viewport when the result would be invalid; and the input-routing
//! predicate that tells panel chrome apart from the live scene.

use vstd::prelude::*;

use crate::state::{GameViewportRect, UiRect};

verus! {

/// Windows smaller than this on either axis count as minimized and get
/// no viewport at all.
pub const MIN_WINDOW_SIZE: u32 = 16;

/// A camera viewport in device pixels.
#[derive(Clone, Copy, Debug, PartialEq, Eq, Structural)]
pub struct CameraViewport {
    pub x: u32,
    pub y: u32,
    pub width: u32,
    pub height: u32,
}

/// A UI-space length scaled to device pixels: negative lengths collapse
/// to zero (as the hardware cast does), and the result saturates at the
/// pixel type's maximum.
pub open spec fn scaled_px(v: int, scale_permille: int) -> int {
    if v <= 0 {
        0
    } else {
        let s = v * scale_permille / 1000;
        if s > u32::MAX {
            u32::MAX as int
        } else {
            s
        }
    }
}

/// Scale a UI-space coordinate to device pixels.
fn scale_to_px(v: i128, scale_permille: u32) -> (r: u32)
    requires
        -0x1_0000_0000_0000_0000_0000 <= v <= 0x1_0000_0000_0000_0000_0000,
    ensures
        r == scaled_px(v as int, scale_permille as int),
{
    if v <= 0 {
        0
    } else {
        proof {
            assert(0 <= v * (scale_permille as i128) <= 0x1_0000_0000_0000_0000_0000
                * 0x1_0000_0000) by (nonlinear_arith)
                requires
                    0 < v <= 0x1_0000_0000_0000_0000_0000,
                    0 <= (scale_permille as i128) < 0x1_0000_0000,
            ;
        }
        let p: i128 = v * (scale_permille as i128) / 1000;
        if p > u32::MAX as i128 {
            u32::MAX
        } else {
            p as u32
        }
    }
}

/// The target viewport origin on one axis.
pub open spec fn target_origin(enabled: bool, rect_min: int, scale_permille: int) -> int {
    if enabled {
        scaled_px(rect_min, scale_permille)
    } else {
        0
    }
}

/// The target viewport extent on one axis.
pub open spec fn target_size(
    enabled: bool,
    rect_min: int,
    rect_max: int,
    scale_permille: int,
    window: int,
) -> int {
    if enabled {
        scaled_px(rect_max - rect_min, scale_permille)
    } else {
        window
    }
}

/// Whether the computed target rectangle may be applied to the camera:
/// the window is not minimized, the far corner stays inside the
/// window, and the extent is positive on both axes.
pub open spec fn viewport_accepted(
    enabled: bool,
    rect: UiRect,
    scale_permille: int,
    window_w: int,
    window_h: int,
) -> bool {
    let ox = target_origin(enabled, rect.min_x as int, scale_permille);
    let oy = target_origin(enabled, rect.min_y as int, scale_permille);
    let sx = target_size(enabled, rect.min_x as int, rect.max_x as int, scale_permille, window_w);
    let sy = target_size(enabled, rect.min_y as int, rect.max_y as int, scale_permille, window_h);
    &&& ox + sx <= window_w
    &&& oy + sy <= window_h
    &&& window_w >= MIN_WINDOW_SIZE
    &&& window_h >= MIN_WINDOW_SIZE
    &&& sx > 0
    &&& sy > 0
}

/// Compute the camera viewport for this frame, or `None` when it must
/// be cleared.
///
/// With the panels visible the target is the layout's rectangle scaled
/// by `scale_permille` (the window scale factor times the UI scale
/// factor, in permille); with the panels hidden it is the full window.
/// The target is applied only when the window is at least
/// [`MIN_WINDOW_SIZE`] on both axes, the far corner does not exceed
/// the window, and both extents are strictly positive; otherwise the
/// viewport is cleared rather than clamped.
pub fn compute_camera_viewport(
    enabled: bool,
    rect: &UiRect,
    scale_permille: u32,
    window_w: u32,
    window_h: u32,
) -> (r: Option<CameraViewport>)
    ensures
        r is Some <==> viewport_accepted(
            enabled,
            *rect,
            scale_permille as int,
            window_w as int,
            window_h as int,
        ),
        r matches Some(v) ==> {
            &&& v.x == target_origin(enabled, rect.min_x as int, scale_permille as int)
            &&& v.y == target_origin(enabled, rect.min_y as int, scale_permille as int)
            &&& v.width == target_size(
                enabled,
                rect.min_x as int,
                rect.max_x as int,
                scale_permille as int,
                window_w as int,
            )
            &&& v.height == target_size(
                enabled,
                rect.min_y as int,
                rect.max_y as int,
                scale_permille as int,
                window_h as int,
            )
        },
{
    let (ox, oy, sx, sy): (u32, u32, u32, u32) = if enabled {
        let ox = scale_to_px(rect.min_x as i128, scale_permille);
        let oy = scale_to_px(rect.min_y as i128, scale_permille);
        let sx = scale_to_px(rect.max_x as i128 - rect.min_x as i128, scale_permille);
        let sy = scale_to_px(rect.max_y as i128 - rect.min_y as i128, scale_permille);
        (ox, oy, sx, sy)
    } else {
        (0, 0, window_w, window_h)
    };
    let corner_x: u64 = ox as u64 + sx as u64;
    let corner_y: u64 = oy as u64 + sy as u64;
    if corner_x <= window_w as u64 && corner_y <= window_h as u64 && window_w >= MIN_WINDOW_SIZE
        && window_h >= MIN_WINDOW_SIZE && sx > 0 && sy > 0 {
        Some(CameraViewport { x: ox, y: oy, width: sx, height: sy })
    } else {
        None
    }
}

/// With the panels hidden, the computed target ignores the layout
/// rectangle entirely: any two rectangles yield the same full-window
/// target.
pub proof fn lemma_disabled_target_ignores_layout(
    r1: UiRect,
    r2: UiRect,
    scale_permille: int,
    window_w: int,
    window_h: int,
)
    ensures
        target_origin(false, r1.min_x as int, scale_permille) == target_origin(
            false,
            r2.min_x as int,
            scale_permille,
        ),
        target_size(false, r1.min_x as int, r1.max_x as int, scale_permille, window_w)
            == target_size(false, r2.min_x as int, r2.max_x as int, scale_permille, window_w),
        viewport_accepted(false, r1, scale_permille, window_w, window_h) == viewport_accepted(
            false,
            r2,
            scale_permille,
            window_w,
            window_h,
        ),
{
}

/// Whether the pointer currently sits over panel chrome rather than
/// the live scene: false when the panels are hidden or the cursor lies
/// inside the mirrored viewport rectangle, true otherwise (including
/// when there is no cursor position).
pub open spec fn spec_pointer_over_area(
    viewport_rect: GameViewportRect,
    cursor: Option<(i64, i64)>,
    enabled: bool,
) -> bool {
    if !enabled {
        false
    } else {
        match cursor {
            Some((x, y)) => !viewport_rect.contains_point(x as int, y as int),
            None => true,
        }
    }
}

/// Run-gate for host input systems: true when the pointer is over
/// panel chrome, so that clicks there do not reach the live scene.
pub fn egui_pointer_over_area(
    viewport_rect: &GameViewportRect,
    cursor: Option<(i64, i64)>,
    enabled: bool,
) -> (r: bool)
    ensures
        r == spec_pointer_over_area(*viewport_rect, cursor, enabled),
{
    if !enabled {
        return false;
    }
    match cursor {
        Some((x, y)) => !viewport_rect.contains(x, y),
        None => true,
    }
}

} // verus!
