use vstd::prelude::*;

verus! {

/// Side of the square world, in world units.
pub const WORLD_SIZE: u32 = 100000;

/// Side of the minimap, as a percentage of the window width.
pub const MINIMAP_SCREEN_PERCENTAGE: u32 = 20;

/// Zoom-out factor of the zoom camera, in tenths: its box spans this many
/// tenths of the world's side across the window width.
pub const ZOOM_OUT_TENTHS: u32 = 3;

/// Near clipping plane of both orthographic cameras.
pub const NEAR_PLANE: u32 = 0;

/// Far clipping plane of both orthographic cameras.
pub const FAR_PLANE: u32 = 1500;

/// A non-negative rational number `num / den`, kept unreduced.
#[derive(Clone, Copy, Debug, PartialEq, Eq, Structural)]
pub struct Frac {
    pub num: u64,
    pub den: u64,
}

impl Frac {
    /// The fraction is well formed and equals the rational `n / d`.
    pub open spec fn denotes(self, n: int, d: int) -> bool {
        &&& self.den > 0
        &&& self.num * d == n * self.den
    }
}

/// A rectangle of the window in physical pixels: its top-left corner and size.
#[derive(Clone, Copy, Debug, PartialEq, Eq, Structural)]
pub struct ViewportRect {
    pub x: u32,
    pub y: u32,
    pub width: u32,
    pub height: u32,
}

impl ViewportRect {
    /// The rectangle lies within a window of `w` by `h` pixels.
    pub open spec fn fits_in(self, w: int, h: int) -> bool {
        &&& self.x + self.width <= w
        &&& self.y + self.height <= h
    }
}

/// An orthographic projection with a fixed box: the world extent shown in
/// the viewport, whatever the viewport's size.
#[derive(Clone, Copy, Debug, PartialEq, Eq, Structural)]
pub struct Projection {
    pub near: u32,
    pub far: u32,
    pub width: Frac,
    pub height: Frac,
}

/// World units per pixel of the zoom camera for a window `w` pixels wide.
pub open spec fn zoom_scale_of(w: u32) -> Frac {
    Frac { num: (ZOOM_OUT_TENTHS * WORLD_SIZE) as u64, den: (10 * w) as u64 }
}

/// Side of the minimap, in pixels, for a window `w` pixels wide.
pub open spec fn minimap_side(w: int) -> int {
    w * MINIMAP_SCREEN_PERCENTAGE / 100
}

/// Viewport and projection box of the zoom camera for a window `w` by `h`
/// pixels: the whole window, showing `w` by `h` pixels times the zoom scale.
pub open spec fn zoom_config_result(w: u32, h: u32) -> (ViewportRect, Projection) {
    let scale = zoom_scale_of(w);
    (
        ViewportRect { x: 0, y: 0, width: w, height: h },
        Projection {
            near: NEAR_PLANE,
            far: FAR_PLANE,
            width: Frac { num: (w * scale.num) as u64, den: scale.den },
            height: Frac { num: (h * scale.num) as u64, den: scale.den },
        },
    )
}

/// Viewport and projection box of the minimap camera for a window `w`
/// pixels wide: a square of side `minimap_side(w)` flush with the top-right
/// corner, showing the whole world.
pub open spec fn minimap_config_result(w: u32) -> (ViewportRect, Projection) {
    let side = minimap_side(w as int);
    let world = Frac { num: WORLD_SIZE as u64, den: 1 };
    (
        ViewportRect { x: (w - side) as u32, y: 0, width: side as u32, height: side as u32 },
        Projection { near: NEAR_PLANE, far: FAR_PLANE, width: world, height: world },
    )
}

/// The scale of the zoom camera: `WORLD_SIZE / w` times three tenths.
pub fn zoom_scale(w: u32) -> (r: Frac)
    ensures
        r == zoom_scale_of(w),
        w > 0 ==> r.denotes(WORLD_SIZE * ZOOM_OUT_TENTHS, w * 10),
{
    assert(ZOOM_OUT_TENTHS * WORLD_SIZE == 300000) by (nonlinear_arith)
        requires ZOOM_OUT_TENTHS == 3, WORLD_SIZE == 100000;
    let r = Frac { num: ZOOM_OUT_TENTHS as u64 * WORLD_SIZE as u64, den: 10 * w as u64 };
    assert(r.num * (w * 10) == (WORLD_SIZE * ZOOM_OUT_TENTHS) * r.den) by (nonlinear_arith)
        requires r.num == 300000, r.den == 10 * w, WORLD_SIZE * ZOOM_OUT_TENTHS == 300000;
    r
}

/// Viewport and projection of the zoom camera: the whole window, showing a
/// box of `w` by `h` pixels times the zoom scale.
pub fn zoom_config(w: u32, h: u32) -> (r: (ViewportRect, Projection))
    ensures
        r == zoom_config_result(w, h),
        r.0.fits_in(w as int, h as int),
        r.0.width == w && r.0.height == h,
        w > 0 ==> r.1.width.denotes(WORLD_SIZE * ZOOM_OUT_TENTHS, 10),
        w > 0 ==> r.1.height.denotes(h * WORLD_SIZE * ZOOM_OUT_TENTHS, w * 10),
{
    let scale = zoom_scale(w);
    let viewport = ViewportRect { x: 0, y: 0, width: w, height: h };
    assert(w * zoom_scale_of(w).num <= u64::MAX) by (nonlinear_arith)
        requires w <= u32::MAX, zoom_scale_of(w).num == 300000;
    assert(h * zoom_scale_of(w).num <= u64::MAX) by (nonlinear_arith)
        requires h <= u32::MAX, zoom_scale_of(w).num == 300000;
    let width = Frac { num: w as u64 * scale.num, den: scale.den };
    let height = Frac { num: h as u64 * scale.num, den: scale.den };
    assert(w > 0 ==> width.denotes(WORLD_SIZE * ZOOM_OUT_TENTHS, 10)) by (nonlinear_arith)
        requires width.num == w * 300000, width.den == 10 * w, WORLD_SIZE * ZOOM_OUT_TENTHS == 300000;
    assert(w > 0 ==> height.denotes(h * WORLD_SIZE * ZOOM_OUT_TENTHS, w * 10)) by (nonlinear_arith)
        requires height.num == h * 300000, height.den == 10 * w, WORLD_SIZE * ZOOM_OUT_TENTHS == 300000;
    (viewport, Projection { near: NEAR_PLANE, far: FAR_PLANE, width, height })
}

/// Viewport and projection of the minimap camera: a square in the top-right
/// corner whose side is a fixed percentage of the window width, showing the
/// whole world.
pub fn minimap_config(w: u32, _h: u32) -> (r: (ViewportRect, Projection))
    ensures
        r == minimap_config_result(w),
        r.0.width == minimap_side(w as int) && r.0.height == minimap_side(w as int),
        r.0.x == w - minimap_side(w as int) && r.0.y == 0,
        r.0.x + r.0.width == w,
        r.0.width * 100 <= w * MINIMAP_SCREEN_PERCENTAGE < (r.0.width + 1) * 100,
        r.1.width.denotes(WORLD_SIZE as int, 1),
        r.1.height.denotes(WORLD_SIZE as int, 1),
{
    assert(w * MINIMAP_SCREEN_PERCENTAGE <= u64::MAX && w * MINIMAP_SCREEN_PERCENTAGE / 100 <= w)
        by (nonlinear_arith)
        requires w <= u32::MAX, MINIMAP_SCREEN_PERCENTAGE == 20;
    let side = (w as u64 * MINIMAP_SCREEN_PERCENTAGE as u64 / 100) as u32;
    assert(side * 100 <= w * MINIMAP_SCREEN_PERCENTAGE < (side + 1) * 100) by (nonlinear_arith)
        requires side == w * MINIMAP_SCREEN_PERCENTAGE / 100, w >= 0, MINIMAP_SCREEN_PERCENTAGE == 20;
    let viewport = ViewportRect { x: w - side, y: 0, width: side, height: side };
    let world = Frac { num: WORLD_SIZE as u64, den: 1 };
    (viewport, Projection { near: NEAR_PLANE, far: FAR_PLANE, width: world, height: world })
}

} // verus!
