use vstd::prelude::*;

verus! {

/// Canvas width.
pub const WIDTH: i32 = 900;

/// Canvas height.
pub const HEIGHT: i32 = 700;

/// Intersection center, horizontal coordinate.
pub const CENTER_X: i32 = 450;

/// Intersection center, vertical coordinate.
pub const CENTER_Y: i32 = 350;

/// Side of the square bounding box of a vehicle and of a drawn light.
pub const CAR_SIZE: i32 = 50;

/// Fixed road geometry: `(center_x, center_y, width, height)`.
pub fn get_road_positions() -> (r: (i32, i32, i32, i32))
    ensures
        r == (CENTER_X, CENTER_Y, WIDTH, HEIGHT),
        r.0 == r.2 / 2,
        r.1 == r.3 / 2,
{
    let x: i32 = WIDTH / 2;
    let y: i32 = HEIGHT / 2;
    (x, y, WIDTH, HEIGHT)
}

/// An axis-aligned rectangle with its top-left corner at `(x, y)`.
#[derive(Debug, Clone, Copy, PartialEq, Eq)]
pub struct Rect {
    pub x: i32,
    pub y: i32,
    pub w: u32,
    pub h: u32,
}

/// Two rectangles intersect when both have positive area and their
/// interiors overlap on both axes; sharing an edge is not an intersection.
pub open spec fn rects_overlap(a: Rect, b: Rect) -> bool {
    &&& a.w > 0 && a.h > 0 && b.w > 0 && b.h > 0
    &&& a.x < b.x + b.w && b.x < a.x + a.w
    &&& a.y < b.y + b.h && b.y < a.y + a.h
}

/// Largest coordinate and size a rectangle keeps.
pub const RECT_MAX: i32 = 1_073_741_823;

/// Smallest coordinate a rectangle keeps.
pub const RECT_MIN: i32 = -1_073_741_824;

/// A size as a rectangle keeps it: zero becomes one, and sizes above
/// `RECT_MAX` become `RECT_MAX`.
pub open spec fn clamp_size(v: u32) -> u32 {
    if v == 0 {
        1
    } else if v > RECT_MAX as u32 {
        RECT_MAX as u32
    } else {
        v
    }
}

/// A coordinate as a rectangle keeps it: limited to `RECT_MIN..=RECT_MAX`.
pub open spec fn clamp_position(v: i32) -> i32 {
    if v > RECT_MAX {
        RECT_MAX
    } else if v < RECT_MIN {
        RECT_MIN
    } else {
        v
    }
}

/// The rectangle that `Rect::new(x, y, w, h)` builds.
pub open spec fn rect_new(x: i32, y: i32, w: u32, h: u32) -> Rect {
    Rect { x: clamp_position(x), y: clamp_position(y), w: clamp_size(w), h: clamp_size(h) }
}

impl Rect {
    /// A rectangle at `(x, y)` of size `w` by `h`, with the position and
    /// size clamped so that its far sides stay within `i32`.
    pub fn new(x: i32, y: i32, w: u32, h: u32) -> (r: Rect)
        ensures
            r == rect_new(x, y, w, h),
    {
        let cx = if x > RECT_MAX {
            RECT_MAX
        } else if x < RECT_MIN {
            RECT_MIN
        } else {
            x
        };
        let cy = if y > RECT_MAX {
            RECT_MAX
        } else if y < RECT_MIN {
            RECT_MIN
        } else {
            y
        };
        let cw = if w == 0 {
            1
        } else if w > RECT_MAX as u32 {
            RECT_MAX as u32
        } else {
            w
        };
        let ch = if h == 0 {
            1
        } else if h > RECT_MAX as u32 {
            RECT_MAX as u32
        } else {
            h
        };
        Rect { x: cx, y: cy, w: cw, h: ch }
    }

    pub fn has_intersection(&self, other: Rect) -> (r: bool)
        ensures
            r == rects_overlap(*self, other),
    {
        if self.w == 0 || self.h == 0 || other.w == 0 || other.h == 0 {
            return false;
        }
        let ax: i64 = self.x as i64;
        let ay: i64 = self.y as i64;
        let bx: i64 = other.x as i64;
        let by: i64 = other.y as i64;
        ax < bx + other.w as i64 && bx < ax + self.w as i64 && ay < by + other.h as i64 && by < ay
            + self.h as i64
    }
}

/// An RGB color.
#[derive(Debug, Clone, Copy, PartialEq, Eq)]
pub struct Color {
    pub r: u8,
    pub g: u8,
    pub b: u8,
}

impl Color {
    pub fn rgb(r: u8, g: u8, b: u8) -> (c: Color)
        ensures
            c == (Color { r, g, b }),
    {
        Color { r, g, b }
    }
}

} // verus!
