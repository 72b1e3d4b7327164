//! Colours, rectangles and the centring helper that page builders use.

use vstd::prelude::*;

verus! {

/// Logical canvas size that every page is laid out against.
pub const WINDOW_DEFAULT_SCALE: (u32, u32) = (1920, 1080);

/// An RGBA colour.
#[derive(Clone, Copy, Debug, PartialEq, Eq, Structural)]
pub struct Color {
    pub r: u8,
    pub g: u8,
    pub b: u8,
    pub a: u8,
}

impl Color {
    /// An opaque colour.
    #[allow(non_snake_case)]
    pub fn RGB(r: u8, g: u8, b: u8) -> (c: Color)
        ensures
            c == (Color { r, g, b, a: 255 }),
    {
        Color { r, g, b, a: 255 }
    }

    /// A colour with an explicit alpha channel.
    #[allow(non_snake_case)]
    pub fn RGBA(r: u8, g: u8, b: u8, a: u8) -> (c: Color)
        ensures
            c == (Color { r, g, b, a }),
    {
        Color { r, g, b, a }
    }

    /// What `darkened` returns: each colour channel lowered by `amount`,
    /// stopping at zero; the result is opaque.
    pub open spec fn darkened_spec(self, amount: (u8, u8, u8)) -> Color {
        Color {
            r: if self.r >= amount.0 { (self.r - amount.0) as u8 } else { 0 },
            g: if self.g >= amount.1 { (self.g - amount.1) as u8 } else { 0 },
            b: if self.b >= amount.2 { (self.b - amount.2) as u8 } else { 0 },
            a: 255,
        }
    }

    /// The colour a button is drawn in while it is selected.
    pub fn darkened(&self, amount: (u8, u8, u8)) -> (c: Color)
        ensures
            c == self.darkened_spec(amount),
    {
        Color {
            r: if self.r >= amount.0 { self.r - amount.0 } else { 0 },
            g: if self.g >= amount.1 { self.g - amount.1 } else { 0 },
            b: if self.b >= amount.2 { self.b - amount.2 } else { 0 },
            a: 255,
        }
    }
}

/// Largest coordinate or extent a rectangle keeps: half of `i32::MAX`, so
/// that `x + w` always fits in an `i32`.
pub const MAX_EXTENT: i32 = 0x3fff_ffff;

/// Smallest coordinate a rectangle keeps: half of `i32::MIN`.
pub const MIN_POSITION: i32 = -0x4000_0000;

/// A position brought into `[MIN_POSITION, MAX_EXTENT]`.
pub open spec fn clamp_position(v: int) -> int {
    if v > MAX_EXTENT {
        MAX_EXTENT as int
    } else if v < MIN_POSITION {
        MIN_POSITION as int
    } else {
        v
    }
}

/// A size brought into `[1, MAX_EXTENT]`: rectangles are never empty.
pub open spec fn clamp_size(v: int) -> int {
    if v == 0 {
        1
    } else if v > MAX_EXTENT {
        MAX_EXTENT as int
    } else {
        v
    }
}

/// An axis-aligned rectangle in logical canvas coordinates.
#[derive(Clone, Copy, Debug, PartialEq, Eq, Structural)]
pub struct Rect {
    pub x: i32,
    pub y: i32,
    pub w: i32,
    pub h: i32,
}

impl Rect {
    /// True of every rectangle that `new` builds.
    pub open spec fn is_clamped(self) -> bool {
        &&& MIN_POSITION <= self.x <= MAX_EXTENT
        &&& MIN_POSITION <= self.y <= MAX_EXTENT
        &&& 1 <= self.w <= MAX_EXTENT
        &&& 1 <= self.h <= MAX_EXTENT
    }

    /// The rectangle `new` builds from the given values.
    pub open spec fn new_spec(x: i32, y: i32, width: u32, height: u32) -> Rect {
        Rect {
            x: clamp_position(x as int) as i32,
            y: clamp_position(y as int) as i32,
            w: clamp_size(width as int) as i32,
            h: clamp_size(height as int) as i32,
        }
    }

    /// Builds a rectangle, clamping position and size so that its right and
    /// bottom edges cannot overflow; a zero width or height becomes 1.
    pub fn new(x: i32, y: i32, width: u32, height: u32) -> (r: Rect)
        ensures
            r == Rect::new_spec(x, y, width, height),
            r.is_clamped(),
    {
        let cx: i32 = if x > MAX_EXTENT {
            MAX_EXTENT
        } else if x < MIN_POSITION {
            MIN_POSITION
        } else {
            x
        };
        let cy: i32 = if y > MAX_EXTENT {
            MAX_EXTENT
        } else if y < MIN_POSITION {
            MIN_POSITION
        } else {
            y
        };
        let cw: i32 = if width == 0 {
            1
        } else if width > MAX_EXTENT as u32 {
            MAX_EXTENT
        } else {
            width as i32
        };
        let ch: i32 = if height == 0 {
            1
        } else if height > MAX_EXTENT as u32 {
            MAX_EXTENT
        } else {
            height as i32
        };
        Rect { x: cx, y: cy, w: cw, h: ch }
    }

    /// The left edge.
    pub fn x(&self) -> (v: i32)
        ensures
            v == self.x,
    {
        self.x
    }

    /// The top edge.
    pub fn y(&self) -> (v: i32)
        ensures
            v == self.y,
    {
        self.y
    }

    /// The width; a negative stored width reads as zero.
    pub fn width(&self) -> (v: u32)
        ensures
            v == (if self.w >= 0 { self.w as int } else { 0 }),
    {
        if self.w >= 0 { self.w as u32 } else { 0 }
    }

    /// The height; a negative stored height reads as zero.
    pub fn height(&self) -> (v: u32)
        ensures
            v == (if self.h >= 0 { self.h as int } else { 0 }),
    {
        if self.h >= 0 { self.h as u32 } else { 0 }
    }

    /// Whether the point lies on the rectangle, all four edges included.
    pub open spec fn covers_spec(self, px: i32, py: i32) -> bool {
        &&& self.x <= px <= self.x + self.w
        &&& self.y <= py <= self.y + self.h
    }

    /// Whether the point lies on the rectangle, all four edges included.
    pub fn covers(&self, px: i32, py: i32) -> (inside: bool)
        ensures
            inside == self.covers_spec(px, py),
    {
        let right: i64 = self.x as i64 + self.w as i64;
        let bottom: i64 = self.y as i64 + self.h as i64;
        px >= self.x && px as i64 <= right && py >= self.y && py as i64 <= bottom
    }
    /// Whether two rectangles share any area. Rectangles that only touch
    /// at an edge share none, and a rectangle without area shares none with
    /// anything.
    pub open spec fn has_intersection_spec(self, other: Rect) -> bool {
        &&& self.w > 0 && self.h > 0 && other.w > 0 && other.h > 0
        &&& self.x < other.x + other.w
        &&& other.x < self.x + self.w
        &&& self.y < other.y + other.h
        &&& other.y < self.y + self.h
    }

    /// Whether two rectangles share any area.
    pub fn has_intersection(&self, other: Rect) -> (shared: bool)
        ensures
            shared == self.has_intersection_spec(other),
    {
        self.w > 0 && self.h > 0 && other.w > 0 && other.h > 0 && (self.x as i64) < other.x as i64
            + other.w as i64 && (other.x as i64) < self.x as i64 + self.w as i64 && (self.y as i64)
            < other.y as i64 + other.h as i64 && (other.y as i64) < self.y as i64 + self.h as i64
    }
}

/// Position and size of a rectangle centred on the window.
#[derive(Clone, Copy, Debug, PartialEq, Eq, Structural)]
pub struct RectCenterPos {
    pub pos_y: i32,
    pub pos_x: i32,
    pub w: u32,
    pub h: u32,
}

/// Half of `v`, rounded toward zero.
pub open spec fn half_toward_zero(v: int) -> int {
    if v >= 0 {
        v / 2
    } else {
        -((-v) / 2)
    }
}

/// A `u32` read as a two's-complement `i32`.
pub open spec fn reinterpret_as_i32(v: u32) -> int {
    if v <= i32::MAX {
        v as int
    } else {
        v - 0x1_0000_0000
    }
}

/// An `i32` read as an unsigned 32-bit value.
pub open spec fn reinterpret_as_u32(v: i32) -> int {
    if v >= 0 {
        v as int
    } else {
        v + 0x1_0000_0000
    }
}

fn to_signed(v: u32) -> (r: i32)
    ensures
        r == reinterpret_as_i32(v),
{
    if v <= i32::MAX as u32 {
        v as i32
    } else {
        let low: u32 = v - 0x8000_0000u32;
        low as i32 + i32::MIN
    }
}

fn to_unsigned(v: i32) -> (r: u32)
    ensures
        r == reinterpret_as_u32(v),
{
    if v >= 0 {
        v as u32
    } else {
        let low: i32 = v - i32::MIN;
        low as u32 + 0x8000_0000u32
    }
}

/// Where a rectangle of `rect_size` sits when centred in a window of
/// `window_pos`: each coordinate is half the window extent minus half the
/// rectangle extent, both halves rounded toward zero. Values that do not fit
/// the other signedness are reinterpreted bit for bit.
pub fn get_center(rect_size: (i32, i32), window_pos: (u32, u32)) -> (r: RectCenterPos)
    ensures
        r.pos_x == half_toward_zero(reinterpret_as_i32(window_pos.0)) - half_toward_zero(
            rect_size.0 as int,
        ),
        r.pos_y == half_toward_zero(reinterpret_as_i32(window_pos.1)) - half_toward_zero(
            rect_size.1 as int,
        ),
        r.w == reinterpret_as_u32(rect_size.0),
        r.h == reinterpret_as_u32(rect_size.1),
{
    let window_w: i32 = to_signed(window_pos.0);
    let window_h: i32 = to_signed(window_pos.1);
    RectCenterPos {
        pos_x: (window_w / 2) - (rect_size.0 / 2),
        pos_y: (window_h / 2) - (rect_size.1 / 2),
        w: to_unsigned(rect_size.0),
        h: to_unsigned(rect_size.1),
    }
}

} // verus!
