//! Window geometry in integer pixels.

use vstd::prelude::*;

verus! {

/// A rectangle by its edges, as the window manager reports it.
pub struct Rect {
    pub left: i32,
    pub top: i32,
    pub right: i32,
    pub bottom: i32,
}

/// An unsigned pixel size, as a render target takes it.
pub struct PixelSize {
    pub width: u32,
    pub height: u32,
}

/// `a / b` rounded toward zero, as Rust's integer division rounds.
pub open spec fn div_toward_zero(a: int, b: int) -> int {
    if a >= 0 {
        a / b
    } else {
        -((-a) / b)
    }
}

/// `v` reduced to 32 bits and read as unsigned, as `as u32` reads an `i32`.
pub open spec fn wrap_u32(v: int) -> int {
    if v >= 0 {
        v
    } else {
        v + 0x1_0000_0000
    }
}

/// Whether `v` fits an `i32`.
pub open spec fn fits_i32(v: int) -> bool {
    i32::MIN <= v <= i32::MAX
}

impl Rect {
    /// The extent from the left to the right edge.
    pub fn width(&self) -> (r: i32)
        requires
            fits_i32(self.right - self.left),
        ensures
            r == self.right - self.left,
    {
        self.right - self.left
    }

    /// The extent from the top to the bottom edge.
    pub fn height(&self) -> (r: i32)
        requires
            fits_i32(self.bottom - self.top),
        ensures
            r == self.bottom - self.top,
    {
        self.bottom - self.top
    }
}

/// The position that centers a window of `width` by `height` on the
/// desktop whose rectangle is `desktop`.
pub fn center_position(desktop: &Rect, width: i32, height: i32) -> (r: (i32, i32))
    requires
        fits_i32(desktop.right - desktop.left),
        fits_i32(desktop.bottom - desktop.top),
        fits_i32((desktop.right - desktop.left) - width),
        fits_i32((desktop.bottom - desktop.top) - height),
    ensures
        r.0 == div_toward_zero((desktop.right - desktop.left) - width, 2),
        r.1 == div_toward_zero((desktop.bottom - desktop.top) - height, 2),
{
    let desktop_width = desktop.width();
    let desktop_height = desktop.height();
    let x = (desktop_width - width) / 2;
    let y = (desktop_height - height) / 2;
    (x, y)
}

/// The pixel size of a rectangle: its width, and the distance between its
/// top and bottom edges, each read as unsigned.
pub fn size_of_rect(rect: &Rect) -> (r: PixelSize)
    requires
        fits_i32(rect.right - rect.left),
        i32::MIN < rect.top - rect.bottom <= i32::MAX,
    ensures
        r.width == wrap_u32(rect.right - rect.left),
        r.height == if rect.top >= rect.bottom { rect.top - rect.bottom } else { rect.bottom - rect.top },
{
    let w: i32 = rect.right - rect.left;
    let d: i32 = rect.top - rect.bottom;
    let h: i32 = if d < 0 { -d } else { d };
    PixelSize { width: to_u32_wrapping(w), height: h as u32 }
}

/// The new size of a render target after its window was resized: the
/// client rectangle's right and bottom edges, each read as unsigned.
pub fn client_pixel_size(client: &Rect) -> (r: PixelSize)
    ensures
        r.width == wrap_u32(client.right as int),
        r.height == wrap_u32(client.bottom as int),
{
    PixelSize { width: to_u32_wrapping(client.right), height: to_u32_wrapping(client.bottom) }
}

fn to_u32_wrapping(v: i32) -> (r: u32)
    ensures
        r == wrap_u32(v as int),
{
    let r = v as u32;
    assert(r == wrap_u32(v as int)) by (bit_vector)
        requires
            r == v as u32,
    ;
    r
}

} // verus!
