//! Conversion of point-space clip rectangles into pixel-space scissor rectangles.

use vstd::prelude::*;

verus! {

/// Fixed-point steps per unit: a coordinate of 256 is one point, a scale of 256
/// is one pixel per point.
pub const SUBDIVISIONS: u32 = 256;

/// Fixed-point steps per pixel in the product of a coordinate and a scale.
pub const PRODUCT_ONE: i64 = 65536;

/// Half of [`PRODUCT_ONE`], added before dividing so that halves round up.
pub const PRODUCT_HALF: i64 = 32768;

/// Axis-aligned clip rectangle in point space, y growing downwards.
/// Each coordinate is counted in 1/256 of a point.
#[derive(Clone, Copy, Debug, PartialEq, Eq, Structural)]
pub struct ClipRect {
    pub min_x: i32,
    pub min_y: i32,
    pub max_x: i32,
    pub max_y: i32,
}

/// Size of the target surface in pixels.
#[derive(Clone, Copy, Debug, PartialEq, Eq, Structural)]
pub struct SurfaceSize {
    pub width: u32,
    pub height: u32,
}

/// Pixel-space rectangle given by its edges, y growing downwards.
#[derive(Clone, Copy, Debug, PartialEq, Eq, Structural)]
pub struct PixelRect {
    pub min_x: u32,
    pub min_y: u32,
    pub max_x: u32,
    pub max_y: u32,
}

/// Scissor rectangle as a graphics API takes it: origin at the bottom-left
/// corner of the surface.
#[derive(Clone, Copy, Debug, PartialEq, Eq, Structural)]
pub struct Scissor {
    pub left: u32,
    pub bottom: u32,
    pub width: u32,
    pub height: u32,
}

/// `coord * scale` in pixels, rounded to the nearest integer, halves upwards.
pub open spec fn round_to_pixel(coord: int, scale: int) -> int {
    (coord * scale + PRODUCT_HALF) / (PRODUCT_ONE as int)
}

/// The rounded pixel position of `coord`, clamped to `[0, limit]`.
pub open spec fn pixel_edge(coord: int, scale: int, limit: int) -> int {
    let r = round_to_pixel(coord, scale);
    if r < 0 {
        0
    } else if r > limit {
        limit
    } else {
        r
    }
}

/// The larger of two integers.
pub open spec fn at_least(floor: int, value: int) -> int {
    if value < floor {
        floor
    } else {
        value
    }
}

/// The edges of `clip` in pixels: each edge scaled, rounded and clamped to the
/// surface, and the far edges never before the near ones.
pub open spec fn pixel_rect_of(clip: ClipRect, scale: int, surface: SurfaceSize) -> PixelRect {
    let min_x = pixel_edge(clip.min_x as int, scale, surface.width as int);
    let min_y = pixel_edge(clip.min_y as int, scale, surface.height as int);
    PixelRect {
        min_x: min_x as u32,
        min_y: min_y as u32,
        max_x: at_least(min_x, pixel_edge(clip.max_x as int, scale, surface.width as int)) as u32,
        max_y: at_least(min_y, pixel_edge(clip.max_y as int, scale, surface.height as int)) as u32,
    }
}

impl PixelRect {
    /// Edges in order and inside a surface of the given size.
    pub open spec fn fits(self, surface: SurfaceSize) -> bool {
        &&& self.min_x <= self.max_x <= surface.width
        &&& self.min_y <= self.max_y <= surface.height
    }

    /// No pixel lies inside.
    pub open spec fn empty(self) -> bool {
        self.min_x >= self.max_x || self.min_y >= self.max_y
    }

    /// Whether no pixel lies inside the rectangle.
    pub fn is_empty(&self) -> (r: bool)
        ensures
            r == self.empty(),
    {
        self.min_x >= self.max_x || self.min_y >= self.max_y
    }

    /// The same rectangle measured from the bottom-left corner of the surface.
    pub open spec fn scissor(self, surface: SurfaceSize) -> Scissor {
        Scissor {
            left: self.min_x,
            bottom: (surface.height - self.max_y) as u32,
            width: (self.max_x - self.min_x) as u32,
            height: (self.max_y - self.min_y) as u32,
        }
    }

    /// Turns the rectangle into a scissor with its origin at the bottom-left.
    /// A rectangle that does not fit the surface yields `None`.
    pub fn to_scissor(&self, surface: SurfaceSize) -> (r: Option<Scissor>)
        ensures
            r == (if self.fits(surface) {
                Some(self.scissor(surface))
            } else {
                None
            }),
    {
        if self.min_x <= self.max_x && self.max_x <= surface.width && self.min_y <= self.max_y
            && self.max_y <= surface.height {
            Some(
                Scissor {
                    left: self.min_x,
                    bottom: surface.height - self.max_y,
                    width: self.max_x - self.min_x,
                    height: self.max_y - self.min_y,
                },
            )
        } else {
            None
        }
    }
}

/// Scales one coordinate to pixels, rounds it and clamps it to `[0, limit]`.
pub fn scale_edge(coord: i32, scale: u32, limit: u32) -> (r: u32)
    ensures
        r == pixel_edge(coord as int, scale as int, limit as int),
        r <= limit,
{
    let c: i64 = coord as i64;
    let s: i64 = scale as i64;
    assert(-0x8000_0000 * 0x1_0000_0000 <= c * s <= 0x7fff_ffff * 0xffff_ffff) by (nonlinear_arith)
        requires
            -0x8000_0000 <= c <= 0x7fff_ffff,
            0 <= s <= 0xffff_ffff,
    ;
    let product: i64 = c * s;
    if product < -PRODUCT_HALF {
        0
    } else {
        let rounded: i64 = (product + PRODUCT_HALF) / PRODUCT_ONE;
        if rounded > limit as i64 {
            limit
        } else {
            rounded as u32
        }
    }
}

/// Converts a clip rectangle to its pixel edges on the surface.
pub fn clip_to_pixels(clip: &ClipRect, scale: u32, surface: SurfaceSize) -> (r: PixelRect)
    ensures
        r == pixel_rect_of(*clip, scale as int, surface),
        r.fits(surface),
{
    let min_x: u32 = scale_edge(clip.min_x, scale, surface.width);
    let min_y: u32 = scale_edge(clip.min_y, scale, surface.height);
    let far_x: u32 = scale_edge(clip.max_x, scale, surface.width);
    let far_y: u32 = scale_edge(clip.max_y, scale, surface.height);
    PixelRect {
        min_x,
        min_y,
        max_x: if far_x < min_x { min_x } else { far_x },
        max_y: if far_y < min_y { min_y } else { far_y },
    }
}

/// Converts a clip rectangle to the scissor rectangle of its draw call, or
/// `None` where no pixel is left to draw.
pub fn clip_to_scissor(clip: &ClipRect, scale: u32, surface: SurfaceSize) -> (r: Option<Scissor>)
    ensures
        r == (if pixel_rect_of(*clip, scale as int, surface).empty() {
            None
        } else {
            Some(pixel_rect_of(*clip, scale as int, surface).scissor(surface))
        }),
{
    let rect = clip_to_pixels(clip, scale, surface);
    if rect.is_empty() {
        None
    } else {
        rect.to_scissor(surface)
    }
}

} // verus!
