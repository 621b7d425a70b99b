//! Plain-colour textures that stand in for material maps a material lacks:
//! a missing normal map is replaced by the flat normal, a missing specular
//! map by full reflectance, at the size of the material's albedo map.
use vstd::prelude::*;

verus! {

/// An RGBA image with 8 bits per channel, held in an `image::RgbaImage`.
#[verifier::external_body]
pub struct RgbaCanvas {
    pub inner: image::RgbaImage,
}

/// The width and height of a canvas.
pub uninterp spec fn canvas_dims(c: RgbaCanvas) -> (u32, u32);

/// The pixels of a canvas, row after row.
pub uninterp spec fn canvas_pixels(c: RgbaCanvas) -> Seq<[u8; 4]>;

/// The number of pixels of a `width` by `height` image.
pub open spec fn pixel_count(width: u32, height: u32) -> int {
    width * height
}

/// `ImageBuffer::new` checks that the four channels of every pixel fit a
/// vector's length; a vector holds at most `isize::MAX` bytes.
pub open spec fn fits_in_memory(width: u32, height: u32) -> bool {
    4 * pixel_count(width, height) <= isize::MAX
}

/// `image::RgbaImage::new`: a `width` by `height` image of transparent black
/// pixels.
#[verifier::external_body]
fn canvas_new(width: u32, height: u32) -> (r: RgbaCanvas)
    requires
        fits_in_memory(width, height),
    ensures
        canvas_dims(r) == (width, height),
        canvas_pixels(r) == Seq::new(pixel_count(width, height) as nat, |k: int| [0u8, 0, 0, 0]),
{
    RgbaCanvas { inner: image::RgbaImage::new(width, height) }
}

/// `image::RgbaImage::put_pixel`: sets the pixel in column `x` of row `y`.
#[verifier::external_body]
fn canvas_put_pixel(c: &mut RgbaCanvas, x: u32, y: u32, pixel: [u8; 4])
    requires
        x < canvas_dims(*old(c)).0,
        y < canvas_dims(*old(c)).1,
    ensures
        canvas_dims(*final(c)) == canvas_dims(*old(c)),
        canvas_pixels(*final(c)) == canvas_pixels(*old(c)).update(
            y * canvas_dims(*old(c)).0 + x,
            pixel,
        ),
{
    c.inner.put_pixel(x, y, image::Rgba(pixel))
}

/// `image::RgbaImage::get_pixel`: the pixel in column `x` of row `y`.
#[verifier::external_body]
fn canvas_get_pixel(c: &RgbaCanvas, x: u32, y: u32) -> (r: [u8; 4])
    requires
        x < canvas_dims(*c).0,
        y < canvas_dims(*c).1,
    ensures
        r == canvas_pixels(*c)[y * canvas_dims(*c).0 + x],
{
    c.inner.get_pixel(x, y).0
}

/// `image::RgbaImage::dimensions`: the width and height.
#[verifier::external_body]
fn canvas_dimensions(c: &RgbaCanvas) -> (r: (u32, u32))
    ensures
        r == canvas_dims(*c),
{
    c.inner.dimensions()
}

impl RgbaCanvas {
    /// The width and height of the canvas.
    pub fn dimensions(&self) -> (r: (u32, u32))
        ensures
            r == canvas_dims(*self),
    {
        canvas_dimensions(self)
    }

    /// The pixel in column `x` of row `y`.
    pub fn pixel(&self, x: u32, y: u32) -> (r: [u8; 4])
        requires
            x < canvas_dims(*self).0,
            y < canvas_dims(*self).1,
        ensures
            r == canvas_pixels(*self)[y * canvas_dims(*self).0 + x],
    {
        canvas_get_pixel(self, x, y)
    }
}

/// The colour of a normal map without relief: every normal points straight
/// out of the surface.
pub open spec fn flat_normal() -> [u8; 4] {
    [128u8, 128, 255, 255]
}

/// The colour of a specular map that reflects fully everywhere.
pub open spec fn full_specular() -> [u8; 4] {
    [255u8, 255, 255, 255]
}

/// A `width` by `height` image of which every pixel has the given colour.
pub fn identity_image(dimensions: (u32, u32), color: [u8; 4]) -> (r: RgbaCanvas)
    requires
        fits_in_memory(dimensions.0, dimensions.1),
    ensures
        canvas_dims(r) == dimensions,
        canvas_pixels(r) == Seq::new(pixel_count(dimensions.0, dimensions.1) as nat, |k: int| color),
{
    let (width, height) = dimensions;
    let mut canvas = canvas_new(width, height);
    let ghost total = pixel_count(width, height);
    let ghost zero = [0u8, 0, 0, 0];
    let mut y: u32 = 0;
    while y < height
        invariant
            canvas_dims(canvas) == (width, height),
            total == width * height,
            y <= height,
            canvas_pixels(canvas) == Seq::new(
                total as nat,
                |k: int|
                    if k < y * width {
                        color
                    } else {
                        zero
                    },
            ),
        decreases height - y,
    {
        let mut x: u32 = 0;
        while x < width
            invariant
                canvas_dims(canvas) == (width, height),
                total == width * height,
                y < height,
                x <= width,
                canvas_pixels(canvas) == Seq::new(
                    total as nat,
                    |k: int|
                        if k < y * width + x {
                            color
                        } else {
                            zero
                        },
                ),
            decreases width - x,
        {
            assert(y * width + x < width * height) by (nonlinear_arith)
                requires
                    x < width,
                    y < height,
            ;
            canvas_put_pixel(&mut canvas, x, y, color);
            assert(canvas_pixels(canvas) =~= Seq::new(
                total as nat,
                |k: int|
                    if k < y * width + x + 1 {
                        color
                    } else {
                        zero
                    },
            ));
            x = x + 1;
        }
        assert(y * width + width == (y + 1) * width) by (nonlinear_arith);
        assert(canvas_pixels(canvas) =~= Seq::new(
            total as nat,
            |k: int|
                if k < (y + 1) * width {
                    color
                } else {
                    zero
                },
        ));
        y = y + 1;
    }
    assert(height * width == width * height) by (nonlinear_arith);
    assert(canvas_pixels(canvas) =~= Seq::new(total as nat, |k: int| color));
    canvas
}

} // verus!
