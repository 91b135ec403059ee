//! The pixel buffer of the `image` crate, as far as the compositor uses it.
//!
//! Nothing in this module is proved. Each item states what the `image`
//! crate's buffer does, and the compositor is verified against these
//! statements.

use vstd::prelude::*;
use crate::color::Color;

verus! {

/// An RGB pixel buffer of the `image` crate, `image::RgbImage`. Verus does
/// not look inside it; what it holds is spoken of through `raster_pixels`.
#[verifier::external_body]
pub struct Raster {
    img: image::RgbImage,
}

/// What the buffer holds: the colour at each coordinate `(x, y)` inside its
/// bounds. The domain of the map is exactly the set of in-bounds coordinates.
pub uninterp spec fn raster_pixels(img: Raster) -> Map<(int, int), Color>;

/// The coordinates of a `width` by `height` grid with its origin at the top
/// left: `0 <= x < width` and `0 <= y < height`.
pub open spec fn grid(width: int, height: int) -> Set<(int, int)> {
    Set::new(|p: (int, int)| 0 <= p.0 < width && 0 <= p.1 < height)
}

/// `image::ImageBuffer::new`: allocates a `width` by `height` RGB image with
/// every channel of every pixel zero. The call computes the buffer length in
/// two checked steps, `3 * width` and then that times `height`, and panics
/// when either overflows a `usize`; the allocation itself panics on a length
/// above `isize::MAX`, the most a vector takes. Both are required not to
/// happen. The first bound matters by itself when `height` is zero.
#[verifier::external_body]
pub(crate) fn image_new(width: u32, height: u32) -> (img: Raster)
    requires
        3 * width <= usize::MAX,
        3 * width * height <= isize::MAX,
    ensures
        raster_pixels(img).dom() == grid(width as int, height as int),
        forall|p: (int, int)| #[trigger] raster_pixels(img).dom().contains(p)
            ==> raster_pixels(img)[p] == Color::spec_blank(),
{
    Raster { img: image::RgbImage::new(width, height) }
}

/// `image::ImageBuffer::put_pixel`: stores `c` at `(x, y)` and leaves every
/// other pixel and the bounds as they were. The call panics on a coordinate
/// outside the bounds, so an in-bounds coordinate is required; with one it
/// returns normally, which `no_unwind` records.
#[verifier::external_body]
pub(crate) fn image_put_pixel(img: &mut Raster, x: u32, y: u32, c: Color)
    requires
        raster_pixels(*old(img)).dom().contains((x as int, y as int)),
    ensures
        raster_pixels(*final(img)) == raster_pixels(*old(img)).insert((x as int, y as int), c),
    no_unwind
{
    img.img.put_pixel(x, y, image::Rgb([c.r, c.g, c.b]));
}

/// `image::ImageBuffer::get_pixel`: reads the colour stored at `(x, y)`. The
/// call panics on a coordinate outside the bounds, so an in-bounds coordinate
/// is required.
#[verifier::external_body]
pub(crate) fn image_get_pixel(img: &Raster, x: u32, y: u32) -> (c: Color)
    requires
        raster_pixels(*img).dom().contains((x as int, y as int)),
    ensures
        c == raster_pixels(*img)[(x as int, y as int)],
{
    let p = img.img.get_pixel(x, y);
    Color { r: p.0[0], g: p.0[1], b: p.0[2] }
}

} // verus!
