//! The canvas and the compositor that paints onto it.

use vstd::prelude::*;
use vstd::arithmetic::div_mod::lemma_fundamental_div_mod_converse;
use crate::color::Color;
use crate::raster::{grid, image_get_pixel, image_new, image_put_pixel, raster_pixels, Raster};
use crate::rect::Rect;
use crate::scene::{fill, lemma_scene_empty, lemma_scene_push, scene, uniform};

verus! {

/// Channel `k` of a colour: red, green and blue are `0`, `1` and `2`.
pub open spec fn channel(c: Color, k: int) -> u8 {
    if k == 0 {
        c.r
    } else if k == 1 {
        c.g
    } else {
        c.b
    }
}

/// Byte `i` of a canvas of the given width laid out as raw RGB: pixel number
/// `i / 3`, counted row by row from the top left, and of it channel `i % 3`.
pub open spec fn rgb8_byte(canvas: Map<(int, int), Color>, width: int, i: int) -> u8 {
    channel(canvas[((i / 3) % width, (i / 3) / width)], i % 3)
}

/// A `width` by `height` canvas as raw RGB bytes: rows from top to bottom,
/// pixels from left to right, three bytes per pixel.
pub open spec fn rgb8(canvas: Map<(int, int), Color>, width: int, height: int) -> Seq<u8> {
    Seq::new((3 * width * height) as nat, |i: int| rgb8_byte(canvas, width, i))
}

/// The three bytes of pixel `(x, y)` sit at offset `3 * (y * width + x)`.
proof fn lemma_rgb8_pixel(canvas: Map<(int, int), Color>, width: int, x: int, y: int)
    requires
        0 <= x < width,
        0 <= y,
    ensures
        rgb8_byte(canvas, width, 3 * (y * width + x)) == canvas[(x, y)].r,
        rgb8_byte(canvas, width, 3 * (y * width + x) + 1) == canvas[(x, y)].g,
        rgb8_byte(canvas, width, 3 * (y * width + x) + 2) == canvas[(x, y)].b,
{
    let n = y * width + x;
    lemma_fundamental_div_mod_converse(n, width, y, x);
    lemma_fundamental_div_mod_converse(3 * n, 3, n, 0);
    lemma_fundamental_div_mod_converse(3 * n + 1, 3, n, 1);
    lemma_fundamental_div_mod_converse(3 * n + 2, 3, n, 2);
}

/// A canvas of fixed width and height, with its origin at the top left and
/// `y` growing downwards.
pub struct Screen {
    img: Raster,
    w: u32,
    h: u32,
}

impl View for Screen {
    type V = Map<(int, int), Color>;

    /// The colour of every pixel, by coordinate.
    closed spec fn view(&self) -> Map<(int, int), Color> {
        raster_pixels(self.img)
    }
}

impl Screen {
    /// The buffer holds exactly the pixels of a `w` by `h` grid.
    #[verifier::type_invariant]
    spec fn well_formed(self) -> bool {
        raster_pixels(self.img).dom() =~= grid(self.w as int, self.h as int)
    }

    /// The width in pixels.
    pub closed spec fn spec_width(self) -> int {
        self.w as int
    }

    /// The height in pixels.
    pub closed spec fn spec_height(self) -> int {
        self.h as int
    }

    /// Allocates a canvas. Every pixel starts out blank.
    ///
    /// The three channels of all pixels go into one buffer. One row of it,
    /// `3 * width` bytes, has to fit a `usize` whatever the height is, and
    /// the whole of it may not be longer than `isize::MAX` bytes, the most
    /// that a single allocation holds.
    pub fn new(width: u32, height: u32) -> (s: Screen)
        requires
            3 * width <= usize::MAX,
            3 * width * height <= isize::MAX,
        ensures
            s.spec_width() == width,
            s.spec_height() == height,
            s@.dom() == grid(width as int, height as int),
            s@ == uniform(grid(width as int, height as int), Color::spec_blank()),
    {
        let img = image_new(width, height);
        assert(raster_pixels(img) =~= uniform(grid(width as int, height as int), Color::spec_blank()));
        Screen { img, w: width, h: height }
    }

    /// The width in pixels.
    pub fn width(&self) -> (w: u32)
        ensures
            w == self.spec_width(),
    {
        self.w
    }

    /// The height in pixels.
    pub fn height(&self) -> (h: u32)
        ensures
            h == self.spec_height(),
    {
        self.h
    }

    /// The colour at `(x, y)`, or `None` for a coordinate off the canvas.
    ///
    /// A canvas has exactly the coordinates of its `width` by `height` grid,
    /// which the first clause states for callers.
    pub fn pixel(&self, x: u32, y: u32) -> (c: Option<Color>)
        ensures
            self@.dom() == grid(self.spec_width(), self.spec_height()),
            c == if x < self.spec_width() && y < self.spec_height() {
                Some(self@[(x as int, y as int)])
            } else {
                None
            },
    {
        proof {
            use_type_invariant(self);
        }
        if x < self.w && y < self.h {
            Some(image_get_pixel(&self.img, x, y))
        } else {
            None
        }
    }

    /// The finished grid as raw RGB bytes, ready to hand to an encoder: rows
    /// from top to bottom, pixels from left to right, three bytes per pixel.
    pub fn to_rgb8(&self) -> (bytes: Vec<u8>)
        ensures
            bytes@ == rgb8(self@, self.spec_width(), self.spec_height()),
    {
        proof {
            use_type_invariant(self);
        }
        let mut bytes: Vec<u8> = Vec::new();
        let mut y: u32 = 0;
        while y < self.h
            invariant
                y <= self.h,
                self@.dom() == grid(self.w as int, self.h as int),
                bytes@.len() == 3 * (y * self.w),
                forall|i: int| 0 <= i < bytes@.len() ==> bytes@[i] == rgb8_byte(self@, self.w as int, i),
            decreases self.h - y,
        {
            let mut x: u32 = 0;
            while x < self.w
                invariant
                    x <= self.w,
                    y < self.h,
                    self@.dom() == grid(self.w as int, self.h as int),
                    bytes@.len() == 3 * (y * self.w + x),
                    forall|i: int|
                        0 <= i < bytes@.len() ==> bytes@[i] == rgb8_byte(self@, self.w as int, i),
                decreases self.w - x,
            {
                let c = image_get_pixel(&self.img, x, y);
                proof {
                    lemma_rgb8_pixel(self@, self.w as int, x as int, y as int);
                }
                bytes.push(c.r);
                bytes.push(c.g);
                bytes.push(c.b);
                x = x + 1;
            }
            assert(y * self.w + self.w == (y + 1) * self.w) by (nonlinear_arith);
            y = y + 1;
        }
        assert(3 * (self.h * self.w) == 3 * self.w * self.h) by (nonlinear_arith);
        assert(bytes@ =~= rgb8(self@, self.w as int, self.h as int));
        bytes
    }

    /// Paints `c` on the pixels `x0 <= x < x1`, `y0 <= y < y1`, row by row.
    fn fill_span(&mut self, x0: u32, x1: u32, y0: u32, y1: u32, c: Color)
        requires
            x0 <= x1 <= old(self).w,
            y0 <= y1 <= old(self).h,
        ensures
            final(self).w == old(self).w,
            final(self).h == old(self).h,
            final(self)@.dom() == old(self)@.dom(),
            forall|p: (int, int)|
                old(self)@.dom().contains(p) ==> #[trigger] final(self)@[p] == if x0 <= p.0 < x1 && y0
                    <= p.1 < y1 {
                    c
                } else {
                    old(self)@[p]
                },
    {
        proof {
            use_type_invariant(&*self);
        }
        let ghost before = self@;
        let mut y: u32 = y0;
        while y < y1
            invariant
                x0 <= x1 <= self.w,
                y0 <= y <= y1 <= self.h,
                self.w == old(self).w,
                self.h == old(self).h,
                before.dom() == grid(self.w as int, self.h as int),
                self@.dom() == before.dom(),
                forall|p: (int, int)|
                    before.dom().contains(p) ==> #[trigger] self@[p] == if x0 <= p.0 < x1 && y0 <= p.1
                        < y {
                        c
                    } else {
                        before[p]
                    },
            decreases y1 - y,
        {
            let mut x: u32 = x0;
            while x < x1
                invariant
                    x0 <= x <= x1 <= self.w,
                    y0 <= y < y1 <= self.h,
                    self.w == old(self).w,
                    self.h == old(self).h,
                    before.dom() == grid(self.w as int, self.h as int),
                    self@.dom() == before.dom(),
                    forall|p: (int, int)|
                        before.dom().contains(p) ==> #[trigger] self@[p] == if x0 <= p.0 < x1 && (y0
                            <= p.1 < y || (p.1 == y && p.0 < x)) {
                            c
                        } else {
                            before[p]
                        },
                decreases x1 - x,
            {
                image_put_pixel(&mut self.img, x, y, c);
                x = x + 1;
            }
            y = y + 1;
        }
    }

    /// Fills `r` with `c`, clipped to the canvas.
    ///
    /// Every pixel `(x, y)` of the canvas with `left <= x < right` and
    /// `top <= y < bottom` takes the colour `c`; nothing else changes. Any
    /// rectangle is accepted: what lies off the canvas is skipped, and a
    /// rectangle of negative width or height paints nothing.
    pub fn draw_rect(&mut self, r: Rect, c: Color)
        ensures
            final(self).spec_width() == old(self).spec_width(),
            final(self).spec_height() == old(self).spec_height(),
            final(self)@.dom() == grid(final(self).spec_width(), final(self).spec_height()),
            final(self)@ == fill(old(self)@, r, c),
    {
        proof {
            use_type_invariant(&*self);
        }
        let width: i64 = self.w as i64;
        let height: i64 = self.h as i64;
        let left: i64 = r.x as i64;
        let top: i64 = r.y as i64;
        let right: i64 = r.x as i64 + r.w as i64;
        let bottom: i64 = r.y as i64 + r.h as i64;
        let x0: i64 = if left < 0 { 0 } else if left > width { width } else { left };
        let y0: i64 = if top < 0 { 0 } else if top > height { height } else { top };
        let x1: i64 = if right < x0 { x0 } else if right > width { width } else { right };
        let y1: i64 = if bottom < y0 { y0 } else if bottom > height { height } else { bottom };
        self.fill_span(x0 as u32, x1 as u32, y0 as u32, y1 as u32, c);
        assert(self@ =~= fill(old(self)@, r, c));
    }

    /// Clears the canvas to the background colour and paints `windows` over
    /// it in order, so that a later window hides what earlier ones painted
    /// where they overlap.
    ///
    /// Afterwards every pixel shows the last window of the list that covers
    /// it, or the background. What the canvas held before does not matter.
    pub fn compose(&mut self, windows: Vec<(Rect, Color)>)
        ensures
            final(self).spec_width() == old(self).spec_width(),
            final(self).spec_height() == old(self).spec_height(),
            final(self)@.dom() == grid(final(self).spec_width(), final(self).spec_height()),
            final(self)@ == scene(grid(old(self).spec_width(), old(self).spec_height()), windows@),
    {
        let ghost area = self@.dom();
        let w: u32 = self.w;
        let h: u32 = self.h;
        self.fill_span(0, w, 0, h, Color::background());
        proof {
            use_type_invariant(&*self);
            lemma_scene_empty(area);
            assert(self@ =~= uniform(area, Color::spec_background()));
            assert(windows@.take(0) =~= Seq::empty());
        }
        let mut i: usize = 0;
        while i < windows.len()
            invariant
                0 <= i <= windows.len(),
                self.w == old(self).w,
                self.h == old(self).h,
                self@ == scene(area, windows@.take(i as int)),
            decreases windows.len() - i,
        {
            let r: Rect = windows[i].0;
            let c: Color = windows[i].1;
            self.draw_rect(r, c);
            proof {
                lemma_scene_push(area, windows@.take(i as int), windows@[i as int]);
                assert(windows@.take(i as int).push(windows@[i as int]) =~= windows@.take(i + 1));
            }
            i = i + 1;
        }
        assert(windows@.take(windows.len() as int) =~= windows@);
    }
}

} // verus!
