//! The raster canvas: a dense, row-major pixel grid of colors.
//!
//! The grid converts to and from packed 8-bit RGBA byte buffers, the form
//! decoded images arrive in and encoders expect. Pixel access is bounds
//! checked by contract: out-of-range coordinates are a caller error, not a
//! runtime condition.

use crate::color::{to_8bit, Color};
use vstd::prelude::*;

verus! {

/// Whether `img` is the decoded form of the packed RGBA bytes `data`.
pub open spec fn decodes_rgba8(data: Seq<u8>, img: Seq<Color>) -> bool {
    data.len() == 4 * img.len() && forall|i: int|
        0 <= i < img.len() ==> #[trigger] img[i] == Color::from_rgba8(
            data[4 * i],
            data[4 * i + 1],
            data[4 * i + 2],
            data[4 * i + 3],
        )
}

/// Whether `out` is the packed 8-bit RGBA form of `img`.
pub open spec fn encodes_rgba8(img: Seq<Color>, out: Seq<u8>) -> bool {
    &&& out.len() == 4 * img.len()
    &&& forall|i: int| 0 <= i < img.len() ==> #[trigger] out[4 * i] == to_8bit(img[i].r as int)
    &&& forall|i: int|
        0 <= i < img.len() ==> #[trigger] out[4 * i + 1] == to_8bit(img[i].g as int)
    &&& forall|i: int|
        0 <= i < img.len() ==> #[trigger] out[4 * i + 2] == to_8bit(img[i].b as int)
    &&& forall|i: int|
        0 <= i < img.len() ==> #[trigger] out[4 * i + 3] == to_8bit(img[i].a as int)
}

/// A `width` by `height` grid of colors, row-major: the pixel `(x, y)` is
/// at index `y * width + x`.
#[derive(Debug)]
pub struct RasterCanvas {
    pub width: usize,
    pub height: usize,
    pub image: Vec<Color>,
}

impl RasterCanvas {
    /// The grid shape matches the pixel buffer.
    pub open spec fn wf(&self) -> bool {
        self.image@.len() == self.width * self.height
    }

    /// An empty canvas filled with transparent pixels.
    pub fn new(width: usize, height: usize) -> (c: RasterCanvas)
        requires
            width * height <= usize::MAX,
        ensures
            c.wf(),
            c.width == width,
            c.height == height,
            forall|i: int|
                0 <= i < width * height ==> #[trigger] c.image@[i] == Color::transparent(),
    {
        let n: usize = width * height;
        let image: Vec<Color> = vec![Color::transparent(); n];
        RasterCanvas { width, height, image }
    }

    /// A canvas holding the pixels of a decoded RGBA image: a packed byte
    /// buffer of four bytes per pixel, rows top to bottom.
    pub fn from_rgba8(width: usize, height: usize, data: &Vec<u8>) -> (c: RasterCanvas)
        requires
            4 * (width * height) <= usize::MAX,
            data@.len() == 4 * (width * height),
        ensures
            c.wf(),
            c.width == width,
            c.height == height,
            decodes_rgba8(data@, c.image@),
    {
        let n: usize = width * height;
        let mut image: Vec<Color> = Vec::new();
        let mut i: usize = 0;
        while i < n
            invariant
                i <= n,
                4 * n <= usize::MAX,
                data@.len() == 4 * n,
                image@.len() == i,
                forall|j: int|
                    0 <= j < i ==> #[trigger] image@[j] == Color::from_rgba8(
                        data@[4 * j],
                        data@[4 * j + 1],
                        data@[4 * j + 2],
                        data@[4 * j + 3],
                    ),
            decreases n - i,
        {
            let base: usize = 4 * i;
            image.push(
                Color::from_rgba8(data[base], data[base + 1], data[base + 2], data[base + 3]),
            );
            i = i + 1;
        }
        RasterCanvas { width, height, image }
    }

    /// The packed 8-bit RGBA bytes of the canvas, row-major.
    pub fn as_rgba8(&self) -> (out: Vec<u8>)
        requires
            4 * self.image@.len() <= usize::MAX,
        ensures
            encodes_rgba8(self.image@, out@),
    {
        let n: usize = self.image.len();
        let mut out: Vec<u8> = Vec::new();
        let mut i: usize = 0;
        while i < n
            invariant
                i <= n,
                n == self.image@.len(),
                4 * n <= usize::MAX,
                out@.len() == 4 * i,
                forall|j: int|
                    0 <= j < i ==> #[trigger] out@[4 * j] == to_8bit(self.image@[j].r as int),
                forall|j: int|
                    0 <= j < i ==> #[trigger] out@[4 * j + 1] == to_8bit(
                        self.image@[j].g as int,
                    ),
                forall|j: int|
                    0 <= j < i ==> #[trigger] out@[4 * j + 2] == to_8bit(
                        self.image@[j].b as int,
                    ),
                forall|j: int|
                    0 <= j < i ==> #[trigger] out@[4 * j + 3] == to_8bit(
                        self.image@[j].a as int,
                    ),
            decreases n - i,
        {
            let p: Color = self.image[i];
            out.push(Color::channel_to_8bit(p.r));
            out.push(Color::channel_to_8bit(p.g));
            out.push(Color::channel_to_8bit(p.b));
            out.push(Color::channel_to_8bit(p.a));
            proof {
                crate::color::lemma_to_8bit_range(p.r as int);
                crate::color::lemma_to_8bit_range(p.g as int);
                crate::color::lemma_to_8bit_range(p.b as int);
                crate::color::lemma_to_8bit_range(p.a as int);
                assert(out@[4 * (i as int)] == to_8bit(self.image@[i as int].r as int));
                assert(out@[4 * (i as int) + 1] == to_8bit(self.image@[i as int].g as int));
                assert(out@[4 * (i as int) + 2] == to_8bit(self.image@[i as int].b as int));
                assert(out@[4 * (i as int) + 3] == to_8bit(self.image@[i as int].a as int));
            }
            i = i + 1;
        }
        out
    }

    /// The width in pixels.
    pub fn get_width(&self) -> (w: usize)
        ensures
            w == self.width,
    {
        self.width
    }

    /// The height in pixels.
    pub fn get_height(&self) -> (h: usize)
        ensures
            h == self.height,
    {
        self.height
    }

    /// The color at `(x, y)`; the coordinates must be inside the canvas.
    pub fn get_pixel(&self, x: usize, y: usize) -> (c: Color)
        requires
            self.wf(),
            x < self.width,
            y < self.height,
        ensures
            c == self.image@[y * self.width + x],
    {
        // The buffer length is a usize, so the row-major index fits one.
        let n: usize = self.image.len();
        proof {
            lemma_row_major_index(x as int, y as int, self.width as int, self.height as int);
            assert(n == self.image@.len());
        }
        self.image[y * self.width + x]
    }

    /// Overwrites the color at `(x, y)`; the coordinates must be inside
    /// the canvas.
    pub fn set_pixel(&mut self, x: usize, y: usize, color: Color)
        requires
            old(self).wf(),
            x < old(self).width,
            y < old(self).height,
        ensures
            final(self).wf(),
            final(self).width == old(self).width,
            final(self).height == old(self).height,
            final(self).image@ == old(self).image@.update(
                y * old(self).width + x,
                color,
            ),
    {
        // The buffer length is a usize, so the row-major index fits one.
        let n: usize = self.image.len();
        proof {
            lemma_row_major_index(x as int, y as int, self.width as int, self.height as int);
            assert(n == self.image@.len());
        }
        let i: usize = y * self.width + x;
        self.image.set(i, color);
    }

    /// A fresh canvas holding the same pixels.
    pub fn duplicate(&self) -> (r: RasterCanvas)
        ensures
            r.width == self.width,
            r.height == self.height,
            r.image@ == self.image@,
    {
        let mut image: Vec<Color> = Vec::new();
        let mut i: usize = 0;
        let n: usize = self.image.len();
        while i < n
            invariant
                i <= n,
                n == self.image@.len(),
                image@ == self.image@.take(i as int),
            decreases n - i,
        {
            image.push(self.image[i]);
            proof {
                assert(image@ =~= self.image@.take(i as int + 1));
            }
            i = i + 1;
        }
        proof {
            assert(image@ =~= self.image@);
        }
        RasterCanvas { width: self.width, height: self.height, image }
    }

    /// Read access to the raw pixels, row-major.
    pub fn get_raw(&self) -> (s: &Vec<Color>)
        ensures
            *s == self.image,
            s@ == self.image@,
    {
        &self.image
    }
}

/// A row-major index stays inside the pixel buffer.
proof fn lemma_row_major_index(x: int, y: int, w: int, h: int)
    requires
        0 <= x < w,
        0 <= y < h,
    ensures
        0 <= y * w + x < w * h,
{
    assert(0 <= y * w + x < w * h) by (nonlinear_arith)
        requires
            0 <= x < w,
            0 <= y < h,
    ;
}

/// Quantization round trip: decoding a packed RGBA buffer into colors and
/// encoding it again restores the original bytes exactly.
pub proof fn lemma_rgba8_round_trip(data: Seq<u8>, img: Seq<Color>, out: Seq<u8>)
    requires
        decodes_rgba8(data, img),
        encodes_rgba8(img, out),
    ensures
        out == data,
{
    assert forall|k: int| 0 <= k < data.len() implies out[k] == data[k] by {
        vstd::arithmetic::div_mod::lemma_fundamental_div_mod(k, 4);
        vstd::arithmetic::div_mod::lemma_mod_bound(k, 4);
        let i = k / 4;
        let r = k % 4;
        assert(k == 4 * i + r);
        assert(0 <= r < 4);
        assert(4 * i <= k);
        assert(0 <= i && 4 * i < data.len());
        assert(i < img.len());
        assert(img[i] == Color::from_rgba8(
            data[4 * i],
            data[4 * i + 1],
            data[4 * i + 2],
            data[4 * i + 3],
        ));
        crate::color::lemma_to_8bit_range(img[i].r as int);
        crate::color::lemma_to_8bit_range(img[i].g as int);
        crate::color::lemma_to_8bit_range(img[i].b as int);
        crate::color::lemma_to_8bit_range(img[i].a as int);
        assert(out[4 * i] == to_8bit(img[i].r as int));
        assert(out[4 * i + 1] == to_8bit(img[i].g as int));
        assert(out[4 * i + 2] == to_8bit(img[i].b as int));
        assert(out[4 * i + 3] == to_8bit(img[i].a as int));
        crate::color::lemma_channel_round_trip(data[4 * i] as int);
        crate::color::lemma_channel_round_trip(data[4 * i + 1] as int);
        crate::color::lemma_channel_round_trip(data[4 * i + 2] as int);
        crate::color::lemma_channel_round_trip(data[4 * i + 3] as int);
        if r == 0 {
            assert(out[k] == data[k]);
        } else if r == 1 {
            assert(out[k] == data[k]);
        } else if r == 2 {
            assert(out[k] == data[k]);
        } else {
            assert(out[k] == data[k]);
        }
    }
    assert(out =~= data);
}

} // verus!
