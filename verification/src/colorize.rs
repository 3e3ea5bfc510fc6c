//! Template images and the colorization math that turns a
//! luminance-alpha template and a target color into an RGBA image.

use vstd::prelude::*;

use crate::color::Color;

verus! {

/// The largest byte size accepted for a pixel buffer, a machine bound
/// that keeps every later size computation inside `usize` and `u32`.
pub const MAX_PIXEL_BYTES: usize = 0x1000_0000;

/// A read-only grayscale-alpha source image: per pixel one luminance
/// byte then one alpha byte, row-major.
#[derive(Debug)]
pub struct TemplateImage {
    pub width: u32,
    pub height: u32,
    pub data: Vec<u8>,
}

impl TemplateImage {
    /// How many pixels the image holds.
    pub open spec fn pixel_count(&self) -> int {
        (self.width as int) * (self.height as int)
    }

    /// Well-formedness: two bytes per pixel, within the machine bound.
    pub open spec fn wf(&self) -> bool {
        &&& self.data@.len() == 2 * self.pixel_count()
        &&& 4 * self.pixel_count() <= MAX_PIXEL_BYTES
    }

    /// The luminance of the `p`-th pixel.
    pub open spec fn luma(&self, p: int) -> u8 {
        self.data@[2 * p]
    }

    /// The alpha of the `p`-th pixel.
    pub open spec fn alpha(&self, p: int) -> u8 {
        self.data@[2 * p + 1]
    }

    /// Builds a template from raw luminance-alpha bytes; refused unless
    /// the buffer holds exactly two bytes per pixel and the image is
    /// within the machine bound.
    pub fn new(width: u32, height: u32, data: Vec<u8>) -> (r: Option<TemplateImage>)
        ensures
            r matches Some(t) ==> t == (TemplateImage { width, height, data }) && t.wf(),
            r is None ==> !(TemplateImage { width, height, data }).wf(),
    {
        proof {
            assert((width as int) * (height as int) <= 0xffff_ffff * 0xffff_ffff)
                by (nonlinear_arith)
                requires
                    width as int <= 0xffff_ffff,
                    height as int <= 0xffff_ffff,
            ;
        }
        let pixels: u64 = (width as u64) * (height as u64);
        if pixels <= (MAX_PIXEL_BYTES as u64) / 4 && (data.len() as u64) == 2 * pixels {
            Some(TemplateImage { width, height, data })
        } else {
            None
        }
    }
}

/// An RGBA image produced by colorization: per pixel four bytes, red,
/// green, blue, alpha, row-major.
#[derive(Debug)]
pub struct ColorizedImage {
    pub width: u32,
    pub height: u32,
    pub data: Vec<u8>,
}

impl ColorizedImage {
    /// How many pixels the image holds.
    pub open spec fn pixel_count(&self) -> int {
        (self.width as int) * (self.height as int)
    }

    /// Well-formedness: four bytes per pixel, within the machine bound.
    pub open spec fn wf(&self) -> bool {
        &&& self.data@.len() == 4 * self.pixel_count()
        &&& self.data@.len() <= MAX_PIXEL_BYTES
    }
}

/// One colorized channel: the target channel scaled by the luminance,
/// `(c * l) / 255` rounded toward zero.
pub open spec fn scale_channel(c: u8, l: u8) -> u8 {
    ((c as int) * (l as int) / 255) as u8
}

/// The whole pixel buffer `colorize` produces: for each pixel the three
/// scaled channels, then the template's alpha unchanged.
pub open spec fn colorized_data(t: TemplateImage, c: Color) -> Seq<u8> {
    Seq::new((4 * t.pixel_count()) as nat, |i: int|
        {
            let p = i / 4;
            if i % 4 == 0 {
                scale_channel(c.r, t.luma(p))
            } else if i % 4 == 1 {
                scale_channel(c.g, t.luma(p))
            } else if i % 4 == 2 {
                scale_channel(c.b, t.luma(p))
            } else {
                t.alpha(p)
            }
        },
    )
}

/// One exec channel scaling, `(c * l) / 255` in integer arithmetic.
fn scale(c: u8, l: u8) -> (r: u8)
    ensures
        r == scale_channel(c, l),
{
    proof {
        assert((c as int) * (l as int) <= 255 * 255) by (nonlinear_arith)
            requires
                c <= 255,
                l <= 255,
        ;
    }
    (((c as u32) * (l as u32)) / 255) as u8
}

/// Maps a template and a target color to the colorized RGBA image: every
/// output channel is the target channel scaled by the pixel's luminance,
/// and the alpha channel is copied from the template unchanged.
pub fn colorize(t: &TemplateImage, c: Color) -> (r: ColorizedImage)
    requires
        t.wf(),
    ensures
        r.width == t.width,
        r.height == t.height,
        r.wf(),
        r.data@ == colorized_data(*t, c),
        forall|p: int|
            0 <= p < t.pixel_count() ==> {
                &&& r.data@[4 * p] == scale_channel(c.r, #[trigger] t.luma(p))
                &&& r.data@[4 * p + 1] == scale_channel(c.g, t.luma(p))
                &&& r.data@[4 * p + 2] == scale_channel(c.b, t.luma(p))
                &&& r.data@[4 * p + 3] == t.alpha(p)
            },
{
    let pixels: usize = (t.width as usize) * (t.height as usize);
    let mut data: Vec<u8> = Vec::new();
    let mut p: usize = 0;
    while p < pixels
        invariant
            t.wf(),
            pixels == t.pixel_count(),
            p <= pixels,
            data@.len() == 4 * p,
            forall|q: int|
                0 <= q < p ==> {
                    &&& data@[4 * q] == scale_channel(c.r, #[trigger] t.luma(q))
                    &&& data@[4 * q + 1] == scale_channel(c.g, t.luma(q))
                    &&& data@[4 * q + 2] == scale_channel(c.b, t.luma(q))
                    &&& data@[4 * q + 3] == t.alpha(q)
                },
        decreases pixels - p,
    {
        let l: u8 = t.data[2 * p];
        let a: u8 = t.data[2 * p + 1];
        data.push(scale(c.r, l));
        data.push(scale(c.g, l));
        data.push(scale(c.b, l));
        data.push(a);
        p = p + 1;
    }
    let r = ColorizedImage { width: t.width, height: t.height, data };
    proof {
        assert forall|i: int| 0 <= i < r.data@.len() implies r.data@[i] == colorized_data(*t, c)[i]
        by {
            let q = i / 4;
            assert(i == 4 * q + i % 4);
            assert(0 <= q < t.pixel_count()) by (nonlinear_arith)
                requires
                    0 <= i < 4 * t.pixel_count(),
                    q == i / 4,
            ;
            assert(r.data@[4 * q] == scale_channel(c.r, t.luma(q)));
            assert(r.data@[4 * q + 1] == scale_channel(c.g, t.luma(q)));
            assert(r.data@[4 * q + 2] == scale_channel(c.b, t.luma(q)));
            assert(r.data@[4 * q + 3] == t.alpha(q));
        }
        assert(r.data@ =~= colorized_data(*t, c));
    }
    r
}

/// A fully dark pixel colorizes to black whatever the target channel,
/// and a fully lit pixel reproduces the target channel exactly.
pub proof fn lemma_scale_channel_extremes(c: u8)
    ensures
        scale_channel(c, 0) == 0,
        scale_channel(c, 255) == c,
{
    assert((c as int) * 255 / 255 == c as int) by (nonlinear_arith);
}

/// Over the buffer `colorize` produces: a pixel of luminance 0 comes
/// out black whatever the target color, a pixel of luminance 255 comes
/// out as the target color exactly, and every pixel keeps the
/// template's alpha.
pub proof fn lemma_colorized_extremes(t: TemplateImage, c: Color, p: int)
    requires
        0 <= p < t.pixel_count(),
    ensures
        t.luma(p) == 0 ==> colorized_data(t, c)[4 * p] == 0 && colorized_data(t, c)[4 * p + 1]
            == 0 && colorized_data(t, c)[4 * p + 2] == 0,
        t.luma(p) == 255 ==> colorized_data(t, c)[4 * p] == c.r && colorized_data(t, c)[4 * p + 1]
            == c.g && colorized_data(t, c)[4 * p + 2] == c.b,
        colorized_data(t, c)[4 * p + 3] == t.alpha(p),
{
    lemma_scale_channel_extremes(c.r);
    lemma_scale_channel_extremes(c.g);
    lemma_scale_channel_extremes(c.b);
    assert((4 * p) / 4 == p && (4 * p) % 4 == 0);
    assert((4 * p + 1) / 4 == p && (4 * p + 1) % 4 == 1);
    assert((4 * p + 2) / 4 == p && (4 * p + 2) % 4 == 2);
    assert((4 * p + 3) / 4 == p && (4 * p + 3) % 4 == 3);
}

} // verus!
