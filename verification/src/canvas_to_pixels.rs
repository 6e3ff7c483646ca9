//! The compositor: flattens a rasterized annotation layer onto the source
//! pixel buffer with source-over blending, optionally cropping the result.
//!
//! Rasterizing the shape layer (paths, anti-aliasing, text) is the host
//! backend's work; it hands the compositor plain RGBA pixels.

use vstd::prelude::*;
use vstd::arithmetic::div_mod::{lemma_div_nonincreasing, lemma_div_pos_is_pos};
use vstd::arithmetic::mul::{lemma_mul_inequality, lemma_mul_nonnegative};

verus! {

/// Largest width or height of a pixel buffer.
pub const MAX_DIMENSION: u32 = 0x4000;

/// A pixel-integer rectangle for cropping the composited result.
#[derive(Debug, Clone, Copy, PartialEq, Eq, Structural)]
pub struct CropRect {
    pub x: u32,
    pub y: u32,
    pub width: u32,
    pub height: u32,
}

/// An RGBA8 raster: `4 * width * height` bytes, rows first, four bytes per
/// pixel. Alpha is premultiplied, as the rasterizer produces it.
#[derive(Debug)]
pub struct PixelBuffer {
    pub width: u32,
    pub height: u32,
    pub data: Vec<u8>,
}

impl PixelBuffer {
    pub open spec fn wf(self) -> bool {
        &&& self.width <= MAX_DIMENSION
        &&& self.height <= MAX_DIMENSION
        &&& self.data.len() == 4 * (self.width as int) * (self.height as int)
    }

    /// Channel `c` of the pixel at column `x`, row `y`.
    pub open spec fn pixel(self, x: int, y: int, c: int) -> u8 {
        self.data[4 * (y * self.width + x) + c]
    }

    /// Wraps bytes the host decoded or captured; nothing if they do not form
    /// a whole raster of the stated extents.
    pub fn from_raw(width: u32, height: u32, data: Vec<u8>) -> (r: Option<PixelBuffer>)
        ensures
            match r {
                Some(b) => b.wf() && b.width == width && b.height == height && b.data@ == data@,
                None => width > MAX_DIMENSION || height > MAX_DIMENSION || data@.len() != 4 * (
                width as int) * (height as int),
            },
    {
        if width > MAX_DIMENSION || height > MAX_DIMENSION {
            return None;
        }
        proof {
            assert(4 * (width as int) * (height as int) <= 0x4000_0000) by (nonlinear_arith)
                requires
                    0 <= width <= 0x4000,
                    0 <= height <= 0x4000,
            ;
        }
        let expected: usize = 4 * (width as usize) * (height as usize);
        if data.len() != expected {
            return None;
        }
        Some(PixelBuffer { width, height, data })
    }
}

/// One channel of source-over blending, premultiplied alpha: the layer's
/// contribution plus the background scaled by the layer's remaining
/// transparency, saturating at full intensity.
pub open spec fn spec_blend_channel(fg: u8, fg_alpha: u8, bg: u8) -> u8 {
    let v = fg + bg * (255 - fg_alpha) / 255;
    if v > 255 {
        255u8
    } else {
        v as u8
    }
}

fn blend_channel(fg: u8, fg_alpha: u8, bg: u8) -> (r: u8)
    ensures
        r == spec_blend_channel(fg, fg_alpha, bg),
{
    proof {
        lemma_mul_nonnegative(bg as int, 255 - fg_alpha as int);
        lemma_mul_inequality(bg as int, 255, 255 - fg_alpha as int);
        lemma_div_pos_is_pos(bg as int * (255 - fg_alpha as int), 255);
        lemma_div_nonincreasing(bg as int * (255 - fg_alpha as int), 255);
        assert(bg as int * (255 - fg_alpha as int) <= 255 * 255) by (nonlinear_arith)
            requires
                0 <= bg <= 255,
                0 <= 255 - fg_alpha as int <= 255,
        ;
    }
    let v: u32 = fg as u32 + (bg as u32) * (255 - fg_alpha as u32) / 255;
    if v > 255 {
        255
    } else {
        v as u8
    }
}

/// The bytes of `layer` composited over `image`, channel by channel; byte
/// `j` belongs to the pixel `j / 4`, whose layer alpha is byte `4 * (j / 4)
/// + 3`.
pub open spec fn spec_composite_byte(layer: PixelBuffer, image: PixelBuffer, j: int) -> u8 {
    spec_blend_channel(layer.data[j], layer.data[4 * (j / 4) + 3], image.data[j])
}

/// Alpha-composites the rasterized annotation layer over the source pixels.
/// Both buffers must have the same extents; the result has them too.
pub fn composite_over(layer: &PixelBuffer, image: &PixelBuffer) -> (r: PixelBuffer)
    requires
        layer.wf(),
        image.wf(),
        layer.width == image.width,
        layer.height == image.height,
    ensures
        r.wf(),
        r.width == image.width,
        r.height == image.height,
        forall|j: int|
            0 <= j < r.data.len() ==> r.data[j] == spec_composite_byte(*layer, *image, j),
{
    let n: usize = layer.data.len();
    proof {
        let m = (layer.width as int) * (layer.height as int);
        assert(0 <= m <= 0x1000_0000 && 4 * (layer.width as int) * (layer.height as int) == 4 * m)
            by (nonlinear_arith)
            requires
                0 <= layer.width <= 0x4000,
                0 <= layer.height <= 0x4000,
                m == (layer.width as int) * (layer.height as int),
        ;
        vstd::arithmetic::div_mod::lemma_div_multiples_vanish(m, 4);
    }
    let npix: usize = n / 4;
    proof {
        assert(n == 4 * npix);
    }
    let mut data: Vec<u8> = Vec::with_capacity(n);
    let mut p: usize = 0;
    while p < npix
        invariant
            n == layer.data.len(),
            n == 4 * npix,
            n <= 0x4000_0000,
            layer.wf(),
            image.wf(),
            layer.width == image.width,
            layer.height == image.height,
            p <= npix,
            data.len() == 4 * p,
            forall|j: int| 0 <= j < 4 * p ==> data[j] == spec_composite_byte(*layer, *image, j),
        decreases npix - p,
    {
        let base: usize = 4 * p;
        let alpha = layer.data[base + 3];
        let ghost data_before = data@;
        let b0 = blend_channel(layer.data[base], alpha, image.data[base]);
        data.push(b0);
        let b1 = blend_channel(layer.data[base + 1], alpha, image.data[base + 1]);
        data.push(b1);
        let b2 = blend_channel(layer.data[base + 2], alpha, image.data[base + 2]);
        data.push(b2);
        let b3 = blend_channel(layer.data[base + 3], alpha, image.data[base + 3]);
        data.push(b3);
        proof {
            assert forall|j: int| 0 <= j < 4 * (p + 1) implies data@[j] == spec_composite_byte(
                *layer,
                *image,
                j,
            ) by {
                if j < 4 * p {
                    assert(data@[j] == data_before[j]);
                } else {
                    let c = j - 4 * p;
                    vstd::arithmetic::div_mod::lemma_fundamental_div_mod_converse(
                        j,
                        4,
                        p as int,
                        c,
                    );
                    assert(j / 4 == p as int);
                    assert(data@[j] == spec_blend_channel(
                        layer.data[j],
                        layer.data[4 * (p as int) + 3],
                        image.data[j],
                    ));
                }
            }
        }
        p = p + 1;
    }
    PixelBuffer { width: image.width, height: image.height, data }
}

/// `crop`, clamped to a raster of the given extents: the origin pulled
/// inside, the extents cut at the edges.
pub open spec fn spec_clamped_crop(width: int, height: int, crop: CropRect) -> CropRect {
    let cx = if crop.x <= width {
        crop.x as int
    } else {
        width
    };
    let cy = if crop.y <= height {
        crop.y as int
    } else {
        height
    };
    let cw = if crop.width <= width - cx {
        crop.width as int
    } else {
        width - cx
    };
    let ch = if crop.height <= height - cy {
        crop.height as int
    } else {
        height - cy
    };
    CropRect { x: cx as u32, y: cy as u32, width: cw as u32, height: ch as u32 }
}

/// Cuts the sub-rectangle `crop` (clamped to the buffer) out of `buf`.
#[verifier::rlimit(50)]
pub fn crop_buffer(buf: &PixelBuffer, crop: CropRect) -> (r: PixelBuffer)
    requires
        buf.wf(),
    ensures
        r.wf(),
        r.width == spec_clamped_crop(buf.width as int, buf.height as int, crop).width,
        r.height == spec_clamped_crop(buf.width as int, buf.height as int, crop).height,
        forall|x: int, y: int, c: int|
            #![trigger r.pixel(x, y, c)]
            0 <= x < r.width && 0 <= y < r.height && 0 <= c < 4 ==> r.pixel(x, y, c) == buf.pixel(
                x + spec_clamped_crop(buf.width as int, buf.height as int, crop).x,
                y + spec_clamped_crop(buf.width as int, buf.height as int, crop).y,
                c,
            ),
{
    let cx: u32 = if crop.x <= buf.width {
        crop.x
    } else {
        buf.width
    };
    let cy: u32 = if crop.y <= buf.height {
        crop.y
    } else {
        buf.height
    };
    let cw: u32 = if crop.width <= buf.width - cx {
        crop.width
    } else {
        buf.width - cx
    };
    let ch: u32 = if crop.height <= buf.height - cy {
        crop.height
    } else {
        buf.height - cy
    };
    let mut data: Vec<u8> = Vec::new();
    let mut y: usize = 0;
    while y < ch as usize
        invariant
            buf.wf(),
            cx + cw <= buf.width,
            cy + ch <= buf.height,
            cw <= MAX_DIMENSION,
            ch <= MAX_DIMENSION,
            y <= ch,
            data.len() == 4 * (y as int) * (cw as int),
            forall|py: int, px: int, c: int|
                #![trigger data[4 * (py * cw + px) + c]]
                0 <= py < y && 0 <= px < cw && 0 <= c < 4 ==> data[4 * (py * cw + px) + c]
                    == buf.pixel(px + cx, py + cy, c),
        decreases ch - y,
    {
        let mut x: usize = 0;
        proof {
            assert(4 * ((y as int) * cw + 0) == 4 * (y as int) * (cw as int)) by (nonlinear_arith);
        }
        while x < cw as usize
            invariant
                buf.wf(),
                cx + cw <= buf.width,
                cy + ch <= buf.height,
                cw <= MAX_DIMENSION,
                ch <= MAX_DIMENSION,
                y < ch,
                x <= cw,
                data.len() == 4 * ((y as int) * cw + x),
                forall|py: int, px: int, c: int|
                    #![trigger data[4 * (py * cw + px) + c]]
                    (0 <= py < y && 0 <= px < cw && 0 <= c < 4) || (py == y && 0 <= px < x && 0
                        <= c < 4) ==> data[4 * (py * cw + px) + c] == buf.pixel(
                        px + cx,
                        py + cy,
                        c,
                    ),
            decreases cw - x,
        {
            let sx: usize = cx as usize + x;
            let sy: usize = cy as usize + y;
            proof {
                let w = buf.width as int;
                let h = buf.height as int;
                let syi = sy as int;
                let sxi = sx as int;
                assert(syi * w + sxi < w * h && 0 <= syi * w && 4 * (syi * w + sxi) + 4 <= 4 * w
                    * h && w * h <= 0x1000_0000) by (nonlinear_arith)
                    requires
                        0 <= sxi < w,
                        0 <= syi < h,
                        w <= 0x4000,
                        h <= 0x4000,
                ;
                assert(0 <= 4 * ((y as int) * cw + x) && 4 * ((y as int) * cw + x) + 4
                    <= 0x4000_0000) by (nonlinear_arith)
                    requires
                        0 <= x < cw,
                        0 <= y < ch,
                        cw <= 0x4000,
                        ch <= 0x4000,
                ;
            }
            let base: usize = 4 * (sy * buf.width as usize + sx);
            let ghost data_before = data@;
            data.push(buf.data[base]);
            data.push(buf.data[base + 1]);
            data.push(buf.data[base + 2]);
            data.push(buf.data[base + 3]);
            proof {
                assert(4 * ((y as int) * cw + (x + 1)) == 4 * ((y as int) * cw + x) + 4)
                    by (nonlinear_arith);
                assert forall|py: int, px: int, c: int|
                    (0 <= py < y && 0 <= px < cw && 0 <= c < 4) || (py == y && 0 <= px < x + 1 && 0
                        <= c < 4) implies #[trigger] data@[4 * (py * cw + px) + c] == buf.pixel(
                    px + cx,
                    py + cy,
                    c,
                ) by {
                    if py == y && px == x {
                        assert(4 * (py * cw + px) + c == data_before.len() + c);
                        assert(data@[data_before.len() + c] == buf.data[4 * ((sy as int) * (
                        buf.width as int) + sx) + c]);
                    } else {
                        assert(0 <= 4 * (py * cw + px) + c < data_before.len()) by (nonlinear_arith)
                            requires
                                (0 <= py < y && 0 <= px < cw && 0 <= c < 4) || (py == y && 0 <= px
                                    < x && 0 <= c < 4),
                                data_before.len() == 4 * ((y as int) * cw + x),
                                0 <= cw,
                        ;
                        assert(data@[4 * (py * cw + px) + c] == data_before[4 * (py * cw + px)
                            + c]);
                    }
                }
            }
            x = x + 1;
        }
        proof {
            assert(4 * ((y as int) * cw + cw) == 4 * ((y + 1) as int) * (cw as int))
                by (nonlinear_arith);
        }
        y = y + 1;
    }
    proof {
        assert(4 * (ch as int) * (cw as int) == 4 * (cw as int) * (ch as int)) by (nonlinear_arith);
    }
    PixelBuffer { width: cw, height: ch, data }
}

/// Flattens the rasterized annotation layer onto the source image: the
/// layer is composited source-over onto the pixels, and the result is
/// cropped to `crop_rec` (clamped to the image) when one is supplied.
/// Nothing is returned exactly when the extents are empty or the layer was
/// rasterized at different extents than the source.
pub fn draw_on_buffer(layer: &PixelBuffer, image: &PixelBuffer, crop_rec: Option<CropRect>) -> (r:
    Option<PixelBuffer>)
    requires
        layer.wf(),
        image.wf(),
    ensures
        r is Some <==> image.width > 0 && image.height > 0 && layer.width == image.width
            && layer.height == image.height,
        r matches Some(out) ==> out.wf() && match crop_rec {
            None => out.width == image.width && out.height == image.height && forall|j: int|
                0 <= j < out.data.len() ==> out.data[j] == spec_composite_byte(*layer, *image, j),
            Some(cr) => {
                let cc = spec_clamped_crop(image.width as int, image.height as int, cr);
                out.width == cc.width && out.height == cc.height && forall|x: int, y: int, c: int|
                    #![trigger out.pixel(x, y, c)]
                    0 <= x < out.width && 0 <= y < out.height && 0 <= c < 4 ==> out.pixel(x, y, c)
                        == spec_composite_byte(
                        *layer,
                        *image,
                        4 * ((y + cc.y) * image.width + (x + cc.x)) + c,
                    )
            },
        },
{
    if image.width == 0 || image.height == 0 || layer.width != image.width || layer.height
        != image.height {
        return None;
    }
    let composited = composite_over(layer, image);
    match crop_rec {
        None => Some(composited),
        Some(cr) => {
            let out = crop_buffer(&composited, cr);
            proof {
                let cc = spec_clamped_crop(image.width as int, image.height as int, cr);
                assert forall|x: int, y: int, c: int|
                    0 <= x < out.width && 0 <= y < out.height && 0 <= c < 4 implies #[trigger] out.pixel(
                    x,
                    y,
                    c,
                ) == spec_composite_byte(
                    *layer,
                    *image,
                    4 * ((y + cc.y) * image.width + (x + cc.x)) + c,
                ) by {
                    assert(out.pixel(x, y, c) == composited.pixel(x + cc.x, y + cc.y, c));
                    assert(0 <= 4 * ((y + cc.y) * (composited.width as int) + (x + cc.x)) + c < 4
                        * (composited.width as int) * (composited.height as int))
                        by (nonlinear_arith)
                        requires
                            0 <= x + cc.x < composited.width,
                            0 <= y + cc.y < composited.height,
                            0 <= c < 4,
                    ;
                }
            }
            Some(out)
        },
    }
}

} // verus!
