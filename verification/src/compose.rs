//! Drawing an image onto a screen-sized buffer of premultiplied pixels, blending by alpha.

use vstd::prelude::*;
use crate::bitmap::{Bitmap, image_pixels, image_size};
use crate::color::{
    Channels,
    Color,
    premultiplied_valid,
    spec_premultiply,
    spec_unpremultiply,
};
use crate::geom::Point;

verus! {

/// A pixel `src` drawn over the premultiplied pixel `dst`, as a premultiplied pixel: a
/// transparent `src` leaves `dst`, an opaque one replaces it, and one in between is
/// composited over `dst` ("source over"), its colour channels weighted by the alphas.
pub open spec fn composite_pixel(src: Channels, dst: Channels) -> Channels {
    if src.3 == 0 {
        dst
    } else if src.3 == 255 {
        src
    } else {
        let d = spec_unpremultiply(dst);
        let sa = src.3 as int;
        let da = d.3 as int;
        let inv = 255 - sa;
        let out_a = sa + da * inv / 255;
        if out_a == 0 {
            (0u8, 0u8, 0u8, 0u8)
        } else {
            spec_premultiply(
                (
                    ((src.0 * sa + d.0 * da * inv / 255) / out_a) as u8,
                    ((src.1 * sa + d.1 * da * inv / 255) / out_a) as u8,
                    ((src.2 * sa + d.2 * da * inv / 255) / out_a) as u8,
                    out_a as u8,
                ),
            )
        }
    }
}

/// A pixel with its red and blue channels exchanged.
pub open spec fn swap_red_blue(p: Channels) -> Channels {
    (p.2, p.1, p.0, p.3)
}

/// Compositing works channel by channel: each colour channel of the result depends only on
/// the same channel of the source and the destination (and on their alphas), so exchanging
/// two channels in both exchanges them in the result.
pub proof fn lemma_composite_channelwise(src: Channels, d1: Channels, d2: Channels)
    ensures
        d1.3 == d2.3 && d1.0 == d2.0 ==> composite_pixel(src, d1).0 == composite_pixel(src, d2).0,
        d1.3 == d2.3 && d1.1 == d2.1 ==> composite_pixel(src, d1).1 == composite_pixel(src, d2).1,
        d1.3 == d2.3 && d1.2 == d2.2 ==> composite_pixel(src, d1).2 == composite_pixel(src, d2).2,
        composite_pixel(src, d1).3 == composite_pixel(src, (d2.0, d2.1, d2.2, d1.3)).3,
        composite_pixel(swap_red_blue(src), swap_red_blue(d1)) == swap_red_blue(
            composite_pixel(src, d1),
        ),
{
}

/// Source over: a transparent source leaves the destination, an opaque one replaces it, the
/// result is at least as opaque as the source, and drawing onto an opaque destination leaves
/// it opaque.
pub proof fn lemma_composite_alpha(src: Channels, dst: Channels)
    ensures
        src.3 == 0 ==> composite_pixel(src, dst) == dst,
        src.3 == 255 ==> composite_pixel(src, dst) == src,
        composite_pixel(src, dst).3 >= src.3,
        dst.3 == 255 ==> composite_pixel(src, dst).3 == 255,
{
    if 0 < src.3 < 255 {
        let sa = src.3 as int;
        let da = dst.3 as int;
        assert(da * (255 - sa) / 255 >= 0) by (nonlinear_arith)
            requires
                0 <= da,
                0 <= 255 - sa,
        ;
        assert(sa + da * (255 - sa) / 255 <= 255) by (nonlinear_arith)
            requires
                0 <= da <= 255,
                0 < sa < 255,
        ;
        if da == 255 {
            assert(255 * (255 - sa) / 255 == 255 - sa) by (nonlinear_arith);
        }
    }
}

/// Every pixel of the buffer is a valid premultiplied pixel.
pub open spec fn all_premultiplied(pixels: Seq<Channels>) -> bool {
    forall|i: int| 0 <= i < pixels.len() ==> premultiplied_valid(#[trigger] pixels[i])
}

/// The pixel at `(px, py)` of a buffer `width` wide after `image` is drawn with its top-left
/// corner at `point`: the image pixel over it composited onto it, or the pixel as it was
/// where the image does not reach.
pub open spec fn drawn_pixel(
    old: Seq<Channels>,
    width: int,
    img: Map<(u32, u32), Channels>,
    iw: int,
    ih: int,
    point: Point,
    px: int,
    py: int,
) -> Channels {
    let sx = px - point.x;
    let sy = py - point.y;
    if 0 <= sx < iw && 0 <= sy < ih {
        composite_pixel(img[(sx as u32, sy as u32)], old[py * width + px])
    } else {
        old[py * width + px]
    }
}

/// Two positions in a buffer `w` wide have the same index only if they are the same.
pub(crate) proof fn lemma_index_unique(px: int, py: int, qx: int, qy: int, w: int)
    requires
        0 <= px < w,
        0 <= qx < w,
        0 <= py,
        0 <= qy,
        py * w + px == qy * w + qx,
    ensures
        px == qx,
        py == qy,
{
    if py < qy {
        assert(py * w + px < qy * w + qx) by (nonlinear_arith)
            requires
                py < qy,
                0 <= px < w,
                0 <= qx,
        ;
    } else if py > qy {
        assert(py * w + px > qy * w + qx) by (nonlinear_arith)
            requires
                py > qy,
                0 <= qx < w,
                0 <= px,
        ;
    }
}

/// Every position of a buffer `w` wide and `h` high has an index within the buffer.
pub(crate) proof fn lemma_index_bound(px: int, py: int, w: int, h: int)
    requires
        0 <= px < w,
        0 <= py < h,
    ensures
        0 <= py * w + px < w * h,
{
    assert(0 <= py * w + px < w * h) by (nonlinear_arith)
        requires
            0 <= px < w,
            0 <= py < h,
    ;
}

/// Draws one pixel of the image onto one of the buffer, blending by alpha.
fn blend_into(src: Channels, dst: Channels) -> (p: Channels)
    requires
        premultiplied_valid(dst),
    ensures
        p == composite_pixel(src, dst),
        premultiplied_valid(p),
{
    let a = src.3;
    if a == 0 {
        dst
    } else if a == 255 {
        src
    } else {
        let d = Color::from_premultiplied(dst);
        let src_a = a as u32;
        let dst_a = d.a() as u32;
        let inv_src_a = 255 - src_a;
        assert(dst_a * inv_src_a <= 255 * 255) by (nonlinear_arith)
            requires
                dst_a <= 255,
                inv_src_a <= 255,
        ;
        let out_a = src_a + (dst_a * inv_src_a) / 255;
        assert(out_a <= 255) by (nonlinear_arith)
            requires
                out_a == src_a + (dst_a * inv_src_a) / 255,
                inv_src_a == 255 - src_a,
                dst_a <= 255,
                src_a <= 255,
        ;
        if out_a == 0 {
            Color::rgba(0, 0, 0, 0).to_premultiplied()
        } else {
            let dr = d.r() as u32;
            let dg = d.g() as u32;
            let db = d.b() as u32;
            assert(dr * dst_a <= 255 * 255 && dg * dst_a <= 255 * 255 && db * dst_a <= 255 * 255)
                by (nonlinear_arith)
                requires
                    dr <= 255,
                    dg <= 255,
                    db <= 255,
                    dst_a <= 255,
            ;
            assert(dr * dst_a * inv_src_a <= 255 * 255 * 255 && dg * dst_a * inv_src_a <= 255 * 255
                * 255 && db * dst_a * inv_src_a <= 255 * 255 * 255) by (nonlinear_arith)
                requires
                    dr <= 255,
                    dg <= 255,
                    db <= 255,
                    dst_a <= 255,
                    inv_src_a <= 255,
            ;
            assert(src.0 * src_a <= 255 * 255 && src.1 * src_a <= 255 * 255 && src.2 * src_a <= 255
                * 255) by (nonlinear_arith)
                requires
                    src_a <= 255,
            ;
            let out_r = ((src.0 as u32 * src_a + dr * dst_a * inv_src_a / 255) / out_a) as u8;
            let out_g = ((src.1 as u32 * src_a + dg * dst_a * inv_src_a / 255) / out_a) as u8;
            let out_b = ((src.2 as u32 * src_a + db * dst_a * inv_src_a / 255) / out_a) as u8;
            Color::rgba(out_r, out_g, out_b, out_a as u8).to_premultiplied()
        }
    }
}

/// Drawing an image of `size` at `point` onto a buffer `width` by `height` stays within
/// `i32`: the buffer's sides, the index of its last pixel, and the last pixel the image
/// covers.
pub open spec fn draw_fits(width: u32, height: u32, size: (u32, u32), point: Point) -> bool {
    &&& width <= i32::MAX
    &&& height <= i32::MAX
    &&& width * height <= i32::MAX + 1
    &&& size.0 <= i32::MAX + 1
    &&& size.1 <= i32::MAX + 1
    &&& point.x + size.0 <= i32::MAX + 1
    &&& point.y + size.1 <= i32::MAX + 1
}

/// Whether drawing an image of `size` at `point` onto a buffer `width` by `height` stays
/// within `i32`.
pub fn fits_draw(width: u32, height: u32, size: (u32, u32), point: Point) -> (b: bool)
    ensures
        b == draw_fits(width, height, size, point),
{
    let max = i32::MAX as u64;
    assert((width as u64) * (height as u64) <= u64::MAX) by (nonlinear_arith)
        requires
            width <= u32::MAX,
            height <= u32::MAX,
    ;
    width as u64 <= max && height as u64 <= max && (width as u64) * (height as u64) <= max + 1
        && size.0 as u64 <= max + 1 && size.1 as u64 <= max + 1 && point.x as i64 + size.0 as i64
        <= max as i64 + 1 && point.y as i64 + size.1 as i64 <= max as i64 + 1
}

/// Draws `image` with its top-left corner at `point` onto `pixels`, a buffer of premultiplied
/// pixels `width` wide and `height` high stored row by row. Pixels of the image that fall
/// outside the buffer are skipped; transparent ones leave the buffer as it is, opaque ones
/// replace it, and the others are blended over it.
pub fn draw_image(pixels: &mut Vec<Channels>, width: u32, height: u32, image: &Bitmap, point: Point)
    requires
        old(pixels)@.len() == width * height,
        all_premultiplied(old(pixels)@),
        draw_fits(width, height, image_size(*image), point),
    ensures
        final(pixels)@.len() == old(pixels)@.len(),
        all_premultiplied(final(pixels)@),
        forall|px: int, py: int|
            0 <= px < width && 0 <= py < height ==> #[trigger] final(pixels)@[py * width + px]
                == drawn_pixel(
                old(pixels)@,
                width as int,
                image_pixels(*image),
                image_size(*image).0 as int,
                image_size(*image).1 as int,
                point,
                px,
                py,
            ),
{
    let ghost start = pixels@;
    let ghost img = image_pixels(*image);
    let (iw, ih) = image.dimensions();
    let ghost w = width as int;
    let ghost h = height as int;
    let pw = width as i32;
    let ph = height as i32;
    let mut y: u32 = 0;
    while y < ih
        invariant
            0 <= y <= ih,
            (iw, ih) == image_size(*image),
            img == image_pixels(*image),
            pixels@.len() == start.len(),
            start.len() == w * h,
            w == width,
            h == height,
            pw == width,
            ph == height,
            width * height <= i32::MAX + 1,
            iw <= i32::MAX + 1,
            ih <= i32::MAX + 1,
            point.x + iw <= i32::MAX + 1,
            point.y + ih <= i32::MAX + 1,
            all_premultiplied(pixels@),
            forall|px: int, py: int|
                0 <= px < w && 0 <= py < h ==> #[trigger] pixels@[py * w + px] == {
                    let sx = px - point.x;
                    let sy = py - point.y;
                    if 0 <= sx < iw && 0 <= sy < y {
                        composite_pixel(img[(sx as u32, sy as u32)], start[py * w + px])
                    } else {
                        start[py * w + px]
                    }
                },
        decreases ih - y,
    {
        let mut x: u32 = 0;
        while x < iw
            invariant
                0 <= y < ih,
                0 <= x <= iw,
                (iw, ih) == image_size(*image),
                img == image_pixels(*image),
                pixels@.len() == start.len(),
                start.len() == w * h,
                w == width,
                h == height,
                pw == width,
                ph == height,
                width * height <= i32::MAX + 1,
                iw <= i32::MAX + 1,
                ih <= i32::MAX + 1,
                point.x + iw <= i32::MAX + 1,
                point.y + ih <= i32::MAX + 1,
                all_premultiplied(pixels@),
                forall|px: int, py: int|
                    0 <= px < w && 0 <= py < h ==> #[trigger] pixels@[py * w + px] == {
                        let sx = px - point.x;
                        let sy = py - point.y;
                        if 0 <= sx < iw && (0 <= sy < y || (sy == y && 0 <= sx < x)) {
                            composite_pixel(img[(sx as u32, sy as u32)], start[py * w + px])
                        } else {
                            start[py * w + px]
                        }
                    },
            decreases iw - x,
        {
            let px = point.x + x as i32;
            let py = point.y + y as i32;
            if px >= 0 && px < pw && py >= 0 && py < ph {
                proof {
                    lemma_index_bound(px as int, py as int, w, h);
                }
                let idx = (py * pw + px) as usize;
                let src = image.get_pixel(x, y);
                let dst = pixels[idx];
                let out = blend_into(src, dst);
                let ghost before = pixels@;
                pixels.set(idx, out);
                proof {
                    assert forall|qx: int, qy: int|
                        0 <= qx < w && 0 <= qy < h implies #[trigger] pixels@[qy * w + qx] == {
                            let sx = qx - point.x;
                            let sy = qy - point.y;
                            if 0 <= sx < iw && (0 <= sy < y || (sy == y && 0 <= sx < x + 1)) {
                                composite_pixel(img[(sx as u32, sy as u32)], start[qy * w + qx])
                            } else {
                                start[qy * w + qx]
                            }
                        } by {
                        lemma_index_bound(qx, qy, w, h);
                        if qy * w + qx == idx {
                            lemma_index_unique(qx, qy, px as int, py as int, w);
                        } else {
                            assert(pixels@[qy * w + qx] == before[qy * w + qx]);
                            if qx == px && qy == py {
                                assert(false);
                            }
                        }
                    }
                    assert forall|i: int| 0 <= i < pixels@.len() implies premultiplied_valid(
                        #[trigger] pixels@[i],
                    ) by {
                        if i != idx {
                            assert(pixels@[i] == before[i]);
                        }
                    }
                }
            } else {
                proof {
                    assert forall|qx: int, qy: int|
                        0 <= qx < w && 0 <= qy < h implies #[trigger] pixels@[qy * w + qx] == {
                            let sx = qx - point.x;
                            let sy = qy - point.y;
                            if 0 <= sx < iw && (0 <= sy < y || (sy == y && 0 <= sx < x + 1)) {
                                composite_pixel(img[(sx as u32, sy as u32)], start[qy * w + qx])
                            } else {
                                start[qy * w + qx]
                            }
                        } by {
                        if qx - point.x == x && qy - point.y == y {
                            assert(false);
                        }
                    }
                }
            }
            x = x + 1;
        }
        y = y + 1;
    }
}

} // verus!
