//! RGBA images held by the `image` crate, and the rounding of their corners.

use vstd::prelude::*;
use image::RgbaImage;
use fast_image_resize::images::Image as FirImage;
use fast_image_resize::{FilterType, PixelType, ResizeAlg, ResizeOptions, Resizer};
use crate::color::Channels;

verus! {

/// An RGBA image of the `image` crate (`image::RgbaImage`), held whole: what it holds is
/// spoken of through `image_pixels` and `image_size` only.
#[verifier::external_body]
#[derive(Debug)]
pub struct Bitmap {
    image: RgbaImage,
}

/// The pixels of an image, by column and row.
pub uninterp spec fn image_pixels(img: Bitmap) -> Map<(u32, u32), Channels>;

/// The width and height of an image.
pub uninterp spec fn image_size(img: Bitmap) -> (u32, u32);

/// The pixels of an image of `width` by `height` pixels that are all transparent black.
pub open spec fn transparent_pixels(width: u32, height: u32) -> Map<(u32, u32), Channels> {
    Map::new(|p: (u32, u32)| p.0 < width && p.1 < height, |p: (u32, u32)| (0u8, 0u8, 0u8, 0u8))
}

/// How an image is sampled when it is scaled.
#[derive(Debug, Clone, Copy, PartialEq, Eq, Structural)]
pub enum ScaleFilter {
    /// The nearest pixel.
    Nearest,
    /// Linear interpolation between neighbouring pixels (the `Bilinear` filter of
    /// `fast_image_resize`, the `Triangle` filter of `image`).
    Bilinear,
}

/// The pixels of an image of size `size` scaled with `filter` to `width` by `height` by
/// `fast_image_resize`, whose code for each processor gives the same pixels.
pub uninterp spec fn scaled(pixels: Map<(u32, u32), Channels>, size: (u32, u32), width: u32, height: u32, filter: ScaleFilter) -> Map<(u32, u32), Channels>;

/// The pixels and size of an image of size `size` scaled with `filter` to cover `width` by
/// `height` and cropped about its middle.
pub uninterp spec fn filled(pixels: Map<(u32, u32), Channels>, size: (u32, u32), width: u32, height: u32, filter: ScaleFilter) -> (Map<(u32, u32), Channels>, (u32, u32));

/// The pixels of an image of size `size` after an image of size `top_size` is blended over it
/// with its top-left corner at `(x, y)`: the blend is the `image` crate's, in floating point.
pub uninterp spec fn overlaid(pixels: Map<(u32, u32), Channels>, size: (u32, u32), top: Map<(u32, u32), Channels>, top_size: (u32, u32), x: int, y: int) -> Map<(u32, u32), Channels>;

/// The bytes of pixel `(x, y)` of a `width`-wide image stored row by row, four bytes a pixel.
pub open spec fn raw_pixel(raw: Seq<u8>, width: int, x: int, y: int) -> Channels {
    let i = 4 * (y * width + x);
    (raw[i], raw[i + 1], raw[i + 2], raw[i + 3])
}

impl Bitmap {
    /// An image of `width` by `height` pixels over `raw`, four bytes a pixel row by row
    /// (`ImageBuffer::from_raw`); `None` if `raw` is too short for that.
    #[verifier::external_body]
    pub fn from_raw(width: u32, height: u32, raw: Vec<u8>) -> (b: Option<Bitmap>)
        ensures
            b is Some <==> 4 * width * height <= raw.len(),
            b matches Some(img) ==> {
                &&& image_size(img) == (width, height)
                &&& forall|x: u32, y: u32|
                    x < width && y < height ==> #[trigger] image_pixels(img)[(x, y)] == raw_pixel(
                        raw@,
                        width as int,
                        x as int,
                        y as int,
                    )
            },
    {
        RgbaImage::from_raw(width, height, raw).map(|image| Bitmap { image })
    }

    /// The bytes the image is stored in, four a pixel row by row (`ImageBuffer::into_raw`).
    #[verifier::external_body]
    pub fn into_raw(self) -> (raw: Vec<u8>)
        ensures
            4 * image_size(self).0 * image_size(self).1 <= raw.len(),
            forall|x: u32, y: u32|
                x < image_size(self).0 && y < image_size(self).1 ==> raw_pixel(
                    raw@,
                    image_size(self).0 as int,
                    x as int,
                    y as int,
                ) == #[trigger] image_pixels(self)[(x, y)],
    {
        self.image.into_raw()
    }

    /// A transparent image of `width` by `height` pixels (`ImageBuffer::new`, which panics
    /// when the buffer would not fit in memory).
    #[verifier::external_body]
    pub fn new(width: u32, height: u32) -> (b: Bitmap)
        requires
            4 * width * height <= usize::MAX,
        ensures
            image_size(b) == (width, height),
            image_pixels(b) == transparent_pixels(width, height),
    {
        Bitmap { image: RgbaImage::new(width, height) }
    }

    /// The image scaled to `width` by `height` pixels with `filter`
    /// (`fast_image_resize::Resizer::resize`). The resizer's buffer over the image's bytes
    /// holds at least four bytes for each pixel, and both images are of four-byte pixels, so
    /// it refuses nothing; scaling from or to an empty image leaves the result transparent.
    /// The resizer picks its code by the processor it runs on, and each gives the same pixels.
    #[verifier::external_body]
    pub fn resized(&self, width: u32, height: u32, filter: ScaleFilter) -> (r: Option<Bitmap>)
        requires
            4 * width * height <= usize::MAX,
        ensures
            r is Some,
            image_size(r.unwrap()) == (width, height),
            image_pixels(r.unwrap()) == scaled(
                image_pixels(*self),
                image_size(*self),
                width,
                height,
                filter,
            ),
    {
        let (w, h) = self.image.dimensions();
        let src = FirImage::from_vec_u8(w, h, self.image.as_raw().clone(), PixelType::U8x4).ok()?;
        let mut dst = FirImage::new(width, height, PixelType::U8x4);
        let alg = match filter {
            ScaleFilter::Nearest => ResizeAlg::Nearest,
            ScaleFilter::Bilinear => ResizeAlg::Convolution(FilterType::Bilinear),
        };
        Resizer::new().resize(&src, &mut dst, &ResizeOptions::new().resize_alg(alg)).ok()?;
        RgbaImage::from_raw(width, height, dst.into_vec()).map(|image| Bitmap { image })
    }

    /// The image scaled with `filter` to cover `width` by `height` pixels with its aspect ratio
    /// kept, then cropped about its middle (`DynamicImage::resize_to_fill`).
    #[verifier::external_body]
    pub fn resized_to_fill(&self, width: u32, height: u32, filter: ScaleFilter) -> (b: Bitmap)
        requires
            image_size(*self).0 > 0,
            image_size(*self).1 > 0,
        ensures
            (image_pixels(b), image_size(b)) == filled(
                image_pixels(*self),
                image_size(*self),
                width,
                height,
                filter,
            ),
    {
        let dynamic = image::DynamicImage::ImageRgba8(self.image.clone());
        let f = match filter {
            ScaleFilter::Nearest => image::imageops::FilterType::Nearest,
            ScaleFilter::Bilinear => image::imageops::FilterType::Triangle,
        };
        let filled = dynamic.resize_to_fill(width, height, f);
        Bitmap { image: filled.into_rgba8() }
    }

    /// Blends `top` over this image with its top-left corner at `(x, y)`, cropped to this image
    /// (`image::imageops::overlay`); the size stays as it is.
    #[verifier::external_body]
    pub fn overlay(&mut self, top: &Bitmap, x: i64, y: i64)
        ensures
            image_size(*final(self)) == image_size(*old(self)),
            image_pixels(*final(self)) == overlaid(
                image_pixels(*old(self)),
                image_size(*old(self)),
                image_pixels(*top),
                image_size(*top),
                x as int,
                y as int,
            ),
    {
        image::imageops::overlay(&mut self.image, &top.image, x, y);
    }

    /// The width and height of the image (`ImageBuffer::dimensions`).
    #[verifier::external_body]
    pub fn dimensions(&self) -> (d: (u32, u32))
        ensures
            d == image_size(*self),
    {
        self.image.dimensions()
    }

    /// The pixel at column `x` and row `y` (`ImageBuffer::get_pixel`), which panics outside
    /// the image.
    #[verifier::external_body]
    pub fn get_pixel(&self, x: u32, y: u32) -> (p: Channels)
        requires
            x < image_size(*self).0,
            y < image_size(*self).1,
        ensures
            p == image_pixels(*self)[(x, y)],
    {
        let p = self.image.get_pixel(x, y);
        (p[0], p[1], p[2], p[3])
    }

    /// Replaces the pixel at column `x` and row `y` (`ImageBuffer::put_pixel`), which panics
    /// outside the image; every other pixel and the size stay as they are.
    #[verifier::external_body]
    pub fn put_pixel(&mut self, x: u32, y: u32, p: Channels)
        requires
            x < image_size(*old(self)).0,
            y < image_size(*old(self)).1,
        ensures
            image_size(*final(self)) == image_size(*old(self)),
            image_pixels(*final(self)) == image_pixels(*old(self)).insert((x, y), p),
    {
        self.image.put_pixel(x, y, image::Rgba([p.0, p.1, p.2, p.3]));
    }
}

/// A fully transparent black pixel.
pub open spec fn clear_pixel() -> Channels {
    (0u8, 0u8, 0u8, 0u8)
}

/// The squared distance of `(x, y)` from the centre `(r, r)` of a corner's circle.
pub open spec fn corner_distance_squared(x: int, y: int, r: int) -> int {
    (x - r) * (x - r) + (y - r) * (y - r)
}

/// How much of a pixel at squared distance `d2` from the centre, between the circles of
/// radius `r` and `r + 1`, the rounded corner keeps, out of 255: in proportion to how far
/// `d2` lies inside the outer circle.
pub open spec fn corner_coverage(d2: int, r: int) -> int {
    ((r + 1) * (r + 1) - d2) * 255 / (2 * r + 1)
}

/// `p` with its alpha scaled by the coverage of a pixel at squared distance `d2`.
pub open spec fn faded(p: Channels, d2: int, r: int) -> Channels {
    (p.0, p.1, p.2, (corner_coverage(d2, r) * p.3 / 255) as u8)
}

/// `m` with the pixel at `(x, y)` faded for squared distance `d2`.
pub open spec fn fade_at(m: Map<(u32, u32), Channels>, x: u32, y: u32, d2: int, r: int) -> Map<
    (u32, u32),
    Channels,
> {
    m.insert((x, y), faded(m[(x, y)], d2, r))
}

/// The pixels after the corner pass at `(x, y)`: `(x, y)` is the offset from each corner of
/// the image (top-left, top-right, bottom-left, bottom-right, in that order). Outside the
/// circle of radius `r + 1` around `(r, r)` the four pixels are cleared; between that circle
/// and the one of radius `r` their alpha is faded; inside, they are kept.
pub open spec fn corner_step(
    m: Map<(u32, u32), Channels>,
    w: u32,
    h: u32,
    r: u32,
    x: u32,
    y: u32,
) -> Map<(u32, u32), Channels> {
    let d2 = corner_distance_squared(x as int, y as int, r as int);
    let xr = (w - x - 1) as u32;
    let yb = (h - y - 1) as u32;
    if d2 > (r + 1) * (r + 1) {
        m.insert((x, y), clear_pixel()).insert((xr, y), clear_pixel()).insert(
            (x, yb),
            clear_pixel(),
        ).insert((xr, yb), clear_pixel())
    } else if d2 > r * r {
        fade_at(fade_at(fade_at(fade_at(m, x, y, d2, r as int), xr, y, d2, r as int), x, yb, d2, r as int), xr, yb, d2, r as int)
    } else {
        m
    }
}

/// The pixels after the corner passes at `(x, 0)` up to `(x, ny - 1)`.
pub open spec fn corner_column(
    m: Map<(u32, u32), Channels>,
    w: u32,
    h: u32,
    r: u32,
    x: u32,
    ny: nat,
) -> Map<(u32, u32), Channels>
    decreases ny,
{
    if ny == 0 {
        m
    } else {
        corner_step(corner_column(m, w, h, r, x, (ny - 1) as nat), w, h, r, x, (ny - 1) as u32)
    }
}

/// The pixels after the corner passes of the columns `0` up to `nx - 1`, each for the rows
/// `0` up to `r`.
pub open spec fn rounded_corners(m: Map<(u32, u32), Channels>, w: u32, h: u32, r: u32, nx: nat) -> Map<
    (u32, u32),
    Channels,
>
    decreases nx,
{
    if nx == 0 {
        m
    } else {
        corner_column(rounded_corners(m, w, h, r, (nx - 1) as nat), w, h, r, (nx - 1) as u32, (r + 1) as nat)
    }
}

/// Fades the pixel at `(x, y)` for squared distance `d2`.
fn fade_pixel(image: &mut Bitmap, x: u32, y: u32, d2: i32, r: u32)
    requires
        x < image_size(*old(image)).0,
        y < image_size(*old(image)).1,
        r * r < d2 <= (r + 1) * (r + 1),
        (r + 1) * (r + 1) <= i32::MAX,
    ensures
        image_size(*final(image)) == image_size(*old(image)),
        image_pixels(*final(image)) == fade_at(image_pixels(*old(image)), x, y, d2 as int, r as int),
{
    let p = image.get_pixel(x, y);
    assert(r < 65536) by (nonlinear_arith)
        requires
            (r + 1) * (r + 1) <= i32::MAX,
    ;
    let r1: u32 = (r + 1) * (r + 1);
    let span: u32 = 2 * r + 1;
    let inside: u32 = r1 - d2 as u32;
    assert(inside <= span) by (nonlinear_arith)
        requires
            inside == (r + 1) * (r + 1) - d2,
            r * r < d2,
            span == 2 * r + 1,
    ;
    let coverage: u32 = inside * 255 / span;
    assert(coverage <= 255) by (nonlinear_arith)
        requires
            coverage == inside * 255 / (span as int),
            inside <= span,
            span > 0,
    ;
    assert(coverage * (p.3 as u32) <= 255 * 255) by (nonlinear_arith)
        requires
            coverage <= 255,
    ;
    let alpha: u32 = coverage * (p.3 as u32) / 255;
    image.put_pixel(x, y, (p.0, p.1, p.2, alpha as u8));
}

/// The corner pass at `(x, y)`.
fn round_corner_step(image: &mut Bitmap, w: u32, h: u32, r: u32, x: u32, y: u32)
    requires
        image_size(*old(image)) == (w, h),
        x <= r,
        y <= r,
        r <= w,
        r <= h,
        2 * r * r <= i32::MAX,
        (r + 1) * (r + 1) <= i32::MAX,
    ensures
        image_size(*final(image)) == (w, h),
        image_pixels(*final(image)) == corner_step(image_pixels(*old(image)), w, h, r, x, y),
{
    assert(r < 65536 && r * r + r * r <= i32::MAX) by (nonlinear_arith)
        requires
            (r + 1) * (r + 1) <= i32::MAX,
            2 * r * r <= i32::MAX,
    ;
    let ri: i32 = r as i32;
    let dx: i32 = x as i32 - ri;
    let dy: i32 = y as i32 - ri;
    assert(dx * dx <= r * r && dy * dy <= r * r) by (nonlinear_arith)
        requires
            dx == x - r,
            dy == y - r,
            x <= r,
            y <= r,
    ;
    assert(0 <= dx * dx && 0 <= dy * dy) by (nonlinear_arith);
    let d2: i32 = dx * dx + dy * dy;
    let r0: i32 = ri * ri;
    let r1: i32 = (ri + 1) * (ri + 1);
    assert(r * r <= (r + 1) * (r + 1)) by (nonlinear_arith);
    if d2 > r0 {
        // Outside the inner circle the offset is short of the radius on both axes, so the
        // mirrored pixels lie inside the image even when the radius is its whole width.
        assert(x < r && y < r) by (nonlinear_arith)
            requires
                d2 == dx * dx + dy * dy,
                d2 > r * r,
                dx * dx <= r * r,
                dy * dy <= r * r,
                dx == x - r,
                dy == y - r,
                x <= r,
                y <= r,
                0 <= dx * dx,
                0 <= dy * dy,
        ;
        let xr = w - x - 1;
        let yb = h - y - 1;
        if d2 > r1 {
            image.put_pixel(x, y, (0, 0, 0, 0));
            image.put_pixel(xr, y, (0, 0, 0, 0));
            image.put_pixel(x, yb, (0, 0, 0, 0));
            image.put_pixel(xr, yb, (0, 0, 0, 0));
        } else {
            fade_pixel(image, x, y, d2, r);
            fade_pixel(image, xr, y, d2, r);
            fade_pixel(image, x, yb, d2, r);
            fade_pixel(image, xr, yb, d2, r);
        }
    }
}

/// Rounds the corners of an image with radius `radius`: pixels outside a quarter circle of
/// radius `radius + 1` centred `radius` pixels in from each corner become transparent, and
/// those between it and the circle of radius `radius` fade out by how much of them the circle
/// covers, roughly.
pub fn round(image: &mut Bitmap, radius: u32)
    requires
        radius <= image_size(*old(image)).0,
        radius <= image_size(*old(image)).1,
        2 * radius * radius <= i32::MAX,
        (radius + 1) * (radius + 1) <= i32::MAX,
    ensures
        image_size(*final(image)) == image_size(*old(image)),
        image_pixels(*final(image)) == rounded_corners(
            image_pixels(*old(image)),
            image_size(*old(image)).0,
            image_size(*old(image)).1,
            radius,
            (radius + 1) as nat,
        ),
{
    let (width, height) = image.dimensions();
    let ghost start = image_pixels(*image);
    assert(radius < 65536) by (nonlinear_arith)
        requires
            (radius + 1) * (radius + 1) <= i32::MAX,
    ;
    let mut x: u32 = 0;
    while x <= radius
        invariant
            0 <= x <= radius + 1,
            radius <= width,
            radius <= height,
            radius < 65536,
            2 * radius * radius <= i32::MAX,
            (radius + 1) * (radius + 1) <= i32::MAX,
            image_size(*image) == (width, height),
            image_pixels(*image) == rounded_corners(start, width, height, radius, x as nat),
        decreases radius + 1 - x,
    {
        let mut y: u32 = 0;
        while y <= radius
            invariant
                0 <= x <= radius,
                0 <= y <= radius + 1,
                radius <= width,
                radius <= height,
                radius < 65536,
                2 * radius * radius <= i32::MAX,
                (radius + 1) * (radius + 1) <= i32::MAX,
                image_size(*image) == (width, height),
                image_pixels(*image) == corner_column(
                    rounded_corners(start, width, height, radius, x as nat),
                    width,
                    height,
                    radius,
                    x,
                    y as nat,
                ),
            decreases radius + 1 - y,
        {
            round_corner_step(image, width, height, radius, x, y);
            y = y + 1;
        }
        x = x + 1;
    }
}

/// What rounding does to a pixel whose offset from its corner is `(cx, cy)`: cleared outside
/// the outer circle, faded between the circles, kept inside.
pub open spec fn rounded_pixel(p: Channels, cx: int, cy: int, r: int) -> Channels {
    let d2 = corner_distance_squared(cx, cy, r);
    if d2 > (r + 1) * (r + 1) {
        clear_pixel()
    } else if d2 > r * r {
        faded(p, d2, r)
    } else {
        p
    }
}

/// Whether column (or row) `p` of an image `w` wide lies within `r` of either edge.
pub open spec fn near_edge(p: int, w: int, r: int) -> bool {
    p <= r || p >= w - 1 - r
}

/// How far column (or row) `p` lies from the nearer edge it is near.
pub open spec fn edge_offset(p: int, w: int, r: int) -> int {
    if p <= r {
        p
    } else {
        w - 1 - p
    }
}

/// The corners of an image `w` by `h` rounded with radius `r` do not meet.
pub open spec fn corners_apart(w: int, h: int, r: int) -> bool {
    2 * (r + 1) <= w && 2 * (r + 1) <= h
}

/// The pixels after the corner passes of the columns before `nx`, and of the rows before `ny`
/// in column `nx`, when the corners do not meet: each pixel of a corner square whose offset
/// was passed is rounded once, every other pixel is as it was.
pub open spec fn partly_rounded(
    m: Map<(u32, u32), Channels>,
    w: u32,
    h: u32,
    r: u32,
    nx: int,
    ny: int,
    px: u32,
    py: u32,
) -> Channels {
    let cx = edge_offset(px as int, w as int, r as int);
    let cy = edge_offset(py as int, h as int, r as int);
    if near_edge(px as int, w as int, r as int) && near_edge(py as int, h as int, r as int) && (
    cx < nx || (cx == nx && cy < ny)) {
        rounded_pixel(m[(px, py)], cx, cy, r as int)
    } else {
        m[(px, py)]
    }
}

proof fn lemma_corner_step_effect(
    m: Map<(u32, u32), Channels>,
    start: Map<(u32, u32), Channels>,
    w: u32,
    h: u32,
    r: u32,
    x: u32,
    y: u32,
)
    requires
        corners_apart(w as int, h as int, r as int),
        x <= r,
        y <= r,
        forall|px: u32, py: u32|
            px < w && py < h ==> #[trigger] m[(px, py)] == partly_rounded(
                start,
                w,
                h,
                r,
                x as int,
                y as int,
                px,
                py,
            ),
    ensures
        forall|px: u32, py: u32|
            px < w && py < h ==> #[trigger] corner_step(m, w, h, r, x, y)[(px, py)]
                == partly_rounded(start, w, h, r, x as int, y + 1, px, py),
{
    let xr = (w - x - 1) as u32;
    let yb = (h - y - 1) as u32;
    assert(x < xr && y < yb);
    let d2 = corner_distance_squared(x as int, y as int, r as int);
    assert forall|px: u32, py: u32| px < w && py < h implies #[trigger] corner_step(
        m,
        w,
        h,
        r,
        x,
        y,
    )[(px, py)] == partly_rounded(start, w, h, r, x as int, y + 1, px, py) by {
        let hit = (px == x || px == xr) && (py == y || py == yb);
        assert(m[(px, py)] == partly_rounded(start, w, h, r, x as int, y as int, px, py));
        if hit {
            assert(edge_offset(px as int, w as int, r as int) == x);
            assert(edge_offset(py as int, h as int, r as int) == y);
            assert(m[(px, py)] == start[(px, py)]);
        } else {
            assert(!(edge_offset(px as int, w as int, r as int) == x && edge_offset(
                py as int,
                h as int,
                r as int,
            ) == y && near_edge(px as int, w as int, r as int) && near_edge(
                py as int,
                h as int,
                r as int,
            )));
        }
    }
}

proof fn lemma_corner_column_effect(
    start: Map<(u32, u32), Channels>,
    w: u32,
    h: u32,
    r: u32,
    x: u32,
    ny: nat,
)
    requires
        corners_apart(w as int, h as int, r as int),
        x <= r,
        ny <= r + 1,
        forall|px: u32, py: u32|
            px < w && py < h ==> #[trigger] rounded_corners(start, w, h, r, x as nat)[(px, py)]
                == partly_rounded(start, w, h, r, x as int, 0, px, py),
    ensures
        forall|px: u32, py: u32|
            px < w && py < h ==> #[trigger] corner_column(
                rounded_corners(start, w, h, r, x as nat),
                w,
                h,
                r,
                x,
                ny,
            )[(px, py)] == partly_rounded(start, w, h, r, x as int, ny as int, px, py),
    decreases ny,
{
    if ny > 0 {
        lemma_corner_column_effect(start, w, h, r, x, (ny - 1) as nat);
        lemma_corner_step_effect(
            corner_column(rounded_corners(start, w, h, r, x as nat), w, h, r, x, (ny - 1) as nat),
            start,
            w,
            h,
            r,
            x,
            (ny - 1) as u32,
        );
    }
}

proof fn lemma_rounded_corners_effect(
    start: Map<(u32, u32), Channels>,
    w: u32,
    h: u32,
    r: u32,
    nx: nat,
)
    requires
        corners_apart(w as int, h as int, r as int),
        nx <= r + 1,
    ensures
        forall|px: u32, py: u32|
            px < w && py < h ==> #[trigger] rounded_corners(start, w, h, r, nx)[(px, py)]
                == partly_rounded(start, w, h, r, nx as int, 0, px, py),
    decreases nx,
{
    if nx > 0 {
        let x = (nx - 1) as u32;
        lemma_rounded_corners_effect(start, w, h, r, (nx - 1) as nat);
        lemma_corner_column_effect(start, w, h, r, x, (r + 1) as nat);
        assert forall|px: u32, py: u32| px < w && py < h implies #[trigger] rounded_corners(
            start,
            w,
            h,
            r,
            nx,
        )[(px, py)] == partly_rounded(start, w, h, r, nx as int, 0, px, py) by {
            assert(rounded_corners(start, w, h, r, nx)[(px, py)] == corner_column(
                rounded_corners(start, w, h, r, x as nat),
                w,
                h,
                r,
                x,
                (r + 1) as nat,
            )[(px, py)]);
            assert(near_edge(py as int, h as int, r as int) ==> edge_offset(py as int, h as int, r as int) <= r);
        }
    }
}

/// When the corners of an image do not meet, rounding rounds every pixel of each corner
/// square once, by its offset from the corner, and leaves every other pixel as it was.
pub proof fn lemma_round_each_pixel_once(m: Map<(u32, u32), Channels>, w: u32, h: u32, r: u32)
    requires
        corners_apart(w as int, h as int, r as int),
    ensures
        forall|px: u32, py: u32|
            px < w && py < h ==> #[trigger] rounded_corners(m, w, h, r, (r + 1) as nat)[(px, py)]
                == if near_edge(px as int, w as int, r as int) && near_edge(
                py as int,
                h as int,
                r as int,
            ) {
                rounded_pixel(
                    m[(px, py)],
                    edge_offset(px as int, w as int, r as int),
                    edge_offset(py as int, h as int, r as int),
                    r as int,
                )
            } else {
                m[(px, py)]
            },
{
    lemma_rounded_corners_effect(m, w, h, r, (r + 1) as nat);
    assert forall|px: u32, py: u32| px < w && py < h implies #[trigger] rounded_corners(
        m,
        w,
        h,
        r,
        (r + 1) as nat,
    )[(px, py)] == if near_edge(px as int, w as int, r as int) && near_edge(
        py as int,
        h as int,
        r as int,
    ) {
        rounded_pixel(
            m[(px, py)],
            edge_offset(px as int, w as int, r as int),
            edge_offset(py as int, h as int, r as int),
            r as int,
        )
    } else {
        m[(px, py)]
    } by {
        assert(near_edge(px as int, w as int, r as int) ==> edge_offset(px as int, w as int, r as int) <= r);
    }
}

} // verus!
