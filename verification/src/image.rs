//! The image widget: an image file shown in a rectangle, scaled by a mode, with rounded
//! corners, aligned within the rectangle, decoded once and kept.

use vstd::prelude::*;
use crate::bitmap::{Bitmap, ScaleFilter, scaled, image_pixels, image_size, overlaid, round, rounded_corners,
    transparent_pixels};
use crate::color::Channels;
use crate::geom::{Alignment, Point, Rect};

verus! {

/// How an image is fitted to its rectangle.
#[derive(Debug, Clone, Copy, PartialEq, Eq, Structural)]
pub enum ImageMode {
    /// Not scaled.
    Raw,
    /// Scaled to the rectangle's size.
    Cover,
    /// Scaled to fit inside the rectangle, keeping its aspect ratio.
    Contain,
}

/// The size an image of `iw` by `ih` pixels is scaled to so that it fits inside `rw` by
/// `rh` pixels with its aspect ratio kept, in whole pixels.
pub open spec fn spec_contain_size(rw: u32, rh: u32, iw: u32, ih: u32) -> (u32, u32) {
    let by_width = (rw * ih) / (iw as int);
    let by_height = (rh * iw) / (ih as int);
    (
        if rw <= by_height {
            rw
        } else {
            by_height as u32
        },
        if rh <= by_width {
            rh
        } else {
            by_width as u32
        },
    )
}

/// The size an image of `iw` by `ih` pixels is scaled to so that it fits in `rw` by `rh`.
pub fn contain_size(rw: u32, rh: u32, iw: u32, ih: u32) -> (s: (u32, u32))
    requires
        iw > 0,
        ih > 0,
        rw * ih <= u32::MAX,
        rh * iw <= u32::MAX,
    ensures
        s == spec_contain_size(rw, rh, iw, ih),
{
    let new_height = if rh <= rw * ih / iw {
        rh
    } else {
        rw * ih / iw
    };
    let new_width = if rw <= rh * iw / ih {
        rw
    } else {
        rh * iw / ih
    };
    (new_width, new_height)
}

/// The size an image of `size` is scaled to for `rect` under `mode`, or `None` when it is kept
/// as it is: in raw mode, or when it already has the rectangle's size.
pub open spec fn spec_target_size(mode: ImageMode, rect: Rect, size: (u32, u32)) -> Option<
    (u32, u32),
> {
    if mode == ImageMode::Raw || (size.0 == rect.w && size.1 == rect.h) {
        None
    } else if mode == ImageMode::Cover {
        Some((rect.w, rect.h))
    } else {
        Some(spec_contain_size(rect.w, rect.h, size.0, size.1))
    }
}

/// Scaling an image of `size` for `rect` under `mode` stays within `u32` and divides by no
/// zero.
pub open spec fn target_size_fits(mode: ImageMode, rect: Rect, size: (u32, u32)) -> bool {
    (mode == ImageMode::Contain && !(size.0 == rect.w && size.1 == rect.h)) ==> {
        &&& size.0 > 0
        &&& size.1 > 0
        &&& rect.w * size.1 <= u32::MAX
        &&& rect.h * size.0 <= u32::MAX
    }
}

/// The size an image of `size` is scaled to for `rect` under `mode`, if it is scaled.
pub fn target_size(mode: ImageMode, rect: Rect, size: (u32, u32)) -> (t: Option<(u32, u32)>)
    requires
        target_size_fits(mode, rect, size),
    ensures
        t == spec_target_size(mode, rect, size),
{
    if (size.0 == rect.w && size.1 == rect.h) {
        return None;
    }
    match mode {
        ImageMode::Raw => None,
        ImageMode::Cover => Some((rect.w, rect.h)),
        ImageMode::Contain => Some(contain_size(rect.w, rect.h, size.0, size.1)),
    }
}

/// How far right an image `w` wide sits in a rectangle `rect_w` wide: at the left, centred or
/// at the right, and at the left when it is wider.
pub open spec fn spec_align_x(alignment: Alignment, rect_w: u32, w: u32) -> u32 {
    let room: u32 = if w <= rect_w {
        (rect_w - w) as u32
    } else {
        0
    };
    match alignment {
        Alignment::Left => 0,
        Alignment::Center => room / 2,
        Alignment::Right => room,
    }
}

/// How far right an image `w` wide sits in a rectangle `rect_w` wide.
pub fn align_x(alignment: Alignment, rect_w: u32, w: u32) -> (x: u32)
    ensures
        x == spec_align_x(alignment, rect_w, w),
{
    match alignment {
        Alignment::Left => 0,
        Alignment::Center => rect_w.saturating_sub(w) / 2,
        Alignment::Right => rect_w.saturating_sub(w),
    }
}

/// The corner radius used on an image of `w` by `h`: at most half of each side.
pub open spec fn clamped_radius(radius: u32, w: u32, h: u32) -> u32 {
    let r = if radius <= w / 2 {
        radius
    } else {
        w / 2
    };
    if r <= h / 2 {
        r
    } else {
        h / 2
    }
}

/// The pixels of an image of `size` after its corners are rounded with `radius`, clamped to
/// half of each side; a radius that clamps to nothing leaves them as they are.
pub open spec fn rounded_pixels(
    pixels: Map<(u32, u32), Channels>,
    size: (u32, u32),
    radius: u32,
) -> Map<(u32, u32), Channels> {
    let r = clamped_radius(radius, size.0, size.1);
    if radius != 0 && r > 0 {
        rounded_corners(pixels, size.0, size.1, r, (r + 1) as nat)
    } else {
        pixels
    }
}

/// The pixels and size of an image of `size` once it is readied for `rect`: its corners
/// rounded, then, when its size is not the rectangle's, blended onto a transparent image of
/// the rectangle's size, aligned at the top.
pub open spec fn spec_finished(
    pixels: Map<(u32, u32), Channels>,
    size: (u32, u32),
    rect: Rect,
    radius: u32,
    alignment: Alignment,
) -> (Map<(u32, u32), Channels>, (u32, u32)) {
    let rounded = rounded_pixels(pixels, size, radius);
    if size.0 != rect.w || size.1 != rect.h {
        (
            overlaid(
                transparent_pixels(rect.w, rect.h),
                (rect.w, rect.h),
                rounded,
                size,
                spec_align_x(alignment, rect.w, size.0) as int,
                0,
            ),
            (rect.w, rect.h),
        )
    } else {
        (rounded, size)
    }
}

/// Readying an image of `size` for `rect` stays within the integer types and the memory.
pub open spec fn finish_fits(size: (u32, u32), rect: Rect, radius: u32) -> bool {
    let r = clamped_radius(radius, size.0, size.1);
    &&& 2 * r * r <= i32::MAX
    &&& (r + 1) * (r + 1) <= i32::MAX
    &&& 4 * rect.w * rect.h <= usize::MAX
}

/// Readies an image for `rect`: rounds its corners and places it on a transparent image of the
/// rectangle's size when its own size differs.
pub fn finish_image(image: Bitmap, rect: Rect, radius: u32, alignment: Alignment) -> (out: Bitmap)
    requires
        finish_fits(image_size(image), rect, radius),
    ensures
        (image_pixels(out), image_size(out)) == spec_finished(
            image_pixels(image),
            image_size(image),
            rect,
            radius,
            alignment,
        ),
{
    let mut image = image;
    let (w, h) = image.dimensions();
    if radius != 0 {
        let r = if radius <= w / 2 {
            radius
        } else {
            w / 2
        };
        let r = if r <= h / 2 {
            r
        } else {
            h / 2
        };
        if r > 0 {
            round(&mut image, r);
        }
    }
    if w != rect.w || h != rect.h {
        let mut bg = Bitmap::new(rect.w, rect.h);
        let x = align_x(alignment, rect.w, w);
        bg.overlay(&image, x as i64, 0);
        bg
    } else {
        image
    }
}

/// Readying a decoded image of `size` for `rect` under `mode` stays within the integer types
/// and the memory, whatever size the scaling gives.
pub open spec fn prepare_fits(mode: ImageMode, rect: Rect, size: (u32, u32), radius: u32) -> bool {
    &&& target_size_fits(mode, rect, size)
    &&& match spec_target_size(mode, rect, size) {
        Some(t) => 4 * t.0 * t.1 <= usize::MAX && finish_fits(t, rect, radius),
        None => finish_fits(size, rect, radius),
    }
}

/// Whether `out` is what readying the decoded image `d` for `rect` under `mode` gives: when
/// the mode keeps its size, `d` finished; when it scales it, `d` scaled bilinearly to the
/// target size, finished.
pub open spec fn is_prepared(
    d: Bitmap,
    rect: Rect,
    mode: ImageMode,
    radius: u32,
    alignment: Alignment,
    out: Option<Bitmap>,
) -> bool {
    match spec_target_size(mode, rect, image_size(d)) {
        None => out matches Some(img) && (image_pixels(img), image_size(img)) == spec_finished(
            image_pixels(d),
            image_size(d),
            rect,
            radius,
            alignment,
        ),
        Some(t) => out matches Some(img) && (image_pixels(img), image_size(img)) == spec_finished(
            scaled(image_pixels(d), image_size(d), t.0, t.1, ScaleFilter::Bilinear),
            t,
            rect,
            radius,
            alignment,
        ),
    }
}

/// Readies a decoded image for `rect` under `mode`: scaled when the mode asks for it, then
/// finished.
pub fn prepare_image(
    decoded: Bitmap,
    rect: Rect,
    mode: ImageMode,
    radius: u32,
    alignment: Alignment,
) -> (out: Option<Bitmap>)
    requires
        prepare_fits(mode, rect, image_size(decoded), radius),
    ensures
        is_prepared(decoded, rect, mode, radius, alignment, out),
{
    let size = decoded.dimensions();
    match target_size(mode, rect, size) {
        None => Some(finish_image(decoded, rect, radius, alignment)),
        Some((tw, th)) => {
            let fitted = decoded.resized(tw, th, ScaleFilter::Bilinear).unwrap();
            let ghost s = fitted;
            let out = finish_image(fitted, rect, radius, alignment);
            assert(image_size(s) == (tw, th) && (image_pixels(out), image_size(out))
                == spec_finished(image_pixels(s), (tw, th), rect, radius, alignment));
            Some(out)
        },
    }
}

/// Whether `a * b` is at most `bound`.
fn product_at_most(a: u64, b: u64, bound: u128) -> (r: bool)
    ensures
        r == (a * b <= bound),
{
    assert(a * b <= u64::MAX * u64::MAX) by (nonlinear_arith)
        requires
            a <= u64::MAX,
            b <= u64::MAX,
    ;
    (a as u128) * (b as u128) <= bound
}

/// Whether readying a decoded image of `size` for `rect` under `mode` stays within the
/// integer types and the memory.
pub fn fits_prepare(mode: ImageMode, rect: Rect, size: (u32, u32), radius: u32) -> (b: bool)
    ensures
        b == prepare_fits(mode, rect, size, radius),
{
    let same = size.0 == rect.w && size.1 == rect.h;
    if mode == ImageMode::Contain && !same {
        if size.0 == 0 || size.1 == 0 {
            return false;
        }
        if !product_at_most(rect.w as u64, size.1 as u64, u32::MAX as u128)
            || !product_at_most(rect.h as u64, size.0 as u64, u32::MAX as u128) {
            return false;
        }
    }
    let t = target_size(mode, rect, size);
    let (sw, sh) = match t {
        Some(t) => {
            if !product_at_most(4 * t.0 as u64, t.1 as u64, usize::MAX as u128) {
                return false;
            }
            t
        },
        None => size,
    };
    let r = if radius <= sw / 2 {
        radius
    } else {
        sw / 2
    };
    let r = if r <= sh / 2 {
        r
    } else {
        sh / 2
    };
    assert(clamped_radius(radius, sw, sh) == r);
    product_at_most(2 * r as u64, r as u64, i32::MAX as u128) && product_at_most(
        r as u64 + 1,
        r as u64 + 1,
        i32::MAX as u128,
    ) && product_at_most(4 * rect.w as u64, rect.h as u64, usize::MAX as u128)
}

/// An image shown in a rectangle, decoded from its file the first time it is drawn.
#[derive(Debug)]
pub struct Image {
    rect: Rect,
    path: Option<String>,
    image: Option<Option<Bitmap>>,
    mode: ImageMode,
    border_radius: u32,
    alignment: Alignment,
    dirty: bool,
}

impl Image {
    pub closed spec fn spec_rect(&self) -> Rect {
        self.rect
    }

    /// The path of the image file, if any.
    pub closed spec fn spec_path(&self) -> Option<Seq<char>> {
        match self.path {
            Some(p) => Some(p@),
            None => None,
        }
    }

    /// The readied image: `None` before it is loaded, `Some(None)` when loading failed.
    pub closed spec fn spec_cache(&self) -> Option<Option<Bitmap>> {
        self.image
    }

    pub closed spec fn spec_mode(&self) -> ImageMode {
        self.mode
    }

    pub closed spec fn spec_border_radius(&self) -> u32 {
        self.border_radius
    }

    pub closed spec fn spec_alignment(&self) -> Alignment {
        self.alignment
    }

    pub closed spec fn spec_dirty(&self) -> bool {
        self.dirty
    }

    /// An image of the file at `path`, not loaded yet, with square corners, aligned left.
    pub fn new(rect: Rect, path: String, mode: ImageMode) -> (i: Self)
        ensures
            i.spec_rect() == rect,
            i.spec_path() == Some(path@),
            i.spec_cache() is None,
            i.spec_mode() == mode,
            i.spec_border_radius() == 0,
            i.spec_alignment() == Alignment::Left,
            i.spec_dirty(),
    {
        Self {
            rect,
            path: Some(path),
            image: None,
            mode,
            border_radius: 0,
            alignment: Alignment::Left,
            dirty: true,
        }
    }

    /// An image with no file.
    pub fn empty(rect: Rect, mode: ImageMode) -> (i: Self)
        ensures
            i.spec_rect() == rect,
            i.spec_path() is None,
            i.spec_cache() is None,
            i.spec_mode() == mode,
            i.spec_border_radius() == 0,
            i.spec_alignment() == Alignment::Left,
            i.spec_dirty(),
    {
        Self {
            rect,
            path: None,
            image: None,
            mode,
            border_radius: 0,
            alignment: Alignment::Left,
            dirty: true,
        }
    }

    /// Rounds the corners with `radius` from the next load on, and redraws.
    pub fn set_border_radius(&mut self, radius: u32) -> (r: &mut Self)
        ensures
            r.spec_border_radius() == radius,
            r.spec_dirty(),
            r.spec_rect() == old(self).spec_rect(),
            r.spec_path() == old(self).spec_path(),
            r.spec_cache() == old(self).spec_cache(),
            r.spec_mode() == old(self).spec_mode(),
            r.spec_alignment() == old(self).spec_alignment(),
            *final(self) == *final(r),
    {
        self.border_radius = radius;
        self.dirty = true;
        self
    }

    /// Shows another file, or none: a different path drops the loaded image and redraws; the
    /// same path changes nothing.
    pub fn set_path(&mut self, path: Option<String>) -> (r: &mut Self)
        ensures
            r.spec_path() == match path {
                Some(p) => Some(p@),
                None => None::<Seq<char>>,
            },
            r.spec_path() == old(self).spec_path() ==> {
                &&& r.spec_cache() == old(self).spec_cache()
                &&& r.spec_dirty() == old(self).spec_dirty()
            },
            r.spec_path() != old(self).spec_path() ==> {
                &&& r.spec_cache() is None
                &&& r.spec_dirty()
            },
            r.spec_rect() == old(self).spec_rect(),
            r.spec_mode() == old(self).spec_mode(),
            r.spec_border_radius() == old(self).spec_border_radius(),
            r.spec_alignment() == old(self).spec_alignment(),
            *final(self) == *final(r),
    {
        let same = match (&path, &self.path) {
            (Some(a), Some(b)) => a.eq(b),
            (None, None) => true,
            _ => false,
        };
        if !same {
            self.image = None;
            self.dirty = true;
            self.path = path;
        }
        self
    }

    /// Aligns the image within its rectangle from the next load on.
    pub fn set_alignment(&mut self, alignment: Alignment) -> (r: &mut Self)
        ensures
            r.spec_alignment() == alignment,
            r.spec_dirty() == old(self).spec_dirty(),
            r.spec_rect() == old(self).spec_rect(),
            r.spec_path() == old(self).spec_path(),
            r.spec_cache() == old(self).spec_cache(),
            r.spec_mode() == old(self).spec_mode(),
            r.spec_border_radius() == old(self).spec_border_radius(),
            *final(self) == *final(r),
    {
        self.alignment = alignment;
        self
    }

    /// The file still to be loaded: the path, while there is one and nothing is loaded yet.
    pub fn pending_path(&self) -> (p: Option<&String>)
        ensures
            match p {
                Some(s) => self.spec_path() == Some(s@) && self.spec_cache() is None,
                None => self.spec_path() is None || self.spec_cache() is Some,
            },
    {
        match (&self.path, &self.image) {
            (Some(p), None) => Some(p),
            _ => None,
        }
    }

    /// Keeps the file's image, readied for the rectangle; `decoded` is `None` when the file
    /// could not be read or decoded, and then so is what is kept.
    pub fn load(&mut self, decoded: Option<Bitmap>)
        requires
            decoded matches Some(d) ==> prepare_fits(
                old(self).spec_mode(),
                old(self).spec_rect(),
                image_size(d),
                old(self).spec_border_radius(),
            ),
        ensures
            final(self).spec_cache() matches Some(kept) && match decoded {
                None => kept is None,
                Some(d) => is_prepared(
                    d,
                    old(self).spec_rect(),
                    old(self).spec_mode(),
                    old(self).spec_border_radius(),
                    old(self).spec_alignment(),
                    kept,
                ),
            },
            final(self).spec_rect() == old(self).spec_rect(),
            final(self).spec_path() == old(self).spec_path(),
            final(self).spec_mode() == old(self).spec_mode(),
            final(self).spec_border_radius() == old(self).spec_border_radius(),
            final(self).spec_alignment() == old(self).spec_alignment(),
            final(self).spec_dirty() == old(self).spec_dirty(),
    {
        let kept = match decoded {
            Some(d) => prepare_image(d, self.rect, self.mode, self.border_radius, self.alignment),
            None => None,
        };
        self.image = Some(kept);
    }

    /// Keeps the file's image readied for the rectangle when readying it stays within the
    /// integer types and the memory; keeps nothing when it does not, or when `decoded` is
    /// `None` (the file could not be read or decoded). Says whether an image was kept.
    pub fn load_decoded(&mut self, decoded: Option<Bitmap>) -> (kept: bool)
        ensures
            final(self).spec_cache() matches Some(k) && match decoded {
                None => !kept && k is None,
                Some(d) => if prepare_fits(
                    old(self).spec_mode(),
                    old(self).spec_rect(),
                    image_size(d),
                    old(self).spec_border_radius(),
                ) {
                    kept && is_prepared(
                        d,
                        old(self).spec_rect(),
                        old(self).spec_mode(),
                        old(self).spec_border_radius(),
                        old(self).spec_alignment(),
                        k,
                    )
                } else {
                    !kept && k is None
                },
            },
            final(self).spec_rect() == old(self).spec_rect(),
            final(self).spec_path() == old(self).spec_path(),
            final(self).spec_mode() == old(self).spec_mode(),
            final(self).spec_border_radius() == old(self).spec_border_radius(),
            final(self).spec_alignment() == old(self).spec_alignment(),
            final(self).spec_dirty() == old(self).spec_dirty(),
    {
        match decoded {
            Some(d) => {
                if fits_prepare(self.mode, self.rect, d.dimensions(), self.border_radius) {
                    self.load(Some(d));
                    true
                } else {
                    self.load(None);
                    false
                }
            },
            None => {
                self.load(None);
                false
            },
        }
    }

    /// The readied image, when one is loaded.
    pub fn image(&self) -> (i: Option<&Bitmap>)
        ensures
            match i {
                Some(img) => self.spec_cache() == Some(Some(*img)),
                None => !(self.spec_cache() matches Some(Some(_))),
            },
    {
        match &self.image {
            Some(Some(img)) => Some(img),
            _ => None,
        }
    }

    /// After a draw, the image is drawn again only while it has a file that did not load.
    pub fn finish_draw(&mut self) -> (drawn: bool)
        ensures
            drawn,
            final(self).spec_dirty() == (old(self).spec_path() is Some && !(old(
                self,
            ).spec_cache() matches Some(Some(_)))),
            final(self).spec_rect() == old(self).spec_rect(),
            final(self).spec_path() == old(self).spec_path(),
            final(self).spec_cache() == old(self).spec_cache(),
            final(self).spec_mode() == old(self).spec_mode(),
            final(self).spec_border_radius() == old(self).spec_border_radius(),
            final(self).spec_alignment() == old(self).spec_alignment(),
    {
        let loaded = match (&self.path, &self.image) {
            (Some(_), Some(Some(_))) => true,
            _ => false,
        };
        self.dirty = !loaded && self.path.is_some();
        true
    }

    pub fn should_draw(&self) -> (d: bool)
        ensures
            d == self.spec_dirty(),
    {
        self.dirty
    }

    pub fn set_should_draw(&mut self)
        ensures
            final(self).spec_dirty(),
            final(self).spec_rect() == old(self).spec_rect(),
            final(self).spec_path() == old(self).spec_path(),
            final(self).spec_cache() == old(self).spec_cache(),
            final(self).spec_mode() == old(self).spec_mode(),
            final(self).spec_border_radius() == old(self).spec_border_radius(),
            final(self).spec_alignment() == old(self).spec_alignment(),
    {
        self.dirty = true;
    }

    pub fn bounding_box(&self) -> (r: Rect)
        ensures
            r == self.spec_rect(),
    {
        self.rect
    }

    pub fn mode(&self) -> (m: ImageMode)
        ensures
            m == self.spec_mode(),
    {
        self.mode
    }

    pub fn border_radius(&self) -> (r: u32)
        ensures
            r == self.spec_border_radius(),
    {
        self.border_radius
    }

    pub fn alignment(&self) -> (a: Alignment)
        ensures
            a == self.spec_alignment(),
    {
        self.alignment
    }

    /// Moves the image's rectangle to `point`, keeping its size, and redraws.
    pub fn set_position(&mut self, point: Point)
        ensures
            final(self).spec_rect() == (Rect {
                x: point.x,
                y: point.y,
                w: old(self).spec_rect().w,
                h: old(self).spec_rect().h,
            }),
            final(self).spec_dirty(),
            final(self).spec_path() == old(self).spec_path(),
            final(self).spec_cache() == old(self).spec_cache(),
            final(self).spec_mode() == old(self).spec_mode(),
            final(self).spec_border_radius() == old(self).spec_border_radius(),
            final(self).spec_alignment() == old(self).spec_alignment(),
    {
        self.rect.x = point.x;
        self.rect.y = point.y;
        self.dirty = true;
    }
}

} // verus!
