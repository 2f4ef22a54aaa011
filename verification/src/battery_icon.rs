//! The battery icon of the status bar: images of the theme chosen by charge level, or a
//! battery drawn from rectangles sized by the font.

use vstd::prelude::*;
use crate::bitmap::{Bitmap, image_size};
use crate::geom::{Point, Rect};

verus! {

/// How the icon is drawn: from the theme's images, one for charging and one for each level
/// from empty to full, or from rectangles.
#[derive(Debug)]
pub enum BatteryIconVariant {
    Image { charging: Bitmap, levels: Vec<Bitmap> },
    Vector,
}

/// The image level shown for a charge of `percentage` when there are `n` levels: the charge
/// split into `n` equal bands over 0 to 100, the last band taking the rest.
pub open spec fn spec_level_index(percentage: int, n: int) -> int {
    let level = percentage * n / 101;
    if level <= n - 1 {
        level
    } else {
        n - 1
    }
}

/// The image level shown for a charge of `percentage` when there are `n` levels.
pub fn level_index(percentage: i32, n: usize) -> (l: usize)
    requires
        n > 0,
        0 <= percentage,
        percentage * n <= usize::MAX,
    ensures
        l == spec_level_index(percentage as int, n as int),
        l < n,
{
    let level = percentage as usize * n / 101;
    if level <= n - 1 {
        level
    } else {
        n - 1
    }
}

/// The battery icon of the status bar, anchored at its top-right corner.
#[derive(Debug)]
pub struct BatteryIcon {
    variant: BatteryIconVariant,
    point: Point,
    charging: bool,
    percentage: i32,
    dirty: bool,
}

impl BatteryIcon {
    pub closed spec fn spec_variant(&self) -> BatteryIconVariant {
        self.variant
    }

    pub closed spec fn spec_point(&self) -> Point {
        self.point
    }

    pub closed spec fn spec_charging(&self) -> bool {
        self.charging
    }

    pub closed spec fn spec_percentage(&self) -> int {
        self.percentage as int
    }

    pub closed spec fn spec_dirty(&self) -> bool {
        self.dirty
    }

    /// An icon drawn from images has at least one level.
    pub open spec fn wf(&self) -> bool {
        self.spec_variant() matches BatteryIconVariant::Image { levels, .. } ==> levels.len() > 0
    }

    /// An icon showing an empty battery that is not charging.
    pub fn new(point: Point, variant: BatteryIconVariant) -> (b: Self)
        requires
            variant matches BatteryIconVariant::Image { levels, .. } ==> levels.len() > 0,
        ensures
            b.wf(),
            b.spec_variant() == variant,
            b.spec_point() == point,
            !b.spec_charging(),
            b.spec_percentage() == 0,
            b.spec_dirty(),
    {
        Self { variant, point, charging: false, percentage: 0, dirty: true }
    }

    /// Shows a new charge; the icon is drawn again only if something changed.
    pub fn set_state(&mut self, charging: bool, percentage: i32)
        ensures
            final(self).spec_charging() == charging,
            final(self).spec_percentage() == percentage,
            final(self).spec_dirty() == (old(self).spec_dirty() || old(self).spec_charging()
                != charging || old(self).spec_percentage() != percentage),
            final(self).spec_variant() == old(self).spec_variant(),
            final(self).spec_point() == old(self).spec_point(),
    {
        if self.charging != charging || self.percentage != percentage {
            self.charging = charging;
            self.percentage = percentage;
            self.dirty = true;
        }
    }

    pub fn should_draw(&self) -> (d: bool)
        ensures
            d == self.spec_dirty(),
    {
        self.dirty
    }

    pub fn set_position(&mut self, point: Point)
        ensures
            final(self).spec_point() == point,
            final(self).spec_dirty(),
            final(self).spec_variant() == old(self).spec_variant(),
            final(self).spec_charging() == old(self).spec_charging(),
            final(self).spec_percentage() == old(self).spec_percentage(),
    {
        self.point = point;
        self.dirty = true;
    }

    /// Choosing the image to draw stays within `usize`: there is a level image, and the charge
    /// is not negative unless charging, nor so large that its level overflows.
    pub open spec fn choice_fits(&self) -> bool {
        &&& self.wf()
        &&& self.spec_charging() || 0 <= self.spec_percentage()
        &&& self.spec_variant() matches BatteryIconVariant::Image { levels, .. }
            ==> self.spec_percentage() * levels.len() <= usize::MAX
    }

    /// Whether choosing the image to draw stays within `usize`.
    pub fn fits_choice(&self) -> (b: bool)
        ensures
            b == self.choice_fits(),
    {
        if !self.charging && self.percentage < 0 {
            return false;
        }
        match &self.variant {
            BatteryIconVariant::Vector => true,
            BatteryIconVariant::Image { levels, .. } => {
                let n = levels.len();
                if n == 0 {
                    return false;
                }
                if self.percentage < 0 {
                    assert(self.spec_percentage() * n <= 0) by (nonlinear_arith)
                        requires
                            self.spec_percentage() < 0,
                            n > 0,
                    ;
                    return true;
                }
                let p = self.percentage as u64;
                assert(p * n <= u64::MAX * u64::MAX) by (nonlinear_arith)
                    requires
                        p <= u64::MAX,
                        n <= u64::MAX,
                ;
                (p as u128) * (n as u128) <= usize::MAX as u128
            },
        }
    }

    pub fn point(&self) -> (p: Point)
        ensures
            p == self.spec_point(),
    {
        self.point
    }

    pub fn charging(&self) -> (c: bool)
        ensures
            c == self.spec_charging(),
    {
        self.charging
    }

    pub fn percentage(&self) -> (p: i32)
        ensures
            p == self.spec_percentage(),
    {
        self.percentage
    }

    /// The image to draw, for an icon drawn from images: the charging image while charging,
    /// otherwise the image of the charge's level.
    pub fn image_to_draw(&self) -> (img: Option<&Bitmap>)
        requires
            self.choice_fits(),
        ensures
            match self.spec_variant() {
                BatteryIconVariant::Image { charging, levels } => img == Some(
                    if self.spec_charging() {
                        &charging
                    } else {
                        &levels@[spec_level_index(self.spec_percentage(), levels.len() as int)]
                    },
                ),
                BatteryIconVariant::Vector => img is None,
            },
    {
        match &self.variant {
            BatteryIconVariant::Image { charging, levels } => {
                if self.charging {
                    Some(charging)
                } else {
                    let level = level_index(self.percentage, levels.len());
                    Some(&levels[level])
                }
            },
            BatteryIconVariant::Vector => None,
        }
    }

    /// The size of the icon when drawn from images: that of the charging image while charging,
    /// of the first level otherwise.
    pub fn image_size(&self) -> (s: Option<(u32, u32)>)
        requires
            self.wf(),
        ensures
            match self.spec_variant() {
                BatteryIconVariant::Image { charging, levels } => s == Some(
                    if self.spec_charging() {
                        image_size(charging)
                    } else {
                        image_size(levels@[0])
                    },
                ),
                BatteryIconVariant::Vector => s is None,
            },
    {
        match &self.variant {
            BatteryIconVariant::Image { charging, levels } => {
                if self.charging {
                    Some(charging.dimensions())
                } else {
                    Some(levels[0].dimensions())
                }
            },
            BatteryIconVariant::Vector => None,
        }
    }

    /// The area of an icon of the given size: it extends left and down from the anchor.
    pub fn bounding_box(&self, w: u32, h: u32) -> (r: Rect)
        requires
            w <= i32::MAX,
            i32::MIN <= self.spec_point().x - w,
        ensures
            r == (Rect { x: (self.spec_point().x - w) as i32, y: self.spec_point().y, w, h }),
    {
        Rect::new(self.point.x - w as i32, self.point.y, w, h)
    }
}

/// The sizes of the drawn battery that come from the status-bar font: the font size, the
/// body's height and the width of the charging bolt, in pixels.
#[derive(Debug, Clone, Copy, PartialEq, Eq, Structural)]
pub struct BatteryMetrics {
    pub size: i32,
    pub body_h: i32,
    pub charging_w: i32,
}

/// Where the parts of a drawn battery go, in screen coordinates.
#[derive(Debug, Clone, Copy, PartialEq, Eq, Structural)]
pub struct VectorBatteryLayout {
    /// The outline of the battery's body.
    pub body: Rect,
    /// The charge inside the body, as wide as the charge is high.
    pub fill: Option<Rect>,
    /// The positive terminal.
    pub cap: Rect,
    /// The right edge of the charging bolt.
    pub charging_pos: Option<Point>,
    pub body_radius: u32,
    pub inner_radius: u32,
    pub stroke_width: u32,
}

/// The stroke width for a font size.
pub open spec fn battery_stroke(size: int) -> int {
    size / 30 + 1
}

/// The width of the charging bolt, or nothing when not charging.
pub open spec fn bolt_width(m: BatteryMetrics, charging: bool) -> int {
    if charging {
        m.charging_w as int
    } else {
        0
    }
}

/// The left edge of the body: from the anchor leftwards come the bolt, a pixel, two thirds
/// of the cap and the body.
pub open spec fn battery_body_left(point: Point, m: BatteryMetrics, charging: bool) -> int {
    point.x - bolt_width(m, charging) - 1 - 2 * battery_stroke(m.size as int) * 2 / 3 - m.size
}

/// How much of the charge shows, out of 95: the charge above 5 percent.
pub open spec fn fill_level(percentage: int) -> int {
    if percentage - 5 < 0 {
        0
    } else if percentage - 5 > 95 {
        95
    } else {
        percentage - 5
    }
}

/// The widest the charge can be drawn inside the body.
pub open spec fn max_fill_width(m: BatteryMetrics) -> int {
    let w = m.size - 4 * battery_stroke(m.size as int);
    if w < 0 {
        0
    } else {
        w
    }
}

/// The arithmetic of the layout stays within `i32`.
pub open spec fn battery_layout_fits(point: Point, m: BatteryMetrics, charging: bool) -> bool {
    &&& 0 <= m.body_h <= m.size
    &&& 0 <= m.charging_w
    &&& i32::MIN <= battery_body_left(point, m, charging)
    &&& point.y + m.size + 4 * battery_stroke(m.size as int) <= i32::MAX
    &&& max_fill_width(m) * 95 <= i32::MAX
}

/// Whether the arithmetic of the layout stays within `i32`.
pub fn fits_battery_layout(point: Point, m: BatteryMetrics, charging: bool) -> (b: bool)
    ensures
        b == battery_layout_fits(point, m, charging),
{
    if m.body_h < 0 || m.body_h > m.size || m.charging_w < 0 {
        return false;
    }
    let size = m.size as i64;
    let stroke = size / 30 + 1;
    let bolt: i64 = if charging {
        m.charging_w as i64
    } else {
        0
    };
    let left = point.x as i64 - bolt - 1 - 2 * stroke * 2 / 3 - size;
    let fill_w: i64 = if size - 4 * stroke < 0 {
        0
    } else {
        size - 4 * stroke
    };
    left >= i32::MIN as i64 && point.y as i64 + size + 4 * stroke <= i32::MAX as i64 && fill_w * 95
        <= i32::MAX as i64
}

/// The layout of a drawn battery anchored at its top-right corner `point`: from right to
/// left the charging bolt (while charging), the cap and the body, vertically centred on the
/// font. The charge fills the body, inset by two strokes, in proportion to the charge above
/// 5 percent; at 5 percent or less, or when nothing would show, there is no fill.
pub open spec fn spec_vector_layout(
    point: Point,
    m: BatteryMetrics,
    charging: bool,
    percentage: int,
) -> VectorBatteryLayout {
    let stroke = battery_stroke(m.size as int);
    let cap_w = stroke * 2;
    let y_offset = (m.size - m.body_h) / 2;
    let cap_right = point.x - bolt_width(m, charging) - 1;
    let cap_left = cap_right - cap_w * 2 / 3;
    let body_left = cap_left - m.size;
    let body_top = point.y + y_offset;
    let cap_h = if 4 * stroke <= m.body_h / 4 {
        4 * stroke
    } else {
        m.body_h / 4
    };
    let cap_top = body_top + (m.body_h - cap_h) / 2;
    let fill_w = max_fill_width(m) * fill_level(percentage) / 95;
    let fill_h = if m.body_h - 4 * stroke < 0 {
        0
    } else {
        m.body_h - 4 * stroke
    };
    VectorBatteryLayout {
        body: Rect { x: body_left as i32, y: body_top as i32, w: m.size as u32, h: m.body_h as u32 },
        fill: if percentage > 5 && fill_w > 0 && fill_h > 0 {
            Some(
                Rect {
                    x: (body_left + 2 * stroke) as i32,
                    y: (body_top + 2 * stroke) as i32,
                    w: fill_w as u32,
                    h: fill_h as u32,
                },
            )
        } else {
            None
        },
        cap: Rect { x: cap_left as i32, y: cap_top as i32, w: cap_w as u32, h: cap_h as u32 },
        charging_pos: if charging {
            Some(point)
        } else {
            None
        },
        body_radius: (stroke * 4) as u32,
        inner_radius: (stroke * 2) as u32,
        stroke_width: stroke as u32,
    }
}

impl VectorBatteryLayout {
    /// The layout of a drawn battery anchored at its top-right corner `point`.
    pub fn calculate(point: Point, m: BatteryMetrics, charging: bool, percentage: i32) -> (l: Self)
        requires
            battery_layout_fits(point, m, charging),
        ensures
            l == spec_vector_layout(point, m, charging, percentage as int),
    {
        let body_w = m.size;
        let body_h = m.body_h;
        let stroke = m.size / 30 + 1;
        let cap_w = stroke * 2;
        let charging_w = if charging {
            m.charging_w
        } else {
            0
        };
        let y_offset = (m.size - body_h) / 2;
        let cap_right = point.x - charging_w - 1;
        let cap_left = cap_right - cap_w * 2 / 3;
        let body_right = cap_left;
        let body_left = body_right - body_w;
        let body_top = point.y + y_offset;
        let body = Rect::new(body_left, body_top, body_w as u32, body_h as u32);
        let cap_h = if 4 * stroke <= body_h / 4 {
            4 * stroke
        } else {
            body_h / 4
        };
        let cap_top = body_top + (body_h - cap_h) / 2;
        let cap = Rect::new(cap_left, cap_top, cap_w as u32, cap_h as u32);
        let fill = if percentage > 5 {
            let fill_left = body_left + stroke * 2;
            let fill_top = body_top + stroke * 2;
            let max_fill_w = if body_w - 2 * stroke * 2 < 0 {
                0
            } else {
                body_w - 2 * stroke * 2
            };
            let level = if percentage - 5 > 95 {
                95
            } else {
                percentage - 5
            };
            assert(0 <= max_fill_w * level <= max_fill_width(m) * 95) by (nonlinear_arith)
                requires
                    0 <= max_fill_w == max_fill_width(m),
                    0 <= level <= 95,
            ;
            let fill_w = max_fill_w * level / 95;
            let fill_h = if body_h - 2 * stroke * 2 < 0 {
                0
            } else {
                body_h - 2 * stroke * 2
            };
            if fill_w > 0 && fill_h > 0 {
                Some(Rect::new(fill_left, fill_top, fill_w as u32, fill_h as u32))
            } else {
                None
            }
        } else {
            None
        };
        let charging_pos = if charging {
            Some(Point::new(point.x, point.y))
        } else {
            None
        };
        VectorBatteryLayout {
            body,
            fill,
            cap,
            charging_pos,
            body_radius: (stroke * 4) as u32,
            inner_radius: (stroke * 2) as u32,
            stroke_width: stroke as u32,
        }
    }
}

/// The size of a drawn battery: the body, the cap and, while charging, the bolt across; the
/// font size high.
pub open spec fn spec_total_size(m: BatteryMetrics, charging: bool) -> (u32, u32) {
    let cap_w = battery_stroke(m.size as int) * 2;
    ((m.size + cap_w + bolt_width(m, charging)) as u32, m.size as u32)
}

impl VectorBatteryLayout {
    /// The size of a drawn battery.
    pub fn total_size(m: BatteryMetrics, charging: bool) -> (s: (u32, u32))
        requires
            0 <= m.size,
            0 <= m.charging_w,
            m.size + battery_stroke(m.size as int) * 2 + bolt_width(m, charging) <= i32::MAX,
        ensures
            s == spec_total_size(m, charging),
    {
        let stroke = m.size / 30 + 1;
        let cap_w = stroke * 2;
        let charging_w = if charging {
            m.charging_w
        } else {
            0
        };
        ((m.size + cap_w + charging_w) as u32, m.size as u32)
    }
}

} // verus!
