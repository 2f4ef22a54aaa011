//! The battery indicator of the status bar: the battery icon, drawn from the theme's images or
//! from rounded rectangles, to the left of an optional percentage label.

use vstd::prelude::*;
use crate::battery::{format_battery_percentage, spec_battery_label};
use crate::battery_icon::{BatteryIconVariant, BatteryMetrics, spec_level_index, level_index};
use crate::bitmap::{Bitmap, image_size};
use crate::geom::{Point, Rect};

verus! {

/// The gap between the label and the icon is the label's width and this many pixels.
pub const LABEL_GAP: i32 = 8;

/// The outer margin of the drawn battery for a font size.
pub open spec fn indicator_margin(size: int) -> int {
    size * 2 / 28
}

/// The stroke of the drawn battery's outline for a font size.
pub open spec fn indicator_stroke(size: int) -> int {
    size * 3 / 28
}

/// Where the parts of the drawn battery go, in screen coordinates.
#[derive(Debug, Clone, Copy, PartialEq, Eq, Structural)]
pub struct IndicatorLayout {
    /// The outline of the battery's body, drawn `stroke` wide with corners of `body_radius`.
    pub body: Rect,
    pub body_radius: u32,
    pub stroke: u32,
    /// The charge inside the body, with corners of `inner_radius`.
    pub fill: Option<Rect>,
    /// The positive terminal, with corners of `inner_radius`.
    pub cap: Rect,
    pub inner_radius: u32,
    /// The right edge of the charging bolt, while charging.
    pub bolt: Option<Point>,
    /// Whether each part is first drawn in the stroke colour at every offset of up to the
    /// stylesheet's stroke width around it.
    pub halo: bool,
}

/// The left edge of the drawn battery's body relative to the anchor's x: the label, then the
/// bolt while charging (else a margin), then the body and two margins.
pub open spec fn indicator_x(m: BatteryMetrics, label_w: int, charging: bool) -> int {
    if charging {
        -m.charging_w - label_w
    } else {
        -indicator_margin(m.size as int) - label_w
    }
}

/// The height of the fill and the cap: the body less a stroke and a margin on each side,
/// never below zero.
pub open spec fn inner_height(m: BatteryMetrics) -> int {
    let inset = 2 * (indicator_stroke(m.size as int) + indicator_margin(m.size as int));
    if m.body_h - inset < 0 {
        0
    } else {
        m.body_h - inset
    }
}

/// The widest the fill gets: the body's width less a stroke and a margin on each side.
pub open spec fn inner_width(m: BatteryMetrics) -> int {
    let inset = 2 * (indicator_stroke(m.size as int) + indicator_margin(m.size as int));
    if m.size - inset < 0 {
        0
    } else {
        m.size - inset
    }
}

/// The arithmetic of the indicator's layout stays within its integer types.
pub open spec fn indicator_fits(
    point: Point,
    m: BatteryMetrics,
    label_w: int,
    charging: bool,
    percentage: int,
) -> bool {
    let x = indicator_x(m, label_w, charging);
    &&& 0 <= m.size
    &&& 3 * m.size <= i32::MAX
    &&& 0 <= m.body_h
    &&& 0 <= m.charging_w
    &&& 0 <= label_w <= i32::MAX
    &&& i32::MIN <= x
    &&& i32::MIN <= point.x + x - m.size - 2 * indicator_margin(m.size as int)
    &&& point.x - label_w <= i32::MAX
    &&& point.x + x + indicator_stroke(m.size as int) <= i32::MAX
    &&& point.y + m.size / 6 + 1 + indicator_stroke(m.size as int) + indicator_margin(
        m.size as int,
    ) <= i32::MAX
    &&& percentage > 5 ==> inner_width(m) * (percentage - 5) <= u32::MAX
}

/// Whether the arithmetic of the indicator's layout stays within its integer types.
pub fn fits_indicator(point: Point, m: BatteryMetrics, label_w: i32, charging: bool, percentage: i32) -> (b: bool)
    ensures
        b == indicator_fits(point, m, label_w as int, charging, percentage as int),
{
    if m.size < 0 || m.size > i32::MAX / 3 || m.body_h < 0 || m.charging_w < 0 || label_w < 0 {
        return false;
    }
    let size = m.size as i64;
    let margin = size * 2 / 28;
    let stroke = size * 3 / 28;
    let x: i64 = if charging {
        -(m.charging_w as i64) - label_w as i64
    } else {
        -margin - label_w as i64
    };
    let px = point.x as i64;
    let py = point.y as i64;
    let min = i32::MIN as i64;
    let max = i32::MAX as i64;
    if x < min || px + x - size - 2 * margin < min || px - label_w as i64 > max || px + x + stroke
        > max || py + size / 6 + 1 + stroke + margin > max {
        return false;
    }
    if percentage > 5 {
        let inset = 2 * (stroke + margin);
        let inner: i64 = if size - inset < 0 {
            0
        } else {
            size - inset
        };
        let level = percentage as i64 - 5;
        assert(0 <= inner * level <= 0x8000_0000 * 0x8000_0000) by (nonlinear_arith)
            requires
                0 <= inner <= 0x8000_0000,
                0 <= level <= 0x8000_0000,
        ;
        inner * level <= u32::MAX as i64
    } else {
        true
    }
}

/// The layout of the drawn battery whose label is `label_w` wide, the whole anchored at its
/// top-right corner `point`. The body's outline sits left of the label and, while charging,
/// of the bolt; above 5 percent the charge fills the body's inside in proportion to the charge
/// less 5, out of 90; the cap sits at the body's right.
pub open spec fn spec_indicator_layout(
    point: Point,
    m: BatteryMetrics,
    label_w: int,
    charging: bool,
    percentage: int,
    halo: bool,
) -> IndicatorLayout {
    let margin = indicator_margin(m.size as int);
    let stroke = indicator_stroke(m.size as int);
    let x = indicator_x(m, label_w, charging);
    let y = m.size / 6 + 1;
    IndicatorLayout {
        body: Rect {
            x: (x + point.x - m.size - 2 * margin) as i32,
            y: (y + point.y) as i32,
            w: m.size as u32,
            h: m.body_h as u32,
        },
        body_radius: (stroke * 2) as u32,
        stroke: stroke as u32,
        fill: if percentage > 5 {
            Some(
                Rect {
                    x: (x + point.x - m.size + stroke - margin) as i32,
                    y: (y + point.y + stroke + margin) as i32,
                    w: (inner_width(m) * (percentage - 5) / 90) as u32,
                    h: inner_height(m) as u32,
                },
            )
        } else {
            None
        },
        cap: Rect {
            x: (x + point.x - margin) as i32,
            y: (y + point.y + stroke + margin) as i32,
            w: stroke as u32,
            h: inner_height(m) as u32,
        },
        inner_radius: stroke as u32,
        bolt: if charging {
            Some(Point { x: (point.x - label_w) as i32, y: point.y })
        } else {
            None
        },
        halo,
    }
}

impl IndicatorLayout {
    /// The layout of the drawn battery anchored at its top-right corner `point`, with a label
    /// `label_w` wide; `halo` says whether the stylesheet draws strokes (a stroke width and a
    /// stroke colour that is not transparent).
    pub fn calculate(
        point: Point,
        m: BatteryMetrics,
        label_w: i32,
        charging: bool,
        percentage: i32,
        halo: bool,
    ) -> (l: Self)
        requires
            indicator_fits(point, m, label_w as int, charging, percentage as int),
        ensures
            l == spec_indicator_layout(point, m, label_w as int, charging, percentage as int, halo),
    {
        let w = m.size as u32;
        let h = m.body_h as u32;
        let y = m.size / 6 + 1;
        let margin = m.size * 2 / 28;
        let stroke = m.size * 3 / 28;
        let x = if charging {
            -m.charging_w - label_w
        } else {
            -margin - label_w
        };
        let inset = (2 * (stroke + margin)) as u32;
        let inner_h = h.saturating_sub(inset);
        let body = Rect::new(x + point.x - w as i32 - margin - margin, y + point.y, w, h);
        let fill = if percentage > 5 {
            let level: u32 = if percentage - 5 < 0 {
                0
            } else {
                (percentage - 5) as u32
            };
            let inner_w = w.saturating_sub(inset);
            Some(
                Rect::new(
                    x + point.x - w as i32 + stroke - margin,
                    y + point.y + stroke + margin,
                    inner_w * level / 90,
                    inner_h,
                ),
            )
        } else {
            None
        };
        let cap = Rect::new(x + point.x - margin, y + point.y + stroke + margin, stroke as u32, inner_h);
        let bolt = if charging {
            Some(Point::new(point.x - label_w, point.y))
        } else {
            None
        };
        IndicatorLayout {
            body,
            body_radius: stroke as u32 * 2,
            stroke: stroke as u32,
            fill,
            cap,
            inner_radius: stroke as u32,
            bolt,
            halo,
        }
    }
}

/// The width of the drawn battery: the body, a stroke and three margins, and while charging
/// the bolt and three more margins.
pub open spec fn vector_icon_width(m: BatteryMetrics, charging: bool) -> int {
    let margin = indicator_margin(m.size as int);
    let battery_w = m.size + indicator_stroke(m.size as int) + margin * 3;
    let charging_w = if charging {
        m.charging_w + margin * 3
    } else {
        0
    };
    battery_w + charging_w
}

/// The size of the drawn battery: its width, and as high as the body.
pub open spec fn spec_vector_icon_size(m: BatteryMetrics, charging: bool) -> (u32, u32) {
    (vector_icon_width(m, charging) as u32, m.body_h as u32)
}

/// The size of the drawn battery.
pub fn vector_icon_size(m: BatteryMetrics, charging: bool) -> (s: (u32, u32))
    requires
        0 <= m.size,
        3 * m.size <= i32::MAX,
        0 <= m.body_h,
        0 <= m.charging_w,
        vector_icon_width(m, charging) <= i32::MAX,
    ensures
        s == spec_vector_icon_size(m, charging),
{
    let margin = m.size * 2 / 28;
    let stroke = m.size * 3 / 28;
    let battery_w = m.size + stroke + margin * 3;
    let charging_w = if charging {
        m.charging_w + margin * 3
    } else {
        0
    };
    ((battery_w + charging_w) as u32, m.body_h as u32)
}

/// The battery indicator of the status bar, anchored at its top-right corner.
#[derive(Debug)]
pub struct BatteryIndicator {
    point: Point,
    label: Option<String>,
    icons: BatteryIconVariant,
    charging: bool,
    percentage: i32,
    dirty: bool,
}

impl BatteryIndicator {
    pub closed spec fn spec_point(&self) -> Point {
        self.point
    }

    /// The label's text, when the percentage is shown.
    pub closed spec fn spec_label(&self) -> Option<Seq<char>> {
        match self.label {
            Some(s) => Some(s@),
            None => None,
        }
    }

    pub closed spec fn spec_icons(&self) -> BatteryIconVariant {
        self.icons
    }

    pub closed spec fn spec_charging(&self) -> bool {
        self.charging
    }

    pub closed spec fn spec_percentage(&self) -> int {
        self.percentage as int
    }

    pub closed spec fn spec_dirty(&self) -> bool {
        self.dirty
    }

    /// Icons drawn from images have at least one level.
    pub open spec fn wf(&self) -> bool {
        self.spec_icons() matches BatteryIconVariant::Image { levels, .. } ==> levels.len() > 0
    }

    /// An indicator showing the battery's state, with the percentage as a label when
    /// `show_percentage` is set; it is to be drawn.
    pub fn new(
        point: Point,
        icons: BatteryIconVariant,
        charging: bool,
        percentage: i32,
        show_percentage: bool,
    ) -> (b: Self)
        requires
            icons matches BatteryIconVariant::Image { levels, .. } ==> levels.len() > 0,
        ensures
            b.wf(),
            b.spec_point() == point,
            b.spec_icons() == icons,
            b.spec_charging() == charging,
            b.spec_percentage() == percentage,
            b.spec_label() == if show_percentage {
                Some(spec_battery_label(charging, percentage as int))
            } else {
                None::<Seq<char>>
            },
            b.spec_dirty(),
    {
        let label = if show_percentage {
            Some(format_battery_percentage(charging, percentage))
        } else {
            None
        };
        Self { point, label, icons, charging, percentage, dirty: true }
    }

    /// Takes a new reading of the battery: the label shows it and the indicator is to be
    /// drawn again.
    pub fn update(&mut self, charging: bool, percentage: i32)
        ensures
            final(self).spec_charging() == charging,
            final(self).spec_percentage() == percentage,
            final(self).spec_label() == match old(self).spec_label() {
                Some(_) => Some(spec_battery_label(charging, percentage as int)),
                None => None::<Seq<char>>,
            },
            final(self).spec_dirty(),
            final(self).spec_point() == old(self).spec_point(),
            final(self).spec_icons() == old(self).spec_icons(),
    {
        self.charging = charging;
        self.percentage = percentage;
        if self.label.is_some() {
            self.label = Some(format_battery_percentage(charging, percentage));
        }
        self.dirty = true;
    }

    pub fn label(&self) -> (l: Option<&String>)
        ensures
            match l {
                Some(s) => self.spec_label() == Some(s@),
                None => self.spec_label() is None,
            },
    {
        match &self.label {
            Some(s) => Some(s),
            None => None,
        }
    }

    pub fn point(&self) -> (p: Point)
        ensures
            p == self.spec_point(),
    {
        self.point
    }

    pub fn charging(&self) -> (c: bool)
        ensures
            c == self.spec_charging(),
    {
        self.charging
    }

    pub fn percentage(&self) -> (p: i32)
        ensures
            p == self.spec_percentage(),
    {
        self.percentage
    }

    pub fn should_draw(&self) -> (d: bool)
        ensures
            d == self.spec_dirty(),
    {
        self.dirty
    }

    pub fn set_should_draw(&mut self)
        ensures
            final(self).spec_dirty(),
            final(self).spec_point() == old(self).spec_point(),
            final(self).spec_label() == old(self).spec_label(),
            final(self).spec_icons() == old(self).spec_icons(),
            final(self).spec_charging() == old(self).spec_charging(),
            final(self).spec_percentage() == old(self).spec_percentage(),
    {
        self.dirty = true;
    }

    /// After drawing, nothing is left to draw.
    pub fn mark_drawn(&mut self)
        ensures
            !final(self).spec_dirty(),
            final(self).spec_point() == old(self).spec_point(),
            final(self).spec_label() == old(self).spec_label(),
            final(self).spec_icons() == old(self).spec_icons(),
            final(self).spec_charging() == old(self).spec_charging(),
            final(self).spec_percentage() == old(self).spec_percentage(),
    {
        self.dirty = false;
    }

    /// Moving the indicator does not by itself redraw it.
    pub fn set_position(&mut self, point: Point)
        ensures
            final(self).spec_point() == point,
            final(self).spec_dirty() == old(self).spec_dirty(),
            final(self).spec_label() == old(self).spec_label(),
            final(self).spec_icons() == old(self).spec_icons(),
            final(self).spec_charging() == old(self).spec_charging(),
            final(self).spec_percentage() == old(self).spec_percentage(),
    {
        self.point = point;
    }

    /// The room the icon leaves for the label: the label's width and the gap, or nothing
    /// when there is no label.
    pub fn label_width(&self, label_box_w: u32) -> (w: i32)
        requires
            label_box_w <= i32::MAX - LABEL_GAP,
        ensures
            w == if self.spec_label() is Some {
                label_box_w + LABEL_GAP
            } else {
                0
            },
    {
        if self.label.is_some() {
            label_box_w as i32 + LABEL_GAP
        } else {
            0
        }
    }

    /// The icon's size: from images, that of the charging image while charging and of the
    /// first level otherwise; drawn, the size of the drawn battery.
    pub fn icon_size(&self, m: BatteryMetrics) -> (s: (u32, u32))
        requires
            self.wf(),
            self.spec_icons() is Vector ==> {
                &&& 0 <= m.size
                &&& 3 * m.size <= i32::MAX
                &&& 0 <= m.body_h
                &&& 0 <= m.charging_w
                &&& vector_icon_width(m, self.spec_charging()) <= i32::MAX
            },
        ensures
            s == match self.spec_icons() {
                BatteryIconVariant::Image { charging, levels } => if self.spec_charging() {
                    image_size(charging)
                } else {
                    image_size(levels@[0])
                },
                BatteryIconVariant::Vector => spec_vector_icon_size(m, self.spec_charging()),
            },
    {
        match &self.icons {
            BatteryIconVariant::Image { charging, levels } => {
                if self.charging {
                    charging.dimensions()
                } else {
                    levels[0].dimensions()
                }
            },
            BatteryIconVariant::Vector => vector_icon_size(m, self.charging),
        }
    }

    /// The area of the indicator: the icon and the label, extending left and down from the
    /// anchor.
    pub fn bounding_box(&self, icon_w: u32, icon_h: u32, label_w: i32) -> (r: Rect)
        requires
            0 <= label_w,
            icon_w + label_w <= i32::MAX,
            i32::MIN <= self.spec_point().x - (icon_w + label_w),
        ensures
            r == (Rect {
                x: (self.spec_point().x - (icon_w + label_w)) as i32,
                y: self.spec_point().y,
                w: (icon_w + label_w) as u32,
                h: icon_h,
            }),
    {
        let total_width = icon_w as i32 + label_w;
        Rect::new(self.point.x - total_width, self.point.y, total_width as u32, icon_h)
    }

    /// Placing the icon left of a label `label_w` wide stays within the integer types: the
    /// label's width is not negative, nor is the charge unless charging, and for icons drawn
    /// from images, there is a level image, the level's index can be worked out, and the
    /// image's left edge is an `i32`.
    pub open spec fn image_draw_fits(&self, label_w: int) -> bool {
        &&& self.wf()
        &&& 0 <= label_w
        &&& self.spec_charging() || 0 <= self.spec_percentage()
        &&& self.spec_icons() matches BatteryIconVariant::Image { levels, .. }
            ==> self.spec_percentage() * levels.len() <= usize::MAX
        &&& self.spec_icons() matches BatteryIconVariant::Image { charging, levels } ==> {
            let w = if self.spec_charging() {
                image_size(charging).0
            } else {
                image_size(levels@[spec_level_index(self.spec_percentage(), levels.len() as int)]).0
            };
            &&& w <= i32::MAX
            &&& i32::MIN <= self.spec_point().x - w - label_w <= i32::MAX
        }
    }

    /// Whether placing the icon left of a label `label_w` wide stays within the integer
    /// types.
    pub fn fits_image_draw(&self, label_w: i32) -> (b: bool)
        ensures
            b == self.image_draw_fits(label_w as int),
    {
        if label_w < 0 || (!self.charging && self.percentage < 0) {
            return false;
        }
        match &self.icons {
            BatteryIconVariant::Vector => true,
            BatteryIconVariant::Image { charging, levels } => {
                let n = levels.len();
                if n == 0 {
                    return false;
                }
                let p: u64 = if self.percentage < 0 {
                    0
                } else {
                    self.percentage as u64
                };
                assert(p * n <= u64::MAX * u64::MAX) by (nonlinear_arith)
                    requires
                        p <= u64::MAX,
                        n <= u64::MAX,
                ;
                let pn = (p as u128) * (n as u128);
                assert((self.percentage * n <= usize::MAX) == (self.percentage < 0 || pn
                    <= usize::MAX)) by (nonlinear_arith)
                    requires
                        pn == p * n,
                        n > 0,
                        self.percentage >= 0 ==> p == self.percentage,
                ;
                if self.percentage >= 0 && pn > usize::MAX as u128 {
                    return false;
                }
                let img = if self.charging {
                    charging
                } else {
                    let level = level_index(self.percentage, n);
                    &levels[level]
                };
                let (w, _h) = img.dimensions();
                if w > i32::MAX as u32 {
                    return false;
                }
                let x = self.point.x as i64 - w as i64 - label_w as i64;
                i32::MIN as i64 <= x && x <= i32::MAX as i64
            },
        }
    }

    /// The image to draw and where, for icons drawn from images: the charging image while
    /// charging, otherwise the image of the charge's level, placed left of the label.
    pub fn image_to_draw(&self, label_w: i32) -> (r: Option<(&Bitmap, Point)>)
        requires
            self.image_draw_fits(label_w as int),
        ensures
            match self.spec_icons() {
                BatteryIconVariant::Image { charging, levels } => {
                    let img = if self.spec_charging() {
                        charging
                    } else {
                        levels@[spec_level_index(self.spec_percentage(), levels.len() as int)]
                    };
                    r == Some(
                        (
                            &img,
                            Point {
                                x: (self.spec_point().x - image_size(img).0 - label_w) as i32,
                                y: self.spec_point().y,
                            },
                        ),
                    )
                },
                BatteryIconVariant::Vector => r is None,
            },
    {
        match &self.icons {
            BatteryIconVariant::Image { charging, levels } => {
                let img = if self.charging {
                    charging
                } else {
                    let level = level_index(self.percentage, levels.len());
                    &levels[level]
                };
                let (w, _h) = img.dimensions();
                Some((img, Point::new(self.point.x - w as i32 - label_w, self.point.y)))
            },
            BatteryIconVariant::Vector => None,
        }
    }
}

} // verus!
