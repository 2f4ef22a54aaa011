//! The values of a theme's stylesheet that layout and colouring read: flags, colours,
//! sizes and margins, with their defaults and how an override sheet is merged in.

use vstd::prelude::*;
use vstd::string::*;
use crate::bitmap::{Bitmap, ScaleFilter, filled, image_pixels, image_size};
use crate::color::{Channels, Color, mix, spec_blend, spec_upper_hex};

verus! {

/// A colour of the stylesheet, named by its role.
#[derive(Debug, Clone, Copy, PartialEq, Eq, Structural)]
pub enum StylesheetColor {
    Foreground,
    Background,
    Highlight,
    HighlightText,
    Disabled,
    Tab,
    TabSelected,
    ButtonA,
    ButtonB,
    ButtonX,
    ButtonY,
    ButtonText,
    ButtonHintText,
    BackgroundHighlightBlend,
    Stroke,
    HighlightTextStroke,
    TabStroke,
    TabSelectedStroke,
    StatusBar,
    StatusBarStroke,
}

/// A font of the stylesheet: its file, as a path or a name in the fonts folder, and the size it
/// is drawn at.
#[derive(Debug, Clone)]
pub struct FontSource {
    pub path: String,
    pub size: u32,
}

impl FontSource {
    pub fn new(path: &str, size: u32) -> (f: Self)
        ensures
            f.path@ == path@,
            f.size == size,
    {
        FontSource { path: String::from_str(path), size }
    }
}

/// The plain values of a theme's stylesheet: its wallpaper, flags, colours, fonts, sizes and
/// margins.
#[derive(Debug, Clone)]
pub struct Stylesheet {
    pub wallpaper: Option<String>,
    pub show_battery_level: bool,
    pub show_clock: bool,
    pub use_recents_carousel: bool,
    pub boxart_width: u32,
    pub foreground_color: Color,
    pub background_color: Color,
    pub highlight_color: Color,
    pub highlight_text_color: Color,
    pub disabled_color: Color,
    pub tab_color: Color,
    pub tab_selected_color: Color,
    pub button_a_color: Color,
    pub button_b_color: Color,
    pub button_x_color: Color,
    pub button_y_color: Color,
    pub button_text_color: Color,
    pub button_hint_text_color: Color,
    pub stroke_color: Color,
    pub highlight_text_stroke_color: Color,
    pub tab_stroke_color: Color,
    pub tab_selected_stroke_color: Color,
    pub status_bar_color: Color,
    pub status_bar_stroke_color: Color,
    pub stroke_width: u32,
    pub ui_font: FontSource,
    pub guide_font: FontSource,
    pub cjk_font: FontSource,
    pub margin_x: i32,
    pub margin_y: i32,
    pub list_margin: i32,
    pub padding_x: i32,
    pub padding_y: i32,
}

impl StylesheetColor {
    /// The colour this role has in `stylesheet`; the blend of background and highlight is
    /// half of each.
    pub open spec fn spec_to_color(self, s: Stylesheet) -> (u8, u8, u8, u8) {
        match self {
            StylesheetColor::Foreground => s.foreground_color@,
            StylesheetColor::Background => s.background_color@,
            StylesheetColor::Highlight => s.highlight_color@,
            StylesheetColor::HighlightText => s.highlight_text_color@,
            StylesheetColor::Disabled => s.disabled_color@,
            StylesheetColor::Tab => s.tab_color@,
            StylesheetColor::TabSelected => s.tab_selected_color@,
            StylesheetColor::ButtonA => s.button_a_color@,
            StylesheetColor::ButtonB => s.button_b_color@,
            StylesheetColor::ButtonX => s.button_x_color@,
            StylesheetColor::ButtonY => s.button_y_color@,
            StylesheetColor::ButtonText => s.button_text_color@,
            StylesheetColor::ButtonHintText => s.button_hint_text_color@,
            StylesheetColor::BackgroundHighlightBlend => spec_blend(s.background_color@, s.highlight_color@, 128),
            StylesheetColor::Stroke => s.stroke_color@,
            StylesheetColor::HighlightTextStroke => s.highlight_text_stroke_color@,
            StylesheetColor::TabStroke => s.tab_stroke_color@,
            StylesheetColor::TabSelectedStroke => s.tab_selected_stroke_color@,
            StylesheetColor::StatusBar => s.status_bar_color@,
            StylesheetColor::StatusBarStroke => s.status_bar_stroke_color@,
        }
    }

    pub fn to_color(&self, stylesheet: &Stylesheet) -> (c: Color)
        ensures
            c@ == self.spec_to_color(*stylesheet),
    {
        match self {
            StylesheetColor::Foreground => stylesheet.foreground_color,
            StylesheetColor::Background => stylesheet.background_color,
            StylesheetColor::Highlight => stylesheet.highlight_color,
            StylesheetColor::HighlightText => stylesheet.highlight_text_color,
            StylesheetColor::Disabled => stylesheet.disabled_color,
            StylesheetColor::Tab => stylesheet.tab_color,
            StylesheetColor::TabSelected => stylesheet.tab_selected_color,
            StylesheetColor::ButtonA => stylesheet.button_a_color,
            StylesheetColor::ButtonB => stylesheet.button_b_color,
            StylesheetColor::ButtonX => stylesheet.button_x_color,
            StylesheetColor::ButtonY => stylesheet.button_y_color,
            StylesheetColor::ButtonText => stylesheet.button_text_color,
            StylesheetColor::ButtonHintText => stylesheet.button_hint_text_color,
            StylesheetColor::BackgroundHighlightBlend => stylesheet.background_color.blend(stylesheet.highlight_color, 128),
            StylesheetColor::Stroke => stylesheet.stroke_color,
            StylesheetColor::HighlightTextStroke => stylesheet.highlight_text_stroke_color,
            StylesheetColor::TabStroke => stylesheet.tab_stroke_color,
            StylesheetColor::TabSelectedStroke => stylesheet.tab_selected_stroke_color,
            StylesheetColor::StatusBar => stylesheet.status_bar_color,
            StylesheetColor::StatusBarStroke => stylesheet.status_bar_stroke_color,
        }
    }
}

impl Stylesheet {
    /// Whether `s` holds the built-in theme's values.
    pub open spec fn is_default(s: Stylesheet) -> bool {
        &&& s.show_battery_level == false
        &&& s.show_clock == true
        &&& s.use_recents_carousel == false
        &&& s.boxart_width == 250
        &&& s.foreground_color@ == (255u8, 255u8, 255u8, 255u8)
        &&& s.background_color@ == (0u8, 0u8, 0u8, 255u8)
        &&& s.highlight_color@ == (114u8, 135u8, 253u8, 255u8)
        &&& s.highlight_text_color@ == (255u8, 255u8, 255u8, 255u8)
        &&& s.disabled_color@ == (88u8, 91u8, 112u8, 255u8)
        &&& s.tab_color@ == (255u8, 255u8, 255u8, 112u8)
        &&& s.tab_selected_color@ == (255u8, 255u8, 255u8, 255u8)
        &&& s.button_a_color@ == (235u8, 26u8, 29u8, 255u8)
        &&& s.button_b_color@ == (254u8, 206u8, 21u8, 255u8)
        &&& s.button_x_color@ == (7u8, 73u8, 180u8, 255u8)
        &&& s.button_y_color@ == (0u8, 141u8, 69u8, 255u8)
        &&& s.button_text_color@ == (255u8, 255u8, 255u8, 255u8)
        &&& s.button_hint_text_color@ == (255u8, 255u8, 255u8, 255u8)
        &&& s.stroke_color@ == (0u8, 0u8, 0u8, 0u8)
        &&& s.highlight_text_stroke_color@ == (0u8, 0u8, 0u8, 0u8)
        &&& s.tab_stroke_color@ == (0u8, 0u8, 0u8, 0u8)
        &&& s.tab_selected_stroke_color@ == (0u8, 0u8, 0u8, 0u8)
        &&& s.status_bar_color@ == (255u8, 255u8, 255u8, 255u8)
        &&& s.status_bar_stroke_color@ == (0u8, 0u8, 0u8, 0u8)
        &&& s.stroke_width == 0
        &&& s.wallpaper is None
        &&& s.ui_font.path@ == "Nunito.ttf"@
        &&& s.ui_font.size == 36
        &&& s.guide_font.path@ == "Nunito.ttf"@
        &&& s.guide_font.size == 28
        &&& s.cjk_font.path@ == "NotoSansCJK.otf"@
        &&& s.cjk_font.size == 32
        &&& s.margin_x == 12
        &&& s.margin_y == 8
        &&& s.list_margin == 4
        &&& s.padding_x == 12
        &&& s.padding_y == 4
    }

    pub fn new() -> (s: Self)
        ensures
            Self::is_default(s),
    {
        Self::default()
    }

    /// Merges the override sheet `other` in: its wallpaper where it has one, else the
    /// current one; the current CJK font, which sheets do not store; every other value from
    /// `other`.
    pub fn merge(&mut self, other: Self)
        ensures
            *final(self) == spec_merged(*old(self), other),
    {
        let wallpaper = match other.wallpaper {
            Some(w) => Some(w),
            None => self.wallpaper.take(),
        };
        self.wallpaper = wallpaper;
        self.show_battery_level = other.show_battery_level;
        self.show_clock = other.show_clock;
        self.use_recents_carousel = other.use_recents_carousel;
        self.boxart_width = other.boxart_width;
        self.foreground_color = other.foreground_color;
        self.background_color = other.background_color;
        self.highlight_color = other.highlight_color;
        self.highlight_text_color = other.highlight_text_color;
        self.disabled_color = other.disabled_color;
        self.tab_color = other.tab_color;
        self.tab_selected_color = other.tab_selected_color;
        self.button_a_color = other.button_a_color;
        self.button_b_color = other.button_b_color;
        self.button_x_color = other.button_x_color;
        self.button_y_color = other.button_y_color;
        self.button_text_color = other.button_text_color;
        self.button_hint_text_color = other.button_hint_text_color;
        self.stroke_color = other.stroke_color;
        self.highlight_text_stroke_color = other.highlight_text_stroke_color;
        self.tab_stroke_color = other.tab_stroke_color;
        self.tab_selected_stroke_color = other.tab_selected_stroke_color;
        self.status_bar_color = other.status_bar_color;
        self.status_bar_stroke_color = other.status_bar_stroke_color;
        self.stroke_width = other.stroke_width;
        self.ui_font = other.ui_font;
        self.guide_font = other.guide_font;
        self.margin_x = other.margin_x;
        self.margin_y = other.margin_y;
        self.list_margin = other.list_margin;
        self.padding_x = other.padding_x;
        self.padding_y = other.padding_y;
    }

    pub fn toggle_battery_percentage(&mut self)
        ensures
            *final(self) == (Stylesheet {
                show_battery_level: !old(self).show_battery_level,
                ..*old(self)
            }),
    {
        self.show_battery_level = !self.show_battery_level;
    }

    pub fn toggle_clock(&mut self)
        ensures
            *final(self) == (Stylesheet { show_clock: !old(self).show_clock, ..*old(self) }),
    {
        self.show_clock = !self.show_clock;
    }
}

/// The stylesheet `s` with the override sheet `other` merged in: `other`'s wallpaper where it
/// has one, else `s`'s; `s`'s CJK font; every other value from `other`.
pub open spec fn spec_merged(s: Stylesheet, other: Stylesheet) -> Stylesheet {
    Stylesheet {
        wallpaper: if other.wallpaper is Some {
            other.wallpaper
        } else {
            s.wallpaper
        },
        cjk_font: s.cjk_font,
        ..other
    }
}

/// Merging takes every value of the override sheet but the wallpaper and the CJK font: its
/// flags, colours, fonts, sizes and margins all replace the current ones; its wallpaper
/// replaces the current one only where it has one; the CJK font, which sheets do not store,
/// stays.
pub proof fn lemma_merge_takes_override(s: Stylesheet, other: Stylesheet)
    ensures
        ({
            let m = spec_merged(s, other);
            &&& m.show_battery_level == other.show_battery_level
            &&& m.show_clock == other.show_clock
            &&& m.use_recents_carousel == other.use_recents_carousel
            &&& m.boxart_width == other.boxart_width
            &&& m.foreground_color == other.foreground_color
            &&& m.background_color == other.background_color
            &&& m.highlight_color == other.highlight_color
            &&& m.highlight_text_color == other.highlight_text_color
            &&& m.disabled_color == other.disabled_color
            &&& m.tab_color == other.tab_color
            &&& m.tab_selected_color == other.tab_selected_color
            &&& m.button_a_color == other.button_a_color
            &&& m.button_b_color == other.button_b_color
            &&& m.button_x_color == other.button_x_color
            &&& m.button_y_color == other.button_y_color
            &&& m.button_text_color == other.button_text_color
            &&& m.button_hint_text_color == other.button_hint_text_color
            &&& m.stroke_color == other.stroke_color
            &&& m.highlight_text_stroke_color == other.highlight_text_stroke_color
            &&& m.tab_stroke_color == other.tab_stroke_color
            &&& m.tab_selected_stroke_color == other.tab_selected_stroke_color
            &&& m.status_bar_color == other.status_bar_color
            &&& m.status_bar_stroke_color == other.status_bar_stroke_color
            &&& m.stroke_width == other.stroke_width
            &&& m.ui_font == other.ui_font
            &&& m.guide_font == other.guide_font
            &&& m.margin_x == other.margin_x
            &&& m.margin_y == other.margin_y
            &&& m.list_margin == other.list_margin
            &&& m.padding_x == other.padding_x
            &&& m.padding_y == other.padding_y
            &&& m.wallpaper == (if other.wallpaper is Some {
                other.wallpaper
            } else {
                s.wallpaper
            })
            &&& m.cjk_font == s.cjk_font
        }),
{
}

/// Merging the same override sheet a second time changes nothing.
pub proof fn lemma_merge_idempotent(s: Stylesheet, other: Stylesheet)
    ensures
        spec_merged(spec_merged(s, other), other) == spec_merged(s, other),
{
}

impl Default for Stylesheet {
    fn default() -> (s: Self)
        ensures
            Self::is_default(s),
    {
        proof {
            reveal_strlit("Nunito.ttf");
            reveal_strlit("NotoSansCJK.otf");
        }
        Self {
            wallpaper: None,
            show_battery_level: false,
            show_clock: true,
            use_recents_carousel: false,
            boxart_width: 250,
            foreground_color: Color::new(255, 255, 255),
            background_color: Color::new(0, 0, 0),
            highlight_color: Color::new(114, 135, 253),
            highlight_text_color: Color::new(255, 255, 255),
            disabled_color: Color::new(88, 91, 112),
            tab_color: Color::rgba(255, 255, 255, 112),
            tab_selected_color: Color::new(255, 255, 255),
            button_a_color: Color::new(235, 26, 29),
            button_b_color: Color::new(254, 206, 21),
            button_x_color: Color::new(7, 73, 180),
            button_y_color: Color::new(0, 141, 69),
            button_text_color: Color::new(255, 255, 255),
            button_hint_text_color: Color::new(255, 255, 255),
            stroke_color: Color::rgba(0, 0, 0, 0),
            highlight_text_stroke_color: Color::rgba(0, 0, 0, 0),
            tab_stroke_color: Color::rgba(0, 0, 0, 0),
            tab_selected_stroke_color: Color::rgba(0, 0, 0, 0),
            status_bar_color: Color::new(255, 255, 255),
            status_bar_stroke_color: Color::rgba(0, 0, 0, 0),
            stroke_width: 0,
            ui_font: FontSource::new("Nunito.ttf", 36),
            guide_font: FontSource::new("Nunito.ttf", 28),
            cjk_font: FontSource::new("NotoSansCJK.otf", 32),
            margin_x: 12,
            margin_y: 8,
            list_margin: 4,
            padding_x: 12,
            padding_y: 4,
        }
    }
}

/// A line of RetroArch's menu theme setting `key` to the opaque colour `c`.
pub open spec fn rgui_color_line(key: Seq<char>, c: Color) -> Seq<char> {
    key + " = \"0xFF"@ + spec_upper_hex(c@) + "\"\n"@
}

/// RetroArch's menu theme for a stylesheet: its tab colours for the menu entries, its
/// highlight for the title and particles, its background for the rest, and the theme's
/// wallpaper.
pub open spec fn spec_retroarch_theme(s: Stylesheet) -> Seq<char> {
    rgui_color_line("rgui_entry_normal_color"@, s.tab_color) + rgui_color_line(
        "rgui_entry_hover_color"@,
        s.tab_selected_color,
    ) + rgui_color_line("rgui_title_color"@, s.highlight_color) + rgui_color_line(
        "rgui_bg_dark_color"@,
        s.background_color,
    ) + rgui_color_line("rgui_bg_light_color"@, s.background_color) + rgui_color_line(
        "rgui_border_dark_color"@,
        s.background_color,
    ) + rgui_color_line("rgui_border_light_color"@, s.background_color) + rgui_color_line(
        "rgui_shadow_color"@,
        s.background_color,
    ) + rgui_color_line("rgui_particle_color"@, s.highlight_color)
        + "rgui_wallpaper = \"/mnt/SDCARD/RetroArch/.retroarch/assets/rgui/Allium.png\"\n"@
}

fn push_rgui_color_line(out: &mut String, key: &str, c: Color)
    ensures
        final(out)@ == old(out)@ + rgui_color_line(key@, c),
{
    out.append(key);
    out.append(" = \"0xFF");
    let hex = c.upper_hex();
    out.append(hex.as_str());
    out.append("\"\n");
}

/// A pixel of the wallpaper with the stylesheet's background mixed in by the background's
/// alpha; the pixel's own alpha is kept.
pub open spec fn tinted(p: Channels, bg: Color) -> Channels {
    (mix(p.0, bg@.0, bg@.3), mix(p.1, bg@.1, bg@.3), mix(p.2, bg@.2, bg@.3), p.3)
}

fn mix_u8(s: u8, o: u8, alpha: u8) -> (r: u8)
    ensures
        r == mix(s, o, alpha),
{
    let a = alpha as u32;
    assert(s * (255 - a) + o * a <= 255 * 255) by (nonlinear_arith)
        requires
            s <= 255,
            o <= 255,
            a <= 255,
    ;
    ((s as u32 * (255 - a) + o as u32 * a) / 255) as u8
}

impl Stylesheet {
    /// RetroArch's menu theme for this stylesheet.
    pub fn retroarch_theme(&self) -> (t: String)
        ensures
            t@ == spec_retroarch_theme(*self),
    {
        let mut out = String::new();
        push_rgui_color_line(&mut out, "rgui_entry_normal_color", self.tab_color);
        push_rgui_color_line(&mut out, "rgui_entry_hover_color", self.tab_selected_color);
        push_rgui_color_line(&mut out, "rgui_title_color", self.highlight_color);
        push_rgui_color_line(&mut out, "rgui_bg_dark_color", self.background_color);
        push_rgui_color_line(&mut out, "rgui_bg_light_color", self.background_color);
        push_rgui_color_line(&mut out, "rgui_border_dark_color", self.background_color);
        push_rgui_color_line(&mut out, "rgui_border_light_color", self.background_color);
        push_rgui_color_line(&mut out, "rgui_shadow_color", self.background_color);
        push_rgui_color_line(&mut out, "rgui_particle_color", self.highlight_color);
        out.append("rgui_wallpaper = \"/mnt/SDCARD/RetroArch/.retroarch/assets/rgui/Allium.png\"\n");
        out
    }

    /// RetroArch's wallpaper made from the theme's `wallpaper`: scaled to fill the menu's
    /// 320 by 240 pixels when it is not that size already (320 wide and as high as its aspect
    /// ratio gives, at most 240), then tinted with the background colour.
    pub fn retroarch_wallpaper(&self, wallpaper: Bitmap) -> (out: Bitmap)
        requires
            image_size(wallpaper).0 > 0,
            image_size(wallpaper).1 > 0,
            320 * image_size(wallpaper).1 <= u32::MAX,
        ensures
            ({
                let size = image_size(wallpaper);
                let (pixels, sized) = match spec_rgui_wallpaper_size(size.0, size.1) {
                    None => (image_pixels(wallpaper), size),
                    Some(t) => filled(image_pixels(wallpaper), size, t.0, t.1, ScaleFilter::Nearest),
                };
                &&& image_size(out) == sized
                &&& self.background_color@.3 == 0 ==> image_pixels(out) == pixels
                &&& self.background_color@.3 != 0 ==> forall|x: u32, y: u32|
                    x < sized.0 && y < sized.1 ==> #[trigger] image_pixels(out)[(x, y)] == tinted(
                        pixels[(x, y)],
                        self.background_color,
                    )
            }),
    {
        let (w, h) = wallpaper.dimensions();
        let mut image = match rgui_wallpaper_size(w, h) {
            None => wallpaper,
            Some((tw, th)) => wallpaper.resized_to_fill(tw, th, ScaleFilter::Nearest),
        };
        self.tint_wallpaper(&mut image);
        image
    }

    /// Mixes the background colour into RetroArch's wallpaper by the background's alpha;
    /// a transparent background leaves the wallpaper as it is.
    pub fn tint_wallpaper(&self, image: &mut Bitmap)
        ensures
            image_size(*final(image)) == image_size(*old(image)),
            self.background_color@.3 == 0 ==> image_pixels(*final(image)) == image_pixels(
                *old(image),
            ),
            self.background_color@.3 != 0 ==> forall|x: u32, y: u32|
                x < image_size(*old(image)).0 && y < image_size(*old(image)).1
                    ==> #[trigger] image_pixels(*final(image))[(x, y)] == tinted(
                    image_pixels(*old(image))[(x, y)],
                    self.background_color,
                ),
    {
        let bg = self.background_color;
        if bg.a() == 0 {
            return ;
        }
        let ghost start = image_pixels(*image);
        let (w, h) = image.dimensions();
        let mut y: u32 = 0;
        while y < h
            invariant
                0 <= y <= h,
                image_size(*image) == (w, h),
                bg == self.background_color,
                forall|px: u32, py: u32|
                    px < w && py < h ==> #[trigger] image_pixels(*image)[(px, py)] == if py < y {
                        tinted(start[(px, py)], bg)
                    } else {
                        start[(px, py)]
                    },
            decreases h - y,
        {
            let mut x: u32 = 0;
            while x < w
                invariant
                    0 <= y < h,
                    0 <= x <= w,
                    image_size(*image) == (w, h),
                    bg == self.background_color,
                    forall|px: u32, py: u32|
                        px < w && py < h ==> #[trigger] image_pixels(*image)[(px, py)] == if py < y
                            || (py == y && px < x) {
                            tinted(start[(px, py)], bg)
                        } else {
                            start[(px, py)]
                        },
                decreases w - x,
            {
                let p = image.get_pixel(x, y);
                let a = bg.a();
                let t = (mix_u8(p.0, bg.r(), a), mix_u8(p.1, bg.g(), a), mix_u8(p.2, bg.b(), a), p.3);
                image.put_pixel(x, y, t);
                x = x + 1;
            }
            y = y + 1;
        }
    }
}

/// The size RetroArch's wallpaper is scaled to from `w` by `h`: 320 wide and as high as the
/// aspect ratio gives, at most 240; `None` when it is 320 by 240 already.
pub open spec fn spec_rgui_wallpaper_size(w: u32, h: u32) -> Option<(u32, u32)> {
    if w == 320 && h == 240 {
        None
    } else {
        let by_ratio = (320 * h) / (w as int);
        Some((320u32, if by_ratio < 240 {
            by_ratio as u32
        } else {
            240u32
        }))
    }
}

/// The size RetroArch's wallpaper is scaled to from `w` by `h`.
pub fn rgui_wallpaper_size(w: u32, h: u32) -> (s: Option<(u32, u32)>)
    requires
        w > 0,
        320 * h <= u32::MAX,
    ensures
        s == spec_rgui_wallpaper_size(w, h),
{
    if w == 320 && h == 240 {
        return None;
    }
    let by_ratio = 320 * h / w;
    Some((320, if by_ratio < 240 {
        by_ratio
    } else {
        240
    }))
}

/// Whether `a` comes no later than `b` in the order of their characters' code points, a
/// prefix first.
pub open spec fn text_le(a: Seq<char>, b: Seq<char>) -> bool
    decreases a.len(),
{
    if a.len() == 0 {
        true
    } else if b.len() == 0 {
        false
    } else if a[0] != b[0] {
        (a[0] as u32) < (b[0] as u32)
    } else {
        text_le(a.drop_first(), b.drop_first())
    }
}

/// The texts of a list of strings.
pub open spec fn texts(v: Seq<String>) -> Seq<Seq<char>> {
    v.map_values(|s: String| s@)
}

/// The names in order (`Itertools::sorted_unstable`, which orders `String`s by their UTF-8
/// bytes, the order of their characters' code points).
#[verifier::external_body]
fn sorted_names(names: Vec<String>) -> (r: Vec<String>)
    ensures
        texts(r@).to_multiset() == texts(names@).to_multiset(),
        forall|i: int, j: int| 0 <= i < j < r@.len() ==> text_le(#[trigger] r@[i]@, #[trigger] r@[j]@),
{
    itertools::Itertools::sorted_unstable(names.into_iter()).collect()
}

/// The index of the last `.` among the first `n` characters, or -1.
pub open spec fn last_dot(s: Seq<char>, n: int) -> int
    decreases n,
{
    if n <= 0 {
        -1
    } else if s[n - 1] == '.' {
        n - 1
    } else {
        last_dot(s, n - 1)
    }
}

/// Whether a file is a font the stylesheet can use: not hidden, and named with the extension
/// `ttf`, `otf` or `ttc` after its last dot.
pub open spec fn spec_is_font_file(name: Seq<char>) -> bool {
    let ext = name.subrange(last_dot(name, name.len() as int) + 1, name.len() as int);
    &&& name.len() > 0
    &&& name[0] != '.'
    &&& last_dot(name, name.len() as int) >= 0
    &&& (ext == "ttf"@ || ext == "otf"@ || ext == "ttc"@)
}

/// Whether a name is that of a font file, as a predicate.
pub open spec fn font_file_pred() -> spec_fn(Seq<char>) -> bool {
    |n: Seq<char>| spec_is_font_file(n)
}

/// Whether a file is a font the stylesheet can use.
pub fn is_font_file(name: &str) -> (b: bool)
    ensures
        b == spec_is_font_file(name@),
{
    let n = name.unicode_len();
    if n == 0 || name.get_char(0) == '.' {
        return false;
    }
    let mut i = n;
    while i > 0
        invariant
            i <= n == name@.len(),
            last_dot(name@, n as int) == last_dot(name@, i as int),
        ensures
            i <= n == name@.len(),
            last_dot(name@, n as int) == last_dot(name@, i as int),
            i > 0 ==> name@[i - 1] == '.',
        decreases i,
    {
        if name.get_char(i - 1) == '.' {
            break;
        }
        i = i - 1;
    }
    if i == 0 {
        return false;
    }
    let ext = String::from_str(name.substring_char(i, n));
    proof {
        reveal_strlit("ttf");
        reveal_strlit("otf");
        reveal_strlit("ttc");
    }
    ext.eq(&String::from_str("ttf")) || ext.eq(&String::from_str("otf")) || ext.eq(
        &String::from_str("ttc"),
    )
}

/// The fonts among the file names of the fonts folder, in order.
pub fn font_files(names: Vec<String>) -> (r: Vec<String>)
    ensures
        texts(r@).to_multiset() == texts(names@).filter(font_file_pred()).to_multiset(),
        forall|i: int, j: int| 0 <= i < j < r@.len() ==> text_le(#[trigger] r@[i]@, #[trigger] r@[j]@),
{
    let mut kept: Vec<String> = Vec::new();
    let mut i: usize = 0;
    while i < names.len()
        invariant
            i <= names@.len(),
            texts(kept@) == texts(names@).subrange(0, i as int).filter(font_file_pred()),
        decreases names@.len() - i,
    {
        let name = &names[i];
        let ghost before = texts(names@).subrange(0, i as int);
        let ghost next = texts(names@).subrange(0, i + 1);
        let ghost old_kept = kept@;
        proof {
            assert(next.drop_last() =~= before);
            assert(next.last() == names@[i as int]@);
            reveal(Seq::filter);
        }
        if is_font_file(name.as_str()) {
            kept.push(name.clone());
            assert(texts(kept@) =~= texts(old_kept).push(names@[i as int]@));
        }
        i = i + 1;
    }
    assert(texts(names@).subrange(0, names@.len() as int) =~= texts(names@));
    sorted_names(kept)
}

/// Whether a name is that of a hidden file, one that starts with a dot.
pub open spec fn spec_is_hidden(name: Seq<char>) -> bool {
    name.len() > 0 && name[0] == '.'
}

/// Whether a name is shown, as a predicate.
pub open spec fn shown_pred() -> spec_fn(Seq<char>) -> bool {
    |n: Seq<char>| !spec_is_hidden(n)
}

/// The themes among the names of the folders that hold a stylesheet: those not hidden, in
/// order.
pub fn theme_names(names: Vec<String>) -> (r: Vec<String>)
    ensures
        texts(r@).to_multiset() == texts(names@).filter(shown_pred()).to_multiset(),
        forall|i: int, j: int| 0 <= i < j < r@.len() ==> text_le(#[trigger] r@[i]@, #[trigger] r@[j]@),
{
    let mut kept: Vec<String> = Vec::new();
    let mut i: usize = 0;
    while i < names.len()
        invariant
            i <= names@.len(),
            texts(kept@) == texts(names@).subrange(0, i as int).filter(shown_pred()),
        decreases names@.len() - i,
    {
        let name = &names[i];
        let ghost before = texts(names@).subrange(0, i as int);
        let ghost next = texts(names@).subrange(0, i + 1);
        let ghost old_kept = kept@;
        proof {
            assert(next.drop_last() =~= before);
            assert(next.last() == names@[i as int]@);
            reveal(Seq::filter);
        }
        let hidden = name.unicode_len() > 0 && name.as_str().get_char(0) == '.';
        if !hidden {
            kept.push(name.clone());
            assert(texts(kept@) =~= texts(old_kept).push(names@[i as int]@));
        }
        i = i + 1;
    }
    assert(texts(names@).subrange(0, names@.len() as int) =~= texts(names@));
    sorted_names(kept)
}

} // verus!
