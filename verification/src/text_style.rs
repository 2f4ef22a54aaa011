//! How text is styled: its colours, decorations, stroke and size, and where its background
//! and decorations go. The font itself is held beside the style by the renderer.

use vstd::prelude::*;
use crate::color::Color;
use crate::geom::{Point, Rect};

verus! {

/// The colour of an underline or a strikethrough.
#[derive(Debug, Clone, Copy, PartialEq, Eq, Structural)]
pub enum DecorationColor {
    /// No decoration.
    NoColor,
    /// The text's colour.
    TextColor,
    /// A colour of its own.
    Custom(Color),
}

/// How text is drawn.
#[derive(Debug, Clone, Copy, PartialEq, Eq, Structural)]
pub struct TextStyle {
    pub text_color: Option<Color>,
    pub background_color: Option<Color>,
    /// Whether the background is drawn.
    pub draw_background: bool,
    pub underline_color: DecorationColor,
    pub strikethrough_color: DecorationColor,
    pub stroke_color: Option<Color>,
    pub stroke_width: u32,
    pub font_size: u32,
}

/// The colour a decoration is drawn in, if it is drawn.
pub open spec fn spec_decoration_color(style: TextStyle, color: DecorationColor) -> Option<Color> {
    match color {
        DecorationColor::NoColor => None,
        DecorationColor::TextColor => style.text_color,
        DecorationColor::Custom(c) => Some(c),
    }
}

/// The thickness of a decoration line: a twelfth of the font size.
pub open spec fn line_height(font_size: u32) -> int {
    font_size as int / 12
}

impl TextStyle {
    /// The colour a decoration is drawn in, if it is drawn.
    pub fn resolve_decoration_color(&self, color: DecorationColor) -> (c: Option<Color>)
        ensures
            c == spec_decoration_color(*self, color),
    {
        match color {
            DecorationColor::NoColor => None,
            DecorationColor::TextColor => self.text_color,
            DecorationColor::Custom(c) => Some(c),
        }
    }

    /// The background behind text `width` wide at `position`, one font size high, in the
    /// background colour; nothing for empty text or without a background colour.
    pub fn background_rect(&self, width: u32, position: Point) -> (r: Option<(Rect, Color)>)
        ensures
            r == if width == 0 || self.background_color is None {
                None
            } else {
                Some(
                    (
                        Rect { x: position.x, y: position.y, w: width, h: self.font_size },
                        self.background_color->Some_0,
                    ),
                )
            },
    {
        if width == 0 {
            return None;
        }
        match self.background_color {
            Some(c) => Some((Rect { x: position.x, y: position.y, w: width, h: self.font_size }, c)),
            None => None,
        }
    }

    /// The strikethrough of text `width` wide at `position`: half the font size down, a
    /// twelfth of it thick, in its colour; nothing without a strikethrough.
    pub fn strikethrough_rect(&self, width: u32, position: Point) -> (r: Option<(Rect, Color)>)
        requires
            self.font_size <= i32::MAX,
            position.y + self.font_size / 2 <= i32::MAX,
        ensures
            r == match spec_decoration_color(*self, self.strikethrough_color) {
                None => None,
                Some(c) => Some(
                    (
                        Rect {
                            x: position.x,
                            y: (position.y + self.font_size / 2) as i32,
                            w: width,
                            h: (self.font_size / 12) as u32,
                        },
                        c,
                    ),
                ),
            },
    {
        match self.resolve_decoration_color(self.strikethrough_color) {
            Some(c) => Some(
                (
                    Rect {
                        x: position.x,
                        y: position.y + self.font_size as i32 / 2,
                        w: width,
                        h: self.font_size / 12,
                    },
                    c,
                ),
            ),
            None => None,
        }
    }

    /// The underline of text `width` wide at `position`: along the bottom of the font size, a
    /// twelfth of it thick, in its colour; nothing without an underline.
    pub fn underline_rect(&self, width: u32, position: Point) -> (r: Option<(Rect, Color)>)
        requires
            self.font_size <= i32::MAX,
            position.y + self.font_size <= i32::MAX,
        ensures
            r == match spec_decoration_color(*self, self.underline_color) {
                None => None,
                Some(c) => Some(
                    (
                        Rect {
                            x: position.x,
                            y: (position.y + self.font_size - line_height(self.font_size)) as i32,
                            w: width,
                            h: line_height(self.font_size) as u32,
                        },
                        c,
                    ),
                ),
            },
    {
        match self.resolve_decoration_color(self.underline_color) {
            Some(c) => {
                let line_height = self.font_size / 12;
                Some(
                    (
                        Rect {
                            x: position.x,
                            y: position.y + self.font_size as i32 - line_height as i32,
                            w: width,
                            h: line_height,
                        },
                        c,
                    ),
                )
            },
            None => None,
        }
    }
}

/// Builds a text style step by step.
pub struct TextStyleBuilder {
    style: TextStyle,
}

impl TextStyleBuilder {
    pub closed spec fn spec_style(&self) -> TextStyle {
        self.style
    }

    /// A style of size 12 with no colours, decorations or stroke.
    pub fn new() -> (b: Self)
        ensures
            b.spec_style() == (TextStyle {
                text_color: None,
                background_color: None,
                draw_background: false,
                underline_color: DecorationColor::NoColor,
                strikethrough_color: DecorationColor::NoColor,
                stroke_color: None,
                stroke_width: 0,
                font_size: 12,
            }),
    {
        Self {
            style: TextStyle {
                text_color: None,
                background_color: None,
                draw_background: false,
                underline_color: DecorationColor::NoColor,
                strikethrough_color: DecorationColor::NoColor,
                stroke_color: None,
                stroke_width: 0,
                font_size: 12,
            },
        }
    }

    pub fn font_size(self, font_size: u32) -> (b: Self)
        ensures
            b.spec_style() == (TextStyle { font_size, ..self.spec_style() }),
    {
        Self { style: TextStyle { font_size, ..self.style } }
    }

    /// Underlines in the text's colour.
    pub fn underline(self) -> (b: Self)
        ensures
            b.spec_style() == (TextStyle {
                underline_color: DecorationColor::TextColor,
                ..self.spec_style()
            }),
    {
        Self { style: TextStyle { underline_color: DecorationColor::TextColor, ..self.style } }
    }

    /// Strikes through in the text's colour.
    pub fn strikethrough(self) -> (b: Self)
        ensures
            b.spec_style() == (TextStyle {
                strikethrough_color: DecorationColor::TextColor,
                ..self.spec_style()
            }),
    {
        Self { style: TextStyle { strikethrough_color: DecorationColor::TextColor, ..self.style } }
    }

    pub fn text_color(self, text_color: Color) -> (b: Self)
        ensures
            b.spec_style() == (TextStyle { text_color: Some(text_color), ..self.spec_style() }),
    {
        Self { style: TextStyle { text_color: Some(text_color), ..self.style } }
    }

    pub fn background_color(self, background_color: Color) -> (b: Self)
        ensures
            b.spec_style() == (TextStyle {
                background_color: Some(background_color),
                ..self.spec_style()
            }),
    {
        Self { style: TextStyle { background_color: Some(background_color), ..self.style } }
    }

    /// Underlines in a colour of its own.
    pub fn underline_with_color(self, underline_color: Color) -> (b: Self)
        ensures
            b.spec_style() == (TextStyle {
                underline_color: DecorationColor::Custom(underline_color),
                ..self.spec_style()
            }),
    {
        Self {
            style: TextStyle { underline_color: DecorationColor::Custom(underline_color), ..self.style },
        }
    }

    /// Strikes through in a colour of its own.
    pub fn strikethrough_with_color(self, strikethrough_color: Color) -> (b: Self)
        ensures
            b.spec_style() == (TextStyle {
                strikethrough_color: DecorationColor::Custom(strikethrough_color),
                ..self.spec_style()
            }),
    {
        Self {
            style: TextStyle {
                strikethrough_color: DecorationColor::Custom(strikethrough_color),
                ..self.style
            },
        }
    }

    pub fn draw_background(self) -> (b: Self)
        ensures
            b.spec_style() == (TextStyle { draw_background: true, ..self.spec_style() }),
    {
        Self { style: TextStyle { draw_background: true, ..self.style } }
    }

    pub fn stroke_color(self, stroke_color: Color) -> (b: Self)
        ensures
            b.spec_style() == (TextStyle { stroke_color: Some(stroke_color), ..self.spec_style() }),
    {
        Self { style: TextStyle { stroke_color: Some(stroke_color), ..self.style } }
    }

    pub fn stroke_width(self, stroke_width: u32) -> (b: Self)
        ensures
            b.spec_style() == (TextStyle { stroke_width, ..self.spec_style() }),
    {
        Self { style: TextStyle { stroke_width, ..self.style } }
    }

    pub fn build(self) -> (s: TextStyle)
        ensures
            s == self.spec_style(),
    {
        self.style
    }
}

} // verus!
