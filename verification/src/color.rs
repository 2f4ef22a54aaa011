//! RGBA colours packed into a `u32` (red in the lowest byte, alpha in the highest), their
//! arithmetic, and their hexadecimal text form.

use vstd::prelude::*;
use vstd::string::*;

verus! {

/// A colour with 8-bit red, green, blue and alpha channels.
#[derive(Clone, Copy, Debug, PartialEq, Eq, PartialOrd, Ord, Hash, Structural)]
pub struct Color(u32);

/// The channels of a colour: red, green, blue, alpha.
pub type Channels = (u8, u8, u8, u8);

impl View for Color {
    type V = Channels;

    closed spec fn view(&self) -> Channels {
        (self.0 as u8, (self.0 >> 8) as u8, (self.0 >> 16) as u8, (self.0 >> 24) as u8)
    }
}

/// Two colours with the same channels are the same colour.
pub proof fn lemma_color_ext(a: Color, b: Color)
    requires
        a@ == b@,
    ensures
        a == b,
{
    let x = a.0;
    let y = b.0;
    assert(x == y) by (bit_vector)
        requires
            x as u8 == y as u8,
            (x >> 8) as u8 == (y >> 8) as u8,
            (x >> 16) as u8 == (y >> 16) as u8,
            (x >> 24) as u8 == (y >> 24) as u8,
    ;
}

/// The colour with the given channels, opaque.
pub open spec fn opaque(r: u8, g: u8, b: u8) -> Channels {
    (r, g, b, 255)
}

/// Photoshop-style overlay of one channel over another.
pub open spec fn spec_overlay(a: u8, b: u8) -> u8 {
    if a < 128 {
        (a * b / 255) as u8
    } else {
        (255 - (255 - a) * (255 - b) / 255) as u8
    }
}

/// Linear mix of two channels, `alpha` out of 255 parts taken from the second.
pub open spec fn mix(s: u8, o: u8, alpha: u8) -> u8 {
    ((s * (255 - alpha) + o * alpha) / 255) as u8
}

/// The channels that `blend` produces.
pub open spec fn spec_blend(c: Channels, o: Channels, alpha: u8) -> Channels {
    opaque(mix(c.0, o.0, alpha), mix(c.1, o.1, alpha), mix(c.2, o.2, alpha))
}

/// The channels that `invert` produces.
pub open spec fn spec_invert(c: Channels) -> Channels {
    opaque((255 - c.0) as u8, (255 - c.1) as u8, (255 - c.2) as u8)
}

/// The hexadecimal digit of a value below 16, upper or lower case.
pub open spec fn hex_char(n: u8, upper: bool) -> char {
    if n < 10 {
        (n + 48) as char
    } else if upper {
        (n + 55) as char
    } else {
        (n + 87) as char
    }
}

/// Two hexadecimal digits of a byte.
pub open spec fn hex_pair(v: u8, upper: bool) -> Seq<char> {
    seq![hex_char(v / 16, upper), hex_char(v % 16, upper)]
}

/// The digit `char(i)` shows: the high then low nibble of red, green, blue and alpha.
pub open spec fn spec_nibble(c: Channels, i: int) -> u8 {
    let v = if i < 2 {
        c.0
    } else if i < 4 {
        c.1
    } else if i < 6 {
        c.2
    } else {
        c.3
    };
    if i % 2 == 0 {
        v / 16
    } else {
        v % 16
    }
}

/// The serialised form: `#rrggbb`, with `aa` appended when the colour is not opaque.
pub open spec fn spec_hex_string(c: Channels) -> Seq<char> {
    let base = seq!['#'] + hex_pair(c.0, false) + hex_pair(c.1, false) + hex_pair(c.2, false);
    if c.3 < 255 {
        base + hex_pair(c.3, false)
    } else {
        base
    }
}

/// The display form: `#rrggbb`.
pub open spec fn spec_display_string(c: Channels) -> Seq<char> {
    seq!['#'] + hex_pair(c.0, false) + hex_pair(c.1, false) + hex_pair(c.2, false)
}

/// The upper-case hexadecimal form: `RRGGBB`.
pub open spec fn spec_upper_hex(c: Channels) -> Seq<char> {
    hex_pair(c.0, true) + hex_pair(c.1, true) + hex_pair(c.2, true)
}

/// The value of a hexadecimal digit byte of either case.
pub open spec fn hex_value(b: u8) -> Option<u8> {
    if 48 <= b <= 57 {
        Some((b - 48) as u8)
    } else if 97 <= b <= 102 {
        Some((b - 87) as u8)
    } else if 65 <= b <= 70 {
        Some((b - 55) as u8)
    } else {
        None
    }
}

/// A two-byte field read in base 16: two digits, or `+` and one digit.
pub open spec fn hex_field(b0: u8, b1: u8) -> Option<u8> {
    match (hex_value(b0), hex_value(b1)) {
        (Some(h), Some(l)) => Some((h * 16 + l) as u8),
        (None, Some(l)) => if b0 == 43 {
            Some(l)
        } else {
            None
        },
        _ => None,
    }
}

/// The bytes with every leading `#` removed.
pub open spec fn strip_hashes(b: Seq<u8>) -> Seq<u8>
    decreases b.len(),
{
    if b.len() > 0 && b[0] == 35 {
        strip_hashes(b.drop_first())
    } else {
        b
    }
}

/// A continuation byte of a UTF-8 sequence, on which a string cannot be sliced.
pub open spec fn is_continuation(b: u8) -> bool {
    128 <= b < 192
}

/// The fields that parsing slices out exist and start on character boundaries.
pub open spec fn hex_fields_sliceable(b: Seq<u8>) -> bool {
    let h = strip_hashes(b);
    &&& h.len() >= 6
    &&& !is_continuation(h[2])
    &&& !is_continuation(h[4])
    &&& h.len() > 6 ==> !is_continuation(h[6])
}

/// The colour that a hexadecimal colour string denotes, if any: `rrggbb` after any number
/// of `#`, and a fourth field `aa` read only when exactly eight bytes remain.
pub open spec fn spec_parse_hex(b: Seq<u8>) -> Option<Channels> {
    let h = strip_hashes(b);
    match (hex_field(h[0], h[1]), hex_field(h[2], h[3]), hex_field(h[4], h[5])) {
        (Some(r), Some(g), Some(bl)) => if h.len() == 8 {
            match hex_field(h[6], h[7]) {
                Some(a) => Some((r, g, bl, a)),
                None => None,
            }
        } else {
            Some((r, g, bl, 255))
        },
        _ => None,
    }
}

/// What premultiplying a colour by its alpha gives.
pub open spec fn spec_premultiply(c: Channels) -> Channels {
    if c.3 == 0 {
        (0, 0, 0, 0)
    } else if c.3 == 255 {
        c
    } else {
        (
            (c.0 * c.3 / 255) as u8,
            (c.1 * c.3 / 255) as u8,
            (c.2 * c.3 / 255) as u8,
            c.3,
        )
    }
}

/// What dividing premultiplied channels by their alpha gives.
pub open spec fn spec_unpremultiply(p: Channels) -> Channels {
    if p.3 == 0 {
        (0, 0, 0, 0)
    } else if p.3 == 255 {
        p
    } else {
        (
            (p.0 * 255 / (p.3 as int)) as u8,
            (p.1 * 255 / (p.3 as int)) as u8,
            (p.2 * 255 / (p.3 as int)) as u8,
            p.3,
        )
    }
}

/// Channels that a premultiplied pixel can have: no colour channel above alpha.
pub open spec fn premultiplied_valid(p: Channels) -> bool {
    p.0 <= p.3 && p.1 <= p.3 && p.2 <= p.3
}

/// Why a colour string could not be read.
#[derive(Debug, Clone, Copy, PartialEq, Eq, Structural)]
pub enum ColorParseError {
    /// A field holds something other than base-16 digits.
    InvalidDigit,
}

/// The string of one hexadecimal digit.
fn hex_digit(n: u8, upper: bool) -> (s: &'static str)
    requires
        n < 16,
    ensures
        s@ == seq![hex_char(n, upper)],
{
    if n < 10 {
        match n {
            0 => {
                proof { reveal_strlit("0"); }
                "0"
            },
            1 => {
                proof { reveal_strlit("1"); }
                "1"
            },
            2 => {
                proof { reveal_strlit("2"); }
                "2"
            },
            3 => {
                proof { reveal_strlit("3"); }
                "3"
            },
            4 => {
                proof { reveal_strlit("4"); }
                "4"
            },
            5 => {
                proof { reveal_strlit("5"); }
                "5"
            },
            6 => {
                proof { reveal_strlit("6"); }
                "6"
            },
            7 => {
                proof { reveal_strlit("7"); }
                "7"
            },
            8 => {
                proof { reveal_strlit("8"); }
                "8"
            },
            _ => {
                proof { reveal_strlit("9"); }
                "9"
            },
        }
    } else if upper {
        match n {
            10 => {
                proof { reveal_strlit("A"); }
                "A"
            },
            11 => {
                proof { reveal_strlit("B"); }
                "B"
            },
            12 => {
                proof { reveal_strlit("C"); }
                "C"
            },
            13 => {
                proof { reveal_strlit("D"); }
                "D"
            },
            14 => {
                proof { reveal_strlit("E"); }
                "E"
            },
            _ => {
                proof { reveal_strlit("F"); }
                "F"
            },
        }
    } else {
        match n {
            10 => {
                proof { reveal_strlit("a"); }
                "a"
            },
            11 => {
                proof { reveal_strlit("b"); }
                "b"
            },
            12 => {
                proof { reveal_strlit("c"); }
                "c"
            },
            13 => {
                proof { reveal_strlit("d"); }
                "d"
            },
            14 => {
                proof { reveal_strlit("e"); }
                "e"
            },
            _ => {
                proof { reveal_strlit("f"); }
                "f"
            },
        }
    }
}

/// Appends the two hexadecimal digits of `v` to `s`.
fn push_hex_pair(s: &mut String, v: u8, upper: bool)
    ensures
        final(s)@ == old(s)@ + hex_pair(v, upper),
{
    s.append(hex_digit(v / 16, upper));
    s.append(hex_digit(v % 16, upper));
    assert(final(s)@ =~= old(s)@ + hex_pair(v, upper));
}

/// The value of one hexadecimal digit byte.
fn read_hex_digit(b: u8) -> (r: Option<u8>)
    ensures
        r == hex_value(b),
{
    if 48 <= b && b <= 57 {
        Some(b - 48)
    } else if 97 <= b && b <= 102 {
        Some(b - 87)
    } else if 65 <= b && b <= 70 {
        Some(b - 55)
    } else {
        None
    }
}

/// Reads a two-byte field in base 16.
fn read_hex_field(b0: u8, b1: u8) -> (r: Option<u8>)
    ensures
        r == hex_field(b0, b1),
{
    match (read_hex_digit(b0), read_hex_digit(b1)) {
        (Some(h), Some(l)) => Some(h * 16 + l),
        (None, Some(l)) => if b0 == 43 {
            Some(l)
        } else {
            None
        },
        _ => None,
    }
}

proof fn lemma_strip_hashes_skip(b: Seq<u8>, i: int)
    requires
        0 <= i <= b.len(),
        forall|j: int| 0 <= j < i ==> b[j] == 35,
    ensures
        strip_hashes(b) == strip_hashes(b.subrange(i, b.len() as int)),
    decreases i,
{
    if i == 0 {
        assert(b.subrange(0, b.len() as int) =~= b);
    } else {
        assert(b[0] == 35);
        assert(b.drop_first() =~= b.subrange(1, b.len() as int));
        lemma_strip_hashes_skip(b.drop_first(), i - 1);
        assert(b.drop_first().subrange(i - 1, b.drop_first().len() as int) =~= b.subrange(
            i,
            b.len() as int,
        ));
    }
}

impl Color {
    /// An opaque colour.
    pub fn new(r: u8, g: u8, b: u8) -> (c: Self)
        ensures
            c@ == opaque(r, g, b),
    {
        Self::rgba(r, g, b, 0xFF)
    }

    pub fn rgba(r: u8, g: u8, b: u8, a: u8) -> (c: Self)
        ensures
            c@ == (r, g, b, a),
    {
        let v: u32 = r as u32 | (g as u32) << 8u32 | (b as u32) << 16u32 | (a as u32) << 24u32;
        assert(v as u8 == r && (v >> 8) as u8 == g && (v >> 16) as u8 == b && (v >> 24) as u8
            == a) by (bit_vector)
            requires
                v == r as u32 | (g as u32) << 8u32 | (b as u32) << 16u32 | (a as u32) << 24u32,
        ;
        Self(v)
    }

    pub fn r(&self) -> (r: u8)
        ensures
            r == self@.0,
    {
        self.0 as u8
    }

    pub fn g(&self) -> (g: u8)
        ensures
            g == self@.1,
    {
        (self.0 >> 8u32) as u8
    }

    pub fn b(&self) -> (b: u8)
        ensures
            b == self@.2,
    {
        (self.0 >> 16u32) as u8
    }

    pub fn a(&self) -> (a: u8)
        ensures
            a == self@.3,
    {
        (self.0 >> 24u32) as u8
    }

    pub fn with_r(&self, r: u8) -> (c: Self)
        ensures
            c@ == (r, self@.1, self@.2, self@.3),
    {
        let x = self.0;
        let v: u32 = (r as u32) | x & 0xFFFFFF00u32;
        assert(v as u8 == r && (v >> 8) as u8 == (x >> 8) as u8 && (v >> 16) as u8 == (x
            >> 16) as u8 && (v >> 24) as u8 == (x >> 24) as u8) by (bit_vector)
            requires
                v == (r as u32) | x & 0xFFFFFF00u32,
        ;
        Self(v)
    }

    pub fn with_g(&self, g: u8) -> (c: Self)
        ensures
            c@ == (self@.0, g, self@.2, self@.3),
    {
        let x = self.0;
        let v: u32 = (g as u32) << 8u32 | x & 0xFFFF00FFu32;
        assert(v as u8 == x as u8 && (v >> 8) as u8 == g && (v >> 16) as u8 == (x >> 16) as u8
            && (v >> 24) as u8 == (x >> 24) as u8) by (bit_vector)
            requires
                v == (g as u32) << 8u32 | x & 0xFFFF00FFu32,
        ;
        Self(v)
    }

    pub fn with_b(&self, b: u8) -> (c: Self)
        ensures
            c@ == (self@.0, self@.1, b, self@.3),
    {
        let x = self.0;
        let v: u32 = (b as u32) << 16u32 | x & 0xFF00FFFFu32;
        assert(v as u8 == x as u8 && (v >> 8) as u8 == (x >> 8) as u8 && (v >> 16) as u8 == b
            && (v >> 24) as u8 == (x >> 24) as u8) by (bit_vector)
            requires
                v == (b as u32) << 16u32 | x & 0xFF00FFFFu32,
        ;
        Self(v)
    }

    pub fn with_a(&self, a: u8) -> (c: Self)
        ensures
            c@ == (self@.0, self@.1, self@.2, a),
    {
        let x = self.0;
        let v: u32 = (a as u32) << 24u32 | x & 0x00FFFFFFu32;
        assert(v as u8 == x as u8 && (v >> 8) as u8 == (x >> 8) as u8 && (v >> 16) as u8 == (x
            >> 16) as u8 && (v >> 24) as u8 == a) by (bit_vector)
            requires
                v == (a as u32) << 24u32 | x & 0x00FFFFFFu32,
        ;
        Self(v)
    }

    /// The `i`-th upper-case hexadecimal digit of `RRGGBBAA`.
    pub fn char(&self, i: usize) -> (s: String)
        requires
            i < 8,
        ensures
            s@ == seq![hex_char(spec_nibble(self@, i as int), true)],
    {
        let n = match i {
            0 => self.r() / 16,
            1 => self.r() % 16,
            2 => self.g() / 16,
            3 => self.g() % 16,
            4 => self.b() / 16,
            5 => self.b() % 16,
            6 => self.a() / 16,
            _ => self.a() % 16,
        };
        String::from_str(hex_digit(n, true))
    }

    /// Whether red, green and blue are all below half intensity.
    pub fn is_dark(&self) -> (d: bool)
        ensures
            d == (self@.0 < 128 && self@.1 < 128 && self@.2 < 128),
    {
        self.r() < 128 && self.g() < 128 && self.b() < 128
    }

    /// The opaque complement of the colour.
    pub fn invert(&self) -> (c: Self)
        ensures
            c@ == spec_invert(self@),
    {
        Self::new(255 - self.r(), 255 - self.g(), 255 - self.b())
    }

    fn mix_channel(s: u8, o: u8, alpha: u8) -> (r: u8)
        ensures
            r == mix(s, o, alpha),
    {
        let inv = 255 - alpha as i32;
        assert(0 <= s * inv <= 255 * 255) by (nonlinear_arith)
            requires
                0 <= s <= 255,
                0 <= inv <= 255,
        ;
        assert(0 <= o * alpha <= 255 * 255) by (nonlinear_arith)
            requires
                0 <= o <= 255,
                0 <= alpha <= 255,
        ;
        let t = s as i32 * inv + o as i32 * alpha as i32;
        assert(t / 255 <= 255) by (nonlinear_arith)
            requires
                t == s * inv + o * alpha,
                inv == 255 - alpha,
                0 <= s <= 255,
                0 <= o <= 255,
                0 <= alpha <= 255,
        ;
        (t / 255) as u8
    }

    /// Mixes `alpha` parts in 255 of `other` into this colour; the result is opaque.
    pub fn blend(&self, other: Self, alpha: u8) -> (c: Self)
        ensures
            c@ == spec_blend(self@, other@, alpha),
    {
        Self::new(
            Self::mix_channel(self.r(), other.r(), alpha),
            Self::mix_channel(self.g(), other.g(), alpha),
            Self::mix_channel(self.b(), other.b(), alpha),
        )
    }

    /// Overlays `other` on this colour channel by channel; the result is opaque.
    pub fn overlay(&self, other: Self) -> (c: Self)
        ensures
            c@ == opaque(
                spec_overlay(self@.0, other@.0),
                spec_overlay(self@.1, other@.1),
                spec_overlay(self@.2, other@.2),
            ),
    {
        Self::new(
            overlay(self.r(), other.r()),
            overlay(self.g(), other.g()),
            overlay(self.b(), other.b()),
        )
    }

    /// The serialised form `#rrggbb`, or `#rrggbbaa` when the colour is not opaque.
    pub fn hex_string(&self) -> (s: String)
        ensures
            s@ == spec_hex_string(self@),
    {
        let mut s = String::new();
        proof { reveal_strlit("#"); }
        s.append("#");
        push_hex_pair(&mut s, self.r(), false);
        push_hex_pair(&mut s, self.g(), false);
        push_hex_pair(&mut s, self.b(), false);
        if self.a() < 255 {
            push_hex_pair(&mut s, self.a(), false);
        }
        s
    }

    /// The display form `#rrggbb`.
    pub fn to_string(&self) -> (s: String)
        ensures
            s@ == spec_display_string(self@),
    {
        let mut s = String::new();
        proof { reveal_strlit("#"); }
        s.append("#");
        push_hex_pair(&mut s, self.r(), false);
        push_hex_pair(&mut s, self.g(), false);
        push_hex_pair(&mut s, self.b(), false);
        s
    }

    /// The upper-case form `RRGGBB`.
    pub fn upper_hex(&self) -> (s: String)
        ensures
            s@ == spec_upper_hex(self@),
    {
        let mut s = String::new();
        push_hex_pair(&mut s, self.r(), true);
        push_hex_pair(&mut s, self.g(), true);
        push_hex_pair(&mut s, self.b(), true);
        assert(s@ =~= spec_upper_hex(self@));
        s
    }

    /// Reads a colour written as `rrggbb` or `rrggbbaa` after any number of `#`.
    pub fn parse_hex(text: &str) -> (r: Result<Color, ColorParseError>)
        requires
            hex_fields_sliceable(text.spec_bytes()),
        ensures
            match spec_parse_hex(text.spec_bytes()) {
                Some(c) => r matches Ok(col) && col@ == c,
                None => r == Err::<Color, ColorParseError>(ColorParseError::InvalidDigit),
            },
    {
        let bytes = text.as_bytes();
        let n = bytes.len();
        let mut i: usize = 0;
        while i < n && bytes[i] == 35
            invariant
                n == bytes@.len(),
                i <= n,
                forall|j: int| 0 <= j < i ==> bytes@[j] == 35,
            decreases n - i,
        {
            i = i + 1;
        }
        proof {
            lemma_strip_hashes_skip(bytes@, i as int);
            let rest = bytes@.subrange(i as int, n as int);
            if rest.len() > 0 {
                assert(rest[0] != 35);
            }
            assert(strip_hashes(rest) == rest);
        }
        let r = read_hex_field(bytes[i], bytes[i + 1]);
        let g = read_hex_field(bytes[i + 2], bytes[i + 3]);
        let b = read_hex_field(bytes[i + 4], bytes[i + 5]);
        match (r, g, b) {
            (Some(r), Some(g), Some(b)) => {
                if n - i == 8 {
                    match read_hex_field(bytes[i + 6], bytes[i + 7]) {
                        Some(a) => Ok(Color::rgba(r, g, b, a)),
                        None => Err(ColorParseError::InvalidDigit),
                    }
                } else {
                    Ok(Color::new(r, g, b))
                }
            },
            _ => Err(ColorParseError::InvalidDigit),
        }
    }

    /// The channels of the colour premultiplied by its alpha.
    pub fn to_premultiplied(&self) -> (p: Channels)
        ensures
            p == spec_premultiply(self@),
            premultiplied_valid(p),
    {
        let a = self.a();
        if a == 0 {
            (0, 0, 0, 0)
        } else if a == 255 {
            (self.r(), self.g(), self.b(), 255)
        } else {
            (
                Self::scale_down(self.r(), a),
                Self::scale_down(self.g(), a),
                Self::scale_down(self.b(), a),
                a,
            )
        }
    }

    fn scale_down(v: u8, a: u8) -> (r: u8)
        ensures
            r == (v * a / 255) as u8,
            r <= a,
    {
        assert(v * a / 255 <= a) by (nonlinear_arith)
            requires
                0 <= v <= 255,
                0 <= a <= 255,
        ;
        ((v as u16 * a as u16) / 255) as u8
    }

    fn scale_up(v: u8, a: u8) -> (r: u8)
        requires
            v <= a,
            a > 0,
        ensures
            r == (v * 255 / (a as int)) as u8,
    {
        assert(v * 255 / (a as int) <= 255) by (nonlinear_arith)
            requires
                0 <= v <= a,
                a > 0,
        ;
        ((v as u16 * 255) / a as u16) as u8
    }

    /// The colour whose premultiplied channels are `p`.
    pub fn from_premultiplied(p: Channels) -> (c: Self)
        requires
            premultiplied_valid(p),
        ensures
            c@ == spec_unpremultiply(p),
    {
        let (r, g, b, a) = p;
        if a == 0 {
            Self::rgba(0, 0, 0, 0)
        } else if a == 255 {
            Self::rgba(r, g, b, 255)
        } else {
            Self::rgba(Self::scale_up(r, a), Self::scale_up(g, a), Self::scale_up(b, a), a)
        }
    }
}

/// Overlay blend of one channel over another.
fn overlay(a: u8, b: u8) -> (r: u8)
    ensures
        r == spec_overlay(a, b),
{
    if a < 128 {
        assert(a * b / 255 <= 255) by (nonlinear_arith)
            requires
                0 <= a <= 255,
                0 <= b <= 255,
        ;
        (a as i32 * b as i32 / 255) as u8
    } else {
        let ia = 255 - a as i32;
        let ib = 255 - b as i32;
        assert(0 <= ia * ib / 255 <= 255) by (nonlinear_arith)
            requires
                0 <= ia <= 255,
                0 <= ib <= 255,
        ;
        255 - (ia * ib / 255) as u8
    }
}

/// A colour is rebuilt from its own channels.
pub proof fn lemma_rgba_of_channels(c: Color, d: Color)
    requires
        d@ == (c@.0, c@.1, c@.2, c@.3),
    ensures
        d == c,
{
    lemma_color_ext(c, d);
}

/// Inverting an opaque colour twice gives it back.
pub proof fn lemma_invert_involutive(c: Channels)
    requires
        c.3 == 255,
    ensures
        spec_invert(spec_invert(c)) == c,
{
}

/// Blending with nothing of the other colour keeps the colour (made opaque); blending with
/// all of it gives the other colour (made opaque).
pub proof fn lemma_blend_extremes(c: Channels, o: Channels)
    ensures
        spec_blend(c, o, 0) == opaque(c.0, c.1, c.2),
        spec_blend(c, o, 255) == opaque(o.0, o.1, o.2),
{
}

/// An opaque colour survives premultiplying and dividing back unchanged.
pub proof fn lemma_premultiply_opaque_roundtrip(c: Channels)
    requires
        c.3 == 255,
    ensures
        spec_unpremultiply(spec_premultiply(c)) == c,
{
}

proof fn lemma_hex_char_value(n: u8)
    requires
        n < 16,
    ensures
        hex_value(hex_char(n, false) as u8) == Some(n),
{
}

proof fn lemma_hex_pair_field(v: u8)
    ensures
        hex_field(hex_char(v / 16, false) as u8, hex_char(v % 16, false) as u8) == Some(v),
{
    lemma_hex_char_value(v / 16);
    lemma_hex_char_value(v % 16);
    assert(hex_char(v / 16, false) as u8 != 43);
}

/// Reading back the serialised form of a colour gives the colour; the form can always be
/// read without slicing out of bounds.
pub proof fn lemma_hex_roundtrip(c: Channels)
    ensures
        hex_fields_sliceable(vstd::utf8::encode_utf8(spec_hex_string(c))),
        spec_parse_hex(vstd::utf8::encode_utf8(spec_hex_string(c))) == Some(c),
{
    let s = spec_hex_string(c);
    lemma_hex_string_ascii(c);
    let b = encode_utf8_ascii(s);
    assert(b[0] == 35);
    assert(b.drop_first()[0] != 35);
    assert(strip_hashes(b.drop_first()) == b.drop_first());
    let h = b.drop_first();
    assert(h[0] == hex_char(c.0 / 16, false) as u8);
    assert(h[1] == hex_char(c.0 % 16, false) as u8);
    assert(h[2] == hex_char(c.1 / 16, false) as u8);
    assert(h[3] == hex_char(c.1 % 16, false) as u8);
    assert(h[4] == hex_char(c.2 / 16, false) as u8);
    assert(h[5] == hex_char(c.2 % 16, false) as u8);
    lemma_hex_pair_field(c.0);
    lemma_hex_pair_field(c.1);
    lemma_hex_pair_field(c.2);
    if c.3 < 255 {
        assert(h[6] == hex_char(c.3 / 16, false) as u8);
        assert(h[7] == hex_char(c.3 % 16, false) as u8);
        lemma_hex_pair_field(c.3);
    }
}

/// The bytes of a sequence of ASCII characters.
pub open spec fn encode_utf8_ascii(s: Seq<char>) -> Seq<u8> {
    Seq::new(s.len(), |i: int| s[i] as u8)
}

/// The serialised form of a colour is ASCII, so its bytes are its characters.
proof fn lemma_hex_string_ascii(c: Channels)
    ensures
        vstd::utf8::is_ascii_chars(spec_hex_string(c)),
        vstd::utf8::encode_utf8(spec_hex_string(c)) == encode_utf8_ascii(spec_hex_string(c)),
{
    let s = spec_hex_string(c);
    assert(vstd::utf8::is_ascii_chars(s));
    vstd::utf8::is_ascii_chars_encode_utf8(s);
    assert(vstd::utf8::encode_utf8(s) =~= encode_utf8_ascii(s));
}

} // verus!
