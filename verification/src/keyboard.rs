//! The on-screen keyboard: a grid of keys in three layers, a cursor moved with the
//! direction buttons, and the text typed so far.

use vstd::prelude::*;
use vstd::string::*;
use vstd::utf8::encode_utf8;
use std::collections::VecDeque;
use crate::command::{Command, Value};
use crate::input::{Key, KeyEvent};

verus! {

/// The number of keys in a row of the keyboard.
pub const KEYBOARD_COLUMNS: usize = 11;

/// The number of rows of the keyboard, the space bar's included.
pub const KEYBOARD_ROWS: usize = 5;

/// A key of the on-screen keyboard, row by row from the top left; the space bar is last.
#[derive(Debug, Clone, Copy, PartialEq, Eq, Structural)]
pub enum KeyboardKey {
    K1, K2, K3, K4, K5, K6, K7, K8, K9, K0, Minus,
    Q, W, E, R, T, Y, U, I, O, P, Backslash,
    A, S, D, F, G, H, J, K, L, Semicolon, Quote,
    Z, X, C, V, B, N, M, Comma, Period, QuestionMark, ExclamationMark,
    Space,
}

/// The layer of keys shown.
#[derive(Debug, Clone, Copy, PartialEq, Eq, Structural)]
pub enum KeyboardMode {
    Lowercase,
    Uppercase,
    Symbols,
}

/// The character of key `index` in the lowercase layer.
pub open spec fn lowercase_char(index: int) -> char {
    if index == 0 {
        '1'
    } else if index == 1 {
        '2'
    } else if index == 2 {
        '3'
    } else if index == 3 {
        '4'
    } else if index == 4 {
        '5'
    } else if index == 5 {
        '6'
    } else if index == 6 {
        '7'
    } else if index == 7 {
        '8'
    } else if index == 8 {
        '9'
    } else if index == 9 {
        '0'
    } else if index == 10 {
        '-'
    } else if index == 11 {
        'q'
    } else if index == 12 {
        'w'
    } else if index == 13 {
        'e'
    } else if index == 14 {
        'r'
    } else if index == 15 {
        't'
    } else if index == 16 {
        'y'
    } else if index == 17 {
        'u'
    } else if index == 18 {
        'i'
    } else if index == 19 {
        'o'
    } else if index == 20 {
        'p'
    } else if index == 21 {
        '\\'
    } else if index == 22 {
        'a'
    } else if index == 23 {
        's'
    } else if index == 24 {
        'd'
    } else if index == 25 {
        'f'
    } else if index == 26 {
        'g'
    } else if index == 27 {
        'h'
    } else if index == 28 {
        'j'
    } else if index == 29 {
        'k'
    } else if index == 30 {
        'l'
    } else if index == 31 {
        ';'
    } else if index == 32 {
        '\''
    } else if index == 33 {
        'z'
    } else if index == 34 {
        'x'
    } else if index == 35 {
        'c'
    } else if index == 36 {
        'v'
    } else if index == 37 {
        'b'
    } else if index == 38 {
        'n'
    } else if index == 39 {
        'm'
    } else if index == 40 {
        ','
    } else if index == 41 {
        '.'
    } else if index == 42 {
        '?'
    } else if index == 43 {
        '!'
    } else {
        ' '
    }
}

/// The character of key `index` in the uppercase layer.
pub open spec fn uppercase_char(index: int) -> char {
    if index == 0 {
        '#'
    } else if index == 1 {
        '['
    } else if index == 2 {
        ']'
    } else if index == 3 {
        '$'
    } else if index == 4 {
        '%'
    } else if index == 5 {
        '^'
    } else if index == 6 {
        '&'
    } else if index == 7 {
        '*'
    } else if index == 8 {
        '('
    } else if index == 9 {
        ')'
    } else if index == 10 {
        '_'
    } else if index == 11 {
        'Q'
    } else if index == 12 {
        'W'
    } else if index == 13 {
        'E'
    } else if index == 14 {
        'R'
    } else if index == 15 {
        'T'
    } else if index == 16 {
        'Y'
    } else if index == 17 {
        'U'
    } else if index == 18 {
        'I'
    } else if index == 19 {
        'O'
    } else if index == 20 {
        'P'
    } else if index == 21 {
        '@'
    } else if index == 22 {
        'A'
    } else if index == 23 {
        'S'
    } else if index == 24 {
        'D'
    } else if index == 25 {
        'F'
    } else if index == 26 {
        'G'
    } else if index == 27 {
        'H'
    } else if index == 28 {
        'J'
    } else if index == 29 {
        'K'
    } else if index == 30 {
        'L'
    } else if index == 31 {
        ':'
    } else if index == 32 {
        '"'
    } else if index == 33 {
        'Z'
    } else if index == 34 {
        'X'
    } else if index == 35 {
        'C'
    } else if index == 36 {
        'V'
    } else if index == 37 {
        'B'
    } else if index == 38 {
        'N'
    } else if index == 39 {
        'M'
    } else if index == 40 {
        '<'
    } else if index == 41 {
        '>'
    } else if index == 42 {
        '+'
    } else if index == 43 {
        '='
    } else {
        ' '
    }
}

/// The character of key `index` in the symbol layer.
pub open spec fn symbol_char(index: int) -> char {
    if index == 0 {
        '1'
    } else if index == 1 {
        '2'
    } else if index == 2 {
        '3'
    } else if index == 3 {
        '4'
    } else if index == 4 {
        '5'
    } else if index == 5 {
        '6'
    } else if index == 6 {
        '7'
    } else if index == 7 {
        '8'
    } else if index == 8 {
        '9'
    } else if index == 9 {
        '0'
    } else if index == 10 {
        '-'
    } else if index == 11 {
        '!'
    } else if index == 12 {
        '@'
    } else if index == 13 {
        '#'
    } else if index == 14 {
        '$'
    } else if index == 15 {
        '%'
    } else if index == 16 {
        '^'
    } else if index == 17 {
        '&'
    } else if index == 18 {
        '*'
    } else if index == 19 {
        '('
    } else if index == 20 {
        ')'
    } else if index == 21 {
        '_'
    } else if index == 22 {
        '~'
    } else if index == 23 {
        '`'
    } else if index == 24 {
        '='
    } else if index == 25 {
        '\\'
    } else if index == 26 {
        '+'
    } else if index == 27 {
        '{'
    } else if index == 28 {
        '}'
    } else if index == 29 {
        '|'
    } else if index == 30 {
        '['
    } else if index == 31 {
        ']'
    } else if index == 32 {
        ' '
    } else if index == 33 {
        '<'
    } else if index == 34 {
        '>'
    } else if index == 35 {
        ';'
    } else if index == 36 {
        ':'
    } else if index == 37 {
        '"'
    } else if index == 38 {
        '\''
    } else if index == 39 {
        ','
    } else if index == 40 {
        '.'
    } else if index == 41 {
        '?'
    } else if index == 42 {
        '/'
    } else if index == 43 {
        '~'
    } else {
        ' '
    }
}

/// The character of key `index` in layer `mode`.
pub open spec fn key_char(index: int, mode: KeyboardMode) -> char {
    match mode {
        KeyboardMode::Lowercase => lowercase_char(index),
        KeyboardMode::Uppercase => uppercase_char(index),
        KeyboardMode::Symbols => symbol_char(index),
    }
}

impl KeyboardKey {
    /// The position of the key, row by row from the top left.
    pub open spec fn spec_index(self) -> int {
        match self {
            KeyboardKey::K1 => 0,
            KeyboardKey::K2 => 1,
            KeyboardKey::K3 => 2,
            KeyboardKey::K4 => 3,
            KeyboardKey::K5 => 4,
            KeyboardKey::K6 => 5,
            KeyboardKey::K7 => 6,
            KeyboardKey::K8 => 7,
            KeyboardKey::K9 => 8,
            KeyboardKey::K0 => 9,
            KeyboardKey::Minus => 10,
            KeyboardKey::Q => 11,
            KeyboardKey::W => 12,
            KeyboardKey::E => 13,
            KeyboardKey::R => 14,
            KeyboardKey::T => 15,
            KeyboardKey::Y => 16,
            KeyboardKey::U => 17,
            KeyboardKey::I => 18,
            KeyboardKey::O => 19,
            KeyboardKey::P => 20,
            KeyboardKey::Backslash => 21,
            KeyboardKey::A => 22,
            KeyboardKey::S => 23,
            KeyboardKey::D => 24,
            KeyboardKey::F => 25,
            KeyboardKey::G => 26,
            KeyboardKey::H => 27,
            KeyboardKey::J => 28,
            KeyboardKey::K => 29,
            KeyboardKey::L => 30,
            KeyboardKey::Semicolon => 31,
            KeyboardKey::Quote => 32,
            KeyboardKey::Z => 33,
            KeyboardKey::X => 34,
            KeyboardKey::C => 35,
            KeyboardKey::V => 36,
            KeyboardKey::B => 37,
            KeyboardKey::N => 38,
            KeyboardKey::M => 39,
            KeyboardKey::Comma => 40,
            KeyboardKey::Period => 41,
            KeyboardKey::QuestionMark => 42,
            KeyboardKey::ExclamationMark => 43,
            KeyboardKey::Space => 44,
        }
    }

    /// The key at position `index`, row by row from the top left.
    pub fn from_repr(index: usize) -> (k: Option<KeyboardKey>)
        ensures
            index < 45 <==> k is Some,
            k matches Some(key) ==> key.spec_index() == index,
    {
        match index {
            0 => Some(KeyboardKey::K1),
            1 => Some(KeyboardKey::K2),
            2 => Some(KeyboardKey::K3),
            3 => Some(KeyboardKey::K4),
            4 => Some(KeyboardKey::K5),
            5 => Some(KeyboardKey::K6),
            6 => Some(KeyboardKey::K7),
            7 => Some(KeyboardKey::K8),
            8 => Some(KeyboardKey::K9),
            9 => Some(KeyboardKey::K0),
            10 => Some(KeyboardKey::Minus),
            11 => Some(KeyboardKey::Q),
            12 => Some(KeyboardKey::W),
            13 => Some(KeyboardKey::E),
            14 => Some(KeyboardKey::R),
            15 => Some(KeyboardKey::T),
            16 => Some(KeyboardKey::Y),
            17 => Some(KeyboardKey::U),
            18 => Some(KeyboardKey::I),
            19 => Some(KeyboardKey::O),
            20 => Some(KeyboardKey::P),
            21 => Some(KeyboardKey::Backslash),
            22 => Some(KeyboardKey::A),
            23 => Some(KeyboardKey::S),
            24 => Some(KeyboardKey::D),
            25 => Some(KeyboardKey::F),
            26 => Some(KeyboardKey::G),
            27 => Some(KeyboardKey::H),
            28 => Some(KeyboardKey::J),
            29 => Some(KeyboardKey::K),
            30 => Some(KeyboardKey::L),
            31 => Some(KeyboardKey::Semicolon),
            32 => Some(KeyboardKey::Quote),
            33 => Some(KeyboardKey::Z),
            34 => Some(KeyboardKey::X),
            35 => Some(KeyboardKey::C),
            36 => Some(KeyboardKey::V),
            37 => Some(KeyboardKey::B),
            38 => Some(KeyboardKey::N),
            39 => Some(KeyboardKey::M),
            40 => Some(KeyboardKey::Comma),
            41 => Some(KeyboardKey::Period),
            42 => Some(KeyboardKey::QuestionMark),
            43 => Some(KeyboardKey::ExclamationMark),
            44 => Some(KeyboardKey::Space),
            _ => None,
        }
    }

    pub fn lowercase(&self) -> (s: &'static str)
        ensures
            s@ == seq![lowercase_char(self.spec_index())],
    {
        match self {
            KeyboardKey::K1 => {
                proof {
                    reveal_strlit("1");
                }
                "1"
            },
            KeyboardKey::K2 => {
                proof {
                    reveal_strlit("2");
                }
                "2"
            },
            KeyboardKey::K3 => {
                proof {
                    reveal_strlit("3");
                }
                "3"
            },
            KeyboardKey::K4 => {
                proof {
                    reveal_strlit("4");
                }
                "4"
            },
            KeyboardKey::K5 => {
                proof {
                    reveal_strlit("5");
                }
                "5"
            },
            KeyboardKey::K6 => {
                proof {
                    reveal_strlit("6");
                }
                "6"
            },
            KeyboardKey::K7 => {
                proof {
                    reveal_strlit("7");
                }
                "7"
            },
            KeyboardKey::K8 => {
                proof {
                    reveal_strlit("8");
                }
                "8"
            },
            KeyboardKey::K9 => {
                proof {
                    reveal_strlit("9");
                }
                "9"
            },
            KeyboardKey::K0 => {
                proof {
                    reveal_strlit("0");
                }
                "0"
            },
            KeyboardKey::Minus => {
                proof {
                    reveal_strlit("-");
                }
                "-"
            },
            KeyboardKey::Q => {
                proof {
                    reveal_strlit("q");
                }
                "q"
            },
            KeyboardKey::W => {
                proof {
                    reveal_strlit("w");
                }
                "w"
            },
            KeyboardKey::E => {
                proof {
                    reveal_strlit("e");
                }
                "e"
            },
            KeyboardKey::R => {
                proof {
                    reveal_strlit("r");
                }
                "r"
            },
            KeyboardKey::T => {
                proof {
                    reveal_strlit("t");
                }
                "t"
            },
            KeyboardKey::Y => {
                proof {
                    reveal_strlit("y");
                }
                "y"
            },
            KeyboardKey::U => {
                proof {
                    reveal_strlit("u");
                }
                "u"
            },
            KeyboardKey::I => {
                proof {
                    reveal_strlit("i");
                }
                "i"
            },
            KeyboardKey::O => {
                proof {
                    reveal_strlit("o");
                }
                "o"
            },
            KeyboardKey::P => {
                proof {
                    reveal_strlit("p");
                }
                "p"
            },
            KeyboardKey::Backslash => {
                proof {
                    reveal_strlit("\\");
                }
                "\\"
            },
            KeyboardKey::A => {
                proof {
                    reveal_strlit("a");
                }
                "a"
            },
            KeyboardKey::S => {
                proof {
                    reveal_strlit("s");
                }
                "s"
            },
            KeyboardKey::D => {
                proof {
                    reveal_strlit("d");
                }
                "d"
            },
            KeyboardKey::F => {
                proof {
                    reveal_strlit("f");
                }
                "f"
            },
            KeyboardKey::G => {
                proof {
                    reveal_strlit("g");
                }
                "g"
            },
            KeyboardKey::H => {
                proof {
                    reveal_strlit("h");
                }
                "h"
            },
            KeyboardKey::J => {
                proof {
                    reveal_strlit("j");
                }
                "j"
            },
            KeyboardKey::K => {
                proof {
                    reveal_strlit("k");
                }
                "k"
            },
            KeyboardKey::L => {
                proof {
                    reveal_strlit("l");
                }
                "l"
            },
            KeyboardKey::Semicolon => {
                proof {
                    reveal_strlit(";");
                }
                ";"
            },
            KeyboardKey::Quote => {
                proof {
                    reveal_strlit("'");
                }
                "'"
            },
            KeyboardKey::Z => {
                proof {
                    reveal_strlit("z");
                }
                "z"
            },
            KeyboardKey::X => {
                proof {
                    reveal_strlit("x");
                }
                "x"
            },
            KeyboardKey::C => {
                proof {
                    reveal_strlit("c");
                }
                "c"
            },
            KeyboardKey::V => {
                proof {
                    reveal_strlit("v");
                }
                "v"
            },
            KeyboardKey::B => {
                proof {
                    reveal_strlit("b");
                }
                "b"
            },
            KeyboardKey::N => {
                proof {
                    reveal_strlit("n");
                }
                "n"
            },
            KeyboardKey::M => {
                proof {
                    reveal_strlit("m");
                }
                "m"
            },
            KeyboardKey::Comma => {
                proof {
                    reveal_strlit(",");
                }
                ","
            },
            KeyboardKey::Period => {
                proof {
                    reveal_strlit(".");
                }
                "."
            },
            KeyboardKey::QuestionMark => {
                proof {
                    reveal_strlit("?");
                }
                "?"
            },
            KeyboardKey::ExclamationMark => {
                proof {
                    reveal_strlit("!");
                }
                "!"
            },
            KeyboardKey::Space => {
                proof {
                    reveal_strlit(" ");
                }
                " "
            },
        }
    }

    pub fn uppercase(&self) -> (s: &'static str)
        ensures
            s@ == seq![uppercase_char(self.spec_index())],
    {
        match self {
            KeyboardKey::K1 => {
                proof {
                    reveal_strlit("#");
                }
                "#"
            },
            KeyboardKey::K2 => {
                proof {
                    reveal_strlit("[");
                }
                "["
            },
            KeyboardKey::K3 => {
                proof {
                    reveal_strlit("]");
                }
                "]"
            },
            KeyboardKey::K4 => {
                proof {
                    reveal_strlit("$");
                }
                "$"
            },
            KeyboardKey::K5 => {
                proof {
                    reveal_strlit("%");
                }
                "%"
            },
            KeyboardKey::K6 => {
                proof {
                    reveal_strlit("^");
                }
                "^"
            },
            KeyboardKey::K7 => {
                proof {
                    reveal_strlit("&");
                }
                "&"
            },
            KeyboardKey::K8 => {
                proof {
                    reveal_strlit("*");
                }
                "*"
            },
            KeyboardKey::K9 => {
                proof {
                    reveal_strlit("(");
                }
                "("
            },
            KeyboardKey::K0 => {
                proof {
                    reveal_strlit(")");
                }
                ")"
            },
            KeyboardKey::Minus => {
                proof {
                    reveal_strlit("_");
                }
                "_"
            },
            KeyboardKey::Q => {
                proof {
                    reveal_strlit("Q");
                }
                "Q"
            },
            KeyboardKey::W => {
                proof {
                    reveal_strlit("W");
                }
                "W"
            },
            KeyboardKey::E => {
                proof {
                    reveal_strlit("E");
                }
                "E"
            },
            KeyboardKey::R => {
                proof {
                    reveal_strlit("R");
                }
                "R"
            },
            KeyboardKey::T => {
                proof {
                    reveal_strlit("T");
                }
                "T"
            },
            KeyboardKey::Y => {
                proof {
                    reveal_strlit("Y");
                }
                "Y"
            },
            KeyboardKey::U => {
                proof {
                    reveal_strlit("U");
                }
                "U"
            },
            KeyboardKey::I => {
                proof {
                    reveal_strlit("I");
                }
                "I"
            },
            KeyboardKey::O => {
                proof {
                    reveal_strlit("O");
                }
                "O"
            },
            KeyboardKey::P => {
                proof {
                    reveal_strlit("P");
                }
                "P"
            },
            KeyboardKey::Backslash => {
                proof {
                    reveal_strlit("@");
                }
                "@"
            },
            KeyboardKey::A => {
                proof {
                    reveal_strlit("A");
                }
                "A"
            },
            KeyboardKey::S => {
                proof {
                    reveal_strlit("S");
                }
                "S"
            },
            KeyboardKey::D => {
                proof {
                    reveal_strlit("D");
                }
                "D"
            },
            KeyboardKey::F => {
                proof {
                    reveal_strlit("F");
                }
                "F"
            },
            KeyboardKey::G => {
                proof {
                    reveal_strlit("G");
                }
                "G"
            },
            KeyboardKey::H => {
                proof {
                    reveal_strlit("H");
                }
                "H"
            },
            KeyboardKey::J => {
                proof {
                    reveal_strlit("J");
                }
                "J"
            },
            KeyboardKey::K => {
                proof {
                    reveal_strlit("K");
                }
                "K"
            },
            KeyboardKey::L => {
                proof {
                    reveal_strlit("L");
                }
                "L"
            },
            KeyboardKey::Semicolon => {
                proof {
                    reveal_strlit(":");
                }
                ":"
            },
            KeyboardKey::Quote => {
                proof {
                    reveal_strlit("\"");
                }
                "\""
            },
            KeyboardKey::Z => {
                proof {
                    reveal_strlit("Z");
                }
                "Z"
            },
            KeyboardKey::X => {
                proof {
                    reveal_strlit("X");
                }
                "X"
            },
            KeyboardKey::C => {
                proof {
                    reveal_strlit("C");
                }
                "C"
            },
            KeyboardKey::V => {
                proof {
                    reveal_strlit("V");
                }
                "V"
            },
            KeyboardKey::B => {
                proof {
                    reveal_strlit("B");
                }
                "B"
            },
            KeyboardKey::N => {
                proof {
                    reveal_strlit("N");
                }
                "N"
            },
            KeyboardKey::M => {
                proof {
                    reveal_strlit("M");
                }
                "M"
            },
            KeyboardKey::Comma => {
                proof {
                    reveal_strlit("<");
                }
                "<"
            },
            KeyboardKey::Period => {
                proof {
                    reveal_strlit(">");
                }
                ">"
            },
            KeyboardKey::QuestionMark => {
                proof {
                    reveal_strlit("+");
                }
                "+"
            },
            KeyboardKey::ExclamationMark => {
                proof {
                    reveal_strlit("=");
                }
                "="
            },
            KeyboardKey::Space => {
                proof {
                    reveal_strlit(" ");
                }
                " "
            },
        }
    }

    pub fn symbol(&self) -> (s: &'static str)
        ensures
            s@ == seq![symbol_char(self.spec_index())],
    {
        match self {
            KeyboardKey::K1 => {
                proof {
                    reveal_strlit("1");
                }
                "1"
            },
            KeyboardKey::K2 => {
                proof {
                    reveal_strlit("2");
                }
                "2"
            },
            KeyboardKey::K3 => {
                proof {
                    reveal_strlit("3");
                }
                "3"
            },
            KeyboardKey::K4 => {
                proof {
                    reveal_strlit("4");
                }
                "4"
            },
            KeyboardKey::K5 => {
                proof {
                    reveal_strlit("5");
                }
                "5"
            },
            KeyboardKey::K6 => {
                proof {
                    reveal_strlit("6");
                }
                "6"
            },
            KeyboardKey::K7 => {
                proof {
                    reveal_strlit("7");
                }
                "7"
            },
            KeyboardKey::K8 => {
                proof {
                    reveal_strlit("8");
                }
                "8"
            },
            KeyboardKey::K9 => {
                proof {
                    reveal_strlit("9");
                }
                "9"
            },
            KeyboardKey::K0 => {
                proof {
                    reveal_strlit("0");
                }
                "0"
            },
            KeyboardKey::Minus => {
                proof {
                    reveal_strlit("-");
                }
                "-"
            },
            KeyboardKey::Q => {
                proof {
                    reveal_strlit("!");
                }
                "!"
            },
            KeyboardKey::W => {
                proof {
                    reveal_strlit("@");
                }
                "@"
            },
            KeyboardKey::E => {
                proof {
                    reveal_strlit("#");
                }
                "#"
            },
            KeyboardKey::R => {
                proof {
                    reveal_strlit("$");
                }
                "$"
            },
            KeyboardKey::T => {
                proof {
                    reveal_strlit("%");
                }
                "%"
            },
            KeyboardKey::Y => {
                proof {
                    reveal_strlit("^");
                }
                "^"
            },
            KeyboardKey::U => {
                proof {
                    reveal_strlit("&");
                }
                "&"
            },
            KeyboardKey::I => {
                proof {
                    reveal_strlit("*");
                }
                "*"
            },
            KeyboardKey::O => {
                proof {
                    reveal_strlit("(");
                }
                "("
            },
            KeyboardKey::P => {
                proof {
                    reveal_strlit(")");
                }
                ")"
            },
            KeyboardKey::Backslash => {
                proof {
                    reveal_strlit("_");
                }
                "_"
            },
            KeyboardKey::A => {
                proof {
                    reveal_strlit("~");
                }
                "~"
            },
            KeyboardKey::S => {
                proof {
                    reveal_strlit("`");
                }
                "`"
            },
            KeyboardKey::D => {
                proof {
                    reveal_strlit("=");
                }
                "="
            },
            KeyboardKey::F => {
                proof {
                    reveal_strlit("\\");
                }
                "\\"
            },
            KeyboardKey::G => {
                proof {
                    reveal_strlit("+");
                }
                "+"
            },
            KeyboardKey::H => {
                proof {
                    reveal_strlit("{");
                }
                "{"
            },
            KeyboardKey::J => {
                proof {
                    reveal_strlit("}");
                }
                "}"
            },
            KeyboardKey::K => {
                proof {
                    reveal_strlit("|");
                }
                "|"
            },
            KeyboardKey::L => {
                proof {
                    reveal_strlit("[");
                }
                "["
            },
            KeyboardKey::Semicolon => {
                proof {
                    reveal_strlit("]");
                }
                "]"
            },
            KeyboardKey::Quote => {
                proof {
                    reveal_strlit(" ");
                }
                " "
            },
            KeyboardKey::Z => {
                proof {
                    reveal_strlit("<");
                }
                "<"
            },
            KeyboardKey::X => {
                proof {
                    reveal_strlit(">");
                }
                ">"
            },
            KeyboardKey::C => {
                proof {
                    reveal_strlit(";");
                }
                ";"
            },
            KeyboardKey::V => {
                proof {
                    reveal_strlit(":");
                }
                ":"
            },
            KeyboardKey::B => {
                proof {
                    reveal_strlit("\"");
                }
                "\""
            },
            KeyboardKey::N => {
                proof {
                    reveal_strlit("'");
                }
                "'"
            },
            KeyboardKey::M => {
                proof {
                    reveal_strlit(",");
                }
                ","
            },
            KeyboardKey::Comma => {
                proof {
                    reveal_strlit(".");
                }
                "."
            },
            KeyboardKey::Period => {
                proof {
                    reveal_strlit("?");
                }
                "?"
            },
            KeyboardKey::QuestionMark => {
                proof {
                    reveal_strlit("/");
                }
                "/"
            },
            KeyboardKey::ExclamationMark => {
                proof {
                    reveal_strlit("~");
                }
                "~"
            },
            KeyboardKey::Space => {
                proof {
                    reveal_strlit(" ");
                }
                " "
            },
        }
    }

    /// The text the key types in layer `mode`.
    pub fn key(&self, mode: KeyboardMode) -> (s: &'static str)
        ensures
            s@ == seq![key_char(self.spec_index(), mode)],
    {
        match mode {
            KeyboardMode::Lowercase => self.lowercase(),
            KeyboardMode::Uppercase => self.uppercase(),
            KeyboardMode::Symbols => self.symbol(),
        }
    }
}

/// Whether a character is an ASCII capital letter.
pub open spec fn is_capital(c: char) -> bool {
    'A' <= c <= 'Z'
}

/// The small letter of an ASCII capital letter.
pub open spec fn small_of(c: char) -> char {
    ((c as u32) + 32) as char
}

/// The key of the lowercase layer that types `c`, or -1 when none does.
pub open spec fn lowercase_key(c: char) -> int {
    if c == '1' {
        0
    } else if c == '2' {
        1
    } else if c == '3' {
        2
    } else if c == '4' {
        3
    } else if c == '5' {
        4
    } else if c == '6' {
        5
    } else if c == '7' {
        6
    } else if c == '8' {
        7
    } else if c == '9' {
        8
    } else if c == '0' {
        9
    } else if c == '-' {
        10
    } else if c == 'q' {
        11
    } else if c == 'w' {
        12
    } else if c == 'e' {
        13
    } else if c == 'r' {
        14
    } else if c == 't' {
        15
    } else if c == 'y' {
        16
    } else if c == 'u' {
        17
    } else if c == 'i' {
        18
    } else if c == 'o' {
        19
    } else if c == 'p' {
        20
    } else if c == '\\' {
        21
    } else if c == 'a' {
        22
    } else if c == 's' {
        23
    } else if c == 'd' {
        24
    } else if c == 'f' {
        25
    } else if c == 'g' {
        26
    } else if c == 'h' {
        27
    } else if c == 'j' {
        28
    } else if c == 'k' {
        29
    } else if c == 'l' {
        30
    } else if c == ';' {
        31
    } else if c == '\'' {
        32
    } else if c == 'z' {
        33
    } else if c == 'x' {
        34
    } else if c == 'c' {
        35
    } else if c == 'v' {
        36
    } else if c == 'b' {
        37
    } else if c == 'n' {
        38
    } else if c == 'm' {
        39
    } else if c == ',' {
        40
    } else if c == '.' {
        41
    } else if c == '?' {
        42
    } else if c == '!' {
        43
    } else if c == ' ' {
        44
    } else {
        -1
    }
}

/// The key of the uppercase layer that types `c`, or -1 when none does.
pub open spec fn uppercase_key(c: char) -> int {
    if c == '#' {
        0
    } else if c == '[' {
        1
    } else if c == ']' {
        2
    } else if c == '$' {
        3
    } else if c == '%' {
        4
    } else if c == '^' {
        5
    } else if c == '&' {
        6
    } else if c == '*' {
        7
    } else if c == '(' {
        8
    } else if c == ')' {
        9
    } else if c == '_' {
        10
    } else if c == 'Q' {
        11
    } else if c == 'W' {
        12
    } else if c == 'E' {
        13
    } else if c == 'R' {
        14
    } else if c == 'T' {
        15
    } else if c == 'Y' {
        16
    } else if c == 'U' {
        17
    } else if c == 'I' {
        18
    } else if c == 'O' {
        19
    } else if c == 'P' {
        20
    } else if c == '@' {
        21
    } else if c == 'A' {
        22
    } else if c == 'S' {
        23
    } else if c == 'D' {
        24
    } else if c == 'F' {
        25
    } else if c == 'G' {
        26
    } else if c == 'H' {
        27
    } else if c == 'J' {
        28
    } else if c == 'K' {
        29
    } else if c == 'L' {
        30
    } else if c == ':' {
        31
    } else if c == '"' {
        32
    } else if c == 'Z' {
        33
    } else if c == 'X' {
        34
    } else if c == 'C' {
        35
    } else if c == 'V' {
        36
    } else if c == 'B' {
        37
    } else if c == 'N' {
        38
    } else if c == 'M' {
        39
    } else if c == '<' {
        40
    } else if c == '>' {
        41
    } else if c == '+' {
        42
    } else if c == '=' {
        43
    } else if c == ' ' {
        44
    } else {
        -1
    }
}

/// Each key of the lowercase and uppercase layers is the one key of its layer that types its
/// character; the lowercase layer types the small letter of each capital of the uppercase
/// layer, and no capital.
proof fn lemma_key_chars(i: int)
    requires
        0 <= i < 45,
    ensures
        lowercase_key(lowercase_char(i)) == i,
        uppercase_key(uppercase_char(i)) == i,
        is_capital(uppercase_char(i)) ==> lowercase_char(i) == small_of(uppercase_char(i)),
        !is_capital(lowercase_char(i)),
{
    if i == 0 {
    } else if i == 1 {
    } else if i == 2 {
    } else if i == 3 {
    } else if i == 4 {
    } else if i == 5 {
    } else if i == 6 {
    } else if i == 7 {
    } else if i == 8 {
    } else if i == 9 {
    } else if i == 10 {
    } else if i == 11 {
    } else if i == 12 {
    } else if i == 13 {
    } else if i == 14 {
    } else if i == 15 {
    } else if i == 16 {
    } else if i == 17 {
    } else if i == 18 {
    } else if i == 19 {
    } else if i == 20 {
    } else if i == 21 {
    } else if i == 22 {
    } else if i == 23 {
    } else if i == 24 {
    } else if i == 25 {
    } else if i == 26 {
    } else if i == 27 {
    } else if i == 28 {
    } else if i == 29 {
    } else if i == 30 {
    } else if i == 31 {
    } else if i == 32 {
    } else if i == 33 {
    } else if i == 34 {
    } else if i == 35 {
    } else if i == 36 {
    } else if i == 37 {
    } else if i == 38 {
    } else if i == 39 {
    } else if i == 40 {
    } else if i == 41 {
    } else if i == 42 {
    } else if i == 43 {
    } else {
    }
}

/// The lowercase layer types the small letter of each capital of the uppercase layer, and no
/// key of the lowercase layer types a capital.
pub proof fn lemma_lowercase_is_small_uppercase(i: int)
    requires
        0 <= i < 45,
    ensures
        is_capital(uppercase_char(i)) ==> lowercase_char(i) == small_of(uppercase_char(i)),
        !is_capital(lowercase_char(i)),
{
    lemma_key_chars(i);
}

/// Distinct keys of the lowercase layer type distinct characters, and so do distinct keys of
/// the uppercase layer.
pub proof fn lemma_layers_distinct(i: int, j: int)
    requires
        0 <= i < 45,
        0 <= j < 45,
        i != j,
    ensures
        lowercase_char(i) != lowercase_char(j),
        uppercase_char(i) != uppercase_char(j),
{
    lemma_key_chars(i);
    lemma_key_chars(j);
}

/// Removes the last character of `s` and returns it, or `None` if `s` is empty
/// (`String::pop`).
#[verifier::external_body]
fn string_pop(s: &mut String) -> (c: Option<char>)
    ensures
        old(s)@.len() == 0 ==> c is None && final(s)@ == old(s)@,
        old(s)@.len() > 0 ==> c == Some(old(s)@.last()) && final(s)@ == old(s)@.drop_last(),
{
    s.pop()
}

/// The text shown for `value`: as many asterisks as `value` has bytes when it is a password,
/// `value` itself otherwise.
pub open spec fn spec_masked_value(value: Seq<char>, is_password: bool) -> Seq<char> {
    if is_password {
        Seq::new(encode_utf8(value).len(), |i: int| '*')
    } else {
        value
    }
}

/// The text shown for `value`: as many asterisks as `value` has bytes when it is a password,
/// `value` itself otherwise.
pub fn masked_value(value: &str, is_password: bool) -> (s: String)
    ensures
        s@ == spec_masked_value(value@, is_password),
{
    if is_password {
        let n = value.as_bytes().len();
        let mut s = String::new();
        let mut i: usize = 0;
        proof {
            reveal_strlit("*");
        }
        while i < n
            invariant
                0 <= i <= n,
                s@ == Seq::new(i as nat, |k: int| '*'),
                "*"@ == seq!['*'],
            decreases n - i,
        {
            s.append("*");
            i = i + 1;
            assert(s@ == Seq::new(i as nat, |k: int| '*'));
        }
        assert(n == value.spec_bytes().len());
        assert(s@ =~= spec_masked_value(value@, is_password));
        s
    } else {
        value.to_owned()
    }
}

/// The layer after `mode`: lowercase, uppercase, symbols, and round again.
pub open spec fn next_mode(mode: KeyboardMode) -> KeyboardMode {
    match mode {
        KeyboardMode::Lowercase => KeyboardMode::Uppercase,
        KeyboardMode::Uppercase => KeyboardMode::Symbols,
        KeyboardMode::Symbols => KeyboardMode::Lowercase,
    }
}

/// The text typed with the cursor at column `x` of row `y` in layer `mode`: a space on the
/// space-bar row, the key's character otherwise.
pub open spec fn typed_char(x: int, y: int, mode: KeyboardMode) -> char {
    if y == 4 {
        ' '
    } else {
        key_char(x + y * 11, mode)
    }
}

/// The on-screen keyboard: the text typed so far, the cursor's column and row, the layer
/// shown and whether the text is a password.
#[derive(Debug, Clone)]
pub struct Keyboard {
    value: String,
    cursor_x: usize,
    cursor_y: usize,
    mode: KeyboardMode,
    is_password: bool,
    dirty: bool,
}

impl Keyboard {
    pub closed spec fn spec_value(&self) -> Seq<char> {
        self.value@
    }

    pub closed spec fn spec_cursor(&self) -> (int, int) {
        (self.cursor_x as int, self.cursor_y as int)
    }

    pub closed spec fn spec_mode(&self) -> KeyboardMode {
        self.mode
    }

    pub closed spec fn spec_is_password(&self) -> bool {
        self.is_password
    }

    pub closed spec fn spec_dirty(&self) -> bool {
        self.dirty
    }

    /// The cursor is on a key.
    pub open spec fn wf(&self) -> bool {
        &&& 0 <= self.spec_cursor().0 < 11
        &&& 0 <= self.spec_cursor().1 < 5
    }

    /// A keyboard holding `value`, with the cursor in the middle of the third row and the
    /// lowercase layer shown.
    pub fn new(value: String, is_password: bool) -> (k: Self)
        ensures
            k.wf(),
            k.spec_value() == value@,
            k.spec_cursor() == (5int, 2int),
            k.spec_mode() == KeyboardMode::Lowercase,
            k.spec_is_password() == is_password,
            k.spec_dirty(),
    {
        Self { value, cursor_x: 5, cursor_y: 2, mode: KeyboardMode::Lowercase, is_password, dirty: true }
    }

    /// The text typed so far.
    pub fn value(&self) -> (v: &str)
        ensures
            v@ == self.spec_value(),
    {
        self.value.as_str()
    }

    /// The cursor's column and row.
    pub fn cursor(&self) -> (c: (usize, usize))
        ensures
            c.0 == self.spec_cursor().0,
            c.1 == self.spec_cursor().1,
    {
        (self.cursor_x, self.cursor_y)
    }

    pub fn mode(&self) -> (m: KeyboardMode)
        ensures
            m == self.spec_mode(),
    {
        self.mode
    }

    /// The text shown for what was typed.
    pub fn masked_value(&self) -> (s: String)
        ensures
            s@ == spec_masked_value(self.spec_value(), self.spec_is_password()),
    {
        masked_value(self.value.as_str(), self.is_password)
    }

    pub fn should_draw(&self) -> (d: bool)
        ensures
            d == self.spec_dirty(),
    {
        self.dirty
    }

    pub fn set_should_draw(&mut self)
        ensures
            final(self).spec_dirty(),
            final(self).spec_value() == old(self).spec_value(),
            final(self).spec_cursor() == old(self).spec_cursor(),
            final(self).spec_mode() == old(self).spec_mode(),
            final(self).spec_is_password() == old(self).spec_is_password(),
    {
        self.dirty = true;
    }

    /// Handles a button press: the direction buttons move the cursor with wrap-around, A
    /// types the key under the cursor, L and R delete the last character, X clears the text,
    /// Select shows the next layer, B closes the keyboard and Start closes it reporting the
    /// text as the value of input 0. Both also ask for a redraw, through `commands`. Every
    /// event counts as handled.
    pub fn handle_key_event(
        &mut self,
        event: KeyEvent,
        commands: &mut Vec<Command>,
        bubble: &mut VecDeque<Command>,
    ) -> (handled: bool)
        requires
            old(self).wf(),
        ensures
            handled,
            final(self).wf(),
            final(self).spec_is_password() == old(self).spec_is_password(),
            final(bubble)@.subrange(0, old(bubble)@.len() as int) == old(bubble)@,
            final(commands)@.subrange(0, old(commands)@.len() as int) == old(commands)@,
            ({
                let (x, y) = old(self).spec_cursor();
                let v = old(self).spec_value();
                let m = old(self).spec_mode();
                if event.spec_pushes(Key::Up) || event.spec_pushes(Key::Down)
                    || event.spec_pushes(Key::Left) || event.spec_pushes(Key::Right) {
                    &&& final(self).spec_cursor() == if event.spec_pushes(Key::Up) {
                        (x, (y - 1) % 5)
                    } else if event.spec_pushes(Key::Down) {
                        (x, (y + 1) % 5)
                    } else if event.spec_pushes(Key::Left) {
                        ((x - 1) % 11, y)
                    } else {
                        ((x + 1) % 11, y)
                    }
                    &&& final(self).spec_value() == v
                    &&& final(self).spec_mode() == m
                    &&& final(self).spec_dirty()
                    &&& final(bubble)@ == old(bubble)@
                    &&& final(commands)@ == old(commands)@
                } else if event == KeyEvent::Pressed(Key::A) || event == KeyEvent::Pressed(Key::R)
                    || event == KeyEvent::Pressed(Key::L) || event == KeyEvent::Pressed(Key::X)
                    || event == KeyEvent::Pressed(Key::Select) {
                    &&& final(self).spec_value() == if event == KeyEvent::Pressed(Key::A) {
                        v.push(typed_char(x, y, m))
                    } else if event == KeyEvent::Pressed(Key::X) {
                        Seq::<char>::empty()
                    } else if event == KeyEvent::Pressed(Key::Select) {
                        v
                    } else if v.len() > 0 {
                        v.drop_last()
                    } else {
                        v
                    }
                    &&& final(self).spec_mode() == if event == KeyEvent::Pressed(Key::Select) {
                        next_mode(m)
                    } else {
                        m
                    }
                    &&& final(self).spec_cursor() == (x, y)
                    &&& final(self).spec_dirty()
                    &&& final(bubble)@ == old(bubble)@
                    &&& final(commands)@ == old(commands)@
                } else if event == KeyEvent::Pressed(Key::B) {
                    &&& *final(self) == *old(self)
                    &&& final(bubble)@.len() == old(bubble)@.len() + 1
                    &&& final(bubble)@.last() is CloseView
                    &&& final(commands)@.len() == old(commands)@.len() + 1
                    &&& final(commands)@.last() is Redraw
                } else if event == KeyEvent::Pressed(Key::Start) {
                    &&& final(self).spec_value() == v
                    &&& final(self).spec_cursor() == (x, y)
                    &&& final(self).spec_mode() == m
                    &&& final(self).spec_dirty() == old(self).spec_dirty()
                    &&& final(bubble)@.len() == old(bubble)@.len() + 2
                    &&& final(bubble)@[old(bubble)@.len() as int] matches Command::ValueChanged(
                        0,
                        Value::String(s),
                    ) && s@ == v
                    &&& final(bubble)@.last() is CloseView
                    &&& final(commands)@.len() == old(commands)@.len() + 1
                    &&& final(commands)@.last() is Redraw
                } else {
                    &&& *final(self) == *old(self)
                    &&& final(bubble)@ == old(bubble)@
                    &&& final(commands)@ == old(commands)@
                }
            }),
    {
        if event.pushes(Key::Up) {
            self.cursor_y = if self.cursor_y == 0 {
                KEYBOARD_ROWS - 1
            } else {
                self.cursor_y - 1
            };
            self.dirty = true;
        } else if event.pushes(Key::Down) {
            self.cursor_y = if self.cursor_y + 1 == KEYBOARD_ROWS {
                0
            } else {
                self.cursor_y + 1
            };
            self.dirty = true;
        } else if event.pushes(Key::Left) {
            self.cursor_x = if self.cursor_x == 0 {
                KEYBOARD_COLUMNS - 1
            } else {
                self.cursor_x - 1
            };
            self.dirty = true;
        } else if event.pushes(Key::Right) {
            self.cursor_x = if self.cursor_x + 1 == KEYBOARD_COLUMNS {
                0
            } else {
                self.cursor_x + 1
            };
            self.dirty = true;
        } else if event == KeyEvent::Pressed(Key::A) {
            if self.cursor_y == 4 {
                proof {
                    reveal_strlit(" ");
                }
                self.value.append(" ");
            } else {
                let key = KeyboardKey::from_repr(self.cursor_x + self.cursor_y * KEYBOARD_COLUMNS);
                match key {
                    Some(k) => self.value.append(k.key(self.mode)),
                    None => {},
                }
            }
            self.dirty = true;
        } else if event == KeyEvent::Pressed(Key::R) || event == KeyEvent::Pressed(Key::L) {
            string_pop(&mut self.value);
            self.dirty = true;
        } else if event == KeyEvent::Pressed(Key::B) {
            bubble.push_back(Command::CloseView);
            commands.push(Command::Redraw);
        } else if event == KeyEvent::Pressed(Key::X) {
            self.value = String::new();
            self.dirty = true;
        } else if event == KeyEvent::Pressed(Key::Select) {
            self.mode = match self.mode {
                KeyboardMode::Lowercase => KeyboardMode::Uppercase,
                KeyboardMode::Uppercase => KeyboardMode::Symbols,
                KeyboardMode::Symbols => KeyboardMode::Lowercase,
            };
            self.dirty = true;
        } else if event == KeyEvent::Pressed(Key::Start) {
            bubble.push_back(Command::ValueChanged(0, Value::String(self.value.clone())));
            bubble.push_back(Command::CloseView);
            commands.push(Command::Redraw);
        }
        true
    }
}

} // verus!
