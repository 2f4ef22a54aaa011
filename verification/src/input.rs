//! Buttons of the handheld, key events, and how raw input codes map onto them.

use vstd::prelude::*;

verus! {

/// A physical button of the device.
#[derive(Debug, Clone, Copy, PartialEq, Eq, Structural, Hash)]
pub enum Key {
    Up,
    Down,
    Left,
    Right,
    A,
    B,
    X,
    Y,
    Start,
    Select,
    L,
    R,
    Menu,
    L2,
    R2,
    Power,
    VolDown,
    VolUp,
    Unknown,
}

/// What happened to a button.
#[derive(Debug, Clone, Copy, PartialEq, Eq, Structural)]
pub enum KeyEvent {
    Pressed(Key),
    Released(Key),
    Autorepeat(Key),
}

/// A message type of an application that reacts to button presses and releases.
pub trait Gamepad: Sized {
    fn key_press(key: Key) -> Self;

    fn key_release(key: Key) -> Self;
}

impl KeyEvent {
    /// The button the event is about.
    pub open spec fn spec_key(self) -> Key {
        match self {
            KeyEvent::Pressed(k) => k,
            KeyEvent::Released(k) => k,
            KeyEvent::Autorepeat(k) => k,
        }
    }

    /// Whether the event is handed on to an application as a message: presses and releases of
    /// known buttons are, repeats and unknown buttons are not.
    pub open spec fn spec_is_forwarded(self) -> bool {
        match self {
            KeyEvent::Pressed(k) => k != Key::Unknown,
            KeyEvent::Released(k) => k != Key::Unknown,
            KeyEvent::Autorepeat(_) => false,
        }
    }

    /// Whether the event is a press of `key`, first or repeated.
    pub open spec fn spec_pushes(self, key: Key) -> bool {
        self == KeyEvent::Pressed(key) || self == KeyEvent::Autorepeat(key)
    }

    /// Turns the event into an application message: `key_press` for a press, `key_release` for
    /// a release, nothing for a repeat or for an unknown button.
    pub fn into_message<T: Gamepad>(self) -> (m: Option<T>)
        ensures
            m.is_some() == self.spec_is_forwarded(),
            match self {
                KeyEvent::Pressed(k) => k != Key::Unknown ==> (m matches Some(v)
                    && call_ensures(T::key_press, (k,), v)),
                KeyEvent::Released(k) => k != Key::Unknown ==> (m matches Some(v)
                    && call_ensures(T::key_release, (k,), v)),
                KeyEvent::Autorepeat(_) => true,
            },
    {
        match self {
            KeyEvent::Pressed(key) => {
                if key != Key::Unknown {
                    Some(T::key_press(key))
                } else {
                    None
                }
            },
            KeyEvent::Released(key) => {
                if key != Key::Unknown {
                    Some(T::key_release(key))
                } else {
                    None
                }
            },
            KeyEvent::Autorepeat(_) => None,
        }
    }

    /// Whether the event is a press of `key`, first or repeated.
    pub fn pushes(&self, key: Key) -> (b: bool)
        ensures
            b == self.spec_pushes(key),
    {
        match *self {
            KeyEvent::Pressed(k) => k == key,
            KeyEvent::Autorepeat(k) => k == key,
            KeyEvent::Released(_) => false,
        }
    }
}

/// The button that a Linux input key code stands for on the device.
pub open spec fn spec_key_for_code(code: u16) -> Key {
    if code == 103 {
        Key::Up
    } else if code == 108 {
        Key::Down
    } else if code == 105 {
        Key::Left
    } else if code == 106 {
        Key::Right
    } else if code == 57 {
        Key::A
    } else if code == 29 {
        Key::B
    } else if code == 42 {
        Key::X
    } else if code == 56 {
        Key::Y
    } else if code == 28 {
        Key::Start
    } else if code == 97 {
        Key::Select
    } else if code == 18 {
        Key::L
    } else if code == 20 {
        Key::R
    } else if code == 1 {
        Key::Menu
    } else if code == 15 {
        Key::L2
    } else if code == 14 {
        Key::R2
    } else if code == 116 {
        Key::Power
    } else if code == 114 {
        Key::VolDown
    } else if code == 115 {
        Key::VolUp
    } else {
        Key::Unknown
    }
}

impl Key {
    /// The button behind a Linux input key code (`KEY_UP`, `KEY_SPACE`, ...); codes the device
    /// does not send give `Unknown`.
    pub fn from_evdev_code(code: u16) -> (k: Key)
        ensures
            k == spec_key_for_code(code),
    {
        match code {
            103 => Key::Up,
            108 => Key::Down,
            105 => Key::Left,
            106 => Key::Right,
            57 => Key::A,
            29 => Key::B,
            42 => Key::X,
            56 => Key::Y,
            28 => Key::Start,
            97 => Key::Select,
            18 => Key::L,
            20 => Key::R,
            1 => Key::Menu,
            15 => Key::L2,
            14 => Key::R2,
            116 => Key::Power,
            114 => Key::VolDown,
            115 => Key::VolUp,
            _ => Key::Unknown,
        }
    }
}

/// The key event of an input event of type key, from its code and its value
/// (0 released, 1 pressed, 2 repeated).
pub open spec fn spec_evdev_key_event(code: u16, value: i32) -> KeyEvent {
    let key = spec_key_for_code(code);
    if value == 0 {
        KeyEvent::Released(key)
    } else if value == 1 {
        KeyEvent::Pressed(key)
    } else {
        KeyEvent::Autorepeat(key)
    }
}

/// The key event of an input event of type key, from its code and its value
/// (0 released, 1 pressed, 2 repeated).
pub fn evdev_key_event(code: u16, value: i32) -> (e: KeyEvent)
    requires
        0 <= value <= 2,
    ensures
        e == spec_evdev_key_event(code, value),
{
    let key = Key::from_evdev_code(code);
    if value == 0 {
        KeyEvent::Released(key)
    } else if value == 1 {
        KeyEvent::Pressed(key)
    } else {
        KeyEvent::Autorepeat(key)
    }
}

/// Every event built from an input event is about the button its code stands for.
pub proof fn lemma_evdev_event_key(code: u16, value: i32)
    requires
        0 <= value <= 2,
    ensures
        spec_evdev_key_event(code, value).spec_key() == spec_key_for_code(code),
        spec_evdev_key_event(code, value).spec_is_forwarded() <==> (value != 2
            && spec_key_for_code(code) != Key::Unknown),
{
}

} // verus!
