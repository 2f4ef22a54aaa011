use common::input::{evdev_key_event, Gamepad, Key, KeyEvent};

#[derive(Debug, PartialEq)]
enum Message {
    Press(Key),
    Release(Key),
}

impl Gamepad for Message {
    fn key_press(key: Key) -> Self {
        Message::Press(key)
    }

    fn key_release(key: Key) -> Self {
        Message::Release(key)
    }
}

#[test]
fn presses_and_releases_become_messages() {
    assert_eq!(KeyEvent::Pressed(Key::A).into_message::<Message>(), Some(Message::Press(Key::A)));
    assert_eq!(
        KeyEvent::Released(Key::Start).into_message::<Message>(),
        Some(Message::Release(Key::Start))
    );
    assert_eq!(KeyEvent::Autorepeat(Key::Up).into_message::<Message>(), None);
    assert_eq!(KeyEvent::Pressed(Key::Unknown).into_message::<Message>(), None);
    assert_eq!(KeyEvent::Released(Key::Unknown).into_message::<Message>(), None);
}

#[test]
fn evdev_codes_map_to_buttons() {
    let table = [
        (103, Key::Up),
        (108, Key::Down),
        (105, Key::Left),
        (106, Key::Right),
        (57, Key::A),
        (29, Key::B),
        (42, Key::X),
        (56, Key::Y),
        (28, Key::Start),
        (97, Key::Select),
        (18, Key::L),
        (20, Key::R),
        (1, Key::Menu),
        (15, Key::L2),
        (14, Key::R2),
        (116, Key::Power),
        (114, Key::VolDown),
        (115, Key::VolUp),
        (30, Key::Unknown),
    ];
    for (code, key) in table {
        assert_eq!(Key::from_evdev_code(code), key, "code {}", code);
    }
}

#[test]
fn evdev_values_map_to_events() {
    assert_eq!(evdev_key_event(57, 0), KeyEvent::Released(Key::A));
    assert_eq!(evdev_key_event(57, 1), KeyEvent::Pressed(Key::A));
    assert_eq!(evdev_key_event(103, 2), KeyEvent::Autorepeat(Key::Up));
}

#[test]
fn pushes_counts_presses_and_repeats() {
    assert!(KeyEvent::Pressed(Key::Up).pushes(Key::Up));
    assert!(KeyEvent::Autorepeat(Key::Up).pushes(Key::Up));
    assert!(!KeyEvent::Released(Key::Up).pushes(Key::Up));
    assert!(!KeyEvent::Pressed(Key::Down).pushes(Key::Up));
}
