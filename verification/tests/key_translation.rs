use ignis::key::{translate, Action, Key, Modifiers};

fn press(key: Key, shift: bool) -> Action {
    translate(key, Modifiers { shift }, true)
}

#[test]
fn letters_map_to_lowercase_without_shift() {
    let keys = [
        (Key::KeyA, 'a'),
        (Key::KeyB, 'b'),
        (Key::KeyC, 'c'),
        (Key::KeyD, 'd'),
        (Key::KeyE, 'e'),
        (Key::KeyF, 'f'),
        (Key::KeyG, 'g'),
        (Key::KeyH, 'h'),
        (Key::KeyI, 'i'),
        (Key::KeyJ, 'j'),
        (Key::KeyK, 'k'),
        (Key::KeyL, 'l'),
        (Key::KeyM, 'm'),
        (Key::KeyN, 'n'),
        (Key::KeyO, 'o'),
        (Key::KeyP, 'p'),
        (Key::KeyQ, 'q'),
        (Key::KeyR, 'r'),
        (Key::KeyS, 's'),
        (Key::KeyT, 't'),
        (Key::KeyU, 'u'),
        (Key::KeyV, 'v'),
        (Key::KeyW, 'w'),
        (Key::KeyX, 'x'),
        (Key::KeyY, 'y'),
        (Key::KeyZ, 'z'),
    ];
    for (key, c) in keys {
        assert_eq!(press(key, false), Action::InsertChar(c));
        let upper = c.to_ascii_uppercase();
        assert_eq!(press(key, true), Action::InsertChar(upper));
    }
}

#[test]
fn digits_map_to_shifted_symbols() {
    let keys = [
        (Key::Key0, '0', ')'),
        (Key::Key1, '1', '!'),
        (Key::Key2, '2', '@'),
        (Key::Key3, '3', '#'),
        (Key::Key4, '4', '$'),
        (Key::Key5, '5', '%'),
        (Key::Key6, '6', '^'),
        (Key::Key7, '7', '&'),
        (Key::Key8, '8', '*'),
        (Key::Key9, '9', '('),
    ];
    for (key, base, shifted) in keys {
        assert_eq!(press(key, false), Action::InsertChar(base));
        assert_eq!(press(key, true), Action::InsertChar(shifted));
    }
}

#[test]
fn punctuation_maps_through_the_shift_table() {
    let keys = [
        (Key::Apostrophe, '\'', '"'),
        (Key::Comma, ',', '<'),
        (Key::Period, '.', '>'),
        (Key::Slash, '/', '?'),
        (Key::Backslash, '\\', '|'),
        (Key::Semicolon, ';', ':'),
        (Key::LeftBracket, '[', '{'),
        (Key::RightBracket, ']', '}'),
        (Key::Grave, '`', '~'),
        (Key::Minus, '-', '_'),
        (Key::Equals, '=', '+'),
    ];
    for (key, base, shifted) in keys {
        assert_eq!(press(key, false), Action::InsertChar(base));
        assert_eq!(press(key, true), Action::InsertChar(shifted));
    }
}

#[test]
fn shift_modified_punctuation_samples() {
    assert_eq!(press(Key::Key1, true), Action::InsertChar('!'));
    assert_eq!(press(Key::Comma, true), Action::InsertChar('<'));
    assert_eq!(press(Key::Grave, false), Action::InsertChar('`'));
}

#[test]
fn space_ignores_shift() {
    assert_eq!(press(Key::Space, false), Action::InsertChar(' '));
    assert_eq!(press(Key::Space, true), Action::InsertChar(' '));
}

#[test]
fn control_keys_map_to_their_actions() {
    assert_eq!(press(Key::Enter, false), Action::Submit);
    assert_eq!(press(Key::Backspace, false), Action::Backspace);
    assert_eq!(press(Key::Delete, false), Action::Delete);
    assert_eq!(press(Key::Left, false), Action::MoveLeft);
    assert_eq!(press(Key::Right, false), Action::MoveRight);
    assert_eq!(press(Key::Up, false), Action::MoveUp);
    assert_eq!(press(Key::Down, false), Action::MoveDown);
    assert_eq!(press(Key::Home, false), Action::Home);
    assert_eq!(press(Key::End, false), Action::End);
}

#[test]
fn unknown_keys_produce_no_action() {
    assert_eq!(press(Key::Unknown, false), Action::NoOp);
    assert_eq!(press(Key::Unknown, true), Action::NoOp);
}

#[test]
fn releases_produce_no_action() {
    assert_eq!(translate(Key::KeyA, Modifiers { shift: false }, false), Action::NoOp);
    assert_eq!(translate(Key::Enter, Modifiers { shift: false }, false), Action::NoOp);
    assert_eq!(translate(Key::Key1, Modifiers { shift: true }, false), Action::NoOp);
}
