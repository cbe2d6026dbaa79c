use blt_backend::event::{Key, MouseButton};
use blt_backend::keymap::{blt_keycode_to_char, blt_keycode_to_key, blt_keycode_to_mouse_button};
use blt_backend::terminal::KeyCode;

#[test]
fn letters_follow_shift() {
    assert_eq!(blt_keycode_to_char(KeyCode::A, false), 'a');
    assert_eq!(blt_keycode_to_char(KeyCode::A, true), 'A');
    assert_eq!(blt_keycode_to_char(KeyCode::Q, false), 'q');
    assert_eq!(blt_keycode_to_char(KeyCode::Z, true), 'Z');
}

#[test]
fn top_row_types_digits_and_symbols() {
    let expected = [
        (KeyCode::Row1, '1', '!'),
        (KeyCode::Row2, '2', '@'),
        (KeyCode::Row3, '3', '#'),
        (KeyCode::Row4, '4', '$'),
        (KeyCode::Row5, '5', '%'),
        (KeyCode::Row6, '6', '^'),
        (KeyCode::Row7, '7', '&'),
        (KeyCode::Row8, '8', '*'),
        (KeyCode::Row9, '9', '('),
        (KeyCode::Row0, '0', ')'),
    ];
    for (kc, plain, shifted) in expected {
        assert_eq!(blt_keycode_to_char(kc, false), plain);
        assert_eq!(blt_keycode_to_char(kc, true), shifted);
    }
}

#[test]
fn punctuation_keys() {
    let expected = [
        (KeyCode::Grave, '`', '~'),
        (KeyCode::Minus, '-', '_'),
        (KeyCode::Equals, '=', '+'),
        (KeyCode::LeftBracket, '[', '{'),
        (KeyCode::RightBracket, ']', '}'),
        (KeyCode::Backslash, '\\', '|'),
        (KeyCode::Semicolon, ';', ':'),
        (KeyCode::Apostrophe, '\'', '"'),
        (KeyCode::Comma, ',', '<'),
        (KeyCode::Period, '.', '>'),
        (KeyCode::Slash, '/', '?'),
    ];
    for (kc, plain, shifted) in expected {
        assert_eq!(blt_keycode_to_char(kc, false), plain);
        assert_eq!(blt_keycode_to_char(kc, true), shifted);
    }
}

#[test]
fn space_and_keypad_ignore_shift() {
    let expected = [
        (KeyCode::Space, ' '),
        (KeyCode::NumDivide, '/'),
        (KeyCode::NumMultiply, '*'),
        (KeyCode::NumMinus, '-'),
        (KeyCode::NumPlus, '+'),
        (KeyCode::NumPeriod, '.'),
        (KeyCode::Num0, '0'),
        (KeyCode::Num1, '1'),
        (KeyCode::Num5, '5'),
        (KeyCode::Num9, '9'),
    ];
    for (kc, c) in expected {
        assert_eq!(blt_keycode_to_char(kc, false), c);
        assert_eq!(blt_keycode_to_char(kc, true), c);
    }
}

#[test]
fn shift_upper_cases_every_letter() {
    let letters = [
        KeyCode::A, KeyCode::B, KeyCode::C, KeyCode::D, KeyCode::E, KeyCode::F, KeyCode::G,
        KeyCode::H, KeyCode::I, KeyCode::J, KeyCode::K, KeyCode::L, KeyCode::M, KeyCode::N,
        KeyCode::O, KeyCode::P, KeyCode::Q, KeyCode::R, KeyCode::S, KeyCode::T, KeyCode::U,
        KeyCode::V, KeyCode::W, KeyCode::X, KeyCode::Y, KeyCode::Z,
    ];
    for (i, kc) in letters.iter().enumerate() {
        let plain = blt_keycode_to_char(*kc, false);
        assert_eq!(plain as u32, 'a' as u32 + i as u32);
        assert_eq!(blt_keycode_to_char(*kc, true), plain.to_ascii_uppercase());
    }
}

#[test]
fn function_and_navigation_keys() {
    assert_eq!(blt_keycode_to_key(KeyCode::F1), Key::F1);
    assert_eq!(blt_keycode_to_key(KeyCode::F12), Key::F12);
    assert_eq!(blt_keycode_to_key(KeyCode::Enter), Key::Enter);
    assert_eq!(blt_keycode_to_key(KeyCode::NumEnter), Key::Enter);
    assert_eq!(blt_keycode_to_key(KeyCode::Escape), Key::Esc);
    assert_eq!(blt_keycode_to_key(KeyCode::Backspace), Key::Backspace);
    assert_eq!(blt_keycode_to_key(KeyCode::Tab), Key::Tab);
    assert_eq!(blt_keycode_to_key(KeyCode::Pause), Key::PauseBreak);
    assert_eq!(blt_keycode_to_key(KeyCode::Insert), Key::Ins);
    assert_eq!(blt_keycode_to_key(KeyCode::Delete), Key::Del);
    assert_eq!(blt_keycode_to_key(KeyCode::Home), Key::Home);
    assert_eq!(blt_keycode_to_key(KeyCode::End), Key::End);
    assert_eq!(blt_keycode_to_key(KeyCode::PageUp), Key::PageUp);
    assert_eq!(blt_keycode_to_key(KeyCode::PageDown), Key::PageDown);
    assert_eq!(blt_keycode_to_key(KeyCode::Left), Key::Left);
    assert_eq!(blt_keycode_to_key(KeyCode::Right), Key::Right);
    assert_eq!(blt_keycode_to_key(KeyCode::Up), Key::Up);
    assert_eq!(blt_keycode_to_key(KeyCode::Down), Key::Down);
}

#[test]
fn mouse_codes() {
    assert_eq!(blt_keycode_to_mouse_button(KeyCode::MouseLeft), Some(MouseButton::Left));
    assert_eq!(blt_keycode_to_mouse_button(KeyCode::MouseRight), Some(MouseButton::Right));
    assert_eq!(blt_keycode_to_mouse_button(KeyCode::MouseMiddle), Some(MouseButton::Middle));
    assert_eq!(blt_keycode_to_mouse_button(KeyCode::MouseFourth), None);
    assert_eq!(blt_keycode_to_mouse_button(KeyCode::MouseFifth), None);
    assert_eq!(blt_keycode_to_mouse_button(KeyCode::A), None);
    assert_eq!(blt_keycode_to_mouse_button(KeyCode::Enter), None);
}
