use vstd::prelude::*;
use crate::event::{Key, MouseButton};
use crate::terminal::KeyCode;

verus! {

/// The two characters a character key types: without Shift, and with
/// Shift held, on a US keyboard layout. `None` for keys that type nothing.
pub open spec fn key_glyphs(kc: KeyCode) -> Option<(char, char)> {
    match kc {
        KeyCode::A => Some(('a', 'A')),
        KeyCode::B => Some(('b', 'B')),
        KeyCode::C => Some(('c', 'C')),
        KeyCode::D => Some(('d', 'D')),
        KeyCode::E => Some(('e', 'E')),
        KeyCode::F => Some(('f', 'F')),
        KeyCode::G => Some(('g', 'G')),
        KeyCode::H => Some(('h', 'H')),
        KeyCode::I => Some(('i', 'I')),
        KeyCode::J => Some(('j', 'J')),
        KeyCode::K => Some(('k', 'K')),
        KeyCode::L => Some(('l', 'L')),
        KeyCode::M => Some(('m', 'M')),
        KeyCode::N => Some(('n', 'N')),
        KeyCode::O => Some(('o', 'O')),
        KeyCode::P => Some(('p', 'P')),
        KeyCode::Q => Some(('q', 'Q')),
        KeyCode::R => Some(('r', 'R')),
        KeyCode::S => Some(('s', 'S')),
        KeyCode::T => Some(('t', 'T')),
        KeyCode::U => Some(('u', 'U')),
        KeyCode::V => Some(('v', 'V')),
        KeyCode::W => Some(('w', 'W')),
        KeyCode::X => Some(('x', 'X')),
        KeyCode::Y => Some(('y', 'Y')),
        KeyCode::Z => Some(('z', 'Z')),
        KeyCode::Row1 => Some(('1', '!')),
        KeyCode::Row2 => Some(('2', '@')),
        KeyCode::Row3 => Some(('3', '#')),
        KeyCode::Row4 => Some(('4', '$')),
        KeyCode::Row5 => Some(('5', '%')),
        KeyCode::Row6 => Some(('6', '^')),
        KeyCode::Row7 => Some(('7', '&')),
        KeyCode::Row8 => Some(('8', '*')),
        KeyCode::Row9 => Some(('9', '(')),
        KeyCode::Row0 => Some(('0', ')')),
        KeyCode::Grave => Some(('`', '~')),
        KeyCode::Minus => Some(('-', '_')),
        KeyCode::Equals => Some(('=', '+')),
        KeyCode::LeftBracket => Some(('[', '{')),
        KeyCode::RightBracket => Some((']', '}')),
        KeyCode::Backslash => Some(('\\', '|')),
        KeyCode::Semicolon => Some((';', ':')),
        KeyCode::Apostrophe => Some(('\'', '"')),
        KeyCode::Comma => Some((',', '<')),
        KeyCode::Period => Some(('.', '>')),
        KeyCode::Slash => Some(('/', '?')),
        KeyCode::Space => Some((' ', ' ')),
        KeyCode::NumDivide => Some(('/', '/')),
        KeyCode::NumMultiply => Some(('*', '*')),
        KeyCode::NumMinus => Some(('-', '-')),
        KeyCode::NumPlus => Some(('+', '+')),
        KeyCode::NumPeriod => Some(('.', '.')),
        KeyCode::Num1 => Some(('1', '1')),
        KeyCode::Num2 => Some(('2', '2')),
        KeyCode::Num3 => Some(('3', '3')),
        KeyCode::Num4 => Some(('4', '4')),
        KeyCode::Num5 => Some(('5', '5')),
        KeyCode::Num6 => Some(('6', '6')),
        KeyCode::Num7 => Some(('7', '7')),
        KeyCode::Num8 => Some(('8', '8')),
        KeyCode::Num9 => Some(('9', '9')),
        KeyCode::Num0 => Some(('0', '0')),
        _ => None,
    }
}

/// The key types a character.
pub open spec fn is_char_key(kc: KeyCode) -> bool {
    key_glyphs(kc) is Some
}

/// The character a character key types, given whether Shift is held.
pub open spec fn key_char(kc: KeyCode, shift: bool) -> char
    recommends
        is_char_key(kc),
{
    match key_glyphs(kc) {
        Some((plain, shifted)) => if shift { shifted } else { plain },
        None => ' ',
    }
}

/// The user-interface key that a function, editing or navigation key stands for.
pub open spec fn function_key(kc: KeyCode) -> Option<Key> {
    match kc {
        KeyCode::F1 => Some(Key::F1),
        KeyCode::F2 => Some(Key::F2),
        KeyCode::F3 => Some(Key::F3),
        KeyCode::F4 => Some(Key::F4),
        KeyCode::F5 => Some(Key::F5),
        KeyCode::F6 => Some(Key::F6),
        KeyCode::F7 => Some(Key::F7),
        KeyCode::F8 => Some(Key::F8),
        KeyCode::F9 => Some(Key::F9),
        KeyCode::F10 => Some(Key::F10),
        KeyCode::F11 => Some(Key::F11),
        KeyCode::F12 => Some(Key::F12),
        KeyCode::NumEnter => Some(Key::Enter),
        KeyCode::Enter => Some(Key::Enter),
        KeyCode::Escape => Some(Key::Esc),
        KeyCode::Backspace => Some(Key::Backspace),
        KeyCode::Tab => Some(Key::Tab),
        KeyCode::Pause => Some(Key::PauseBreak),
        KeyCode::Insert => Some(Key::Ins),
        KeyCode::Home => Some(Key::Home),
        KeyCode::PageUp => Some(Key::PageUp),
        KeyCode::Delete => Some(Key::Del),
        KeyCode::End => Some(Key::End),
        KeyCode::PageDown => Some(Key::PageDown),
        KeyCode::Right => Some(Key::Right),
        KeyCode::Left => Some(Key::Left),
        KeyCode::Down => Some(Key::Down),
        KeyCode::Up => Some(Key::Up),
        _ => None,
    }
}

/// The key is a function, editing or navigation key.
pub open spec fn is_function_key(kc: KeyCode) -> bool {
    function_key(kc) is Some
}

/// The code is one of the five mouse buttons that BearLibTerminal knows.
pub open spec fn is_mouse_key(kc: KeyCode) -> bool {
    ||| kc == KeyCode::MouseLeft
    ||| kc == KeyCode::MouseRight
    ||| kc == KeyCode::MouseMiddle
    ||| kc == KeyCode::MouseFourth
    ||| kc == KeyCode::MouseFifth
}

/// The mouse button a code stands for; only the first three buttons have one.
pub open spec fn mouse_button_of(kc: KeyCode) -> Option<MouseButton> {
    match kc {
        KeyCode::MouseLeft => Some(MouseButton::Left),
        KeyCode::MouseRight => Some(MouseButton::Right),
        KeyCode::MouseMiddle => Some(MouseButton::Middle),
        _ => None,
    }
}

/// The character that a character key types.
pub fn blt_keycode_to_char(kc: KeyCode, shift: bool) -> (c: char)
    requires
        is_char_key(kc),
    ensures
        c == key_char(kc, shift),
{
    match kc {
        KeyCode::A => if shift {
            'A'
        } else {
            'a'
        },
        KeyCode::B => if shift {
            'B'
        } else {
            'b'
        },
        KeyCode::C => if shift {
            'C'
        } else {
            'c'
        },
        KeyCode::D => if shift {
            'D'
        } else {
            'd'
        },
        KeyCode::E => if shift {
            'E'
        } else {
            'e'
        },
        KeyCode::F => if shift {
            'F'
        } else {
            'f'
        },
        KeyCode::G => if shift {
            'G'
        } else {
            'g'
        },
        KeyCode::H => if shift {
            'H'
        } else {
            'h'
        },
        KeyCode::I => if shift {
            'I'
        } else {
            'i'
        },
        KeyCode::J => if shift {
            'J'
        } else {
            'j'
        },
        KeyCode::K => if shift {
            'K'
        } else {
            'k'
        },
        KeyCode::L => if shift {
            'L'
        } else {
            'l'
        },
        KeyCode::M => if shift {
            'M'
        } else {
            'm'
        },
        KeyCode::N => if shift {
            'N'
        } else {
            'n'
        },
        KeyCode::O => if shift {
            'O'
        } else {
            'o'
        },
        KeyCode::P => if shift {
            'P'
        } else {
            'p'
        },
        KeyCode::Q => if shift {
            'Q'
        } else {
            'q'
        },
        KeyCode::R => if shift {
            'R'
        } else {
            'r'
        },
        KeyCode::S => if shift {
            'S'
        } else {
            's'
        },
        KeyCode::T => if shift {
            'T'
        } else {
            't'
        },
        KeyCode::U => if shift {
            'U'
        } else {
            'u'
        },
        KeyCode::V => if shift {
            'V'
        } else {
            'v'
        },
        KeyCode::W => if shift {
            'W'
        } else {
            'w'
        },
        KeyCode::X => if shift {
            'X'
        } else {
            'x'
        },
        KeyCode::Y => if shift {
            'Y'
        } else {
            'y'
        },
        KeyCode::Z => if shift {
            'Z'
        } else {
            'z'
        },
        KeyCode::Row1 => if shift {
            '!'
        } else {
            '1'
        },
        KeyCode::Row2 => if shift {
            '@'
        } else {
            '2'
        },
        KeyCode::Row3 => if shift {
            '#'
        } else {
            '3'
        },
        KeyCode::Row4 => if shift {
            '$'
        } else {
            '4'
        },
        KeyCode::Row5 => if shift {
            '%'
        } else {
            '5'
        },
        KeyCode::Row6 => if shift {
            '^'
        } else {
            '6'
        },
        KeyCode::Row7 => if shift {
            '&'
        } else {
            '7'
        },
        KeyCode::Row8 => if shift {
            '*'
        } else {
            '8'
        },
        KeyCode::Row9 => if shift {
            '('
        } else {
            '9'
        },
        KeyCode::Row0 => if shift {
            ')'
        } else {
            '0'
        },
        KeyCode::Grave => if shift {
            '~'
        } else {
            '`'
        },
        KeyCode::Minus => if shift {
            '_'
        } else {
            '-'
        },
        KeyCode::Equals => if shift {
            '+'
        } else {
            '='
        },
        KeyCode::LeftBracket => if shift {
            '{'
        } else {
            '['
        },
        KeyCode::RightBracket => if shift {
            '}'
        } else {
            ']'
        },
        KeyCode::Backslash => if shift {
            '|'
        } else {
            '\\'
        },
        KeyCode::Semicolon => if shift {
            ':'
        } else {
            ';'
        },
        KeyCode::Apostrophe => if shift {
            '"'
        } else {
            '\''
        },
        KeyCode::Comma => if shift {
            '<'
        } else {
            ','
        },
        KeyCode::Period => if shift {
            '>'
        } else {
            '.'
        },
        KeyCode::Slash => if shift {
            '?'
        } else {
            '/'
        },
        KeyCode::Space => ' ',
        KeyCode::NumDivide => '/',
        KeyCode::NumMultiply => '*',
        KeyCode::NumMinus => '-',
        KeyCode::NumPlus => '+',
        KeyCode::NumPeriod => '.',
        KeyCode::Num1 => '1',
        KeyCode::Num2 => '2',
        KeyCode::Num3 => '3',
        KeyCode::Num4 => '4',
        KeyCode::Num5 => '5',
        KeyCode::Num6 => '6',
        KeyCode::Num7 => '7',
        KeyCode::Num8 => '8',
        KeyCode::Num9 => '9',
        KeyCode::Num0 => '0',
        _ => {
            // Every other code is ruled out by the precondition.
            proof {
                assert(false);
            }
            ' '
        },
    }
}

/// The user-interface key for a function, editing or navigation key.
pub fn blt_keycode_to_key(kc: KeyCode) -> (k: Key)
    requires
        is_function_key(kc),
    ensures
        function_key(kc) == Some(k),
{
    match kc {
        KeyCode::F1 => Key::F1,
        KeyCode::F2 => Key::F2,
        KeyCode::F3 => Key::F3,
        KeyCode::F4 => Key::F4,
        KeyCode::F5 => Key::F5,
        KeyCode::F6 => Key::F6,
        KeyCode::F7 => Key::F7,
        KeyCode::F8 => Key::F8,
        KeyCode::F9 => Key::F9,
        KeyCode::F10 => Key::F10,
        KeyCode::F11 => Key::F11,
        KeyCode::F12 => Key::F12,
        KeyCode::NumEnter => Key::Enter,
        KeyCode::Enter => Key::Enter,
        KeyCode::Escape => Key::Esc,
        KeyCode::Backspace => Key::Backspace,
        KeyCode::Tab => Key::Tab,
        KeyCode::Pause => Key::PauseBreak,
        KeyCode::Insert => Key::Ins,
        KeyCode::Home => Key::Home,
        KeyCode::PageUp => Key::PageUp,
        KeyCode::Delete => Key::Del,
        KeyCode::End => Key::End,
        KeyCode::PageDown => Key::PageDown,
        KeyCode::Right => Key::Right,
        KeyCode::Left => Key::Left,
        KeyCode::Down => Key::Down,
        KeyCode::Up => Key::Up,
        _ => {
            // Every other code is ruled out by the precondition.
            proof {
                assert(false);
            }
            Key::Esc
        },
    }
}

/// The mouse button for a mouse code, if it is one of the first three.
pub fn blt_keycode_to_mouse_button(kc: KeyCode) -> (b: Option<MouseButton>)
    ensures
        b == mouse_button_of(kc),
{
    match kc {
        KeyCode::MouseLeft => Some(MouseButton::Left),
        KeyCode::MouseRight => Some(MouseButton::Right),
        KeyCode::MouseMiddle => Some(MouseButton::Middle),
        _ => None,
    }
}

/// Every code falls in exactly one of three classes: keys that type a
/// character, function, editing and navigation keys, and mouse buttons.
pub proof fn lemma_key_classes_partition(kc: KeyCode)
    ensures
        is_char_key(kc) || is_function_key(kc) || is_mouse_key(kc),
        !(is_char_key(kc) && is_function_key(kc)),
        !(is_char_key(kc) && is_mouse_key(kc)),
        !(is_function_key(kc) && is_mouse_key(kc)),
        mouse_button_of(kc) is Some ==> is_mouse_key(kc),
{
}

/// On a letter key, Shift types the upper-case form of the letter typed
/// without it.
pub proof fn lemma_shift_upper_cases_letters(kc: KeyCode)
    requires
        is_char_key(kc),
        'a' as int <= key_char(kc, false) as int <= 'z' as int,
    ensures
        key_char(kc, true) as int == key_char(kc, false) as int - 32,
{
}


/// The letter keys type the letters of the alphabet in order, in lower case
/// without Shift (upper case with it, by `lemma_shift_upper_cases_letters`).
pub proof fn lemma_letter_keys()
    ensures
        key_char(KeyCode::A, false) == 'a',
        key_char(KeyCode::B, false) == 'b',
        key_char(KeyCode::C, false) == 'c',
        key_char(KeyCode::D, false) == 'd',
        key_char(KeyCode::E, false) == 'e',
        key_char(KeyCode::F, false) == 'f',
        key_char(KeyCode::G, false) == 'g',
        key_char(KeyCode::H, false) == 'h',
        key_char(KeyCode::I, false) == 'i',
        key_char(KeyCode::J, false) == 'j',
        key_char(KeyCode::K, false) == 'k',
        key_char(KeyCode::L, false) == 'l',
        key_char(KeyCode::M, false) == 'm',
        key_char(KeyCode::N, false) == 'n',
        key_char(KeyCode::O, false) == 'o',
        key_char(KeyCode::P, false) == 'p',
        key_char(KeyCode::Q, false) == 'q',
        key_char(KeyCode::R, false) == 'r',
        key_char(KeyCode::S, false) == 's',
        key_char(KeyCode::T, false) == 't',
        key_char(KeyCode::U, false) == 'u',
        key_char(KeyCode::V, false) == 'v',
        key_char(KeyCode::W, false) == 'w',
        key_char(KeyCode::X, false) == 'x',
        key_char(KeyCode::Y, false) == 'y',
        key_char(KeyCode::Z, false) == 'z',
{
}

/// The top-row and punctuation keys type the characters printed on them on a
/// US keyboard: the lower one without Shift and the upper one with it.
pub proof fn lemma_main_block_symbols()
    ensures
        key_char(KeyCode::Row1, false) == '1',
        key_char(KeyCode::Row1, true) == '!',
        key_char(KeyCode::Row2, false) == '2',
        key_char(KeyCode::Row2, true) == '@',
        key_char(KeyCode::Row3, false) == '3',
        key_char(KeyCode::Row3, true) == '#',
        key_char(KeyCode::Row4, false) == '4',
        key_char(KeyCode::Row4, true) == '$',
        key_char(KeyCode::Row5, false) == '5',
        key_char(KeyCode::Row5, true) == '%',
        key_char(KeyCode::Row6, false) == '6',
        key_char(KeyCode::Row6, true) == '^',
        key_char(KeyCode::Row7, false) == '7',
        key_char(KeyCode::Row7, true) == '&',
        key_char(KeyCode::Row8, false) == '8',
        key_char(KeyCode::Row8, true) == '*',
        key_char(KeyCode::Row9, false) == '9',
        key_char(KeyCode::Row9, true) == '(',
        key_char(KeyCode::Row0, false) == '0',
        key_char(KeyCode::Row0, true) == ')',
        key_char(KeyCode::Grave, false) == '`',
        key_char(KeyCode::Grave, true) == '~',
        key_char(KeyCode::Minus, false) == '-',
        key_char(KeyCode::Minus, true) == '_',
        key_char(KeyCode::Equals, false) == '=',
        key_char(KeyCode::Equals, true) == '+',
        key_char(KeyCode::LeftBracket, false) == '[',
        key_char(KeyCode::LeftBracket, true) == '{',
        key_char(KeyCode::RightBracket, false) == ']',
        key_char(KeyCode::RightBracket, true) == '}',
        key_char(KeyCode::Backslash, false) == '\\',
        key_char(KeyCode::Backslash, true) == '|',
        key_char(KeyCode::Semicolon, false) == ';',
        key_char(KeyCode::Semicolon, true) == ':',
        key_char(KeyCode::Apostrophe, false) == '\'',
        key_char(KeyCode::Apostrophe, true) == '"',
        key_char(KeyCode::Comma, false) == ',',
        key_char(KeyCode::Comma, true) == '<',
        key_char(KeyCode::Period, false) == '.',
        key_char(KeyCode::Period, true) == '>',
        key_char(KeyCode::Slash, false) == '/',
        key_char(KeyCode::Slash, true) == '?',
{
}

/// Each keypad digit key types its own digit, with or without Shift: the same
/// digit as the top-row key of that number. Space and the keypad operators
/// ignore Shift too.
pub proof fn lemma_keypad_keys(shift: bool)
    ensures
        key_char(KeyCode::Num0, shift) == key_char(KeyCode::Row0, false),
        key_char(KeyCode::Num1, shift) == key_char(KeyCode::Row1, false),
        key_char(KeyCode::Num2, shift) == key_char(KeyCode::Row2, false),
        key_char(KeyCode::Num3, shift) == key_char(KeyCode::Row3, false),
        key_char(KeyCode::Num4, shift) == key_char(KeyCode::Row4, false),
        key_char(KeyCode::Num5, shift) == key_char(KeyCode::Row5, false),
        key_char(KeyCode::Num6, shift) == key_char(KeyCode::Row6, false),
        key_char(KeyCode::Num7, shift) == key_char(KeyCode::Row7, false),
        key_char(KeyCode::Num8, shift) == key_char(KeyCode::Row8, false),
        key_char(KeyCode::Num9, shift) == key_char(KeyCode::Row9, false),
        key_char(KeyCode::Space, shift) == ' ',
        key_char(KeyCode::NumDivide, shift) == '/',
        key_char(KeyCode::NumMultiply, shift) == '*',
        key_char(KeyCode::NumMinus, shift) == '-',
        key_char(KeyCode::NumPlus, shift) == '+',
        key_char(KeyCode::NumPeriod, shift) == '.',
{
}

/// The function keys map in order onto `F1`..`F12`, and each editing and
/// navigation key onto the key of the same meaning; both Enter keys give
/// `Enter`.
pub proof fn lemma_function_keys()
    ensures
        function_key(KeyCode::F1) == Some(Key::F1),
        function_key(KeyCode::F2) == Some(Key::F2),
        function_key(KeyCode::F3) == Some(Key::F3),
        function_key(KeyCode::F4) == Some(Key::F4),
        function_key(KeyCode::F5) == Some(Key::F5),
        function_key(KeyCode::F6) == Some(Key::F6),
        function_key(KeyCode::F7) == Some(Key::F7),
        function_key(KeyCode::F8) == Some(Key::F8),
        function_key(KeyCode::F9) == Some(Key::F9),
        function_key(KeyCode::F10) == Some(Key::F10),
        function_key(KeyCode::F11) == Some(Key::F11),
        function_key(KeyCode::F12) == Some(Key::F12),
        function_key(KeyCode::NumEnter) == Some(Key::Enter),
        function_key(KeyCode::Enter) == Some(Key::Enter),
        function_key(KeyCode::Escape) == Some(Key::Esc),
        function_key(KeyCode::Backspace) == Some(Key::Backspace),
        function_key(KeyCode::Tab) == Some(Key::Tab),
        function_key(KeyCode::Pause) == Some(Key::PauseBreak),
        function_key(KeyCode::Insert) == Some(Key::Ins),
        function_key(KeyCode::Home) == Some(Key::Home),
        function_key(KeyCode::PageUp) == Some(Key::PageUp),
        function_key(KeyCode::Delete) == Some(Key::Del),
        function_key(KeyCode::End) == Some(Key::End),
        function_key(KeyCode::PageDown) == Some(Key::PageDown),
        function_key(KeyCode::Right) == Some(Key::Right),
        function_key(KeyCode::Left) == Some(Key::Left),
        function_key(KeyCode::Down) == Some(Key::Down),
        function_key(KeyCode::Up) == Some(Key::Up),
{
}

/// The three mouse codes with a button give that button; the fourth and fifth
/// buttons have none.
pub proof fn lemma_mouse_codes()
    ensures
        mouse_button_of(KeyCode::MouseLeft) == Some(MouseButton::Left),
        mouse_button_of(KeyCode::MouseRight) == Some(MouseButton::Right),
        mouse_button_of(KeyCode::MouseMiddle) == Some(MouseButton::Middle),
        mouse_button_of(KeyCode::MouseFourth) is None,
        mouse_button_of(KeyCode::MouseFifth) is None,
        is_mouse_key(KeyCode::MouseFourth) && is_mouse_key(KeyCode::MouseFifth),
{
}

} // verus!
