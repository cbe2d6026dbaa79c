use blt_backend::backend::Backend;
use blt_backend::event::{Event, Key, MouseButton, MouseEvent};
use blt_backend::geometry::Vec2;
use blt_backend::input::{prepare_input_step, InputAction, InputPoll};
use blt_backend::terminal::{BltEvent, KeyCode};

fn mouse(event: MouseEvent, x: usize, y: usize) -> Event {
    Event::Mouse { offset: Vec2 { x: 0, y: 0 }, position: Vec2 { x, y }, event }
}

fn press(key: KeyCode) -> Option<BltEvent> {
    Some(BltEvent::KeyPressed { key, ctrl: false, shift: false })
}

fn release(key: KeyCode) -> Option<BltEvent> {
    Some(BltEvent::KeyReleased { key, ctrl: false, shift: false })
}

#[test]
fn no_input_gives_no_event() {
    let mut b = Backend::init();
    assert_eq!(b.parse_next(None), None);
}

#[test]
fn window_events() {
    let mut b = Backend::init();
    assert_eq!(b.parse_next(Some(BltEvent::Close)), Some(Event::Exit));
    assert_eq!(
        b.parse_next(Some(BltEvent::Resize { width: 100, height: 40 })),
        Some(Event::WindowResize)
    );
}

#[test]
fn modifier_keys_alone_refresh() {
    let mut b = Backend::init();
    for ev in [
        BltEvent::ShiftPressed,
        BltEvent::ShiftReleased,
        BltEvent::ControlPressed,
        BltEvent::ControlReleased,
        BltEvent::AltPressed,
        BltEvent::AltReleased,
    ] {
        assert_eq!(b.parse_next(Some(ev)), Some(Event::Refresh));
    }
}

#[test]
fn mouse_move_without_buttons_refreshes() {
    let mut b = Backend::init();
    assert_eq!(b.parse_next(Some(BltEvent::MouseMove { x: 3, y: 4 })), Some(Event::Refresh));
    // the new position is used by the next mouse event
    assert_eq!(
        b.parse_next(Some(BltEvent::MouseScroll { delta: -1 })),
        Some(mouse(MouseEvent::WheelUp, 3, 4))
    );
}

#[test]
fn scroll_direction() {
    let mut b = Backend::init();
    assert_eq!(
        b.parse_next(Some(BltEvent::MouseScroll { delta: -3 })),
        Some(mouse(MouseEvent::WheelUp, 0, 0))
    );
    assert_eq!(
        b.parse_next(Some(BltEvent::MouseScroll { delta: 0 })),
        Some(mouse(MouseEvent::WheelDown, 0, 0))
    );
    assert_eq!(
        b.parse_next(Some(BltEvent::MouseScroll { delta: 2 })),
        Some(mouse(MouseEvent::WheelDown, 0, 0))
    );
}

#[test]
fn press_move_release() {
    let mut b = Backend::init();
    b.parse_next(Some(BltEvent::MouseMove { x: 10, y: 2 }));
    assert_eq!(b.parse_next(press(KeyCode::MouseLeft)), Some(mouse(MouseEvent::Press(MouseButton::Left), 10, 2)));
    assert_eq!(
        b.parse_next(Some(BltEvent::MouseMove { x: 11, y: 3 })),
        Some(mouse(MouseEvent::Hold(MouseButton::Left), 11, 3))
    );
    assert_eq!(b.parse_next(release(KeyCode::MouseLeft)), Some(mouse(MouseEvent::Release(MouseButton::Left), 11, 3)));
    // the release undid the press: moving no longer reports a held button
    assert_eq!(b.parse_next(Some(BltEvent::MouseMove { x: 12, y: 3 })), Some(Event::Refresh));
}

#[test]
fn hold_reports_one_of_the_held_buttons() {
    let mut b = Backend::init();
    b.parse_next(press(KeyCode::MouseRight));
    b.parse_next(press(KeyCode::MouseMiddle));
    match b.parse_next(Some(BltEvent::MouseMove { x: 1, y: 1 })) {
        Some(Event::Mouse { event: MouseEvent::Hold(btn), position, offset }) => {
            assert!(btn == MouseButton::Right || btn == MouseButton::Middle);
            assert_eq!(position, Vec2 { x: 1, y: 1 });
            assert_eq!(offset, Vec2 { x: 0, y: 0 });
        }
        other => panic!("unexpected event {:?}", other),
    }
    b.parse_next(release(KeyCode::MouseRight));
    assert_eq!(
        b.parse_next(Some(BltEvent::MouseMove { x: 2, y: 1 })),
        Some(mouse(MouseEvent::Hold(MouseButton::Middle), 2, 1))
    );
}

#[test]
fn extra_mouse_buttons_are_unknown() {
    let mut b = Backend::init();
    assert_eq!(b.parse_next(press(KeyCode::MouseFourth)), Some(Event::Unknown(vec![])));
    assert_eq!(b.parse_next(press(KeyCode::MouseFifth)), Some(Event::Unknown(vec![])));
    assert_eq!(b.parse_next(release(KeyCode::MouseFifth)), Some(Event::Unknown(vec![])));
    assert_eq!(b.parse_next(Some(BltEvent::MouseMove { x: 0, y: 0 })), Some(Event::Refresh));
}

#[test]
fn releasing_a_key_is_unknown() {
    let mut b = Backend::init();
    assert_eq!(b.parse_next(release(KeyCode::A)), Some(Event::Unknown(vec![])));
    assert_eq!(b.parse_next(release(KeyCode::Enter)), Some(Event::Unknown(vec![])));
}

#[test]
fn releasing_an_unpressed_button_still_reports_release() {
    let mut b = Backend::init();
    assert_eq!(b.parse_next(release(KeyCode::MouseMiddle)), Some(mouse(MouseEvent::Release(MouseButton::Middle), 0, 0)));
}

#[test]
fn key_modifiers() {
    let mut b = Backend::init();
    assert_eq!(b.blt_keycode_to_ev(KeyCode::Up, false, false), Event::Key(Key::Up));
    assert_eq!(b.blt_keycode_to_ev(KeyCode::Up, true, false), Event::Shift(Key::Up));
    assert_eq!(b.blt_keycode_to_ev(KeyCode::Up, false, true), Event::Ctrl(Key::Up));
    assert_eq!(b.blt_keycode_to_ev(KeyCode::Up, true, true), Event::CtrlShift(Key::Up));
    assert_eq!(b.blt_keycode_to_ev(KeyCode::F5, false, false), Event::Key(Key::F5));
}

#[test]
fn char_keys_with_ctrl() {
    let mut b = Backend::init();
    assert_eq!(b.blt_keycode_to_ev(KeyCode::C, false, false), Event::Char('c'));
    assert_eq!(b.blt_keycode_to_ev(KeyCode::C, true, false), Event::Char('C'));
    assert_eq!(b.blt_keycode_to_ev(KeyCode::C, false, true), Event::CtrlChar('c'));
    assert_eq!(b.blt_keycode_to_ev(KeyCode::C, true, true), Event::CtrlChar('C'));
    assert_eq!(
        b.parse_next(Some(BltEvent::KeyPressed { key: KeyCode::Row2, ctrl: false, shift: true })),
        Some(Event::Char('@'))
    );
}

#[test]
fn input_step_decisions() {
    assert_eq!(prepare_input_step(InputPoll::TimedOut), InputAction::Deliver(Event::Refresh));
    assert_eq!(prepare_input_step(InputPoll::Polled(None)), InputAction::PollAgain);
    assert_eq!(
        prepare_input_step(InputPoll::Polled(Some(Event::Char('x')))),
        InputAction::Deliver(Event::Char('x'))
    );
}

#[test]
fn negative_coordinates_wrap() {
    let v = Vec2::from_i32_pair(-1, 7);
    assert_eq!(v, Vec2 { x: usize::MAX, y: 7 });
    assert_eq!(Vec2::new(2, 3), Vec2 { x: 2, y: 3 });
    assert_eq!(Vec2::zero(), Vec2 { x: 0, y: 0 });
}
