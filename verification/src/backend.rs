use std::collections::HashSet;
use vstd::prelude::*;
use crate::event::{Event, Key, MouseButton, MouseEvent};
use crate::geometry::Vec2;
use crate::keymap::{
    blt_keycode_to_char, blt_keycode_to_key, blt_keycode_to_mouse_button, function_key,
    is_char_key, is_function_key, is_mouse_key, key_char, mouse_button_of,
};
use crate::terminal::{BltEvent, KeyCode};

verus! {

broadcast use vstd::std_specs::hash::group_hash_axioms;

/// The number under which a mouse button is kept in the set of held buttons.
pub open spec fn button_code(b: MouseButton) -> u8 {
    match b {
        MouseButton::Left => 0,
        MouseButton::Middle => 1,
        MouseButton::Right => 2,
        MouseButton::Button4 => 3,
        MouseButton::Button5 => 4,
        MouseButton::Other => 5,
    }
}

proof fn lemma_button_code_injective(a: MouseButton, b: MouseButton)
    ensures
        button_code(a) == button_code(b) ==> a == b,
{
}

fn code_of_button(b: MouseButton) -> (c: u8)
    ensures
        c == button_code(b),
{
    match b {
        MouseButton::Left => 0,
        MouseButton::Middle => 1,
        MouseButton::Right => 2,
        MouseButton::Button4 => 3,
        MouseButton::Button5 => 4,
        MouseButton::Other => 5,
    }
}

fn button_of_code(c: u8) -> (b: MouseButton)
    requires
        c < 3,
    ensures
        button_code(b) == c,
{
    if c == 0 {
        MouseButton::Left
    } else if c == 1 {
        MouseButton::Middle
    } else {
        MouseButton::Right
    }
}

/// A mouse event at a position, with no offset.
pub open spec fn mouse_event_at(event: MouseEvent, position: Vec2) -> Event {
    Event::Mouse { offset: Vec2 { x: 0, y: 0 }, position, event }
}

/// The event for a function, editing or navigation key with the given
/// modifiers held.
pub open spec fn modified_key_event(key: Key, shift: bool, ctrl: bool) -> Event {
    if shift && ctrl {
        Event::CtrlShift(key)
    } else if shift {
        Event::Shift(key)
    } else if ctrl {
        Event::Ctrl(key)
    } else {
        Event::Key(key)
    }
}

/// The event for a key that types a character.
pub open spec fn char_event(kc: KeyCode, shift: bool, ctrl: bool) -> Event {
    if ctrl {
        Event::CtrlChar(key_char(kc, shift))
    } else {
        Event::Char(key_char(kc, shift))
    }
}

/// The input state of the terminal backend: which mouse buttons are held and
/// where the mouse was last seen.
pub struct Backend {
    buttons_pressed: HashSet<u8>,
    mouse_position: Vec2,
}

impl Backend {
    /// The mouse buttons currently held.
    pub closed spec fn pressed(&self) -> Set<MouseButton> {
        Set::new(|b: MouseButton| self.buttons_pressed@.contains(button_code(b)))
    }

    /// The cell where the mouse was last seen.
    pub closed spec fn position(&self) -> Vec2 {
        self.mouse_position
    }

    /// Only the left, middle and right buttons are ever recorded as held.
    pub closed spec fn well_formed(&self) -> bool {
        forall|c: u8| self.buttons_pressed@.contains(c) ==> c < 3
    }

    /// A backend with no button held and the mouse at the origin.
    pub fn init() -> (b: Backend)
        ensures
            b.well_formed(),
            b.pressed() == Set::<MouseButton>::empty(),
            b.position() == (Vec2 { x: 0, y: 0 }),
    {
        let b = Backend { buttons_pressed: HashSet::new(), mouse_position: Vec2::zero() };
        assert(b.pressed() =~= Set::<MouseButton>::empty());
        b
    }

    fn mouse_event(&self, event: MouseEvent) -> (e: Event)
        ensures
            e == mouse_event_at(event, self.position()),
    {
        Event::Mouse { event, position: self.mouse_position, offset: Vec2::zero() }
    }

    fn press(&mut self, b: MouseButton)
        requires
            old(self).well_formed(),
            b == MouseButton::Left || b == MouseButton::Middle || b == MouseButton::Right,
        ensures
            final(self).well_formed(),
            final(self).pressed() == old(self).pressed().insert(b),
            final(self).position() == old(self).position(),
    {
        let code = code_of_button(b);
        self.buttons_pressed.insert(code);
        proof {
            assert forall|x: MouseButton| #[trigger] final(self).pressed().contains(x)
                == old(self).pressed().insert(b).contains(x) by {
                lemma_button_code_injective(x, b);
            }
            assert(final(self).pressed() =~= old(self).pressed().insert(b));
        }
    }

    fn release(&mut self, b: MouseButton)
        requires
            old(self).well_formed(),
        ensures
            final(self).well_formed(),
            final(self).pressed() == old(self).pressed().remove(b),
            final(self).position() == old(self).position(),
    {
        let code = code_of_button(b);
        self.buttons_pressed.remove(&code);
        proof {
            assert forall|x: MouseButton| #[trigger] final(self).pressed().contains(x)
                == old(self).pressed().remove(b).contains(x) by {
                lemma_button_code_injective(x, b);
            }
            assert(final(self).pressed() =~= old(self).pressed().remove(b));
        }
    }
}

impl Backend {
    /// The event for a key or mouse button going down with the given
    /// modifiers; a mouse button going down is recorded as held.
    pub fn blt_keycode_to_ev(&mut self, kc: KeyCode, shift: bool, ctrl: bool) -> (e: Event)
        requires
            old(self).well_formed(),
        ensures
            final(self).well_formed(),
            final(self).position() == old(self).position(),
            is_function_key(kc) ==> e == modified_key_event(function_key(kc)->0, shift, ctrl)
                && final(self).pressed() == old(self).pressed(),
            is_char_key(kc) ==> e == char_event(kc, shift, ctrl) && final(self).pressed()
                == old(self).pressed(),
            is_mouse_key(kc) ==> match mouse_button_of(kc) {
                Some(b) => e == mouse_event_at(MouseEvent::Press(b), old(self).position())
                    && final(self).pressed() == old(self).pressed().insert(b),
                None => e matches Event::Unknown(bytes) && bytes@.len() == 0 && final(self).pressed()
                    == old(self).pressed(),
            },
            is_char_key(kc) && ctrl ==> e == Event::CtrlChar(key_char(kc, shift)),
            is_char_key(kc) && !ctrl ==> e == Event::Char(key_char(kc, shift)),
            is_function_key(kc) && ctrl && shift ==> e == Event::CtrlShift(function_key(kc)->0),
            is_function_key(kc) && ctrl && !shift ==> e == Event::Ctrl(function_key(kc)->0),
            is_function_key(kc) && !ctrl && shift ==> e == Event::Shift(function_key(kc)->0),
            is_function_key(kc) && !ctrl && !shift ==> e == Event::Key(function_key(kc)->0),
    {
        match kc {
            KeyCode::F1
            | KeyCode::F2
            | KeyCode::F3
            | KeyCode::F4
            | KeyCode::F5
            | KeyCode::F6
            | KeyCode::F7
            | KeyCode::F8
            | KeyCode::F9
            | KeyCode::F10
            | KeyCode::F11
            | KeyCode::F12
            | KeyCode::NumEnter
            | KeyCode::Enter
            | KeyCode::Escape
            | KeyCode::Backspace
            | KeyCode::Tab
            | KeyCode::Pause
            | KeyCode::Insert
            | KeyCode::Home
            | KeyCode::PageUp
            | KeyCode::Delete
            | KeyCode::End
            | KeyCode::PageDown
            | KeyCode::Right
            | KeyCode::Left
            | KeyCode::Down
            | KeyCode::Up => {
                let key = blt_keycode_to_key(kc);
                if shift && ctrl {
                    Event::CtrlShift(key)
                } else if shift {
                    Event::Shift(key)
                } else if ctrl {
                    Event::Ctrl(key)
                } else {
                    Event::Key(key)
                }
            },
            KeyCode::MouseLeft
            | KeyCode::MouseRight
            | KeyCode::MouseMiddle
            | KeyCode::MouseFourth
            | KeyCode::MouseFifth => match blt_keycode_to_mouse_button(kc) {
                Some(btn) => {
                    self.press(btn);
                    self.mouse_event(MouseEvent::Press(btn))
                },
                None => Event::Unknown(Vec::new()),
            },
            KeyCode::A
            | KeyCode::B
            | KeyCode::C
            | KeyCode::D
            | KeyCode::E
            | KeyCode::F
            | KeyCode::G
            | KeyCode::H
            | KeyCode::I
            | KeyCode::J
            | KeyCode::K
            | KeyCode::L
            | KeyCode::M
            | KeyCode::N
            | KeyCode::O
            | KeyCode::P
            | KeyCode::Q
            | KeyCode::R
            | KeyCode::S
            | KeyCode::T
            | KeyCode::U
            | KeyCode::V
            | KeyCode::W
            | KeyCode::X
            | KeyCode::Y
            | KeyCode::Z
            | KeyCode::Row1
            | KeyCode::Row2
            | KeyCode::Row3
            | KeyCode::Row4
            | KeyCode::Row5
            | KeyCode::Row6
            | KeyCode::Row7
            | KeyCode::Row8
            | KeyCode::Row9
            | KeyCode::Row0
            | KeyCode::Grave
            | KeyCode::Minus
            | KeyCode::Equals
            | KeyCode::LeftBracket
            | KeyCode::RightBracket
            | KeyCode::Backslash
            | KeyCode::Semicolon
            | KeyCode::Apostrophe
            | KeyCode::Comma
            | KeyCode::Period
            | KeyCode::Slash
            | KeyCode::Space
            | KeyCode::NumDivide
            | KeyCode::NumMultiply
            | KeyCode::NumMinus
            | KeyCode::NumPlus
            | KeyCode::NumPeriod
            | KeyCode::Num1
            | KeyCode::Num2
            | KeyCode::Num3
            | KeyCode::Num4
            | KeyCode::Num5
            | KeyCode::Num6
            | KeyCode::Num7
            | KeyCode::Num8
            | KeyCode::Num9
            | KeyCode::Num0 => if ctrl {
                Event::CtrlChar(blt_keycode_to_char(kc, shift))
            } else {
                Event::Char(blt_keycode_to_char(kc, shift))
            },
        }
    }
}

/// How one terminal event is translated, and how it changes the backend's
/// state from `before` to `after`.
pub open spec fn translates(before: Backend, after: Backend, ev: BltEvent, e: Event) -> bool {
    match ev {
        BltEvent::MouseMove { x, y } => {
            &&& after.position() == (Vec2 { x: x as usize, y: y as usize })
            &&& after.pressed() == before.pressed()
            &&& if before.pressed().is_empty() {
                e == Event::Refresh
            } else {
                exists|b: MouseButton|
                    #[trigger] before.pressed().contains(b) && e == mouse_event_at(
                        MouseEvent::Hold(b),
                        after.position(),
                    )
            }
        },
        BltEvent::KeyPressed { key, ctrl, shift } => {
            &&& after.position() == before.position()
            &&& is_function_key(key) ==> e == modified_key_event(function_key(key)->0, shift, ctrl)
                && after.pressed() == before.pressed()
            &&& is_char_key(key) ==> e == char_event(key, shift, ctrl) && after.pressed()
                == before.pressed()
            &&& is_mouse_key(key) ==> match mouse_button_of(key) {
                Some(b) => e == mouse_event_at(MouseEvent::Press(b), before.position())
                    && after.pressed() == before.pressed().insert(b),
                None => e matches Event::Unknown(bytes) && bytes@.len() == 0 && after.pressed()
                    == before.pressed(),
            }
        },
        BltEvent::KeyReleased { key, .. } => {
            &&& after.position() == before.position()
            &&& match mouse_button_of(key) {
                Some(b) => e == mouse_event_at(MouseEvent::Release(b), before.position())
                    && after.pressed() == before.pressed().remove(b),
                None => e matches Event::Unknown(bytes) && bytes@.len() == 0 && after.pressed()
                    == before.pressed(),
            }
        },
        _ => {
            &&& after.pressed() == before.pressed()
            &&& after.position() == before.position()
            &&& e == match ev {
                BltEvent::Close => Event::Exit,
                BltEvent::Resize { .. } => Event::WindowResize,
                BltEvent::MouseScroll { delta } => mouse_event_at(
                    if delta < 0 {
                        MouseEvent::WheelUp
                    } else {
                        MouseEvent::WheelDown
                    },
                    before.position(),
                ),
                _ => Event::Refresh,
            }
        },
    }
}

impl Backend {
    /// Translates one event read from the terminal, if there was one, and
    /// records what it says about the mouse.
    pub fn parse_next(&mut self, ev: Option<BltEvent>) -> (e: Option<Event>)
        requires
            old(self).well_formed(),
        ensures
            final(self).well_formed(),
            match ev {
                None => e is None && final(self).pressed() == old(self).pressed()
                    && final(self).position() == old(self).position(),
                Some(input) => e matches Some(output) && translates(
                    *old(self),
                    *final(self),
                    input,
                    output,
                ),
            },
            ev matches Some(BltEvent::KeyPressed { key, ctrl, shift }) ==> {
                &&& is_char_key(key) && ctrl ==> e == Some(Event::CtrlChar(key_char(key, shift)))
                &&& is_char_key(key) && !ctrl ==> e == Some(Event::Char(key_char(key, shift)))
                &&& is_function_key(key) && ctrl && shift ==> e == Some(
                    Event::CtrlShift(function_key(key)->0),
                )
                &&& is_function_key(key) && ctrl && !shift ==> e == Some(
                    Event::Ctrl(function_key(key)->0),
                )
                &&& is_function_key(key) && !ctrl && shift ==> e == Some(
                    Event::Shift(function_key(key)->0),
                )
                &&& is_function_key(key) && !ctrl && !shift ==> e == Some(
                    Event::Key(function_key(key)->0),
                )
            },
    {
        match ev {
            None => None,
            Some(ev) => Some(self.translate(ev)),
        }
    }

    fn held_button_event(&self) -> (e: Event)
        requires
            self.well_formed(),
        ensures
            if self.pressed().is_empty() {
                e == Event::Refresh
            } else {
                exists|b: MouseButton|
                    #[trigger] self.pressed().contains(b) && e == mouse_event_at(
                        MouseEvent::Hold(b),
                        self.position(),
                    )
            },
    {
        for code in it: self.buttons_pressed.iter()
            invariant
                self.well_formed(),
                it.index() == 0,
                it.seq().unref().to_set() == self.buttons_pressed@,
        {
            assert(it.seq().unref().to_set().contains(*code));
            let btn = button_of_code(*code);
            assert(self.pressed().contains(btn));
            return self.mouse_event(MouseEvent::Hold(btn));
        }
        proof {
            assert forall|b: MouseButton| !#[trigger] self.pressed().contains(b) by {
                assert(!self.buttons_pressed@.contains(button_code(b)));
            }
            assert(self.pressed() =~= Set::<MouseButton>::empty());
        }
        Event::Refresh
    }

    fn translate(&mut self, ev: BltEvent) -> (e: Event)
        requires
            old(self).well_formed(),
        ensures
            final(self).well_formed(),
            translates(*old(self), *final(self), ev, e),
    {
        match ev {
            BltEvent::Close => Event::Exit,
            BltEvent::Resize { .. } => Event::WindowResize,
            BltEvent::MouseMove { x, y } => {
                self.mouse_position = Vec2::from_i32_pair(x, y);
                self.held_button_event()
            },
            BltEvent::MouseScroll { delta } => self.mouse_event(
                if delta < 0 {
                    MouseEvent::WheelUp
                } else {
                    MouseEvent::WheelDown
                },
            ),
            BltEvent::KeyPressed { key, ctrl, shift } => self.blt_keycode_to_ev(key, shift, ctrl),
            BltEvent::ShiftPressed => Event::Refresh,
            BltEvent::ControlPressed => Event::Refresh,
            BltEvent::AltPressed => Event::Refresh,
            BltEvent::KeyReleased { key, .. } => match blt_keycode_to_mouse_button(key) {
                Some(btn) => {
                    self.release(btn);
                    self.mouse_event(MouseEvent::Release(btn))
                },
                None => Event::Unknown(Vec::new()),
            },
            BltEvent::ShiftReleased | BltEvent::ControlReleased | BltEvent::AltReleased => {
                Event::Refresh
            },
        }
    }
}

/// Only the left, middle and right buttons are ever recorded as held: the
/// other mouse codes that the terminal reports have no button.
pub proof fn lemma_held_buttons_are_known(b: Backend)
    requires
        b.well_formed(),
    ensures
        forall|x: MouseButton| #[trigger]
            b.pressed().contains(x) ==> x == MouseButton::Left || x == MouseButton::Middle || x
                == MouseButton::Right,
{
    assert forall|x: MouseButton| #[trigger] b.pressed().contains(x) implies x == MouseButton::Left
        || x == MouseButton::Middle || x == MouseButton::Right by {
        assert(b.buttons_pressed@.contains(button_code(x)));
    }
}

/// Releasing a mouse button undoes pressing it: a press followed by the
/// release of the same button leaves the held buttons and the mouse position
/// as they were, and both events carry the button and that position.
pub proof fn lemma_release_undoes_press(
    s0: Backend,
    s1: Backend,
    s2: Backend,
    kc: KeyCode,
    press_ctrl: bool,
    press_shift: bool,
    release_ctrl: bool,
    release_shift: bool,
    e1: Event,
    e2: Event,
)
    requires
        mouse_button_of(kc) is Some,
        !s0.pressed().contains(mouse_button_of(kc)->0),
        translates(s0, s1, BltEvent::KeyPressed { key: kc, ctrl: press_ctrl, shift: press_shift }, e1),
        translates(
            s1,
            s2,
            BltEvent::KeyReleased { key: kc, ctrl: release_ctrl, shift: release_shift },
            e2,
        ),
    ensures
        s2.pressed() == s0.pressed(),
        s2.position() == s0.position(),
        e1 == mouse_event_at(MouseEvent::Press(mouse_button_of(kc)->0), s0.position()),
        e2 == mouse_event_at(MouseEvent::Release(mouse_button_of(kc)->0), s0.position()),
{
    crate::keymap::lemma_key_classes_partition(kc);
    let b = mouse_button_of(kc)->0;
    assert(s0.pressed().insert(b).remove(b) =~= s0.pressed());
}

/// A mouse button pressed right after the mouse moved to `(x, y)` is reported
/// at `(x, y)`.
pub proof fn lemma_press_reported_where_mouse_was_seen(
    s0: Backend,
    s1: Backend,
    s2: Backend,
    x: i32,
    y: i32,
    kc: KeyCode,
    ctrl: bool,
    shift: bool,
    e1: Event,
    e2: Event,
)
    requires
        mouse_button_of(kc) is Some,
        translates(s0, s1, BltEvent::MouseMove { x, y }, e1),
        translates(s1, s2, BltEvent::KeyPressed { key: kc, ctrl, shift }, e2),
    ensures
        e2 == mouse_event_at(
            MouseEvent::Press(mouse_button_of(kc)->0),
            Vec2 { x: x as usize, y: y as usize },
        ),
        s2.pressed().contains(mouse_button_of(kc)->0),
{
    crate::keymap::lemma_key_classes_partition(kc);
}


/// What each kind of terminal event becomes. Window events become `Exit` and
/// `WindowResize`; a key press gives the event of its key with the modifiers
/// of the press (Ctrl kept); the wheel turned away from the user is `WheelUp`
/// and towards the user `WheelDown`; a mouse button going down or up gives a
/// press or release of that button where the mouse was last seen, and updates
/// the held buttons; the mouse moving goes to its new cell and reports a held
/// button there, or a refresh when none is held; a lone modifier key gives a
/// refresh and changes nothing. Every mouse event has a zero offset.
pub proof fn lemma_translation(before: Backend, after: Backend, ev: BltEvent, e: Event)
    requires
        translates(before, after, ev, e),
    ensures
        ev == BltEvent::Close ==> e == Event::Exit,
        ev is Resize ==> e == Event::WindowResize,
        ev matches BltEvent::KeyPressed { key, ctrl, shift } ==> {
            &&& is_char_key(key) && ctrl ==> e == Event::CtrlChar(key_char(key, shift))
            &&& is_char_key(key) && !ctrl ==> e == Event::Char(key_char(key, shift))
            &&& is_function_key(key) && ctrl && shift ==> e == Event::CtrlShift(function_key(key)->0)
            &&& is_function_key(key) && ctrl && !shift ==> e == Event::Ctrl(function_key(key)->0)
            &&& is_function_key(key) && !ctrl && shift ==> e == Event::Shift(function_key(key)->0)
            &&& is_function_key(key) && !ctrl && !shift ==> e == Event::Key(function_key(key)->0)
            &&& mouse_button_of(key) matches Some(b) ==> e == (Event::Mouse {
                offset: Vec2 { x: 0, y: 0 },
                position: before.position(),
                event: MouseEvent::Press(b),
            }) && after.pressed().contains(b) && forall|x: MouseButton|
                x != b ==> (#[trigger] after.pressed().contains(x) == before.pressed().contains(x))
            &&& !is_mouse_key(key) ==> after.pressed() == before.pressed()
            &&& after.position() == before.position()
            &&& is_mouse_key(key) && mouse_button_of(key) is None ==> (e matches Event::Unknown(
                bytes,
            ) && bytes@.len() == 0 && after.pressed() == before.pressed())
        },
        ev matches BltEvent::KeyReleased { key, .. } ==> (mouse_button_of(key) matches Some(b) ==> e
            == (Event::Mouse {
            offset: Vec2 { x: 0, y: 0 },
            position: before.position(),
            event: MouseEvent::Release(b),
        }) && !after.pressed().contains(b) && forall|x: MouseButton|
            x != b ==> (#[trigger] after.pressed().contains(x) == before.pressed().contains(x))),
        ev matches BltEvent::KeyReleased { key, .. } ==> (mouse_button_of(key) is None ==> (e matches Event::Unknown(
            bytes,
        ) && bytes@.len() == 0 && after.pressed() == before.pressed())),
        ev matches BltEvent::MouseScroll { delta } ==> e == (Event::Mouse {
            offset: Vec2 { x: 0, y: 0 },
            position: before.position(),
            event: if delta < 0 {
                MouseEvent::WheelUp
            } else {
                MouseEvent::WheelDown
            },
        }),
        ev matches BltEvent::MouseMove { x, y } ==> {
            &&& after.position() == (Vec2 { x: x as usize, y: y as usize })
            &&& (e == Event::Refresh <==> before.pressed().is_empty())
            &&& e matches Event::Mouse { event, position, .. } ==> position == after.position() && (
            event matches MouseEvent::Hold(b) && before.pressed().contains(b))
        },
        ev == BltEvent::ShiftPressed || ev == BltEvent::ShiftReleased || ev == BltEvent::ControlPressed
            || ev == BltEvent::ControlReleased || ev == BltEvent::AltPressed || ev
            == BltEvent::AltReleased ==> e == Event::Refresh && after.pressed() == before.pressed()
            && after.position() == before.position(),
        e matches Event::Mouse { offset, .. } ==> offset == (Vec2 { x: 0, y: 0 }),
{
    match ev {
        BltEvent::KeyPressed { key, .. } => {
            crate::keymap::lemma_key_classes_partition(key);
        },
        BltEvent::KeyReleased { key, .. } => {
            crate::keymap::lemma_key_classes_partition(key);
        },
        _ => {},
    }
}

} // verus!
