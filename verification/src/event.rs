//! The event model: hardware input variants, the per-event consumption flag,
//! and the application-level logic events emitted by interactive nodes.

use vstd::prelude::*;

use crate::geom::{muldiv, sat64, tdiv, Vec2};

verus! {

/// A pointer button.
#[derive(Clone, Copy, PartialEq, Eq, Structural, Debug)]
pub enum MouseButton {
    Primary,
    Secondary,
    Terciary,
}

/// A key on the keyboard.
#[derive(Clone, Copy, PartialEq, Eq, Structural, Debug)]
pub enum Key {
    Key1,
    Key2,
    Key3,
    Key4,
    Key5,
    Key6,
    Key7,
    Key8,
    Key9,
    Key0,
    A,
    B,
    C,
    D,
    E,
    F,
    G,
    H,
    I,
    J,
    K,
    L,
    M,
    N,
    O,
    P,
    Q,
    R,
    S,
    T,
    U,
    V,
    W,
    X,
    Y,
    Z,
    Escape,
    F1,
    F2,
    F3,
    F4,
    F5,
    F6,
    F7,
    F8,
    F9,
    F10,
    F11,
    F12,
    F13,
    F14,
    F15,
    F16,
    F17,
    F18,
    F19,
    F20,
    F21,
    F22,
    F23,
    F24,
    Pause,
    Insert,
    Home,
    Delete,
    End,
    PageDown,
    PageUp,
    Left,
    Up,
    Right,
    Down,
    Back,
    Return,
    Space,
    Numlock,
    Numpad0,
    Numpad1,
    Numpad2,
    Numpad3,
    Numpad4,
    Numpad5,
    Numpad6,
    Numpad7,
    Numpad8,
    Numpad9,
    NumpadAdd,
    NumpadDivide,
    NumpadDecimal,
    NumpadComma,
    NumpadEnter,
    NumpadEquals,
    NumpadMultiply,
    NumpadSubtract,
    LAlt,
    LControl,
    LShift,
    RAlt,
    RControl,
    RShift,
    Tab,
}

impl Key {
    /// A short human-readable caption for the key.
    pub fn label(&self) -> &'static str {
        match self {
            Key::Key1 => "1",
            Key::Key2 => "2",
            Key::Key3 => "3",
            Key::Key4 => "4",
            Key::Key5 => "5",
            Key::Key6 => "6",
            Key::Key7 => "7",
            Key::Key8 => "8",
            Key::Key9 => "9",
            Key::Key0 => "0",
            Key::A => "A",
            Key::B => "B",
            Key::C => "C",
            Key::D => "D",
            Key::E => "E",
            Key::F => "F",
            Key::G => "G",
            Key::H => "H",
            Key::I => "I",
            Key::J => "J",
            Key::K => "K",
            Key::L => "L",
            Key::M => "M",
            Key::N => "N",
            Key::O => "O",
            Key::P => "P",
            Key::Q => "Q",
            Key::R => "R",
            Key::S => "S",
            Key::T => "T",
            Key::U => "U",
            Key::V => "V",
            Key::W => "W",
            Key::X => "X",
            Key::Y => "Y",
            Key::Z => "Z",
            Key::Escape => "ESC",
            Key::F1 => "F1",
            Key::F2 => "F2",
            Key::F3 => "F3",
            Key::F4 => "F4",
            Key::F5 => "F5",
            Key::F6 => "F6",
            Key::F7 => "F7",
            Key::F8 => "F8",
            Key::F9 => "F9",
            Key::F10 => "F10",
            Key::F11 => "F11",
            Key::F12 => "F12",
            Key::F13 => "F13",
            Key::F14 => "F14",
            Key::F15 => "F15",
            Key::F16 => "F16",
            Key::F17 => "F17",
            Key::F18 => "F18",
            Key::F19 => "F19",
            Key::F20 => "F20",
            Key::F21 => "F21",
            Key::F22 => "F22",
            Key::F23 => "F23",
            Key::F24 => "F24",
            Key::Pause => "Pause",
            Key::Insert => "INS",
            Key::Home => "Home",
            Key::Delete => "DEL",
            Key::End => "End",
            Key::PageUp => "PageUp",
            Key::PageDown => "PageDown",
            Key::Left => "Left",
            Key::Up => "Up",
            Key::Right => "Right",
            Key::Down => "Down",
            Key::Back => "Back",
            Key::Return => "Return",
            Key::Space => "Space",
            Key::Numlock => "Num",
            Key::Numpad0 => "Num0",
            Key::Numpad1 => "Num1",
            Key::Numpad2 => "Num2",
            Key::Numpad3 => "Num3",
            Key::Numpad4 => "Num4",
            Key::Numpad5 => "Num5",
            Key::Numpad6 => "Num6",
            Key::Numpad7 => "Num7",
            Key::Numpad8 => "Num8",
            Key::Numpad9 => "Num9",
            Key::NumpadAdd => "Num+",
            Key::NumpadDivide => "Num/",
            Key::NumpadDecimal => "Num.",
            Key::NumpadComma => "Num,",
            Key::NumpadEnter => "NumEnter",
            Key::NumpadEquals => "Num=",
            Key::NumpadMultiply => "Num*",
            Key::NumpadSubtract => "Num-",
            Key::LAlt => "LAlt",
            Key::LControl => "LCtrl",
            Key::LShift => "LShift",
            Key::RAlt => "RAlt",
            Key::RControl => "RCtrl",
            Key::RShift => "RShift",
            Key::Tab => "Tab",
        }
    }
}

/// One raw input event, with positions and deltas in milli-units.
#[derive(Clone, Copy, PartialEq, Eq, Structural, Debug)]
pub enum HardwareEvent {
    RawMouseDelta(Vec2),
    PointerMoved { pos: Vec2, delta: Vec2 },
    PointerClicked { pos: Vec2, button: MouseButton, pressed: bool },
    PointerGone,
    CloseWindow,
    Scroll { pos: Vec2, delta: Vec2 },
    Key { key: Key, pressed: bool },
    Char(char),
}

impl HardwareEvent {
    /// The event with its position-bearing and delta-bearing fields
    /// multiplied by `num` and divided by `den`; every other variant is
    /// left untouched.
    pub open spec fn spec_scaled(self, num: i64, den: i64) -> HardwareEvent {
        match self {
            HardwareEvent::PointerMoved { pos, delta } => HardwareEvent::PointerMoved {
                pos: Vec2 {
                    x: sat64(tdiv(pos.x as int * num as int, den as int)),
                    y: sat64(tdiv(pos.y as int * num as int, den as int)),
                },
                delta: Vec2 {
                    x: sat64(tdiv(delta.x as int * num as int, den as int)),
                    y: sat64(tdiv(delta.y as int * num as int, den as int)),
                },
            },
            HardwareEvent::PointerClicked { pos, button, pressed } => {
                HardwareEvent::PointerClicked {
                    pos: Vec2 {
                        x: sat64(tdiv(pos.x as int * num as int, den as int)),
                        y: sat64(tdiv(pos.y as int * num as int, den as int)),
                    },
                    button,
                    pressed,
                }
            },
            _ => self,
        }
    }

    /// The event shifted by `offset`: only the positions of pointer motion
    /// and pointer button variants move, with wrapping addition.
    pub open spec fn spec_offset(self, offset: Vec2) -> HardwareEvent {
        match self {
            HardwareEvent::PointerMoved { pos, delta } => HardwareEvent::PointerMoved {
                pos: pos.spec_plus(offset),
                delta,
            },
            HardwareEvent::PointerClicked { pos, button, pressed } => {
                HardwareEvent::PointerClicked { pos: pos.spec_plus(offset), button, pressed }
            },
            _ => self,
        }
    }

    pub fn scale(&mut self, num: i64, den: i64)
        requires
            0 < den,
        ensures
            *final(self) == old(self).spec_scaled(num, den),
    {
        match self {
            HardwareEvent::PointerMoved { pos, delta } => {
                pos.x = muldiv(pos.x, num, den);
                pos.y = muldiv(pos.y, num, den);
                delta.x = muldiv(delta.x, num, den);
                delta.y = muldiv(delta.y, num, den);
            },
            HardwareEvent::PointerClicked { pos, .. } => {
                pos.x = muldiv(pos.x, num, den);
                pos.y = muldiv(pos.y, num, den);
            },
            _ => {},
        }
    }

    pub fn offset(&mut self, offset: Vec2)
        ensures
            *final(self) == old(self).spec_offset(offset),
    {
        match self {
            HardwareEvent::PointerMoved { pos, .. } => {
                *pos = pos.plus(offset);
            },
            HardwareEvent::PointerClicked { pos, .. } => {
                *pos = pos.plus(offset);
            },
            _ => {},
        }
    }
}

/// Offsetting by a vector and then by its wrapping negation restores the
/// event exactly, whichever variant it is.
pub proof fn lemma_offset_roundtrip(e: HardwareEvent, o: Vec2)
    ensures
        e.spec_offset(o.spec_wneg()).spec_offset(o) == e,
        e.spec_offset(o).spec_offset(o.spec_wneg()) == e,
{
    match e {
        HardwareEvent::PointerMoved { pos, .. } => {
            crate::geom::lemma_plus_wneg_cancels(pos, o);
        },
        HardwareEvent::PointerClicked { pos, .. } => {
            crate::geom::lemma_plus_wneg_cancels(pos, o);
        },
        _ => {},
    }
}

/// One hardware event together with its consumption flag, fresh per incoming
/// event per frame. The flag is only ever raised during a dispatch pass:
/// whoever finds it raised leaves the event alone.
#[derive(Clone, Copy, PartialEq, Eq, Structural, Debug)]
pub struct EventPod {
    pub event: HardwareEvent,
    pub used: bool,
}

impl EventPod {
    pub fn new(event: HardwareEvent) -> (r: EventPod)
        ensures
            r == (EventPod { event, used: false }),
    {
        EventPod { event, used: false }
    }
}

/// An application-level event derived from interaction, carrying the tag the
/// application attached to the interactive node.
#[derive(Clone, Copy, PartialEq, Eq, Structural, Debug)]
pub enum LogicEvent<E> {
    Clicked(E, MouseButton),
    Pressed(E, Key, bool),
}

/// One entry of the per-frame output sequence: either a dispatched hardware
/// event with its final consumption flag, or a derived logic event.
#[derive(Clone, Copy, PartialEq, Eq, Structural, Debug)]
pub enum Event<E> {
    Hardware(EventPod),
    Logic(LogicEvent<E>),
}

} // verus!
