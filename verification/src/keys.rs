//! Keyboard and mouse input as plain values.
//!
//! The terminal library delivers its own event types; the shell converts
//! them into these before any decision is made, so every rule about who gets
//! a key can be stated and checked without it.

use vstd::prelude::*;

verus! {

/// Which key was pressed.
#[derive(Debug, Clone, PartialEq, Eq)]
pub enum KeyCode {
    Backspace,
    Enter,
    Left,
    Right,
    Up,
    Down,
    Home,
    End,
    PageUp,
    PageDown,
    Tab,
    BackTab,
    Delete,
    Insert,
    F(u8),
    Char(char),
    Null,
    Esc,
    CapsLock,
    ScrollLock,
    NumLock,
    PrintScreen,
    Pause,
    Menu,
    KeypadBegin,
    /// A media key, by the name the terminal library gives it (`Play`,
    /// `RaiseVolume`, ...).
    Media(String),
    /// A modifier pressed on its own, by name (`LeftShift`, ...).
    Modifier(String),
}

/// Which modifiers were held.
#[derive(Debug, Clone, Copy, PartialEq, Eq)]
pub struct Modifiers {
    pub shift: bool,
    pub control: bool,
    pub alt: bool,
    pub super_key: bool,
    pub hyper: bool,
    pub meta: bool,
}

/// No modifier held.
pub open spec fn no_modifiers() -> Modifiers {
    Modifiers { shift: false, control: false, alt: false, super_key: false, hyper: false, meta: false }
}

impl Modifiers {
    /// No modifier held.
    pub fn none() -> (m: Self)
        ensures
            m == no_modifiers(),
    {
        Modifiers { shift: false, control: false, alt: false, super_key: false, hyper: false, meta: false }
    }

    /// Only Shift held.
    pub fn shift() -> (m: Self)
        ensures
            m.shift && !m.control && !m.alt && !m.super_key && !m.hyper && !m.meta,
    {
        Modifiers { shift: true, ..Modifiers::none() }
    }

    /// Only Ctrl held.
    pub fn control() -> (m: Self)
        ensures
            !m.shift && m.control && !m.alt && !m.super_key && !m.hyper && !m.meta,
    {
        Modifiers { control: true, ..Modifiers::none() }
    }

    /// Only Alt held.
    pub fn alt() -> (m: Self)
        ensures
            !m.shift && !m.control && m.alt && !m.super_key && !m.hyper && !m.meta,
    {
        Modifiers { alt: true, ..Modifiers::none() }
    }
}

/// A key press: the key and the modifiers held with it.
#[derive(Debug, Clone, PartialEq, Eq)]
pub struct KeyPress {
    pub code: KeyCode,
    pub modifiers: Modifiers,
}

impl KeyPress {
    /// A key with no modifier.
    pub fn plain(code: KeyCode) -> (k: Self)
        ensures
            k.code == code,
            k.modifiers == no_modifiers(),
    {
        KeyPress { code, modifiers: Modifiers::none() }
    }

    /// A key with the given modifiers.
    pub fn with(code: KeyCode, modifiers: Modifiers) -> (k: Self)
        ensures
            k.code == code,
            k.modifiers == modifiers,
    {
        KeyPress { code, modifiers }
    }
}

/// A mouse button.
#[derive(Debug, Clone, Copy, PartialEq, Eq)]
pub enum MouseButton {
    Left,
    Right,
    Middle,
}

/// What the mouse did.
#[derive(Debug, Clone, Copy, PartialEq, Eq)]
pub enum MouseKind {
    Down(MouseButton),
    Up(MouseButton),
    Drag(MouseButton),
    Moved,
    ScrollDown,
    ScrollUp,
    ScrollLeft,
    ScrollRight,
}

/// A mouse event at an absolute terminal cell.
#[derive(Debug, Clone, Copy, PartialEq, Eq)]
pub struct MouseEvent {
    pub kind: MouseKind,
    pub column: u16,
    pub row: u16,
    pub modifiers: Modifiers,
}

/// A rectangle of terminal cells.
#[derive(Debug, Clone, Copy, PartialEq, Eq)]
pub struct Area {
    pub x: u16,
    pub y: u16,
    pub width: u16,
    pub height: u16,
}

} // verus!
