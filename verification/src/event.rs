//! The normalized input-event model and the raw native-event model.
//!
//! Coordinates, scroll offsets, controller axis positions and the axis
//! deadzone are integers in fixed-point units chosen by the embedder; the
//! library never rescales them, so any consistent choice works.

use vstd::prelude::*;

verus! {

/// A keyboard key in the normalized event vocabulary.
///
/// The variants are exactly the image of the native key-code table
/// (`glfw_map_key`); every native code outside the table maps to `Unknown`.
#[derive(Clone, Copy, PartialEq, Eq, Debug)]
pub enum Key {
    Unknown,
    Backquote,
    Backslash,
    Backspace,
    CapsLock,
    Comma,
    D0,
    D1,
    D2,
    D3,
    D4,
    D5,
    D6,
    D7,
    D8,
    D9,
    Delete,
    Down,
    End,
    Equals,
    Escape,
    F1,
    F2,
    F3,
    F4,
    F5,
    F6,
    F7,
    F8,
    F9,
    F10,
    F11,
    F12,
    F13,
    F14,
    F15,
    F16,
    F17,
    F18,
    F19,
    F20,
    F21,
    F22,
    F23,
    F24,
    Home,
    Insert,
    LAlt,
    LCtrl,
    LGui,
    LShift,
    Left,
    LeftBracket,
    Menu,
    Minus,
    NumLockClear,
    NumPad0,
    NumPad1,
    NumPad2,
    NumPad3,
    NumPad4,
    NumPad5,
    NumPad6,
    NumPad7,
    NumPad8,
    NumPad9,
    NumPadDecimal,
    NumPadDivide,
    NumPadEnter,
    NumPadEquals,
    NumPadMinus,
    NumPadMultiply,
    NumPadPlus,
    PageDown,
    PageUp,
    Pause,
    Period,
    PrintScreen,
    RAlt,
    RCtrl,
    RGui,
    RShift,
    Return,
    Right,
    RightBracket,
    ScrollLock,
    Semicolon,
    Slash,
    Space,
    Tab,
    Up,
    A,
    B,
    C,
    D,
    E,
    F,
    G,
    H,
    I,
    J,
    K,
    L,
    M,
    N,
    O,
    P,
    Q,
    R,
    S,
    T,
    U,
    V,
    W,
    X,
    Y,
    Z,
}

/// A mouse button in the normalized event vocabulary.
#[derive(Clone, Copy, PartialEq, Eq, Debug)]
pub enum MouseButton {
    Unknown,
    Left,
    Right,
    Middle,
    X1,
    X2,
    Button6,
    Button7,
    Button8,
}

/// Whether a button went down or up.
#[derive(Clone, Copy, PartialEq, Eq, Debug)]
pub enum ButtonState {
    Press,
    Release,
}

/// The source of a button event.
#[derive(Clone, Copy, PartialEq, Eq, Debug)]
pub enum Button {
    Keyboard(Key),
    Mouse(MouseButton),
    Controller { id: u32, button: u8 },
}

/// A button transition, with the native scancode where the source has one.
#[derive(Clone, Copy, PartialEq, Eq, Debug)]
pub struct ButtonArgs {
    pub state: ButtonState,
    pub button: Button,
    pub scancode: Option<i32>,
}

/// A motion event: cursor position, derived relative motion, scroll, or a
/// controller axis change.
#[derive(Clone, Copy, PartialEq, Eq, Debug)]
pub enum Motion {
    MouseCursor { x: i32, y: i32 },
    MouseRelative { dx: i64, dy: i64 },
    MouseScroll { dx: i64, dy: i64 },
    ControllerAxis { id: u32, axis: u8, position: i32 },
}

/// A normalized input event, as the embedding engine consumes it.
#[derive(Clone, PartialEq, Eq, Debug)]
pub enum Input {
    Button(ButtonArgs),
    Move(Motion),
    Text(char),
    Resize { width: i32, height: i32, draw_width: i32, draw_height: i32 },
    Focus(bool),
    Cursor(bool),
    Close,
    FileDrag(String),
}

/// What the native library reports a key or mouse button did.
#[derive(Clone, Copy, PartialEq, Eq, Debug)]
pub enum RawAction {
    Press,
    Release,
    Repeat,
}

/// A raw native window event, reduced to plain values.
///
/// `Size` carries the framebuffer size alongside the window size, since the
/// normalized resize event reports both. `Other` stands for every native
/// event the back-end ignores.
#[derive(Clone, PartialEq, Eq, Debug)]
pub enum RawEvent {
    Key { key: i32, scancode: i32, action: RawAction },
    Char { ch: char },
    MouseButton { button: i32, action: RawAction },
    CursorPos { x: i32, y: i32 },
    Scroll { dx: i64, dy: i64 },
    Size { width: i32, height: i32, draw_width: i32, draw_height: i32 },
    Close,
    Focus { focus: bool },
    CursorEnter { enter: bool },
    FileDrop { files: Vec<String> },
    Other,
}

} // verus!
