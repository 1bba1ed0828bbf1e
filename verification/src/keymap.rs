//! Translation of native key codes and mouse-button codes into the
//! normalized vocabulary.

use vstd::prelude::*;

use crate::event::Key;
use crate::event::MouseButton;

verus! {

/// The native key code a window reports for the escape key.
pub const KEY_CODE_ESCAPE: i32 = 256;

/// The key-code table: each native key code of the windowing library, as its
/// C headers fix them, paired with its normalized key. Codes outside the
/// table (the apostrophe and world keys, the twenty-fifth function key, and
/// every code no keyboard reports) map to `Unknown`.
pub open spec fn map_key(code: i32) -> Key {
    match code {
        32 => Key::Space,
        44 => Key::Comma,
        45 => Key::Minus,
        46 => Key::Period,
        47 => Key::Slash,
        48 => Key::D0,
        49 => Key::D1,
        50 => Key::D2,
        51 => Key::D3,
        52 => Key::D4,
        53 => Key::D5,
        54 => Key::D6,
        55 => Key::D7,
        56 => Key::D8,
        57 => Key::D9,
        59 => Key::Semicolon,
        61 => Key::Equals,
        65 => Key::A,
        66 => Key::B,
        67 => Key::C,
        68 => Key::D,
        69 => Key::E,
        70 => Key::F,
        71 => Key::G,
        72 => Key::H,
        73 => Key::I,
        74 => Key::J,
        75 => Key::K,
        76 => Key::L,
        77 => Key::M,
        78 => Key::N,
        79 => Key::O,
        80 => Key::P,
        81 => Key::Q,
        82 => Key::R,
        83 => Key::S,
        84 => Key::T,
        85 => Key::U,
        86 => Key::V,
        87 => Key::W,
        88 => Key::X,
        89 => Key::Y,
        90 => Key::Z,
        91 => Key::LeftBracket,
        92 => Key::Backslash,
        93 => Key::RightBracket,
        96 => Key::Backquote,
        256 => Key::Escape,
        257 => Key::Return,
        258 => Key::Tab,
        259 => Key::Backspace,
        260 => Key::Insert,
        261 => Key::Delete,
        262 => Key::Right,
        263 => Key::Left,
        264 => Key::Down,
        265 => Key::Up,
        266 => Key::PageUp,
        267 => Key::PageDown,
        268 => Key::Home,
        269 => Key::End,
        280 => Key::CapsLock,
        281 => Key::ScrollLock,
        282 => Key::NumLockClear,
        283 => Key::PrintScreen,
        284 => Key::Pause,
        290 => Key::F1,
        291 => Key::F2,
        292 => Key::F3,
        293 => Key::F4,
        294 => Key::F5,
        295 => Key::F6,
        296 => Key::F7,
        297 => Key::F8,
        298 => Key::F9,
        299 => Key::F10,
        300 => Key::F11,
        301 => Key::F12,
        302 => Key::F13,
        303 => Key::F14,
        304 => Key::F15,
        305 => Key::F16,
        306 => Key::F17,
        307 => Key::F18,
        308 => Key::F19,
        309 => Key::F20,
        310 => Key::F21,
        311 => Key::F22,
        312 => Key::F23,
        313 => Key::F24,
        320 => Key::NumPad0,
        321 => Key::NumPad1,
        322 => Key::NumPad2,
        323 => Key::NumPad3,
        324 => Key::NumPad4,
        325 => Key::NumPad5,
        326 => Key::NumPad6,
        327 => Key::NumPad7,
        328 => Key::NumPad8,
        329 => Key::NumPad9,
        330 => Key::NumPadDecimal,
        331 => Key::NumPadDivide,
        332 => Key::NumPadMultiply,
        333 => Key::NumPadMinus,
        334 => Key::NumPadPlus,
        335 => Key::NumPadEnter,
        336 => Key::NumPadEquals,
        340 => Key::LShift,
        341 => Key::LCtrl,
        342 => Key::LAlt,
        343 => Key::LGui,
        344 => Key::RShift,
        345 => Key::RCtrl,
        346 => Key::RAlt,
        347 => Key::RGui,
        348 => Key::Menu,
        _ => Key::Unknown,
    }
}

/// Translates a native key code into a normalized key.
pub fn glfw_map_key(code: i32) -> (k: Key)
    ensures
        k == map_key(code),
{
    match code {
        32 => Key::Space,
        44 => Key::Comma,
        45 => Key::Minus,
        46 => Key::Period,
        47 => Key::Slash,
        48 => Key::D0,
        49 => Key::D1,
        50 => Key::D2,
        51 => Key::D3,
        52 => Key::D4,
        53 => Key::D5,
        54 => Key::D6,
        55 => Key::D7,
        56 => Key::D8,
        57 => Key::D9,
        59 => Key::Semicolon,
        61 => Key::Equals,
        65 => Key::A,
        66 => Key::B,
        67 => Key::C,
        68 => Key::D,
        69 => Key::E,
        70 => Key::F,
        71 => Key::G,
        72 => Key::H,
        73 => Key::I,
        74 => Key::J,
        75 => Key::K,
        76 => Key::L,
        77 => Key::M,
        78 => Key::N,
        79 => Key::O,
        80 => Key::P,
        81 => Key::Q,
        82 => Key::R,
        83 => Key::S,
        84 => Key::T,
        85 => Key::U,
        86 => Key::V,
        87 => Key::W,
        88 => Key::X,
        89 => Key::Y,
        90 => Key::Z,
        91 => Key::LeftBracket,
        92 => Key::Backslash,
        93 => Key::RightBracket,
        96 => Key::Backquote,
        256 => Key::Escape,
        257 => Key::Return,
        258 => Key::Tab,
        259 => Key::Backspace,
        260 => Key::Insert,
        261 => Key::Delete,
        262 => Key::Right,
        263 => Key::Left,
        264 => Key::Down,
        265 => Key::Up,
        266 => Key::PageUp,
        267 => Key::PageDown,
        268 => Key::Home,
        269 => Key::End,
        280 => Key::CapsLock,
        281 => Key::ScrollLock,
        282 => Key::NumLockClear,
        283 => Key::PrintScreen,
        284 => Key::Pause,
        290 => Key::F1,
        291 => Key::F2,
        292 => Key::F3,
        293 => Key::F4,
        294 => Key::F5,
        295 => Key::F6,
        296 => Key::F7,
        297 => Key::F8,
        298 => Key::F9,
        299 => Key::F10,
        300 => Key::F11,
        301 => Key::F12,
        302 => Key::F13,
        303 => Key::F14,
        304 => Key::F15,
        305 => Key::F16,
        306 => Key::F17,
        307 => Key::F18,
        308 => Key::F19,
        309 => Key::F20,
        310 => Key::F21,
        311 => Key::F22,
        312 => Key::F23,
        313 => Key::F24,
        320 => Key::NumPad0,
        321 => Key::NumPad1,
        322 => Key::NumPad2,
        323 => Key::NumPad3,
        324 => Key::NumPad4,
        325 => Key::NumPad5,
        326 => Key::NumPad6,
        327 => Key::NumPad7,
        328 => Key::NumPad8,
        329 => Key::NumPad9,
        330 => Key::NumPadDecimal,
        331 => Key::NumPadDivide,
        332 => Key::NumPadMultiply,
        333 => Key::NumPadMinus,
        334 => Key::NumPadPlus,
        335 => Key::NumPadEnter,
        336 => Key::NumPadEquals,
        340 => Key::LShift,
        341 => Key::LCtrl,
        342 => Key::LAlt,
        343 => Key::LGui,
        344 => Key::RShift,
        345 => Key::RCtrl,
        346 => Key::RAlt,
        347 => Key::RGui,
        348 => Key::Menu,
        _ => Key::Unknown,
    }
}

/// The mouse-button table: native buttons are numbered from zero.
pub open spec fn map_mouse(code: i32) -> MouseButton {
    if code == 0 {
        MouseButton::Left
    } else if code == 1 {
        MouseButton::Right
    } else if code == 2 {
        MouseButton::Middle
    } else if code == 3 {
        MouseButton::X1
    } else if code == 4 {
        MouseButton::X2
    } else if code == 5 {
        MouseButton::Button6
    } else if code == 6 {
        MouseButton::Button7
    } else if code == 7 {
        MouseButton::Button8
    } else {
        MouseButton::Unknown
    }
}

/// Translates a native mouse-button code into a normalized mouse button.
pub fn glfw_map_mouse(code: i32) -> (b: MouseButton)
    ensures
        b == map_mouse(code),
{
    match code {
        0 => MouseButton::Left,
        1 => MouseButton::Right,
        2 => MouseButton::Middle,
        3 => MouseButton::X1,
        4 => MouseButton::X2,
        5 => MouseButton::Button6,
        6 => MouseButton::Button7,
        7 => MouseButton::Button8,
        _ => MouseButton::Unknown,
    }
}

} // verus!
