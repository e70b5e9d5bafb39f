//! Logical keyboard keys, and the table from the native library's key codes
//! to them.

use vstd::prelude::*;

verus! {

/// The native code of the Escape key.
pub const NATIVE_KEY_ESCAPE: i32 = 256;

/// A key as the framework sees it, independent of the native code space.
#[derive(Clone, Copy, Debug, PartialEq, Eq, Structural)]
pub enum Key {
    Unknown,
    Space,
    Comma,
    Minus,
    Period,
    Slash,
    D0,
    D1,
    D2,
    D3,
    D4,
    D5,
    D6,
    D7,
    D8,
    D9,
    Semicolon,
    Equals,
    A,
    B,
    C,
    D,
    E,
    F,
    G,
    H,
    I,
    J,
    K,
    L,
    M,
    N,
    O,
    P,
    Q,
    R,
    S,
    T,
    U,
    V,
    W,
    X,
    Y,
    Z,
    LeftBracket,
    Backslash,
    RightBracket,
    Escape,
    Return,
    Tab,
    Backspace,
    Insert,
    Delete,
    Right,
    Left,
    Down,
    Up,
    PageUp,
    PageDown,
    Home,
    End,
    CapsLock,
    ScrollLock,
    NumLockClear,
    PrintScreen,
    Pause,
    F1,
    F2,
    F3,
    F4,
    F5,
    F6,
    F7,
    F8,
    F9,
    F10,
    F11,
    F12,
    F13,
    F14,
    F15,
    F16,
    F17,
    F18,
    F19,
    F20,
    F21,
    F22,
    F23,
    F24,
    NumPad0,
    NumPad1,
    NumPad2,
    NumPad3,
    NumPad4,
    NumPad5,
    NumPad6,
    NumPad7,
    NumPad8,
    NumPad9,
    NumPadDecimal,
    NumPadDivide,
    NumPadMultiply,
    NumPadMinus,
    NumPadPlus,
    NumPadEnter,
    NumPadEquals,
    LShift,
    LCtrl,
    LAlt,
    LGui,
    RShift,
    RCtrl,
    RAlt,
    RGui,
    Menu,
}

/// The logical key of a native key code. Codes that have no portable
/// logical counterpart (apostrophe, grave accent, the two world keys, F25),
/// and codes the table does not know, give `Key::Unknown`.
pub open spec fn key_of(code: i32) -> Key {
    match code {
        32 => Key::Space,
        44 => Key::Comma,
        45 => Key::Minus,
        46 => Key::Period,
        47 => Key::Slash,
        48 => Key::D0,
        49 => Key::D1,
        50 => Key::D2,
        51 => Key::D3,
        52 => Key::D4,
        53 => Key::D5,
        54 => Key::D6,
        55 => Key::D7,
        56 => Key::D8,
        57 => Key::D9,
        59 => Key::Semicolon,
        61 => Key::Equals,
        65 => Key::A,
        66 => Key::B,
        67 => Key::C,
        68 => Key::D,
        69 => Key::E,
        70 => Key::F,
        71 => Key::G,
        72 => Key::H,
        73 => Key::I,
        74 => Key::J,
        75 => Key::K,
        76 => Key::L,
        77 => Key::M,
        78 => Key::N,
        79 => Key::O,
        80 => Key::P,
        81 => Key::Q,
        82 => Key::R,
        83 => Key::S,
        84 => Key::T,
        85 => Key::U,
        86 => Key::V,
        87 => Key::W,
        88 => Key::X,
        89 => Key::Y,
        90 => Key::Z,
        91 => Key::LeftBracket,
        92 => Key::Backslash,
        93 => Key::RightBracket,
        256 => Key::Escape,
        257 => Key::Return,
        258 => Key::Tab,
        259 => Key::Backspace,
        260 => Key::Insert,
        261 => Key::Delete,
        262 => Key::Right,
        263 => Key::Left,
        264 => Key::Down,
        265 => Key::Up,
        266 => Key::PageUp,
        267 => Key::PageDown,
        268 => Key::Home,
        269 => Key::End,
        280 => Key::CapsLock,
        281 => Key::ScrollLock,
        282 => Key::NumLockClear,
        283 => Key::PrintScreen,
        284 => Key::Pause,
        290 => Key::F1,
        291 => Key::F2,
        292 => Key::F3,
        293 => Key::F4,
        294 => Key::F5,
        295 => Key::F6,
        296 => Key::F7,
        297 => Key::F8,
        298 => Key::F9,
        299 => Key::F10,
        300 => Key::F11,
        301 => Key::F12,
        302 => Key::F13,
        303 => Key::F14,
        304 => Key::F15,
        305 => Key::F16,
        306 => Key::F17,
        307 => Key::F18,
        308 => Key::F19,
        309 => Key::F20,
        310 => Key::F21,
        311 => Key::F22,
        312 => Key::F23,
        313 => Key::F24,
        320 => Key::NumPad0,
        321 => Key::NumPad1,
        322 => Key::NumPad2,
        323 => Key::NumPad3,
        324 => Key::NumPad4,
        325 => Key::NumPad5,
        326 => Key::NumPad6,
        327 => Key::NumPad7,
        328 => Key::NumPad8,
        329 => Key::NumPad9,
        330 => Key::NumPadDecimal,
        331 => Key::NumPadDivide,
        332 => Key::NumPadMultiply,
        333 => Key::NumPadMinus,
        334 => Key::NumPadPlus,
        335 => Key::NumPadEnter,
        336 => Key::NumPadEquals,
        340 => Key::LShift,
        341 => Key::LCtrl,
        342 => Key::LAlt,
        343 => Key::LGui,
        344 => Key::RShift,
        345 => Key::RCtrl,
        346 => Key::RAlt,
        347 => Key::RGui,
        348 => Key::Menu,
        _ => Key::Unknown,
    }
}

/// Maps a native key code to its logical key. Defined for every code.
pub fn map_key(code: i32) -> (r: Key)
    ensures
        r == key_of(code),
{
    match code {
        32 => Key::Space,
        44 => Key::Comma,
        45 => Key::Minus,
        46 => Key::Period,
        47 => Key::Slash,
        48 => Key::D0,
        49 => Key::D1,
        50 => Key::D2,
        51 => Key::D3,
        52 => Key::D4,
        53 => Key::D5,
        54 => Key::D6,
        55 => Key::D7,
        56 => Key::D8,
        57 => Key::D9,
        59 => Key::Semicolon,
        61 => Key::Equals,
        65 => Key::A,
        66 => Key::B,
        67 => Key::C,
        68 => Key::D,
        69 => Key::E,
        70 => Key::F,
        71 => Key::G,
        72 => Key::H,
        73 => Key::I,
        74 => Key::J,
        75 => Key::K,
        76 => Key::L,
        77 => Key::M,
        78 => Key::N,
        79 => Key::O,
        80 => Key::P,
        81 => Key::Q,
        82 => Key::R,
        83 => Key::S,
        84 => Key::T,
        85 => Key::U,
        86 => Key::V,
        87 => Key::W,
        88 => Key::X,
        89 => Key::Y,
        90 => Key::Z,
        91 => Key::LeftBracket,
        92 => Key::Backslash,
        93 => Key::RightBracket,
        256 => Key::Escape,
        257 => Key::Return,
        258 => Key::Tab,
        259 => Key::Backspace,
        260 => Key::Insert,
        261 => Key::Delete,
        262 => Key::Right,
        263 => Key::Left,
        264 => Key::Down,
        265 => Key::Up,
        266 => Key::PageUp,
        267 => Key::PageDown,
        268 => Key::Home,
        269 => Key::End,
        280 => Key::CapsLock,
        281 => Key::ScrollLock,
        282 => Key::NumLockClear,
        283 => Key::PrintScreen,
        284 => Key::Pause,
        290 => Key::F1,
        291 => Key::F2,
        292 => Key::F3,
        293 => Key::F4,
        294 => Key::F5,
        295 => Key::F6,
        296 => Key::F7,
        297 => Key::F8,
        298 => Key::F9,
        299 => Key::F10,
        300 => Key::F11,
        301 => Key::F12,
        302 => Key::F13,
        303 => Key::F14,
        304 => Key::F15,
        305 => Key::F16,
        306 => Key::F17,
        307 => Key::F18,
        308 => Key::F19,
        309 => Key::F20,
        310 => Key::F21,
        311 => Key::F22,
        312 => Key::F23,
        313 => Key::F24,
        320 => Key::NumPad0,
        321 => Key::NumPad1,
        322 => Key::NumPad2,
        323 => Key::NumPad3,
        324 => Key::NumPad4,
        325 => Key::NumPad5,
        326 => Key::NumPad6,
        327 => Key::NumPad7,
        328 => Key::NumPad8,
        329 => Key::NumPad9,
        330 => Key::NumPadDecimal,
        331 => Key::NumPadDivide,
        332 => Key::NumPadMultiply,
        333 => Key::NumPadMinus,
        334 => Key::NumPadPlus,
        335 => Key::NumPadEnter,
        336 => Key::NumPadEquals,
        340 => Key::LShift,
        341 => Key::LCtrl,
        342 => Key::LAlt,
        343 => Key::LGui,
        344 => Key::RShift,
        345 => Key::RCtrl,
        346 => Key::RAlt,
        347 => Key::RGui,
        348 => Key::Menu,
        _ => Key::Unknown,
    }
}

} // verus!
