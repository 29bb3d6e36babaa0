//! The neutral event vocabulary, and the total mapping that takes each
//! native input code to one neutral value.
//!
//! The native windowing toolkit reports keys, mouse buttons and actions as
//! integer codes, and modifier keys as a bit mask. This module fixes the
//! neutral enumerations the rest of the crate speaks of, and translates each
//! native code to exactly one neutral value. Every translation is total: a
//! code outside the native set falls back to a documented neutral value
//! instead of failing.
//!
//! Cursor positions, scroll offsets and window coordinates are carried
//! through unchanged. The toolkit reports cursor and scroll coordinates as
//! IEEE-754 double-precision values; they travel here as their raw 64-bit
//! patterns so that the payload is preserved exactly, and callers reassemble
//! the floating-point value at the boundary.

use vstd::prelude::*;

verus! {

/// What a key or mouse button did: the three neutral action values.
#[derive(Clone, Copy, PartialEq, Eq, Structural, Debug)]
pub enum Action {
    Release,
    Press,
    Repeat,
}

/// The native code of each neutral action.
pub open spec fn action_code(a: Action) -> int {
    match a {
        Action::Release => 0,
        Action::Press => 1,
        Action::Repeat => 2,
    }
}

/// The neutral action denoted by a native action code.
///
/// Codes outside the native set fall back to `Release`.
pub open spec fn action_of_code(code: int) -> Action {
    if code == 1 {
        Action::Press
    } else if code == 2 {
        Action::Repeat
    } else {
        Action::Release
    }
}

impl Action {
    /// Translate a native action code into the neutral action.
    pub fn from_code(code: i32) -> (r: Action)
        ensures
            r == action_of_code(code as int),
    {
        if code == 1 {
            Action::Press
        } else if code == 2 {
            Action::Repeat
        } else {
            Action::Release
        }
    }

    /// The native code this action stands for.
    pub fn code(&self) -> (r: i32)
        ensures
            r as int == action_code(*self),
    {
        match self {
            Action::Release => 0,
            Action::Press => 1,
            Action::Repeat => 2,
        }
    }
}

/// Each native action code maps back to the action it came from, so the
/// three neutral actions are distinct and the mapping is stable.
pub proof fn lemma_action_round_trip(a: Action)
    ensures
        action_of_code(action_code(a)) == a,
{
}

/// Two actions with the same native code are the same action.
pub proof fn lemma_action_code_injective(a: Action, b: Action)
    ensures
        action_code(a) == action_code(b) ==> a == b,
{
}

/// A mouse button of the native toolkit.
#[derive(Clone, Copy, PartialEq, Eq, Structural, Debug)]
pub enum MouseButton {
    Button1,
    Button2,
    Button3,
    Button4,
    Button5,
    Button6,
    Button7,
    Button8,
}

/// The native code of each mouse button.
pub open spec fn button_code(b: MouseButton) -> int {
    match b {
        MouseButton::Button1 => 0,
        MouseButton::Button2 => 1,
        MouseButton::Button3 => 2,
        MouseButton::Button4 => 3,
        MouseButton::Button5 => 4,
        MouseButton::Button6 => 5,
        MouseButton::Button7 => 6,
        MouseButton::Button8 => 7,
    }
}

/// The mouse button denoted by a native button code.
///
/// Codes outside the native set fall back to `Button8`.
pub open spec fn button_of_code(code: int) -> MouseButton {
    if code == 0 {
        MouseButton::Button1
    } else if code == 1 {
        MouseButton::Button2
    } else if code == 2 {
        MouseButton::Button3
    } else if code == 3 {
        MouseButton::Button4
    } else if code == 4 {
        MouseButton::Button5
    } else if code == 5 {
        MouseButton::Button6
    } else if code == 6 {
        MouseButton::Button7
    } else {
        MouseButton::Button8
    }
}

impl MouseButton {
    /// Translate a native button code into the neutral button.
    pub fn from_code(code: i32) -> (r: MouseButton)
        ensures
            r == button_of_code(code as int),
    {
        match code {
            0 => MouseButton::Button1,
            1 => MouseButton::Button2,
            2 => MouseButton::Button3,
            3 => MouseButton::Button4,
            4 => MouseButton::Button5,
            5 => MouseButton::Button6,
            6 => MouseButton::Button7,
            _ => MouseButton::Button8,
        }
    }

    /// The native code this button stands for.
    pub fn code(&self) -> (r: i32)
        ensures
            r as int == button_code(*self),
    {
        match self {
            MouseButton::Button1 => 0,
            MouseButton::Button2 => 1,
            MouseButton::Button3 => 2,
            MouseButton::Button4 => 3,
            MouseButton::Button5 => 4,
            MouseButton::Button6 => 5,
            MouseButton::Button7 => 6,
            MouseButton::Button8 => 7,
        }
    }
}

/// Each native button code maps back to the button it came from.
pub proof fn lemma_button_round_trip(b: MouseButton)
    ensures
        button_of_code(button_code(b)) == b,
{
}

/// The set of modifier keys held during a key or mouse event.
#[derive(Clone, Copy, PartialEq, Eq, Structural, Debug)]
pub struct Modifiers {
    pub shift: bool,
    pub control: bool,
    pub alt: bool,
    pub logo: bool,
    pub caps_lock: bool,
    pub num_lock: bool,
}

/// The modifier set denoted by a native modifier bit mask.
pub open spec fn modifiers_of_bits(bits: u32) -> Modifiers {
    Modifiers {
        shift: bits & 0x0001 != 0,
        control: bits & 0x0002 != 0,
        alt: bits & 0x0004 != 0,
        logo: bits & 0x0008 != 0,
        caps_lock: bits & 0x0010 != 0,
        num_lock: bits & 0x0020 != 0,
    }
}

impl Modifiers {
    /// Decode a native modifier bit mask into the modifier set.
    pub fn from_bits(bits: u32) -> (r: Modifiers)
        ensures
            r == modifiers_of_bits(bits),
    {
        Modifiers {
            shift: bits & 0x0001 != 0,
            control: bits & 0x0002 != 0,
            alt: bits & 0x0004 != 0,
            logo: bits & 0x0008 != 0,
            caps_lock: bits & 0x0010 != 0,
            num_lock: bits & 0x0020 != 0,
        }
    }

    /// The empty modifier set.
    pub fn none() -> (r: Modifiers)
        ensures
            r == modifiers_of_bits(0),
    {
        Modifiers::from_bits(0)
    }
}

/// A key of the native toolkit's closed key set.
///
/// `Unknown` stands for the toolkit's "no name for this key" code and for
/// any code outside the set.
#[derive(Clone, Copy, PartialEq, Eq, Structural, Debug)]
pub enum Key {
    Space,
    Apostrophe,
    Comma,
    Minus,
    Period,
    Slash,
    Num0,
    Num1,
    Num2,
    Num3,
    Num4,
    Num5,
    Num6,
    Num7,
    Num8,
    Num9,
    Semicolon,
    Equal,
    A,
    B,
    C,
    D,
    E,
    F,
    G,
    H,
    I,
    J,
    K,
    L,
    M,
    N,
    O,
    P,
    Q,
    R,
    S,
    T,
    U,
    V,
    W,
    X,
    Y,
    Z,
    LeftBracket,
    Backslash,
    RightBracket,
    GraveAccent,
    World1,
    World2,
    Escape,
    Enter,
    Tab,
    Backspace,
    Insert,
    Delete,
    Right,
    Left,
    Down,
    Up,
    PageUp,
    PageDown,
    Home,
    End,
    CapsLock,
    ScrollLock,
    NumLock,
    PrintScreen,
    Pause,
    F1,
    F2,
    F3,
    F4,
    F5,
    F6,
    F7,
    F8,
    F9,
    F10,
    F11,
    F12,
    F13,
    F14,
    F15,
    F16,
    F17,
    F18,
    F19,
    F20,
    F21,
    F22,
    F23,
    F24,
    F25,
    Kp0,
    Kp1,
    Kp2,
    Kp3,
    Kp4,
    Kp5,
    Kp6,
    Kp7,
    Kp8,
    Kp9,
    KpDecimal,
    KpDivide,
    KpMultiply,
    KpSubtract,
    KpAdd,
    KpEnter,
    KpEqual,
    LeftShift,
    LeftControl,
    LeftAlt,
    LeftSuper,
    RightShift,
    RightControl,
    RightAlt,
    RightSuper,
    Menu,
    Unknown,
}

/// The native code of each key.
pub open spec fn key_code(k: Key) -> int {
    match k {
        Key::Space => 32,
        Key::Apostrophe => 39,
        Key::Comma => 44,
        Key::Minus => 45,
        Key::Period => 46,
        Key::Slash => 47,
        Key::Num0 => 48,
        Key::Num1 => 49,
        Key::Num2 => 50,
        Key::Num3 => 51,
        Key::Num4 => 52,
        Key::Num5 => 53,
        Key::Num6 => 54,
        Key::Num7 => 55,
        Key::Num8 => 56,
        Key::Num9 => 57,
        Key::Semicolon => 59,
        Key::Equal => 61,
        Key::A => 65,
        Key::B => 66,
        Key::C => 67,
        Key::D => 68,
        Key::E => 69,
        Key::F => 70,
        Key::G => 71,
        Key::H => 72,
        Key::I => 73,
        Key::J => 74,
        Key::K => 75,
        Key::L => 76,
        Key::M => 77,
        Key::N => 78,
        Key::O => 79,
        Key::P => 80,
        Key::Q => 81,
        Key::R => 82,
        Key::S => 83,
        Key::T => 84,
        Key::U => 85,
        Key::V => 86,
        Key::W => 87,
        Key::X => 88,
        Key::Y => 89,
        Key::Z => 90,
        Key::LeftBracket => 91,
        Key::Backslash => 92,
        Key::RightBracket => 93,
        Key::GraveAccent => 96,
        Key::World1 => 161,
        Key::World2 => 162,
        Key::Escape => 256,
        Key::Enter => 257,
        Key::Tab => 258,
        Key::Backspace => 259,
        Key::Insert => 260,
        Key::Delete => 261,
        Key::Right => 262,
        Key::Left => 263,
        Key::Down => 264,
        Key::Up => 265,
        Key::PageUp => 266,
        Key::PageDown => 267,
        Key::Home => 268,
        Key::End => 269,
        Key::CapsLock => 280,
        Key::ScrollLock => 281,
        Key::NumLock => 282,
        Key::PrintScreen => 283,
        Key::Pause => 284,
        Key::F1 => 290,
        Key::F2 => 291,
        Key::F3 => 292,
        Key::F4 => 293,
        Key::F5 => 294,
        Key::F6 => 295,
        Key::F7 => 296,
        Key::F8 => 297,
        Key::F9 => 298,
        Key::F10 => 299,
        Key::F11 => 300,
        Key::F12 => 301,
        Key::F13 => 302,
        Key::F14 => 303,
        Key::F15 => 304,
        Key::F16 => 305,
        Key::F17 => 306,
        Key::F18 => 307,
        Key::F19 => 308,
        Key::F20 => 309,
        Key::F21 => 310,
        Key::F22 => 311,
        Key::F23 => 312,
        Key::F24 => 313,
        Key::F25 => 314,
        Key::Kp0 => 320,
        Key::Kp1 => 321,
        Key::Kp2 => 322,
        Key::Kp3 => 323,
        Key::Kp4 => 324,
        Key::Kp5 => 325,
        Key::Kp6 => 326,
        Key::Kp7 => 327,
        Key::Kp8 => 328,
        Key::Kp9 => 329,
        Key::KpDecimal => 330,
        Key::KpDivide => 331,
        Key::KpMultiply => 332,
        Key::KpSubtract => 333,
        Key::KpAdd => 334,
        Key::KpEnter => 335,
        Key::KpEqual => 336,
        Key::LeftShift => 340,
        Key::LeftControl => 341,
        Key::LeftAlt => 342,
        Key::LeftSuper => 343,
        Key::RightShift => 344,
        Key::RightControl => 345,
        Key::RightAlt => 346,
        Key::RightSuper => 347,
        Key::Menu => 348,
        Key::Unknown => -1,
    }
}

/// The key denoted by a native key code.
///
/// Codes outside the native set fall back to `Unknown`, so the mapping is
/// total.
pub open spec fn key_of_code(code: int) -> Key {

    if code == 32 {
        Key::Space
    } else if code == 39 {
        Key::Apostrophe
    } else if code == 44 {
        Key::Comma
    } else if code == 45 {
        Key::Minus
    } else if code == 46 {
        Key::Period
    } else if code == 47 {
        Key::Slash
    } else if code == 48 {
        Key::Num0
    } else if code == 49 {
        Key::Num1
    } else if code == 50 {
        Key::Num2
    } else if code == 51 {
        Key::Num3
    } else if code == 52 {
        Key::Num4
    } else if code == 53 {
        Key::Num5
    } else if code == 54 {
        Key::Num6
    } else if code == 55 {
        Key::Num7
    } else if code == 56 {
        Key::Num8
    } else if code == 57 {
        Key::Num9
    } else if code == 59 {
        Key::Semicolon
    } else if code == 61 {
        Key::Equal
    } else if code == 65 {
        Key::A
    } else if code == 66 {
        Key::B
    } else if code == 67 {
        Key::C
    } else if code == 68 {
        Key::D
    } else if code == 69 {
        Key::E
    } else if code == 70 {
        Key::F
    } else if code == 71 {
        Key::G
    } else if code == 72 {
        Key::H
    } else if code == 73 {
        Key::I
    } else if code == 74 {
        Key::J
    } else if code == 75 {
        Key::K
    } else if code == 76 {
        Key::L
    } else if code == 77 {
        Key::M
    } else if code == 78 {
        Key::N
    } else if code == 79 {
        Key::O
    } else if code == 80 {
        Key::P
    } else if code == 81 {
        Key::Q
    } else if code == 82 {
        Key::R
    } else if code == 83 {
        Key::S
    } else if code == 84 {
        Key::T
    } else if code == 85 {
        Key::U
    } else if code == 86 {
        Key::V
    } else if code == 87 {
        Key::W
    } else if code == 88 {
        Key::X
    } else if code == 89 {
        Key::Y
    } else if code == 90 {
        Key::Z
    } else if code == 91 {
        Key::LeftBracket
    } else if code == 92 {
        Key::Backslash
    } else if code == 93 {
        Key::RightBracket
    } else if code == 96 {
        Key::GraveAccent
    } else if code == 161 {
        Key::World1
    } else if code == 162 {
        Key::World2
    } else if code == 256 {
        Key::Escape
    } else if code == 257 {
        Key::Enter
    } else if code == 258 {
        Key::Tab
    } else if code == 259 {
        Key::Backspace
    } else if code == 260 {
        Key::Insert
    } else if code == 261 {
        Key::Delete
    } else if code == 262 {
        Key::Right
    } else if code == 263 {
        Key::Left
    } else if code == 264 {
        Key::Down
    } else if code == 265 {
        Key::Up
    } else if code == 266 {
        Key::PageUp
    } else if code == 267 {
        Key::PageDown
    } else if code == 268 {
        Key::Home
    } else if code == 269 {
        Key::End
    } else if code == 280 {
        Key::CapsLock
    } else if code == 281 {
        Key::ScrollLock
    } else if code == 282 {
        Key::NumLock
    } else if code == 283 {
        Key::PrintScreen
    } else if code == 284 {
        Key::Pause
    } else if code == 290 {
        Key::F1
    } else if code == 291 {
        Key::F2
    } else if code == 292 {
        Key::F3
    } else if code == 293 {
        Key::F4
    } else if code == 294 {
        Key::F5
    } else if code == 295 {
        Key::F6
    } else if code == 296 {
        Key::F7
    } else if code == 297 {
        Key::F8
    } else if code == 298 {
        Key::F9
    } else if code == 299 {
        Key::F10
    } else if code == 300 {
        Key::F11
    } else if code == 301 {
        Key::F12
    } else if code == 302 {
        Key::F13
    } else if code == 303 {
        Key::F14
    } else if code == 304 {
        Key::F15
    } else if code == 305 {
        Key::F16
    } else if code == 306 {
        Key::F17
    } else if code == 307 {
        Key::F18
    } else if code == 308 {
        Key::F19
    } else if code == 309 {
        Key::F20
    } else if code == 310 {
        Key::F21
    } else if code == 311 {
        Key::F22
    } else if code == 312 {
        Key::F23
    } else if code == 313 {
        Key::F24
    } else if code == 314 {
        Key::F25
    } else if code == 320 {
        Key::Kp0
    } else if code == 321 {
        Key::Kp1
    } else if code == 322 {
        Key::Kp2
    } else if code == 323 {
        Key::Kp3
    } else if code == 324 {
        Key::Kp4
    } else if code == 325 {
        Key::Kp5
    } else if code == 326 {
        Key::Kp6
    } else if code == 327 {
        Key::Kp7
    } else if code == 328 {
        Key::Kp8
    } else if code == 329 {
        Key::Kp9
    } else if code == 330 {
        Key::KpDecimal
    } else if code == 331 {
        Key::KpDivide
    } else if code == 332 {
        Key::KpMultiply
    } else if code == 333 {
        Key::KpSubtract
    } else if code == 334 {
        Key::KpAdd
    } else if code == 335 {
        Key::KpEnter
    } else if code == 336 {
        Key::KpEqual
    } else if code == 340 {
        Key::LeftShift
    } else if code == 341 {
        Key::LeftControl
    } else if code == 342 {
        Key::LeftAlt
    } else if code == 343 {
        Key::LeftSuper
    } else if code == 344 {
        Key::RightShift
    } else if code == 345 {
        Key::RightControl
    } else if code == 346 {
        Key::RightAlt
    } else if code == 347 {
        Key::RightSuper
    } else if code == 348 {
        Key::Menu
    } else {
        Key::Unknown
    }
}

impl Key {
    /// Translate a native key code into the neutral key.
    #[verifier::rlimit(60)]
    pub fn from_code(code: i32) -> (r: Key)
        ensures
            r == key_of_code(code as int),
    {
        match code {
            32 => Key::Space,
            39 => Key::Apostrophe,
            44 => Key::Comma,
            45 => Key::Minus,
            46 => Key::Period,
            47 => Key::Slash,
            48 => Key::Num0,
            49 => Key::Num1,
            50 => Key::Num2,
            51 => Key::Num3,
            52 => Key::Num4,
            53 => Key::Num5,
            54 => Key::Num6,
            55 => Key::Num7,
            56 => Key::Num8,
            57 => Key::Num9,
            59 => Key::Semicolon,
            61 => Key::Equal,
            65 => Key::A,
            66 => Key::B,
            67 => Key::C,
            68 => Key::D,
            69 => Key::E,
            70 => Key::F,
            71 => Key::G,
            72 => Key::H,
            73 => Key::I,
            74 => Key::J,
            75 => Key::K,
            76 => Key::L,
            77 => Key::M,
            78 => Key::N,
            79 => Key::O,
            80 => Key::P,
            81 => Key::Q,
            82 => Key::R,
            83 => Key::S,
            84 => Key::T,
            85 => Key::U,
            86 => Key::V,
            87 => Key::W,
            88 => Key::X,
            89 => Key::Y,
            90 => Key::Z,
            91 => Key::LeftBracket,
            92 => Key::Backslash,
            93 => Key::RightBracket,
            96 => Key::GraveAccent,
            161 => Key::World1,
            162 => Key::World2,
            256 => Key::Escape,
            257 => Key::Enter,
            258 => Key::Tab,
            259 => Key::Backspace,
            260 => Key::Insert,
            261 => Key::Delete,
            262 => Key::Right,
            263 => Key::Left,
            264 => Key::Down,
            265 => Key::Up,
            266 => Key::PageUp,
            267 => Key::PageDown,
            268 => Key::Home,
            269 => Key::End,
            280 => Key::CapsLock,
            281 => Key::ScrollLock,
            282 => Key::NumLock,
            283 => Key::PrintScreen,
            284 => Key::Pause,
            290 => Key::F1,
            291 => Key::F2,
            292 => Key::F3,
            293 => Key::F4,
            294 => Key::F5,
            295 => Key::F6,
            296 => Key::F7,
            297 => Key::F8,
            298 => Key::F9,
            299 => Key::F10,
            300 => Key::F11,
            301 => Key::F12,
            302 => Key::F13,
            303 => Key::F14,
            304 => Key::F15,
            305 => Key::F16,
            306 => Key::F17,
            307 => Key::F18,
            308 => Key::F19,
            309 => Key::F20,
            310 => Key::F21,
            311 => Key::F22,
            312 => Key::F23,
            313 => Key::F24,
            314 => Key::F25,
            320 => Key::Kp0,
            321 => Key::Kp1,
            322 => Key::Kp2,
            323 => Key::Kp3,
            324 => Key::Kp4,
            325 => Key::Kp5,
            326 => Key::Kp6,
            327 => Key::Kp7,
            328 => Key::Kp8,
            329 => Key::Kp9,
            330 => Key::KpDecimal,
            331 => Key::KpDivide,
            332 => Key::KpMultiply,
            333 => Key::KpSubtract,
            334 => Key::KpAdd,
            335 => Key::KpEnter,
            336 => Key::KpEqual,
            340 => Key::LeftShift,
            341 => Key::LeftControl,
            342 => Key::LeftAlt,
            343 => Key::LeftSuper,
            344 => Key::RightShift,
            345 => Key::RightControl,
            346 => Key::RightAlt,
            347 => Key::RightSuper,
            348 => Key::Menu,
            _ => Key::Unknown,
        }
    }

    /// The native code this key stands for.
    pub fn code(&self) -> (r: i32)
        ensures
            r as int == key_code(*self),
    {
        match self {
            Key::Space => 32,
            Key::Apostrophe => 39,
            Key::Comma => 44,
            Key::Minus => 45,
            Key::Period => 46,
            Key::Slash => 47,
            Key::Num0 => 48,
            Key::Num1 => 49,
            Key::Num2 => 50,
            Key::Num3 => 51,
            Key::Num4 => 52,
            Key::Num5 => 53,
            Key::Num6 => 54,
            Key::Num7 => 55,
            Key::Num8 => 56,
            Key::Num9 => 57,
            Key::Semicolon => 59,
            Key::Equal => 61,
            Key::A => 65,
            Key::B => 66,
            Key::C => 67,
            Key::D => 68,
            Key::E => 69,
            Key::F => 70,
            Key::G => 71,
            Key::H => 72,
            Key::I => 73,
            Key::J => 74,
            Key::K => 75,
            Key::L => 76,
            Key::M => 77,
            Key::N => 78,
            Key::O => 79,
            Key::P => 80,
            Key::Q => 81,
            Key::R => 82,
            Key::S => 83,
            Key::T => 84,
            Key::U => 85,
            Key::V => 86,
            Key::W => 87,
            Key::X => 88,
            Key::Y => 89,
            Key::Z => 90,
            Key::LeftBracket => 91,
            Key::Backslash => 92,
            Key::RightBracket => 93,
            Key::GraveAccent => 96,
            Key::World1 => 161,
            Key::World2 => 162,
            Key::Escape => 256,
            Key::Enter => 257,
            Key::Tab => 258,
            Key::Backspace => 259,
            Key::Insert => 260,
            Key::Delete => 261,
            Key::Right => 262,
            Key::Left => 263,
            Key::Down => 264,
            Key::Up => 265,
            Key::PageUp => 266,
            Key::PageDown => 267,
            Key::Home => 268,
            Key::End => 269,
            Key::CapsLock => 280,
            Key::ScrollLock => 281,
            Key::NumLock => 282,
            Key::PrintScreen => 283,
            Key::Pause => 284,
            Key::F1 => 290,
            Key::F2 => 291,
            Key::F3 => 292,
            Key::F4 => 293,
            Key::F5 => 294,
            Key::F6 => 295,
            Key::F7 => 296,
            Key::F8 => 297,
            Key::F9 => 298,
            Key::F10 => 299,
            Key::F11 => 300,
            Key::F12 => 301,
            Key::F13 => 302,
            Key::F14 => 303,
            Key::F15 => 304,
            Key::F16 => 305,
            Key::F17 => 306,
            Key::F18 => 307,
            Key::F19 => 308,
            Key::F20 => 309,
            Key::F21 => 310,
            Key::F22 => 311,
            Key::F23 => 312,
            Key::F24 => 313,
            Key::F25 => 314,
            Key::Kp0 => 320,
            Key::Kp1 => 321,
            Key::Kp2 => 322,
            Key::Kp3 => 323,
            Key::Kp4 => 324,
            Key::Kp5 => 325,
            Key::Kp6 => 326,
            Key::Kp7 => 327,
            Key::Kp8 => 328,
            Key::Kp9 => 329,
            Key::KpDecimal => 330,
            Key::KpDivide => 331,
            Key::KpMultiply => 332,
            Key::KpSubtract => 333,
            Key::KpAdd => 334,
            Key::KpEnter => 335,
            Key::KpEqual => 336,
            Key::LeftShift => 340,
            Key::LeftControl => 341,
            Key::LeftAlt => 342,
            Key::LeftSuper => 343,
            Key::RightShift => 344,
            Key::RightControl => 345,
            Key::RightAlt => 346,
            Key::RightSuper => 347,
            Key::Menu => 348,
            Key::Unknown => -1,
        }
    }
}

/// Each native key code maps back to the key it came from: the key table
/// omits no code and assigns no code twice.
#[verifier::rlimit(60)]
pub proof fn lemma_key_round_trip(k: Key)
    ensures
        key_of_code(key_code(k)) == k,
{
}

/// Two keys with the same native code are the same key.
pub proof fn lemma_key_code_injective(a: Key, b: Key)
    ensures
        key_code(a) == key_code(b) ==> a == b,
{
    if key_code(a) == key_code(b) {
        lemma_key_round_trip(a);
        lemma_key_round_trip(b);
    }
}

/// A native event, decomposed into plain values: integer codes for keys,
/// buttons and actions, a bit mask for modifiers, and 64-bit patterns for
/// the toolkit's double-precision coordinates.
#[derive(Clone, Copy, PartialEq, Eq, Structural, Debug)]
pub enum NativeEvent {
    /// Window position: x, y.
    Pos(i32, i32),
    /// Window size: width, height.
    Size(i32, i32),
    /// The window was asked to close.
    Close,
    /// The window contents need to be redrawn.
    Refresh,
    /// The window gained or lost focus.
    Focus(bool),
    /// The window was iconified or restored.
    Iconify(bool),
    /// Framebuffer size in pixels: width, height.
    FramebufferSize(i32, i32),
    /// Mouse button: button code, action code, modifier bits.
    MouseButton(i32, i32, u32),
    /// Cursor position: x, y as IEEE-754 bit patterns.
    CursorPos(u64, u64),
    /// The cursor entered or left the window.
    CursorEnter(bool),
    /// Scroll offset: x, y as IEEE-754 bit patterns.
    Scroll(u64, u64),
    /// Key: key code, scancode, action code, modifier bits.
    Key(i32, i32, i32, u32),
}

/// A neutral event: the toolkit-independent record of one input or
/// window-lifecycle occurrence.
#[derive(Clone, Copy, PartialEq, Eq, Structural, Debug)]
pub enum WindowEvent {
    /// Window position: x, y.
    Pos(i32, i32),
    /// Window size: width, height.
    Size(i32, i32),
    /// The window was asked to close.
    Close,
    /// The window contents need to be redrawn.
    Refresh,
    /// The window gained or lost focus.
    Focus(bool),
    /// The window was iconified or restored.
    Iconify(bool),
    /// Framebuffer size in pixels: width, height.
    FramebufferSize(i32, i32),
    /// Mouse button press or release, with the modifiers held.
    MouseButton(MouseButton, Action, Modifiers),
    /// Cursor position: x, y as IEEE-754 bit patterns.
    CursorPos(u64, u64),
    /// The cursor entered or left the window.
    CursorEnter(bool),
    /// Scroll offset: x, y as IEEE-754 bit patterns.
    Scroll(u64, u64),
    /// Key press, release or repeat, with scancode and the modifiers held.
    Key(Key, i32, Action, Modifiers),
}

/// The neutral event denoted by a native event: codes and bit masks are
/// translated, every other payload is carried through unchanged.
pub open spec fn translate(n: NativeEvent) -> WindowEvent {
    match n {
        NativeEvent::Pos(x, y) => WindowEvent::Pos(x, y),
        NativeEvent::Size(w, h) => WindowEvent::Size(w, h),
        NativeEvent::Close => WindowEvent::Close,
        NativeEvent::Refresh => WindowEvent::Refresh,
        NativeEvent::Focus(f) => WindowEvent::Focus(f),
        NativeEvent::Iconify(i) => WindowEvent::Iconify(i),
        NativeEvent::FramebufferSize(w, h) => WindowEvent::FramebufferSize(w, h),
        NativeEvent::MouseButton(b, a, m) => WindowEvent::MouseButton(
            button_of_code(b as int),
            action_of_code(a as int),
            modifiers_of_bits(m),
        ),
        NativeEvent::CursorPos(x, y) => WindowEvent::CursorPos(x, y),
        NativeEvent::CursorEnter(e) => WindowEvent::CursorEnter(e),
        NativeEvent::Scroll(x, y) => WindowEvent::Scroll(x, y),
        NativeEvent::Key(k, s, a, m) => WindowEvent::Key(
            key_of_code(k as int),
            s,
            action_of_code(a as int),
            modifiers_of_bits(m),
        ),
    }
}

/// Translate one native event into its neutral event.
///
/// Total and stateless: one native event in, one neutral event out.
pub fn translate_event(n: NativeEvent) -> (r: WindowEvent)
    ensures
        r == translate(n),
{
    match n {
        NativeEvent::Pos(x, y) => WindowEvent::Pos(x, y),
        NativeEvent::Size(w, h) => WindowEvent::Size(w, h),
        NativeEvent::Close => WindowEvent::Close,
        NativeEvent::Refresh => WindowEvent::Refresh,
        NativeEvent::Focus(f) => WindowEvent::Focus(f),
        NativeEvent::Iconify(i) => WindowEvent::Iconify(i),
        NativeEvent::FramebufferSize(w, h) => WindowEvent::FramebufferSize(w, h),
        NativeEvent::MouseButton(b, a, m) => WindowEvent::MouseButton(
            MouseButton::from_code(b),
            Action::from_code(a),
            Modifiers::from_bits(m),
        ),
        NativeEvent::CursorPos(x, y) => WindowEvent::CursorPos(x, y),
        NativeEvent::CursorEnter(e) => WindowEvent::CursorEnter(e),
        NativeEvent::Scroll(x, y) => WindowEvent::Scroll(x, y),
        NativeEvent::Key(k, s, a, m) => WindowEvent::Key(
            Key::from_code(k),
            s,
            Action::from_code(a),
            Modifiers::from_bits(m),
        ),
    }
}

/// Translate a batch of native events, in arrival order.
///
/// Exactly one neutral event comes out for each native event that went in,
/// and the order is kept: no event is dropped or coalesced.
pub fn translate_events(raw: &Vec<NativeEvent>) -> (r: Vec<WindowEvent>)
    ensures
        r@.len() == raw@.len(),
        forall|i: int| 0 <= i < raw@.len() ==> r@[i] == translate(raw@[i]),
{
    let mut out: Vec<WindowEvent> = Vec::new();
    let mut i: usize = 0;
    while i < raw.len()
        invariant
            0 <= i <= raw@.len(),
            out@.len() == i,
            forall|j: int| 0 <= j < i ==> out@[j] == translate(raw@[j]),
        decreases raw@.len() - i,
    {
        out.push(translate_event(raw[i]));
        i = i + 1;
    }
    out
}

} // verus!

