//! Input values that the injector hands to the operating system, the keys
//! and mouse buttons that callers name, and the Windows constants they use.
use vstd::prelude::*;

verus! {

/// Flag of a keyboard event: the scan code belongs to the extended set.
pub const KEYEVENTF_EXTENDEDKEY: u32 = 0x0001;
/// Flag of a keyboard event: the key is released.
pub const KEYEVENTF_KEYUP: u32 = 0x0002;
/// Flag of a keyboard event: the scan field carries a UTF-16 code unit.
pub const KEYEVENTF_UNICODE: u32 = 0x0004;

/// Flags of a mouse event.
pub const MOUSEEVENTF_MOVE: u32 = 0x0001;
pub const MOUSEEVENTF_LEFTDOWN: u32 = 0x0002;
pub const MOUSEEVENTF_LEFTUP: u32 = 0x0004;
pub const MOUSEEVENTF_RIGHTDOWN: u32 = 0x0008;
pub const MOUSEEVENTF_RIGHTUP: u32 = 0x0010;
pub const MOUSEEVENTF_MIDDLEDOWN: u32 = 0x0020;
pub const MOUSEEVENTF_MIDDLEUP: u32 = 0x0040;
pub const MOUSEEVENTF_XDOWN: u32 = 0x0080;
pub const MOUSEEVENTF_XUP: u32 = 0x0100;
pub const MOUSEEVENTF_WHEEL: u32 = 0x0800;
pub const MOUSEEVENTF_HWHEEL: u32 = 0x1000;
pub const MOUSEEVENTF_VIRTUALDESK: u32 = 0x4000;
pub const MOUSEEVENTF_ABSOLUTE: u32 = 0x8000;

/// Mouse data that names the first and second extra button.
pub const XBUTTON1: u32 = 0x0001;
pub const XBUTTON2: u32 = 0x0002;

/// A key that the injector can press.
#[derive(Clone, Copy, Debug, PartialEq, Eq, Structural)]
pub enum Key {
    Alt,
    Backspace,
    CapsLock,
    Control,
    Delete,
    DownArrow,
    End,
    Escape,
    F1,
    F10,
    F11,
    F12,
    F2,
    F3,
    F4,
    F5,
    F6,
    F7,
    F8,
    F9,
    Home,
    LeftArrow,
    Option,
    PageDown,
    PageUp,
    Return,
    RightArrow,
    Shift,
    Space,
    Tab,
    UpArrow,
    Numpad0,
    Numpad1,
    Numpad2,
    Numpad3,
    Numpad4,
    Numpad5,
    Numpad6,
    Numpad7,
    Numpad8,
    Numpad9,
    Cancel,
    Clear,
    Pause,
    Kana,
    Hangul,
    Junja,
    Final,
    Hanja,
    Kanji,
    Convert,
    Select,
    Print,
    Execute,
    Snapshot,
    Insert,
    Help,
    Sleep,
    Separator,
    Mute,
    VolumeDown,
    VolumeUp,
    Scroll,
    NumLock,
    RWin,
    Apps,
    Add,
    Multiply,
    Decimal,
    Subtract,
    Divide,
    NumpadEnter,
    Equals,
    RightShift,
    RightControl,
    RightAlt,
    Super,
    Command,
    Windows,
    Meta,
    /// A character, pressed with the key that the current layout gives it.
    Layout(char),
    /// A raw virtual-key code.
    Raw(u16),
}

/// A mouse button.
#[derive(Clone, Copy, Debug, PartialEq, Eq, Structural)]
pub enum MouseButton {
    Left,
    Middle,
    Right,
    Back,
    Forward,
    ScrollUp,
    ScrollDown,
    ScrollLeft,
    ScrollRight,
}

/// One keyboard event, as the injector passes it to `SendInput`.
#[derive(Clone, Copy, Debug, PartialEq, Eq, Structural)]
pub struct KeybdInput {
    pub flags: u32,
    pub vk: u16,
    pub scan: u16,
    pub extra_info: usize,
}

/// One mouse event, as the injector passes it to `SendInput`.
#[derive(Clone, Copy, Debug, PartialEq, Eq, Structural)]
pub struct MouseInput {
    pub flags: u32,
    pub data: u32,
    pub dx: i32,
    pub dy: i32,
    pub extra_info: usize,
}

} // verus!
