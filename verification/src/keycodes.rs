//! Windows virtual-key codes of the keys that the injector knows.
use vstd::prelude::*;

verus! {

pub const EVK_MENU: u16 = 0x12;
pub const EVK_BACK: u16 = 0x08;
pub const EVK_CAPITAL: u16 = 0x14;
pub const EVK_LCONTROL: u16 = 0xA2;
pub const EVK_DELETE: u16 = 0x2E;
pub const EVK_DOWN: u16 = 0x28;
pub const EVK_END: u16 = 0x23;
pub const EVK_ESCAPE: u16 = 0x1B;
pub const EVK_F1: u16 = 0x70;
pub const EVK_F2: u16 = 0x71;
pub const EVK_F3: u16 = 0x72;
pub const EVK_F4: u16 = 0x73;
pub const EVK_F5: u16 = 0x74;
pub const EVK_F6: u16 = 0x75;
pub const EVK_F7: u16 = 0x76;
pub const EVK_F8: u16 = 0x77;
pub const EVK_F9: u16 = 0x78;
pub const EVK_F10: u16 = 0x79;
pub const EVK_F11: u16 = 0x7A;
pub const EVK_F12: u16 = 0x7B;
pub const EVK_HOME: u16 = 0x24;
pub const EVK_LEFT: u16 = 0x25;
pub const EVK_NEXT: u16 = 0x22;
pub const EVK_PRIOR: u16 = 0x21;
pub const EVK_RETURN: u16 = 0x0D;
pub const EVK_RIGHT: u16 = 0x27;
pub const EVK_SHIFT: u16 = 0x10;
pub const EVK_SPACE: u16 = 0x20;
pub const EVK_TAB: u16 = 0x09;
pub const EVK_UP: u16 = 0x26;
pub const EVK_NUMPAD0: u16 = 0x60;
pub const EVK_NUMPAD1: u16 = 0x61;
pub const EVK_NUMPAD2: u16 = 0x62;
pub const EVK_NUMPAD3: u16 = 0x63;
pub const EVK_NUMPAD4: u16 = 0x64;
pub const EVK_NUMPAD5: u16 = 0x65;
pub const EVK_NUMPAD6: u16 = 0x66;
pub const EVK_NUMPAD7: u16 = 0x67;
pub const EVK_NUMPAD8: u16 = 0x68;
pub const EVK_NUMPAD9: u16 = 0x69;
pub const EVK_CANCEL: u16 = 0x03;
pub const EVK_CLEAR: u16 = 0x0C;
pub const EVK_PAUSE: u16 = 0x13;
pub const EVK_KANA: u16 = 0x15;
pub const EVK_HANGUL: u16 = 0x15;
pub const EVK_JUNJA: u16 = 0x17;
pub const EVK_FINAL: u16 = 0x18;
pub const EVK_HANJA: u16 = 0x19;
pub const EVK_KANJI: u16 = 0x19;
pub const EVK_CONVERT: u16 = 0x1C;
pub const EVK_SELECT: u16 = 0x29;
pub const EVK_PRINT: u16 = 0x2A;
pub const EVK_EXECUTE: u16 = 0x2B;
pub const EVK_SNAPSHOT: u16 = 0x2C;
pub const EVK_INSERT: u16 = 0x2D;
pub const EVK_HELP: u16 = 0x2F;
pub const EVK_SLEEP: u16 = 0x5F;
pub const EVK_SEPARATOR: u16 = 0x6C;
pub const EVK_VOLUME_MUTE: u16 = 0xAD;
pub const EVK_VOLUME_DOWN: u16 = 0xAE;
pub const EVK_VOLUME_UP: u16 = 0xAF;
pub const EVK_SCROLL: u16 = 0x91;
pub const EVK_NUMLOCK: u16 = 0x90;
pub const EVK_RWIN: u16 = 0x5C;
pub const EVK_APPS: u16 = 0x5D;
pub const EVK_ADD: u16 = 0x6B;
pub const EVK_MULTIPLY: u16 = 0x6A;
pub const EVK_DECIMAL: u16 = 0x6E;
pub const EVK_SUBTRACT: u16 = 0x6D;
pub const EVK_DIVIDE: u16 = 0x6F;
pub const EVK_RSHIFT: u16 = 0xA1;
pub const EVK_RCONTROL: u16 = 0xA3;
pub const EVK_RMENU: u16 = 0xA5;
pub const EVK_LWIN: u16 = 0x5B;

} // verus!
