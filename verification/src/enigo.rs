//! The input injector's per-connection MouseMux device IDs.
use std::collections::HashMap;
use vstd::prelude::*;
use crate::input::{
    Key, KeybdInput, MouseButton, MouseInput, KEYEVENTF_EXTENDEDKEY, KEYEVENTF_KEYUP, KEYEVENTF_UNICODE, MOUSEEVENTF_ABSOLUTE,
    MOUSEEVENTF_HWHEEL, MOUSEEVENTF_LEFTDOWN, MOUSEEVENTF_LEFTUP, MOUSEEVENTF_MIDDLEDOWN,
    MOUSEEVENTF_MIDDLEUP, MOUSEEVENTF_MOVE, MOUSEEVENTF_RIGHTDOWN, MOUSEEVENTF_RIGHTUP,
    MOUSEEVENTF_VIRTUALDESK, MOUSEEVENTF_WHEEL, MOUSEEVENTF_XDOWN, MOUSEEVENTF_XUP, XBUTTON1, XBUTTON2,
};
use crate::keycodes;

verus! {

broadcast use vstd::std_specs::hash::group_hash_axioms;

/// The `dwExtraInfo` value that injected input carries when no MouseMux
/// device ID applies.
pub const ENIGO_INPUT_EXTRA_VALUE: usize = 100;

/// The input injector: the device IDs that MouseMux assigned to each
/// connection, and the connection whose input is being injected.
pub struct Enigo {
    mousemux_ids: HashMap<i32, (usize, usize)>,
    current_conn_id: Option<i32>,
}

impl Enigo {
    /// conn_id -> (mouse ID, keyboard ID)
    pub closed spec fn ids(&self) -> Map<i32, (usize, usize)> {
        self.mousemux_ids@
    }

    pub closed spec fn current(&self) -> Option<i32> {
        self.current_conn_id
    }

    /// The device IDs that input for the current connection carries.
    pub open spec fn current_ids(&self) -> Option<(usize, usize)> {
        match self.current() {
            Some(c) => if self.ids().contains_key(c) { Some(self.ids()[c]) } else { None },
            None => None,
        }
    }

    pub open spec fn spec_mouse_extra_info(&self) -> usize {
        match self.current_ids() {
            Some(ids) => ids.0,
            None => ENIGO_INPUT_EXTRA_VALUE,
        }
    }

    pub open spec fn spec_keyboard_extra_info(&self) -> usize {
        match self.current_ids() {
            Some(ids) => ids.1,
            None => ENIGO_INPUT_EXTRA_VALUE,
        }
    }

    /// The extra info for mouse input: the mouse ID of the current
    /// connection if MouseMux assigned one, else `ENIGO_INPUT_EXTRA_VALUE`.
    pub fn get_mouse_extra_info(&self) -> (r: usize)
        ensures
            r == self.spec_mouse_extra_info(),
    {
        if let Some(conn_id) = self.current_conn_id {
            if let Some(ids) = self.mousemux_ids.get(&conn_id) {
                return ids.0;
            }
        }
        ENIGO_INPUT_EXTRA_VALUE
    }

    /// The extra info for keyboard input: the keyboard ID of the current
    /// connection if MouseMux assigned one, else `ENIGO_INPUT_EXTRA_VALUE`.
    pub fn get_keyboard_extra_info(&self) -> (r: usize)
        ensures
            r == self.spec_keyboard_extra_info(),
    {
        if let Some(conn_id) = self.current_conn_id {
            if let Some(ids) = self.mousemux_ids.get(&conn_id) {
                return ids.1;
            }
        }
        ENIGO_INPUT_EXTRA_VALUE
    }
}

/// The virtual-key code that the injector sends for a key. A layout key has
/// none of its own (0): its code comes from the keyboard layout.
pub open spec fn keycode_of(key: Key) -> u16 {
    match key {
        Key::Alt => keycodes::EVK_MENU,
        Key::Backspace => keycodes::EVK_BACK,
        Key::CapsLock => keycodes::EVK_CAPITAL,
        Key::Control => keycodes::EVK_LCONTROL,
        Key::Delete => keycodes::EVK_DELETE,
        Key::DownArrow => keycodes::EVK_DOWN,
        Key::End => keycodes::EVK_END,
        Key::Escape => keycodes::EVK_ESCAPE,
        Key::F1 => keycodes::EVK_F1,
        Key::F10 => keycodes::EVK_F10,
        Key::F11 => keycodes::EVK_F11,
        Key::F12 => keycodes::EVK_F12,
        Key::F2 => keycodes::EVK_F2,
        Key::F3 => keycodes::EVK_F3,
        Key::F4 => keycodes::EVK_F4,
        Key::F5 => keycodes::EVK_F5,
        Key::F6 => keycodes::EVK_F6,
        Key::F7 => keycodes::EVK_F7,
        Key::F8 => keycodes::EVK_F8,
        Key::F9 => keycodes::EVK_F9,
        Key::Home => keycodes::EVK_HOME,
        Key::LeftArrow => keycodes::EVK_LEFT,
        Key::Option => keycodes::EVK_MENU,
        Key::PageDown => keycodes::EVK_NEXT,
        Key::PageUp => keycodes::EVK_PRIOR,
        Key::Return => keycodes::EVK_RETURN,
        Key::RightArrow => keycodes::EVK_RIGHT,
        Key::Shift => keycodes::EVK_SHIFT,
        Key::Space => keycodes::EVK_SPACE,
        Key::Tab => keycodes::EVK_TAB,
        Key::UpArrow => keycodes::EVK_UP,
        Key::Numpad0 => keycodes::EVK_NUMPAD0,
        Key::Numpad1 => keycodes::EVK_NUMPAD1,
        Key::Numpad2 => keycodes::EVK_NUMPAD2,
        Key::Numpad3 => keycodes::EVK_NUMPAD3,
        Key::Numpad4 => keycodes::EVK_NUMPAD4,
        Key::Numpad5 => keycodes::EVK_NUMPAD5,
        Key::Numpad6 => keycodes::EVK_NUMPAD6,
        Key::Numpad7 => keycodes::EVK_NUMPAD7,
        Key::Numpad8 => keycodes::EVK_NUMPAD8,
        Key::Numpad9 => keycodes::EVK_NUMPAD9,
        Key::Cancel => keycodes::EVK_CANCEL,
        Key::Clear => keycodes::EVK_CLEAR,
        Key::Pause => keycodes::EVK_PAUSE,
        Key::Kana => keycodes::EVK_KANA,
        Key::Hangul => keycodes::EVK_HANGUL,
        Key::Junja => keycodes::EVK_JUNJA,
        Key::Final => keycodes::EVK_FINAL,
        Key::Hanja => keycodes::EVK_HANJA,
        Key::Kanji => keycodes::EVK_KANJI,
        Key::Convert => keycodes::EVK_CONVERT,
        Key::Select => keycodes::EVK_SELECT,
        Key::Print => keycodes::EVK_PRINT,
        Key::Execute => keycodes::EVK_EXECUTE,
        Key::Snapshot => keycodes::EVK_SNAPSHOT,
        Key::Insert => keycodes::EVK_INSERT,
        Key::Help => keycodes::EVK_HELP,
        Key::Sleep => keycodes::EVK_SLEEP,
        Key::Separator => keycodes::EVK_SEPARATOR,
        Key::Mute => keycodes::EVK_VOLUME_MUTE,
        Key::VolumeDown => keycodes::EVK_VOLUME_DOWN,
        Key::VolumeUp => keycodes::EVK_VOLUME_UP,
        Key::Scroll => keycodes::EVK_SCROLL,
        Key::NumLock => keycodes::EVK_NUMLOCK,
        Key::RWin => keycodes::EVK_RWIN,
        Key::Apps => keycodes::EVK_APPS,
        Key::Add => keycodes::EVK_ADD,
        Key::Multiply => keycodes::EVK_MULTIPLY,
        Key::Decimal => keycodes::EVK_DECIMAL,
        Key::Subtract => keycodes::EVK_SUBTRACT,
        Key::Divide => keycodes::EVK_DIVIDE,
        Key::NumpadEnter => keycodes::EVK_RETURN,
        Key::Equals => 61u16,
        Key::RightShift => keycodes::EVK_RSHIFT,
        Key::RightControl => keycodes::EVK_RCONTROL,
        Key::RightAlt => keycodes::EVK_RMENU,
        Key::Raw(raw_keycode) => raw_keycode,
        Key::Super | Key::Command | Key::Windows | Key::Meta => keycodes::EVK_LWIN,
        Key::Layout(_) => 0,
    }
}

/// A key press on the virtual-key code `vk` (no scan code, no flags).
pub open spec fn key_press(vk: u16, extra_info: usize) -> KeybdInput {
    KeybdInput { flags: 0, vk, scan: 0, extra_info }
}

/// A key release on the virtual-key code `vk`.
pub open spec fn key_release(vk: u16, extra_info: usize) -> KeybdInput {
    KeybdInput { flags: KEYEVENTF_KEYUP, vk, scan: 0, extra_info }
}

impl Default for Enigo {
    fn default() -> (r: Self)
        ensures
            r.ids() == Map::<i32, (usize, usize)>::empty(),
            r.current() == None::<i32>,
    {
        Enigo { mousemux_ids: HashMap::new(), current_conn_id: None }
    }
}

impl Enigo {
    /// Record the device IDs that MouseMux assigned to a connection. Both IDs
    /// are needed: if either is missing the connection's IDs are dropped, so
    /// its input falls back to `ENIGO_INPUT_EXTRA_VALUE`.
    pub fn set_mousemux_ids(&mut self, conn_id: i32, mouse_id: Option<u32>, keyboard_id: Option<u32>)
        ensures
            final(self).current() == old(self).current(),
            (mouse_id, keyboard_id) matches (Some(m), Some(k)) ==>
                final(self).ids() == old(self).ids().insert(conn_id, (m as usize, k as usize)),
            !((mouse_id, keyboard_id) matches (Some(_), Some(_))) ==>
                final(self).ids() == old(self).ids().remove(conn_id),
    {
        if let (Some(m_id), Some(k_id)) = (mouse_id, keyboard_id) {
            self.mousemux_ids.insert(conn_id, (m_id as usize, k_id as usize));
        } else {
            self.mousemux_ids.remove(&conn_id);
        }
    }

    /// Select the connection whose input is injected next (`None`: no
    /// connection, input carries `ENIGO_INPUT_EXTRA_VALUE`).
    pub fn set_current_conn_id(&mut self, conn_id: Option<i32>)
        ensures
            final(self).current() == conn_id,
            final(self).ids() == old(self).ids(),
    {
        self.current_conn_id = conn_id;
    }

    /// The keyboard ID recorded for a connection.
    pub fn get_keyboard_id(&self, conn_id: i32) -> (r: Option<usize>)
        ensures
            r == (if self.ids().contains_key(conn_id) { Some(self.ids()[conn_id].1) } else { None::<usize> }),
    {
        match self.mousemux_ids.get(&conn_id) {
            Some(ids) => Some(ids.1),
            None => None,
        }
    }

    /// The virtual-key code of a key (0 for a layout key, whose code the
    /// keyboard layout gives).
    pub fn key_to_keycode(&self, key: Key) -> (r: u16)
        ensures
            r == keycode_of(key),
    {
        match key {
            Key::Alt => keycodes::EVK_MENU,
            Key::Backspace => keycodes::EVK_BACK,
            Key::CapsLock => keycodes::EVK_CAPITAL,
            Key::Control => keycodes::EVK_LCONTROL,
            Key::Delete => keycodes::EVK_DELETE,
            Key::DownArrow => keycodes::EVK_DOWN,
            Key::End => keycodes::EVK_END,
            Key::Escape => keycodes::EVK_ESCAPE,
            Key::F1 => keycodes::EVK_F1,
            Key::F10 => keycodes::EVK_F10,
            Key::F11 => keycodes::EVK_F11,
            Key::F12 => keycodes::EVK_F12,
            Key::F2 => keycodes::EVK_F2,
            Key::F3 => keycodes::EVK_F3,
            Key::F4 => keycodes::EVK_F4,
            Key::F5 => keycodes::EVK_F5,
            Key::F6 => keycodes::EVK_F6,
            Key::F7 => keycodes::EVK_F7,
            Key::F8 => keycodes::EVK_F8,
            Key::F9 => keycodes::EVK_F9,
            Key::Home => keycodes::EVK_HOME,
            Key::LeftArrow => keycodes::EVK_LEFT,
            Key::Option => keycodes::EVK_MENU,
            Key::PageDown => keycodes::EVK_NEXT,
            Key::PageUp => keycodes::EVK_PRIOR,
            Key::Return => keycodes::EVK_RETURN,
            Key::RightArrow => keycodes::EVK_RIGHT,
            Key::Shift => keycodes::EVK_SHIFT,
            Key::Space => keycodes::EVK_SPACE,
            Key::Tab => keycodes::EVK_TAB,
            Key::UpArrow => keycodes::EVK_UP,
            Key::Numpad0 => keycodes::EVK_NUMPAD0,
            Key::Numpad1 => keycodes::EVK_NUMPAD1,
            Key::Numpad2 => keycodes::EVK_NUMPAD2,
            Key::Numpad3 => keycodes::EVK_NUMPAD3,
            Key::Numpad4 => keycodes::EVK_NUMPAD4,
            Key::Numpad5 => keycodes::EVK_NUMPAD5,
            Key::Numpad6 => keycodes::EVK_NUMPAD6,
            Key::Numpad7 => keycodes::EVK_NUMPAD7,
            Key::Numpad8 => keycodes::EVK_NUMPAD8,
            Key::Numpad9 => keycodes::EVK_NUMPAD9,
            Key::Cancel => keycodes::EVK_CANCEL,
            Key::Clear => keycodes::EVK_CLEAR,
            Key::Pause => keycodes::EVK_PAUSE,
            Key::Kana => keycodes::EVK_KANA,
            Key::Hangul => keycodes::EVK_HANGUL,
            Key::Junja => keycodes::EVK_JUNJA,
            Key::Final => keycodes::EVK_FINAL,
            Key::Hanja => keycodes::EVK_HANJA,
            Key::Kanji => keycodes::EVK_KANJI,
            Key::Convert => keycodes::EVK_CONVERT,
            Key::Select => keycodes::EVK_SELECT,
            Key::Print => keycodes::EVK_PRINT,
            Key::Execute => keycodes::EVK_EXECUTE,
            Key::Snapshot => keycodes::EVK_SNAPSHOT,
            Key::Insert => keycodes::EVK_INSERT,
            Key::Help => keycodes::EVK_HELP,
            Key::Sleep => keycodes::EVK_SLEEP,
            Key::Separator => keycodes::EVK_SEPARATOR,
            Key::Mute => keycodes::EVK_VOLUME_MUTE,
            Key::VolumeDown => keycodes::EVK_VOLUME_DOWN,
            Key::VolumeUp => keycodes::EVK_VOLUME_UP,
            Key::Scroll => keycodes::EVK_SCROLL,
            Key::NumLock => keycodes::EVK_NUMLOCK,
            Key::RWin => keycodes::EVK_RWIN,
            Key::Apps => keycodes::EVK_APPS,
            Key::Add => keycodes::EVK_ADD,
            Key::Multiply => keycodes::EVK_MULTIPLY,
            Key::Decimal => keycodes::EVK_DECIMAL,
            Key::Subtract => keycodes::EVK_SUBTRACT,
            Key::Divide => keycodes::EVK_DIVIDE,
            Key::NumpadEnter => keycodes::EVK_RETURN,
            Key::Equals => 61u16,
            Key::RightShift => keycodes::EVK_RSHIFT,
            Key::RightControl => keycodes::EVK_RCONTROL,
            Key::RightAlt => keycodes::EVK_RMENU,
            Key::Raw(raw_keycode) => raw_keycode,
            Key::Super | Key::Command | Key::Windows | Key::Meta => keycodes::EVK_LWIN,
            Key::Layout(..) => 0,
        }
    }
}

/// The bounding rectangle of the virtual screen (all monitors), in pixels.
#[derive(Clone, Copy, Debug, PartialEq, Eq, Structural)]
pub struct VirtualScreen {
    pub x: i32,
    pub y: i32,
    pub width: i32,
    pub height: i32,
}

/// Integer division rounding toward zero, as Rust's `/` on signed integers.
pub open spec fn trunc_div(a: int, b: int) -> int {
    if a >= 0 && b > 0 {
        a / b
    } else if a < 0 && b > 0 {
        -((-a) / b)
    } else if a >= 0 && b < 0 {
        -(a / (-b))
    } else {
        (-a) / (-b)
    }
}

/// `(v - origin) * 65535` in `i32`, wrapping around on overflow as the
/// injector's release build computes it.
pub open spec fn absolute_numerator(v: i32, origin: i32) -> i32 {
    v.wrapping_sub(origin).wrapping_mul(65535)
}

/// A pixel coordinate mapped onto the 0..=65535 absolute-coordinate range of
/// the virtual screen axis that starts at `origin` and is `extent` wide.
pub open spec fn absolute_coordinate(v: i32, origin: i32, extent: i32) -> int {
    trunc_div(absolute_numerator(v, origin) as int, extent as int)
}

/// The division in `absolute_coordinate` is defined: the extent is not zero,
/// and the quotient fits `i32`.
pub open spec fn absolute_coordinate_fits(v: i32, origin: i32, extent: i32) -> bool {
    &&& extent != 0
    &&& !(absolute_numerator(v, origin) == i32::MIN && extent == -1)
}

pub open spec fn mouse_input(flags: u32, data: u32, dx: i32, dy: i32, extra_info: usize) -> MouseInput {
    MouseInput { flags, data, dx, dy, extra_info }
}

/// The press event of a mouse button; scroll "buttons" have none.
pub open spec fn mouse_down_event(button: MouseButton, extra_info: usize) -> Option<MouseInput> {
    match button {
        MouseButton::Left => Some(mouse_input(MOUSEEVENTF_LEFTDOWN, 0, 0, 0, extra_info)),
        MouseButton::Middle => Some(mouse_input(MOUSEEVENTF_MIDDLEDOWN, 0, 0, 0, extra_info)),
        MouseButton::Right => Some(mouse_input(MOUSEEVENTF_RIGHTDOWN, 0, 0, 0, extra_info)),
        MouseButton::Back => Some(mouse_input(MOUSEEVENTF_XDOWN, XBUTTON1, 0, 0, extra_info)),
        MouseButton::Forward => Some(mouse_input(MOUSEEVENTF_XDOWN, XBUTTON2, 0, 0, extra_info)),
        _ => None,
    }
}

/// The release event of a mouse button; scroll "buttons" have none.
pub open spec fn mouse_up_event(button: MouseButton, extra_info: usize) -> Option<MouseInput> {
    match button {
        MouseButton::Left => Some(mouse_input(MOUSEEVENTF_LEFTUP, 0, 0, 0, extra_info)),
        MouseButton::Middle => Some(mouse_input(MOUSEEVENTF_MIDDLEUP, 0, 0, 0, extra_info)),
        MouseButton::Right => Some(mouse_input(MOUSEEVENTF_RIGHTUP, 0, 0, 0, extra_info)),
        MouseButton::Back => Some(mouse_input(MOUSEEVENTF_XUP, XBUTTON1, 0, 0, extra_info)),
        MouseButton::Forward => Some(mouse_input(MOUSEEVENTF_XUP, XBUTTON2, 0, 0, extra_info)),
        _ => None,
    }
}

pub open spec fn option_to_seq<A>(o: Option<A>) -> Seq<A> {
    match o {
        Some(a) => seq![a],
        None => Seq::empty(),
    }
}

/// `absolute_coordinate`, computed in `i32`.
#[verifier::nonlinear]
fn absolute_axis(v: i32, origin: i32, extent: i32) -> (r: i32)
    requires
        absolute_coordinate_fits(v, origin, extent),
    ensures
        r == absolute_coordinate(v, origin, extent),
{
    v.wrapping_sub(origin).wrapping_mul(65535) / extent
}

impl Enigo {
    /// The event that moves the pointer to pixel (x, y) of the virtual screen.
    pub fn mouse_move_to(&self, x: i32, y: i32, screen: VirtualScreen) -> (r: MouseInput)
        requires
            absolute_coordinate_fits(x, screen.x, screen.width),
            absolute_coordinate_fits(y, screen.y, screen.height),
        ensures
            r.flags == MOUSEEVENTF_MOVE | MOUSEEVENTF_ABSOLUTE | MOUSEEVENTF_VIRTUALDESK,
            r.data == 0,
            r.dx == absolute_coordinate(x, screen.x, screen.width),
            r.dy == absolute_coordinate(y, screen.y, screen.height),
            r.extra_info == self.spec_mouse_extra_info(),
    {
        let extra_info = self.get_mouse_extra_info();
        let dx = absolute_axis(x, screen.x, screen.width);
        let dy = absolute_axis(y, screen.y, screen.height);
        MouseInput {
            flags: MOUSEEVENTF_MOVE | MOUSEEVENTF_ABSOLUTE | MOUSEEVENTF_VIRTUALDESK,
            data: 0,
            dx,
            dy,
            extra_info,
        }
    }

    /// The event that moves the pointer by (x, y).
    pub fn mouse_move_relative(&self, x: i32, y: i32) -> (r: MouseInput)
        ensures
            r == mouse_input(MOUSEEVENTF_MOVE, 0, x, y, self.spec_mouse_extra_info()),
    {
        let extra_info = self.get_mouse_extra_info();
        MouseInput { flags: MOUSEEVENTF_MOVE, data: 0, dx: x, dy: y, extra_info }
    }

    /// The event that presses a button (`None` for a button the injector
    /// does not press).
    pub fn mouse_down(&self, button: MouseButton) -> (r: Option<MouseInput>)
        ensures
            r == mouse_down_event(button, self.spec_mouse_extra_info()),
    {
        let extra_info = self.get_mouse_extra_info();
        let flags = match button {
            MouseButton::Left => MOUSEEVENTF_LEFTDOWN,
            MouseButton::Middle => MOUSEEVENTF_MIDDLEDOWN,
            MouseButton::Right => MOUSEEVENTF_RIGHTDOWN,
            MouseButton::Back => MOUSEEVENTF_XDOWN,
            MouseButton::Forward => MOUSEEVENTF_XDOWN,
            _ => {
                return None;
            },
        };
        let data = match button {
            MouseButton::Back => XBUTTON1,
            MouseButton::Forward => XBUTTON2,
            _ => 0,
        };
        Some(MouseInput { flags, data, dx: 0, dy: 0, extra_info })
    }

    /// The event that releases a button (`None` for a button the injector
    /// does not release).
    pub fn mouse_up(&self, button: MouseButton) -> (r: Option<MouseInput>)
        ensures
            r == mouse_up_event(button, self.spec_mouse_extra_info()),
    {
        let extra_info = self.get_mouse_extra_info();
        let flags = match button {
            MouseButton::Left => MOUSEEVENTF_LEFTUP,
            MouseButton::Middle => MOUSEEVENTF_MIDDLEUP,
            MouseButton::Right => MOUSEEVENTF_RIGHTUP,
            MouseButton::Back => MOUSEEVENTF_XUP,
            MouseButton::Forward => MOUSEEVENTF_XUP,
            _ => {
                return None;
            },
        };
        let data = match button {
            MouseButton::Back => XBUTTON1,
            MouseButton::Forward => XBUTTON2,
            _ => 0,
        };
        Some(MouseInput { flags, data, dx: 0, dy: 0, extra_info })
    }

    /// The events of a click: the press, then the release.
    pub fn mouse_click(&self, button: MouseButton) -> (r: Vec<MouseInput>)
        ensures
            r@ == option_to_seq(mouse_down_event(button, self.spec_mouse_extra_info()))
                + option_to_seq(mouse_up_event(button, self.spec_mouse_extra_info())),
    {
        let mut events: Vec<MouseInput> = Vec::new();
        if let Some(down) = self.mouse_down(button) {
            events.push(down);
        }
        if let Some(up) = self.mouse_up(button) {
            events.push(up);
        }
        events
    }

    /// The event that scrolls horizontally by `length` wheel units.
    pub fn mouse_scroll_x(&self, length: i32) -> (r: MouseInput)
        ensures
            r == mouse_input(MOUSEEVENTF_HWHEEL, length as u32, 0, 0, self.spec_mouse_extra_info()),
    {
        let extra_info = self.get_mouse_extra_info();
        MouseInput { flags: MOUSEEVENTF_HWHEEL, data: length as u32, dx: 0, dy: 0, extra_info }
    }

    /// The event that scrolls vertically by `length` wheel units.
    pub fn mouse_scroll_y(&self, length: i32) -> (r: MouseInput)
        ensures
            r == mouse_input(MOUSEEVENTF_WHEEL, length as u32, 0, 0, self.spec_mouse_extra_info()),
    {
        let extra_info = self.get_mouse_extra_info();
        MouseInput { flags: MOUSEEVENTF_WHEEL, data: length as u32, dx: 0, dy: 0, extra_info }
    }
}

/// The UTF-16 code units of a character, as `char::encode_utf16` gives them:
/// one unit below U+10000, else a high and a low surrogate.
pub open spec fn utf16_units(c: char) -> Seq<u16> {
    let cp = c as u32;
    if cp < 0x10000 {
        seq![cp as u16]
    } else {
        let v = cp - 0x10000;
        seq![(0xD800 + v / 0x400) as u16, (0xDC00 + v % 0x400) as u16]
    }
}

/// A press of the UTF-16 code unit `unit`.
pub open spec fn unicode_press(unit: u16, extra_info: usize) -> KeybdInput {
    KeybdInput { flags: KEYEVENTF_UNICODE, vk: 0, scan: unit, extra_info }
}

/// A release of the UTF-16 code unit `unit`.
pub open spec fn unicode_release(unit: u16, extra_info: usize) -> KeybdInput {
    KeybdInput { flags: KEYEVENTF_UNICODE | KEYEVENTF_KEYUP, vk: 0, scan: unit, extra_info }
}

/// The events that type one character: a click of its code unit, or the
/// presses of both surrogates (they must not be split by a release).
pub open spec fn char_events(c: char, extra_info: usize) -> Seq<KeybdInput> {
    let u = utf16_units(c);
    if u.len() == 1 {
        seq![unicode_press(u[0], extra_info), unicode_release(u[0], extra_info)]
    } else {
        seq![unicode_press(u[0], extra_info), unicode_press(u[1], extra_info)]
    }
}

/// The events that type a string, character by character.
pub open spec fn sequence_events(s: Seq<char>, extra_info: usize) -> Seq<KeybdInput>
    decreases s.len(),
{
    if s.len() == 0 {
        Seq::empty()
    } else {
        sequence_events(s.drop_last(), extra_info) + char_events(s.last(), extra_info)
    }
}

/// Whether the layout code of a character asks for modifier `pos` (0 Shift,
/// 1 Control, 2 Alt): the bits of its high byte.
pub open spec fn modifier_held(code: u16, pos: int) -> bool {
    if pos == 0 {
        (code >> 8u16) & 1u16 != 0
    } else if pos == 1 {
        (code >> 8u16) & 2u16 != 0
    } else {
        (code >> 8u16) & 4u16 != 0
    }
}

/// The modifier keys that the layout code of a character asks for, in the
/// order Shift, Control, Alt.
pub open spec fn held_modifiers(code: u16) -> Seq<Key> {
    (if modifier_held(code, 0) { seq![Key::Shift] } else { Seq::empty() })
        + (if modifier_held(code, 1) { seq![Key::Control] } else { Seq::empty() })
        + (if modifier_held(code, 2) { seq![Key::Alt] } else { Seq::empty() })
}

pub open spec fn presses_of(keys: Seq<Key>, extra_info: usize) -> Seq<KeybdInput> {
    keys.map_values(|k: Key| key_press(keycode_of(k), extra_info))
}

pub open spec fn releases_of(keys: Seq<Key>, extra_info: usize) -> Seq<KeybdInput> {
    keys.map_values(|k: Key| key_release(keycode_of(k), extra_info))
}

/// The events of a key press: modifier presses, the key itself, then the
/// modifier releases. `key_down_step` decides, send by send, how far it
/// goes when a send fails.
#[derive(Debug)]
pub struct KeyDownPlan {
    pub presses: Vec<KeybdInput>,
    pub main: KeybdInput,
    pub releases: Vec<KeybdInput>,
}

/// Why a key cannot be pressed.
#[derive(Clone, Copy, Debug, PartialEq, Eq, Structural)]
pub enum KeyDownError {
    /// The key has no virtual-key code (0 or 0xFFFF).
    NoKeycode,
    /// The keyboard layout has no key for this character.
    NoLayoutKeycode(char),
}

/// The flags that a keyboard event is sent with once its scan code is
/// known: a non-Unicode event on an 0xE0/0xE1-prefixed scan code is marked
/// as an extended key.
pub open spec fn spec_keybd_event_flags(flags: u32, scan: u16) -> u32 {
    if flags & KEYEVENTF_UNICODE == 0 && ((scan >> 8u16) == 0xE0 || (scan >> 8u16) == 0xE1) {
        flags | KEYEVENTF_EXTENDEDKEY
    } else {
        flags
    }
}

/// The flags that `keybd_event` sends (see `spec_keybd_event_flags`).
pub fn keybd_event_flags(flags: u32, scan: u16) -> (r: u32)
    ensures
        r == spec_keybd_event_flags(flags, scan),
{
    if flags & KEYEVENTF_UNICODE == 0 {
        if scan >> 8 == 0xE0 || scan >> 8 == 0xE1 {
            return flags | KEYEVENTF_EXTENDEDKEY;
        }
    }
    flags
}

/// The length of the system error text in `buff`, of which the system
/// wrote `chars_copied` units: the text ends before the last unit, going
/// back from position `chars_copied`, that is not a control character
/// (below ' '), or is empty.
pub fn error_text_len(buff: &Vec<u16>, chars_copied: u32) -> (r: usize)
    requires
        (chars_copied as int) < buff@.len(),
    ensures
        r <= chars_copied,
        r > 0 ==> buff@[r as int] >= 32,
        forall|j: int| r < j <= chars_copied ==> buff@[j] < 32,
{
    if chars_copied == 0 {
        return 0;
    }
    let mut curr_char: usize = chars_copied as usize;
    while curr_char > 0
        invariant
            curr_char <= chars_copied,
            (chars_copied as int) < buff@.len(),
            forall|j: int| curr_char < j <= chars_copied ==> buff@[j] < 32,
        ensures
            curr_char > 0 ==> buff@[curr_char as int] >= 32,
        decreases curr_char,
    {
        let ch = buff[curr_char];
        if ch >= 32 {
            break;
        }
        curr_char -= 1;
    }
    curr_char
}

impl Enigo {
    /// Press the UTF-16 code unit `unicode_char`.
    pub fn unicode_key_down(&self, unicode_char: u16) -> (r: KeybdInput)
        ensures
            r == unicode_press(unicode_char, self.spec_keyboard_extra_info()),
    {
        let extra_info = self.get_keyboard_extra_info();
        KeybdInput { flags: KEYEVENTF_UNICODE, vk: 0, scan: unicode_char, extra_info }
    }

    /// Release the UTF-16 code unit `unicode_char`.
    pub fn unicode_key_up(&self, unicode_char: u16) -> (r: KeybdInput)
        ensures
            r == unicode_release(unicode_char, self.spec_keyboard_extra_info()),
    {
        let extra_info = self.get_keyboard_extra_info();
        KeybdInput {
            flags: KEYEVENTF_UNICODE | KEYEVENTF_KEYUP,
            vk: 0,
            scan: unicode_char,
            extra_info,
        }
    }

    /// Press and release the UTF-16 code unit `unicode_char`.
    pub fn unicode_key_click(&self, unicode_char: u16) -> (r: (KeybdInput, KeybdInput))
        ensures
            r.0 == unicode_press(unicode_char, self.spec_keyboard_extra_info()),
            r.1 == unicode_release(unicode_char, self.spec_keyboard_extra_info()),
    {
        (self.unicode_key_down(unicode_char), self.unicode_key_up(unicode_char))
    }

    /// The events that type `sequence`.
    pub fn key_sequence(&self, sequence: &str) -> (r: Vec<KeybdInput>)
        ensures
            r@ == sequence_events(sequence@, self.spec_keyboard_extra_info()),
    {
        let ghost extra = self.spec_keyboard_extra_info();
        let mut events: Vec<KeybdInput> = Vec::new();
        let ghost mut done: Seq<char> = Seq::empty();
        for c in it: sequence.chars()
            invariant
                extra == self.spec_keyboard_extra_info(),
                it.seq() == sequence@,
                done == sequence@.take(it.index() as int),
                events@ == sequence_events(done, extra),
        {
            let cp = c as u32;
            if cp < 0x10000 {
                let (down, up) = self.unicode_key_click(cp as u16);
                events.push(down);
                events.push(up);
            } else {
                let v = cp - 0x10000;
                events.push(self.unicode_key_down((0xD800 + v / 0x400) as u16));
                events.push(self.unicode_key_down((0xDC00 + v % 0x400) as u16));
            }
            proof {
                let next = sequence@.take(it.index() as int + 1);
                assert(next.drop_last() =~= done);
                assert(next.last() == c);
                done = next;
            }
        }
        assert(done =~= sequence@);
        events
    }

    /// Press and release a key (by its virtual-key code, even when it has
    /// none).
    pub fn key_click(&self, key: Key) -> (r: (KeybdInput, KeybdInput))
        ensures
            r.0 == key_press(keycode_of(key), self.spec_keyboard_extra_info()),
            r.1 == key_release(keycode_of(key), self.spec_keyboard_extra_info()),
    {
        let vk = self.key_to_keycode(key);
        let extra_info = self.get_keyboard_extra_info();
        (
            KeybdInput { flags: 0, vk, scan: 0, extra_info },
            KeybdInput { flags: KEYEVENTF_KEYUP, vk, scan: 0, extra_info },
        )
    }
}

/// The plan of a key press, as plain values: modifier presses, the key,
/// modifier releases.
pub type KeyDownPlanView = (Seq<KeybdInput>, KeybdInput, Seq<KeybdInput>);

impl View for KeyDownPlan {
    type V = KeyDownPlanView;

    open spec fn view(&self) -> KeyDownPlanView {
        (self.presses@, self.main, self.releases@)
    }
}

/// Whether a key reports its toggle state rather than its up/down state.
pub open spec fn is_toggle_key(key: Key) -> bool {
    key == Key::CapsLock || key == Key::NumLock || key == Key::Scroll
}

/// What pressing `key` comes to. A layout key is pressed with the
/// virtual-key code in the low byte of `layout_code` (what the keyboard
/// layout gives for its character; 0xFFFF: none), wrapped in presses and
/// releases of the modifiers that the high byte asks for. Any other key is
/// pressed alone, by its own code, if it has one.
pub open spec fn key_down_outcome(key: Key, layout_code: u16, extra_info: usize) -> Result<
    KeyDownPlanView,
    KeyDownError,
> {
    match key {
        Key::Layout(c) => if layout_code == 0xFFFF {
            Err(KeyDownError::NoLayoutKeycode(c))
        } else {
            let mods = held_modifiers(layout_code);
            Ok(
                (
                    presses_of(mods, extra_info),
                    key_press(layout_code & 0xFFu16, extra_info),
                    releases_of(mods.reverse(), extra_info),
                ),
            )
        },
        _ => if keycode_of(key) == 0 || keycode_of(key) == 0xFFFF {
            Err(KeyDownError::NoKeycode)
        } else {
            Ok((Seq::empty(), key_press(keycode_of(key), extra_info), Seq::empty()))
        },
    }
}

/// What releasing `key` comes to: a release of its code, or for a layout
/// key of the low byte of `layout_code` (nothing when that is 0xFFFF).
pub open spec fn key_up_outcome(key: Key, layout_code: u16, extra_info: usize) -> Option<KeybdInput> {
    match key {
        Key::Layout(_) => if layout_code == 0xFFFF {
            None
        } else {
            Some(key_release(layout_code & 0xFFu16, extra_info))
        },
        _ => Some(key_release(keycode_of(key), extra_info)),
    }
}

impl Enigo {
    /// Plan the press of `key`. For `Key::Layout`, `layout_code` is what the
    /// keyboard layout gave for its character; other keys ignore it.
    pub fn key_down(&self, key: Key, layout_code: u16) -> (r: Result<KeyDownPlan, KeyDownError>)
        ensures
            r matches Ok(p) ==> key_down_outcome(key, layout_code, self.spec_keyboard_extra_info())
                == Ok::<KeyDownPlanView, KeyDownError>(p@),
            r matches Err(e) ==> key_down_outcome(key, layout_code, self.spec_keyboard_extra_info())
                == Err::<KeyDownPlanView, KeyDownError>(e),
    {
        let extra_info = self.get_keyboard_extra_info();
        match key {
            Key::Layout(c) => {
                let code = layout_code;
                if code != 0xFFFF {
                    let vk = code & 0x00FF;
                    let flag = code >> 8;
                    let shift = self.key_to_keycode(Key::Shift);
                    let control = self.key_to_keycode(Key::Control);
                    let alt = self.key_to_keycode(Key::Alt);
                    let mut presses: Vec<KeybdInput> = Vec::new();
                    let mut releases: Vec<KeybdInput> = Vec::new();
                    if flag & 1 != 0 {
                        presses.push(KeybdInput { flags: 0, vk: shift, scan: 0, extra_info });
                    }
                    if flag & 2 != 0 {
                        presses.push(KeybdInput { flags: 0, vk: control, scan: 0, extra_info });
                    }
                    if flag & 4 != 0 {
                        presses.push(KeybdInput { flags: 0, vk: alt, scan: 0, extra_info });
                    }
                    if flag & 4 != 0 {
                        releases.push(KeybdInput { flags: KEYEVENTF_KEYUP, vk: alt, scan: 0, extra_info });
                    }
                    if flag & 2 != 0 {
                        releases.push(KeybdInput { flags: KEYEVENTF_KEYUP, vk: control, scan: 0, extra_info });
                    }
                    if flag & 1 != 0 {
                        releases.push(KeybdInput { flags: KEYEVENTF_KEYUP, vk: shift, scan: 0, extra_info });
                    }
                    let main = KeybdInput { flags: 0, vk, scan: 0, extra_info };
                    proof {
                        let mods = held_modifiers(code);
                        let m0: Seq<Key> = if modifier_held(code, 0) { seq![Key::Shift] } else { Seq::empty() };
                        let m1: Seq<Key> = if modifier_held(code, 1) { seq![Key::Control] } else { Seq::empty() };
                        let m2: Seq<Key> = if modifier_held(code, 2) { seq![Key::Alt] } else { Seq::empty() };
                        assert(mods == m0 + m1 + m2);
                        assert(presses@ =~= presses_of(mods, extra_info));
                        assert(mods.reverse() =~= m2 + m1 + m0);
                        assert(releases@ =~= releases_of(mods.reverse(), extra_info));
                    }
                    Ok(KeyDownPlan { presses, main, releases })
                } else {
                    Err(KeyDownError::NoLayoutKeycode(c))
                }
            },
            _ => {
                let code = self.key_to_keycode(key);
                if code == 0 || code == 65535 {
                    return Err(KeyDownError::NoKeycode);
                }
                Ok(
                    KeyDownPlan {
                        presses: Vec::new(),
                        main: KeybdInput { flags: 0, vk: code, scan: 0, extra_info },
                        releases: Vec::new(),
                    },
                )
            },
        }
    }

    /// The release of `key` (see `key_up_outcome`; `layout_code` as in
    /// `key_down`).
    pub fn key_up(&self, key: Key, layout_code: u16) -> (r: Option<KeybdInput>)
        ensures
            r == key_up_outcome(key, layout_code, self.spec_keyboard_extra_info()),
    {
        let extra_info = self.get_keyboard_extra_info();
        match key {
            Key::Layout(_) => {
                if layout_code != 0xFFFF {
                    let vk = layout_code & 0x00FF;
                    Some(KeybdInput { flags: KEYEVENTF_KEYUP, vk, scan: 0, extra_info })
                } else {
                    None
                }
            },
            _ => {
                let code = self.key_to_keycode(key);
                Some(KeybdInput { flags: KEYEVENTF_KEYUP, vk: code, scan: 0, extra_info })
            },
        }
    }

    /// Whether `key` is down (for Caps Lock, Num Lock and Scroll Lock:
    /// toggled on), given the state word that the system reported for its
    /// virtual-key code.
    pub fn get_key_state(&self, key: Key, state: i16) -> (r: bool)
        ensures
            r == (if is_toggle_key(key) { state & 1i16 == 1i16 } else { (state as u16) & 0x8000u16 == 0x8000u16 }),
    {
        if matches!(key, Key::CapsLock) || matches!(key, Key::NumLock) || matches!(key, Key::Scroll) {
            return (state & 0x1) == 0x1;
        }
        (state as u16 & 0x8000) == 0x8000
    }
}

/// Every event of a key-press plan, in the order they are sent.
pub open spec fn plan_events(plan: KeyDownPlanView) -> Seq<KeybdInput> {
    plan.0 + seq![plan.1] + plan.2
}

/// Where sending a key-press plan stands: how many of its events were
/// sent, and the error text of the key itself (empty: none).
#[derive(Debug)]
pub struct KeyDownProgress {
    pub sent: usize,
    pub error: String,
}

impl KeyDownProgress {
    /// Nothing sent yet.
    pub fn new() -> (r: Self)
        ensures
            r.sent == 0,
            r.error@ == Seq::<char>::empty(),
    {
        KeyDownProgress { sent: 0, error: String::new() }
    }
}

/// What to do next while sending a key-press plan.
#[derive(Debug)]
pub enum KeyDownStep {
    /// Send this event, then ask again with the error text, if any, that
    /// the failed send left.
    Send(KeybdInput),
    /// Stop: the key press's result.
    Finished(Result<(), String>),
}

/// A `KeyDownStep` as plain values.
pub enum KeyDownStepView {
    Send(KeybdInput),
    Finished(Result<(), Seq<char>>),
}

impl View for KeyDownStep {
    type V = KeyDownStepView;

    open spec fn view(&self) -> KeyDownStepView {
        match self {
            KeyDownStep::Send(e) => KeyDownStepView::Send(*e),
            KeyDownStep::Finished(Ok(())) => KeyDownStepView::Finished(Ok(())),
            KeyDownStep::Finished(Err(e)) => KeyDownStepView::Finished(Err(e@)),
        }
    }
}

pub open spec fn error_text_view(last_error: Option<String>) -> Option<Seq<char>> {
    match last_error {
        Some(e) => Some(e@),
        None => None,
    }
}

/// The next step of sending a key-press plan, from how many events were
/// sent (`sent`), the key's error so far (`error`) and the error text that
/// the last send left (`last`, `None` when it succeeded). A modifier press
/// that failed with an error text ends the press with that error, leaving
/// the rest unsent. The key's own error is kept, the releases are sent
/// regardless, and the press then ends with that error, if any. Returns the
/// new count, the new error and the step.
pub open spec fn key_down_next(plan: KeyDownPlanView, sent: nat, error: Seq<char>, last: Option<Seq<char>>) -> (
    nat,
    Seq<char>,
    KeyDownStepView,
) {
    let p = plan.0.len();
    let n = plan_events(plan).len();
    if 0 < sent <= p && last is Some && last->0.len() > 0 {
        (sent, error, KeyDownStepView::Finished(Err(last->0)))
    } else {
        let error2 = if sent == p + 1 {
            match last {
                Some(e) => e,
                None => Seq::empty(),
            }
        } else {
            error
        };
        if sent < n {
            (sent + 1, error2, KeyDownStepView::Send(plan_events(plan)[sent as int]))
        } else if error2.len() > 0 {
            (sent, error2, KeyDownStepView::Finished(Err(error2)))
        } else {
            (sent, error2, KeyDownStepView::Finished(Ok(())))
        }
    }
}

/// Decide the next step of sending `plan` (see `key_down_next`; start with
/// `KeyDownProgress::new()` and no error text).
pub fn key_down_step(plan: &KeyDownPlan, progress: &mut KeyDownProgress, last_error: Option<String>) -> (r: KeyDownStep)
    requires
        plan.presses@.len() + 1 + plan.releases@.len() <= usize::MAX,
        old(progress).sent <= plan.presses@.len() + 1 + plan.releases@.len(),
    ensures
        (final(progress).sent as nat, final(progress).error@, r@) == key_down_next(
            plan@,
            old(progress).sent as nat,
            old(progress).error@,
            error_text_view(last_error),
        ),
{
    let p = plan.presses.len();
    let sent = progress.sent;
    let ghost events = plan_events(plan@);
    if 0 < sent && sent <= p {
        if let Some(e) = last_error {
            if !e.as_str().is_empty() {
                return KeyDownStep::Finished(Err(e));
            }
        }
    } else if sent == p + 1 {
        progress.error = match last_error {
            Some(e) => e,
            None => String::new(),
        };
    }
    let r = p + 1 + plan.releases.len();
    if sent < r {
        progress.sent = sent + 1;
        let ev = if sent < p {
            plan.presses[sent]
        } else if sent == p {
            plan.main
        } else {
            plan.releases[sent - p - 1]
        };
        assert(ev == events[sent as int]);
        KeyDownStep::Send(ev)
    } else if !progress.error.as_str().is_empty() {
        KeyDownStep::Finished(Err(progress.error.clone()))
    } else {
        KeyDownStep::Finished(Ok(()))
    }
}

} // verus!
