use mousemux::enigo::{
    error_text_len, key_down_step, keybd_event_flags, Enigo, KeyDownError, KeyDownPlan, KeyDownProgress,
    KeyDownStep, VirtualScreen, ENIGO_INPUT_EXTRA_VALUE,
};
use mousemux::input::{
    Key, KeybdInput, MouseButton, MouseInput, KEYEVENTF_EXTENDEDKEY, KEYEVENTF_KEYUP,
    KEYEVENTF_UNICODE, MOUSEEVENTF_ABSOLUTE, MOUSEEVENTF_HWHEEL, MOUSEEVENTF_LEFTDOWN,
    MOUSEEVENTF_LEFTUP, MOUSEEVENTF_MOVE, MOUSEEVENTF_VIRTUALDESK, MOUSEEVENTF_WHEEL,
    MOUSEEVENTF_XDOWN, MOUSEEVENTF_XUP, XBUTTON1, XBUTTON2,
};
use mousemux::keycodes::{EVK_LCONTROL, EVK_LWIN, EVK_MENU, EVK_RETURN, EVK_SHIFT};

fn press(vk: u16, extra_info: usize) -> KeybdInput {
    KeybdInput { flags: 0, vk, scan: 0, extra_info }
}

fn release(vk: u16, extra_info: usize) -> KeybdInput {
    KeybdInput { flags: KEYEVENTF_KEYUP, vk, scan: 0, extra_info }
}

#[test]
fn extra_info_defaults_to_100_without_connection() {
    let e = Enigo::default();
    assert_eq!(ENIGO_INPUT_EXTRA_VALUE, 100);
    assert_eq!(e.get_mouse_extra_info(), 100);
    assert_eq!(e.get_keyboard_extra_info(), 100);
}

#[test]
fn extra_info_defaults_to_100_for_connection_without_ids() {
    let mut e = Enigo::default();
    e.set_current_conn_id(Some(7));
    assert_eq!(e.get_mouse_extra_info(), 100);
    assert_eq!(e.get_keyboard_extra_info(), 100);
}

#[test]
fn extra_info_uses_ids_of_current_connection() {
    let mut e = Enigo::default();
    e.set_mousemux_ids(1, Some(6001), Some(6002));
    e.set_mousemux_ids(2, Some(6003), Some(6004));
    e.set_current_conn_id(Some(2));
    assert_eq!(e.get_mouse_extra_info(), 6003);
    assert_eq!(e.get_keyboard_extra_info(), 6004);
    e.set_current_conn_id(Some(1));
    assert_eq!(e.get_mouse_extra_info(), 6001);
    assert_eq!(e.get_keyboard_extra_info(), 6002);
    e.set_current_conn_id(None);
    assert_eq!(e.get_mouse_extra_info(), 100);
}

#[test]
fn set_ids_with_a_missing_id_clears_the_connection() {
    let mut e = Enigo::default();
    e.set_mousemux_ids(3, Some(6001), Some(6002));
    e.set_current_conn_id(Some(3));
    assert_eq!(e.get_keyboard_id(3), Some(6002));
    e.set_mousemux_ids(3, Some(6001), None);
    assert_eq!(e.get_keyboard_id(3), None);
    assert_eq!(e.get_mouse_extra_info(), 100);
    assert_eq!(e.get_keyboard_extra_info(), 100);
    // clearing an unknown connection is harmless
    e.set_mousemux_ids(4, None, None);
    assert_eq!(e.get_keyboard_id(4), None);
}

#[test]
fn ids_of_one_connection_leave_others_alone() {
    let mut e = Enigo::default();
    e.set_mousemux_ids(1, Some(6001), Some(6002));
    e.set_current_conn_id(Some(1));
    e.set_mousemux_ids(2, Some(6010), Some(6011));
    e.set_mousemux_ids(2, None, None);
    assert_eq!(e.get_mouse_extra_info(), 6001);
    assert_eq!(e.get_keyboard_extra_info(), 6002);
}

#[test]
fn keycodes_of_keys() {
    let e = Enigo::default();
    assert_eq!(e.key_to_keycode(Key::Alt), 0x12);
    assert_eq!(e.key_to_keycode(Key::Option), 0x12);
    assert_eq!(e.key_to_keycode(Key::Control), 0xA2);
    assert_eq!(e.key_to_keycode(Key::F10), 0x79);
    assert_eq!(e.key_to_keycode(Key::Numpad7), 0x67);
    assert_eq!(e.key_to_keycode(Key::NumpadEnter), EVK_RETURN);
    assert_eq!(e.key_to_keycode(Key::Equals), '=' as u16);
    assert_eq!(e.key_to_keycode(Key::Raw(0x41)), 0x41);
    assert_eq!(e.key_to_keycode(Key::Meta), EVK_LWIN);
    assert_eq!(e.key_to_keycode(Key::Windows), EVK_LWIN);
    assert_eq!(e.key_to_keycode(Key::Mute), 0xAD);
    assert_eq!(e.key_to_keycode(Key::Layout('a')), 0);
}

#[test]
fn mouse_buttons_map_to_events() {
    let mut e = Enigo::default();
    e.set_mousemux_ids(5, Some(6001), Some(6002));
    e.set_current_conn_id(Some(5));
    assert_eq!(
        e.mouse_down(MouseButton::Left),
        Some(MouseInput { flags: MOUSEEVENTF_LEFTDOWN, data: 0, dx: 0, dy: 0, extra_info: 6001 })
    );
    assert_eq!(
        e.mouse_up(MouseButton::Left),
        Some(MouseInput { flags: MOUSEEVENTF_LEFTUP, data: 0, dx: 0, dy: 0, extra_info: 6001 })
    );
    assert_eq!(
        e.mouse_down(MouseButton::Back),
        Some(MouseInput { flags: MOUSEEVENTF_XDOWN, data: XBUTTON1, dx: 0, dy: 0, extra_info: 6001 })
    );
    assert_eq!(
        e.mouse_up(MouseButton::Forward),
        Some(MouseInput { flags: MOUSEEVENTF_XUP, data: XBUTTON2, dx: 0, dy: 0, extra_info: 6001 })
    );
    assert_eq!(e.mouse_down(MouseButton::ScrollUp), None);
    assert_eq!(e.mouse_up(MouseButton::ScrollRight), None);
}

#[test]
fn mouse_click_is_press_then_release() {
    let e = Enigo::default();
    let events = e.mouse_click(MouseButton::Left);
    assert_eq!(events.len(), 2);
    assert_eq!(events[0].flags, MOUSEEVENTF_LEFTDOWN);
    assert_eq!(events[1].flags, MOUSEEVENTF_LEFTUP);
    assert!(e.mouse_click(MouseButton::ScrollDown).is_empty());
}

#[test]
fn mouse_move_and_scroll_events() {
    let e = Enigo::default();
    let screen = VirtualScreen { x: 0, y: 0, width: 1920, height: 1080 };
    let m = e.mouse_move_to(960, 540, screen);
    assert_eq!(m.flags, MOUSEEVENTF_MOVE | MOUSEEVENTF_ABSOLUTE | MOUSEEVENTF_VIRTUALDESK);
    assert_eq!(m.dx, 960 * 65535 / 1920);
    assert_eq!(m.dy, 540 * 65535 / 1080);
    assert_eq!(m.extra_info, 100);
    // left of the virtual screen's origin: rounds toward zero
    let screen2 = VirtualScreen { x: -1920, y: 0, width: 3840, height: 1080 };
    let m2 = e.mouse_move_to(-1921, 0, screen2);
    assert_eq!(m2.dx, -65535 / 3840);
    assert_eq!(m2.dx, -17);
    let r = e.mouse_move_relative(-5, 7);
    assert_eq!(r, MouseInput { flags: MOUSEEVENTF_MOVE, data: 0, dx: -5, dy: 7, extra_info: 100 });
    assert_eq!(e.mouse_scroll_y(-120).data, (-120i32) as u32);
    assert_eq!(e.mouse_scroll_y(-120).flags, MOUSEEVENTF_WHEEL);
    assert_eq!(e.mouse_scroll_x(120).flags, MOUSEEVENTF_HWHEEL);
    assert_eq!(e.mouse_scroll_x(120).data, 120);
}

#[test]
fn key_sequence_clicks_bmp_chars_and_presses_surrogates() {
    let mut e = Enigo::default();
    e.set_mousemux_ids(1, Some(6001), Some(6002));
    e.set_current_conn_id(Some(1));
    let events = e.key_sequence("a\u{1F600}");
    let u = KEYEVENTF_UNICODE;
    assert_eq!(
        events,
        vec![
            KeybdInput { flags: u, vk: 0, scan: 'a' as u16, extra_info: 6002 },
            KeybdInput { flags: u | KEYEVENTF_KEYUP, vk: 0, scan: 'a' as u16, extra_info: 6002 },
            KeybdInput { flags: u, vk: 0, scan: 0xD83D, extra_info: 6002 },
            KeybdInput { flags: u, vk: 0, scan: 0xDE00, extra_info: 6002 },
        ]
    );
    let mut buf = [0u16; 2];
    let expected = '\u{1F600}'.encode_utf16(&mut buf);
    assert_eq!(expected, &[0xD83D, 0xDE00]);
    assert!(e.key_sequence("").is_empty());
}

#[test]
fn unicode_click_and_key_click() {
    let e = Enigo::default();
    let (d, up) = e.unicode_key_click(0x263A);
    assert_eq!(d, KeybdInput { flags: KEYEVENTF_UNICODE, vk: 0, scan: 0x263A, extra_info: 100 });
    assert_eq!(up, KeybdInput { flags: KEYEVENTF_UNICODE | KEYEVENTF_KEYUP, vk: 0, scan: 0x263A, extra_info: 100 });
    let (d, up) = e.key_click(Key::Return);
    assert_eq!(d, press(0x0D, 100));
    assert_eq!(up, release(0x0D, 100));
}

#[test]
fn key_down_of_plain_key() {
    let e = Enigo::default();
    let plan = e.key_down(Key::Tab, 0).unwrap();
    assert!(plan.presses.is_empty());
    assert!(plan.releases.is_empty());
    assert_eq!(plan.main, press(0x09, 100));
    assert_eq!(e.key_down(Key::Raw(0), 0).unwrap_err(), KeyDownError::NoKeycode);
    assert_eq!(e.key_down(Key::Raw(0xFFFF), 0).unwrap_err(), KeyDownError::NoKeycode);
}

#[test]
fn key_down_of_layout_key_wraps_modifiers() {
    let mut e = Enigo::default();
    e.set_mousemux_ids(9, Some(1), Some(2));
    e.set_current_conn_id(Some(9));
    // 'A' on a US layout: shift (bit 0 of the high byte) + VK 0x41
    let plan = e.key_down(Key::Layout('A'), 0x0141).unwrap();
    assert_eq!(plan.presses, vec![press(EVK_SHIFT, 2)]);
    assert_eq!(plan.main, press(0x41, 2));
    assert_eq!(plan.releases, vec![release(EVK_SHIFT, 2)]);
    // shift + ctrl + alt, released in reverse order
    let plan = e.key_down(Key::Layout('x'), 0x0758).unwrap();
    assert_eq!(plan.presses, vec![press(EVK_SHIFT, 2), press(EVK_LCONTROL, 2), press(EVK_MENU, 2)]);
    assert_eq!(plan.main, press(0x58, 2));
    assert_eq!(plan.releases, vec![release(EVK_MENU, 2), release(EVK_LCONTROL, 2), release(EVK_SHIFT, 2)]);
    // no modifiers
    let plan = e.key_down(Key::Layout('a'), 0x0041).unwrap();
    assert!(plan.presses.is_empty() && plan.releases.is_empty());
    assert_eq!(e.key_down(Key::Layout('é'), 0xFFFF).unwrap_err(), KeyDownError::NoLayoutKeycode('é'));
}

#[test]
fn key_up_events() {
    let e = Enigo::default();
    assert_eq!(e.key_up(Key::Shift, 0), Some(release(EVK_SHIFT, 100)));
    assert_eq!(e.key_up(Key::Layout('A'), 0x0141), Some(release(0x41, 100)));
    assert_eq!(e.key_up(Key::Layout('é'), 0xFFFF), None);
    assert_eq!(e.key_up(Key::Raw(0), 0), Some(release(0, 100)));
}

#[test]
fn key_state_reads_toggle_bit_for_lock_keys() {
    let e = Enigo::default();
    assert!(e.get_key_state(Key::CapsLock, 1));
    assert!(!e.get_key_state(Key::CapsLock, -32768));
    assert!(e.get_key_state(Key::NumLock, 0x0001));
    assert!(e.get_key_state(Key::Scroll, -32767));
    assert!(e.get_key_state(Key::Shift, -32768));
    assert!(!e.get_key_state(Key::Shift, 1));
    assert!(!e.get_key_state(Key::Shift, 0));
}

#[test]
fn extended_key_flag_for_e0_scan_codes() {
    assert_eq!(keybd_event_flags(0, 0xE01D), KEYEVENTF_EXTENDEDKEY);
    assert_eq!(keybd_event_flags(KEYEVENTF_KEYUP, 0xE11D), KEYEVENTF_KEYUP | KEYEVENTF_EXTENDEDKEY);
    assert_eq!(keybd_event_flags(0, 0x001D), 0);
    assert_eq!(keybd_event_flags(KEYEVENTF_UNICODE, 0xE01D), KEYEVENTF_UNICODE);
}

#[test]
fn error_text_trimming() {
    // "Bad\r\n" then the terminating NUL
    let mut buff: Vec<u16> = vec![0; 256];
    for (i, c) in "Bad\r\n".encode_utf16().enumerate() {
        buff[i] = c;
    }
    assert_eq!(error_text_len(&buff, 5), 2);
    assert_eq!(error_text_len(&buff, 0), 0);
    let ctrl: Vec<u16> = vec![1, 2, 3, 0];
    assert_eq!(error_text_len(&ctrl, 3), 0);
}

#[test]
fn mouse_move_to_wraps_like_a_release_build() {
    let e = Enigo::default();
    let screen = VirtualScreen { x: 0, y: 0, width: 1, height: 1 };
    let m = e.mouse_move_to(40000, 0, screen);
    assert_eq!(m.dx, 40000i32.wrapping_mul(65535));
    assert_eq!(m.dy, 0);
}

/// Drive a key-press plan; `fails(j)` is the error text the j-th send leaves.
fn run_key_down(plan: &KeyDownPlan, fails: &dyn Fn(usize) -> Option<String>) -> (Vec<KeybdInput>, Result<(), String>) {
    let mut sent = Vec::new();
    let mut progress = KeyDownProgress::new();
    let mut last: Option<String> = None;
    loop {
        match key_down_step(plan, &mut progress, last.take()) {
            KeyDownStep::Send(ev) => {
                last = fails(sent.len());
                sent.push(ev);
            }
            KeyDownStep::Finished(r) => return (sent, r),
        }
    }
}

#[test]
fn key_press_sends_releases_after_a_failed_key() {
    let e = Enigo::default();
    let plan = e.key_down(Key::Layout('x'), 0x0758).unwrap();
    let all: Vec<KeybdInput> = plan.presses.iter().chain(std::iter::once(&plan.main)).chain(plan.releases.iter()).cloned().collect();
    assert_eq!(run_key_down(&plan, &|_| None), (all.clone(), Ok(())));
    // the key itself fails: every release is still sent, then its error
    assert_eq!(run_key_down(&plan, &|j| if j == 3 { Some("denied".to_string()) } else { None }), (all.clone(), Err("denied".to_string())));
    // a failure without error text is not an error
    assert_eq!(run_key_down(&plan, &|j| if j == 3 { Some(String::new()) } else { None }), (all.clone(), Ok(())));
    // a release failing changes nothing
    assert_eq!(run_key_down(&plan, &|j| if j == 5 { Some("x".to_string()) } else { None }), (all.clone(), Ok(())));
}

#[test]
fn key_press_stops_at_a_failed_modifier() {
    let e = Enigo::default();
    let plan = e.key_down(Key::Layout('x'), 0x0758).unwrap();
    let r = run_key_down(&plan, &|j| if j == 1 { Some("busy".to_string()) } else { None });
    assert_eq!(r, (plan.presses[..2].to_vec(), Err("busy".to_string())));
    let r = run_key_down(&plan, &|j| if j == 0 { Some(String::new()) } else if j == 2 { Some("e".to_string()) } else { None });
    assert_eq!(r, (plan.presses.clone(), Err("e".to_string())));
}

#[test]
fn plain_key_press_reports_its_error() {
    let e = Enigo::default();
    let plan = e.key_down(Key::Tab, 0).unwrap();
    assert_eq!(run_key_down(&plan, &|_| Some("no".to_string())), (vec![plan.main], Err("no".to_string())));
    assert_eq!(run_key_down(&plan, &|_| None), (vec![plan.main], Ok(())));
}
