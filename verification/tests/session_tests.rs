use mousemux::enigo::Enigo;
use mousemux::protocol::{
    truncate_peer_info, PROTOCOL_VERSION, WindowMessage, MOUSEMUX_EXITING, MOUSEMUX_KEYBOARD_ID_ASSIGNED,
    MOUSEMUX_MOUSE_ID_ASSIGNED, MOUSEMUX_NOTIFY_SHUTDOWN, MOUSEMUX_NOTIFY_STARTUP,
    MOUSEMUX_RELEASE_CONNECTION, MOUSEMUX_REQUEST_CONNECTION, MOUSEMUX_REQUEST_EXIT,
    MOUSEMUX_REQUEST_IDS, MOUSEMUX_SET_CONNECTION_NAME, MOUSEMUX_STARTUP_BROADCAST,
    MOUSEMUX_USER_ADD, MOUSEMUX_USER_REMOVE, WM_APP, WM_DESTROY,
};
use mousemux::session::{
    class_registration_ok, clear_ids_for_connection, find_mousemux_window, decrement_connected_users,
    get_connected_users_count, get_ids_for_connection, get_rustdesk_hwnd, has_ids,
    has_ids_for_connection, increment_connected_users, notify_shutdown, notify_startup,
    re_request_all_active_connections, release_ids, request_ids, set_connected_users_count,
    request_ids_step, shutdown_mousemux_window, sync_mousemux_ids, window_proc, MouseMuxState,
    PostStep, WindowProcAction,
};

fn assign(state: &mut MouseMuxState, conn_id: i32, mouse: u32, keyboard: u32) {
    let mut users = 0usize;
    let mut flag = false;
    window_proc(state, &mut users, &mut flag, MOUSEMUX_MOUSE_ID_ASSIGNED, conn_id as usize, mouse as isize);
    window_proc(state, &mut users, &mut flag, MOUSEMUX_KEYBOARD_ID_ASSIGNED, conn_id as usize, keyboard as isize);
}

#[test]
fn message_numbers() {
    assert_eq!(WM_APP, 0x8000);
    assert_eq!(MOUSEMUX_REQUEST_CONNECTION, 0x8000 + 30);
    assert_eq!(MOUSEMUX_MOUSE_ID_ASSIGNED, 0x8000 + 110);
    assert_eq!(MOUSEMUX_EXITING, 0x8000 + 210);
    assert_eq!(PROTOCOL_VERSION, 123);
}

#[test]
fn new_state_is_empty() {
    let s = MouseMuxState::new();
    assert_eq!(get_rustdesk_hwnd(&s), None);
    assert!(!has_ids(&s));
    assert_eq!(get_ids_for_connection(&s, 1), None);
    assert!(re_request_all_active_connections(&s).is_empty());
}

#[test]
fn request_ids_plans_the_protocol_messages() {
    let mut s = MouseMuxState::new();
    s.hwnd = Some(0x00b2070c);
    let plan = request_ids(&mut s, 3, "Bé@1");
    assert!(plan.ids_requested);
    let m = |msg: u32, w: usize, l: isize| WindowMessage { msg, wparam: w, lparam: l };
    let n = MOUSEMUX_SET_CONNECTION_NAME;
    let mut expected = vec![m(MOUSEMUX_REQUEST_CONNECTION, 3, 123)];
    for code in [b'B', b'?', b'@', b'1'] {
        expected.push(m(n, 3, code as isize));
        expected.push(m(n, 3, 0));
        expected.push(m(n, 3, 0));
        expected.push(m(n, 3, 0));
    }
    for _ in 0..4 {
        expected.push(m(n, 3, 0));
    }
    expected.push(m(MOUSEMUX_REQUEST_IDS, 3, 0x00b2070c));
    assert_eq!(plan.messages, expected);
    let entry = s.connections.get(&3).unwrap();
    assert_eq!(entry.peer_info, "Bé@1");
    assert_eq!(entry.conn_id, 3);
    assert_eq!(entry.mouse_id, None);
}

#[test]
fn request_ids_without_window_tracks_but_does_not_request() {
    let mut s = MouseMuxState::new();
    let plan = request_ids(&mut s, -2, "");
    assert!(!plan.ids_requested);
    assert_eq!(plan.messages.len(), 1 + 4);
    assert_eq!(plan.messages[0].wparam, (-2i32) as usize);
    assert!(s.connections.contains_key(&-2));
}

#[test]
fn peer_info_is_cut_to_256_characters() {
    let long: String = "é".repeat(300);
    let cut = truncate_peer_info(&long);
    assert_eq!(cut.chars().count(), 256);
    assert_eq!(cut, "é".repeat(256));
    assert_eq!(truncate_peer_info("abc"), "abc");
    let mut s = MouseMuxState::new();
    let plan = request_ids(&mut s, 1, &long);
    assert_eq!(plan.messages.len(), 1 + 4 * 256 + 4);
    assert_eq!(s.connections.get(&1).unwrap().peer_info.chars().count(), 256);
}

#[test]
fn assigned_ids_are_read_back() {
    let mut s = MouseMuxState::new();
    request_ids(&mut s, 4, "alice@123");
    assert!(!has_ids_for_connection(&s, 4));
    let mut users = 0usize;
    let mut flag = false;
    let a = window_proc(&mut s, &mut users, &mut flag, MOUSEMUX_MOUSE_ID_ASSIGNED, 4, 0x1771);
    assert_eq!(a, WindowProcAction::SyncIds(4));
    assert_eq!(get_ids_for_connection(&s, 4), None);
    assert!(!has_ids(&s));
    let a = window_proc(&mut s, &mut users, &mut flag, MOUSEMUX_KEYBOARD_ID_ASSIGNED, 4, 0x1772);
    assert_eq!(a, WindowProcAction::SyncIds(4));
    assert_eq!(get_ids_for_connection(&s, 4), Some((0x1771, 0x1772)));
    assert!(has_ids_for_connection(&s, 4));
    assert!(has_ids(&s));
    assert_eq!(s.connections.get(&4).unwrap().peer_info, "alice@123");
}

#[test]
fn ids_for_an_untracked_connection_track_it_with_empty_name() {
    let mut s = MouseMuxState::new();
    let mut users = 0usize;
    let mut flag = false;
    window_proc(&mut s, &mut users, &mut flag, MOUSEMUX_KEYBOARD_ID_ASSIGNED, 8, 6002);
    let c = s.connections.get(&8).unwrap();
    assert_eq!(c.conn_id, 8);
    assert_eq!(c.peer_info, "");
    assert_eq!(c.keyboard_id, Some(6002));
    assert_eq!(c.mouse_id, None);
}

#[test]
fn re_registration_keeps_ids_and_updates_name() {
    let mut s = MouseMuxState::new();
    request_ids(&mut s, 1, "old@1");
    assign(&mut s, 1, 6001, 6002);
    request_ids(&mut s, 1, "new@1");
    assert_eq!(get_ids_for_connection(&s, 1), Some((6001, 6002)));
    assert_eq!(s.connections.get(&1).unwrap().peer_info, "new@1");
}

#[test]
fn release_clears_local_state_first() {
    let mut s = MouseMuxState::new();
    request_ids(&mut s, 5, "p@5");
    request_ids(&mut s, 6, "q@6");
    assign(&mut s, 5, 1, 2);
    assign(&mut s, 6, 3, 4);
    let mut e = Enigo::default();
    e.set_mousemux_ids(5, Some(1), Some(2));
    e.set_current_conn_id(Some(5));
    let msg = release_ids(&mut s, &mut e, 5);
    assert_eq!(e.get_keyboard_id(5), None);
    assert_eq!(e.get_mouse_extra_info(), 100);
    assert_eq!(msg, Some(WindowMessage { msg: MOUSEMUX_RELEASE_CONNECTION, wparam: 5, lparam: 0 }));
    assert_eq!(get_ids_for_connection(&s, 5), None);
    assert!(!s.connections.contains_key(&5));
    assert_eq!(get_ids_for_connection(&s, 6), Some((3, 4)));
    assert_eq!(release_ids(&mut s, &mut e, 5), None);
    assert_eq!(release_ids(&mut s, &mut e, 99), None);
}

#[test]
fn clear_ids_reports_whether_tracked() {
    let mut s = MouseMuxState::new();
    request_ids(&mut s, 5, "p@5");
    assert!(clear_ids_for_connection(&mut s, 5));
    assert!(!clear_ids_for_connection(&mut s, 5));
}

#[test]
fn notify_messages_need_our_window() {
    let mut s = MouseMuxState::new();
    assert_eq!(notify_startup(&s), None);
    assert_eq!(notify_shutdown(&s), None);
    s.hwnd = Some(0x1234);
    assert_eq!(
        notify_startup(&s),
        Some(WindowMessage { msg: MOUSEMUX_NOTIFY_STARTUP, wparam: 149, lparam: 0x1234 })
    );
    assert_eq!(
        notify_shutdown(&s),
        Some(WindowMessage { msg: MOUSEMUX_NOTIFY_SHUTDOWN, wparam: 149, lparam: 0x1234 })
    );
}

#[test]
fn reregistration_lists_every_connection_once() {
    let mut s = MouseMuxState::new();
    request_ids(&mut s, 1, "a@1");
    request_ids(&mut s, 2, "b@2");
    request_ids(&mut s, 1, "c@1");
    let mut list = re_request_all_active_connections(&s);
    list.sort();
    assert_eq!(list, vec![(1, "c@1".to_string()), (2, "b@2".to_string())]);
}

#[test]
fn shutdown_forgets_everything() {
    let mut s = MouseMuxState::new();
    s.hwnd = Some(1);
    request_ids(&mut s, 1, "a@1");
    assign(&mut s, 1, 6001, 6002);
    shutdown_mousemux_window(&mut s);
    assert_eq!(s.hwnd, None);
    assert!(!has_ids(&s));
    assert!(s.connections.is_empty());
}

#[test]
fn user_count_reconciles_to_mousemux() {
    let mut s = MouseMuxState::new();
    let mut users = 0usize;
    let mut flag = false;
    assert_eq!(window_proc(&mut s, &mut users, &mut flag, MOUSEMUX_USER_ADD, 1, 1), WindowProcAction::UpdateTitle);
    assert_eq!(users, 1);
    window_proc(&mut s, &mut users, &mut flag, MOUSEMUX_USER_ADD, 2, 3);
    assert_eq!(users, 3);
    window_proc(&mut s, &mut users, &mut flag, MOUSEMUX_USER_REMOVE, 2, 3);
    assert_eq!(users, 3);
    window_proc(&mut s, &mut users, &mut flag, MOUSEMUX_USER_REMOVE, 2, 1);
    assert_eq!(users, 1);
    window_proc(&mut s, &mut users, &mut flag, MOUSEMUX_EXITING, 0, 0);
    assert_eq!(users, 0);
    window_proc(&mut s, &mut users, &mut flag, MOUSEMUX_USER_REMOVE, 0, 0);
    assert_eq!(users, 0);
}

#[test]
fn user_count_helpers() {
    let mut c = 0usize;
    decrement_connected_users(&mut c);
    assert_eq!(c, 0);
    increment_connected_users(&mut c);
    increment_connected_users(&mut c);
    assert_eq!(get_connected_users_count(&c), 2);
    decrement_connected_users(&mut c);
    assert_eq!(c, 1);
    set_connected_users_count(&mut c, 7);
    assert_eq!(c, 7);
}

#[test]
fn duplicate_startup_broadcast_is_ignored() {
    let mut s = MouseMuxState::new();
    let mut users = 0usize;
    let mut flag = false;
    let b = MOUSEMUX_STARTUP_BROADCAST;
    assert_eq!(window_proc(&mut s, &mut users, &mut flag, b, 0, 0), WindowProcAction::Reregister);
    assert!(flag);
    assert_eq!(window_proc(&mut s, &mut users, &mut flag, b, 0, 0), WindowProcAction::Done);
    flag = false;
    assert_eq!(window_proc(&mut s, &mut users, &mut flag, b, 0, 0), WindowProcAction::Reregister);
}

#[test]
fn other_messages() {
    let mut s = MouseMuxState::new();
    let mut users = 2usize;
    let mut flag = false;
    assert_eq!(window_proc(&mut s, &mut users, &mut flag, MOUSEMUX_REQUEST_EXIT, 0, 0), WindowProcAction::NotifyShutdownAndExit);
    assert_eq!(window_proc(&mut s, &mut users, &mut flag, WM_DESTROY, 0, 0), WindowProcAction::PostQuit);
    assert_eq!(window_proc(&mut s, &mut users, &mut flag, 0x0010, 0, 0), WindowProcAction::Default);
    assert_eq!(users, 2);
    assert!(s.connections.is_empty());
}

#[test]
fn sync_copies_ids_to_injector() {
    let mut s = MouseMuxState::new();
    let mut e = Enigo::default();
    request_ids(&mut s, 1, "a@1");
    assign(&mut s, 1, 6001, 6002);
    e.set_current_conn_id(Some(1));
    sync_mousemux_ids(&s, &mut e, 1);
    assert_eq!(e.get_mouse_extra_info(), 6001);
    assert_eq!(e.get_keyboard_extra_info(), 6002);
    release_ids(&mut s, &mut e, 1);
    assert_eq!(e.get_mouse_extra_info(), 100);
    assert_eq!(e.get_keyboard_id(1), None);
}

#[test]
fn class_registration() {
    assert!(class_registration_ok(0xC001, None));
    assert!(class_registration_ok(0, Some(1410)));
    assert!(!class_registration_ok(0, Some(5)));
    assert!(!class_registration_ok(0, None));
}

#[test]
fn newest_mousemux_window_class_wins() {
    assert_eq!(find_mousemux_window(&vec![None, Some(0x20), Some(0x30)]), Some((1, 0x20)));
    assert_eq!(find_mousemux_window(&vec![Some(0x10), Some(0x20), None]), Some((0, 0x10)));
    assert_eq!(find_mousemux_window(&vec![None, None, None]), None);
    assert_eq!(find_mousemux_window(&vec![]), None);
}

fn run_request(plan: &mousemux::session::RequestIdsPlan, failing: Option<usize>) -> (Vec<WindowMessage>, bool) {
    let mut posted_messages = Vec::new();
    let mut posted = 0usize;
    let mut last_ok = true;
    loop {
        match request_ids_step(plan, posted, last_ok) {
            PostStep::Post(m) => {
                posted_messages.push(m);
                last_ok = failing != Some(posted);
                posted += 1;
            }
            PostStep::Finished(r) => return (posted_messages, r),
        }
    }
}

#[test]
fn posting_stops_at_first_failed_post() {
    let mut s = MouseMuxState::new();
    s.hwnd = Some(9);
    let plan = request_ids(&mut s, 2, "ab");
    let all = plan.messages.clone();
    assert_eq!(all.len(), 1 + 8 + 4 + 1);
    assert_eq!(run_request(&plan, None), (all.clone(), true));
    assert_eq!(run_request(&plan, Some(0)), (all[..1].to_vec(), false));
    assert_eq!(run_request(&plan, Some(3)), (all[..4].to_vec(), false));
    assert_eq!(run_request(&plan, Some(13)), (all.clone(), false));
    let mut s2 = MouseMuxState::new();
    let plan2 = request_ids(&mut s2, 2, "ab");
    assert_eq!(run_request(&plan2, None), (plan2.messages.clone(), false));
}

#[test]
fn user_add_at_the_largest_count_saturates_then_reconciles() {
    let mut s = MouseMuxState::new();
    let mut users = usize::MAX;
    let mut flag = false;
    window_proc(&mut s, &mut users, &mut flag, MOUSEMUX_USER_ADD, 0, 4);
    assert_eq!(users, 4);
    users = usize::MAX;
    window_proc(&mut s, &mut users, &mut flag, MOUSEMUX_USER_ADD, 0, -1);
    assert_eq!(users, usize::MAX);
}
