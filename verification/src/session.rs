//! RustDesk's side of MouseMux: the per-connection device IDs that MouseMux
//! assigned, the connected-user count that mirrors MouseMux's, and the
//! decisions taken on each message that MouseMux sends.
use std::collections::HashMap;
use vstd::prelude::*;
use crate::enigo::Enigo;
use crate::protocol::{
    push_name_messages, request_ids_messages, truncate_peer_info, truncated_peer_info,
    window_message, WindowMessage, MAX_PEER_INFO_LENGTH, MOUSEMUX_NOTIFY_SHUTDOWN,
    MOUSEMUX_NOTIFY_STARTUP, MOUSEMUX_RELEASE_CONNECTION, MOUSEMUX_REQUEST_CONNECTION,
    MOUSEMUX_REQUEST_IDS, PROTOCOL_VERSION, RUSTDESK_VERSION, MOUSEMUX_STARTUP_BROADCAST,
    MOUSEMUX_MOUSE_ID_ASSIGNED, MOUSEMUX_KEYBOARD_ID_ASSIGNED, MOUSEMUX_USER_ADD, MOUSEMUX_USER_REMOVE,
    MOUSEMUX_EXITING, MOUSEMUX_REQUEST_EXIT, WM_DESTROY,
};

verus! {

broadcast use vstd::std_specs::hash::group_hash_axioms;

/// The MouseMux state of one connection.
#[derive(Clone, Debug)]
pub struct MouseMuxConnectionIDs {
    pub conn_id: i32,
    /// The peer's name, "{name}@{id}", as sent to MouseMux.
    pub peer_info: String,
    pub mouse_id: Option<u32>,
    pub keyboard_id: Option<u32>,
}

/// RustDesk's MouseMux state: its message window, and the connections.
pub struct MouseMuxState {
    /// RustDesk's message window, once created.
    pub hwnd: Option<usize>,
    /// conn_id -> the connection's state.
    pub connections: HashMap<i32, MouseMuxConnectionIDs>,
}

pub type Connections = Map<i32, MouseMuxConnectionIDs>;

/// Each connection is filed under its own conn_id, with a name no longer
/// than `MAX_PEER_INFO_LENGTH`.
pub open spec fn connections_wf(m: Connections) -> bool {
    forall|k: i32| #[trigger] m.contains_key(k) ==> m[k].conn_id == k
        && m[k].peer_info@.len() <= MAX_PEER_INFO_LENGTH
}

/// The mouse and keyboard IDs of a connection, once MouseMux assigned both.
pub open spec fn ids_of(m: Connections, conn_id: i32) -> Option<(u32, u32)> {
    if m.contains_key(conn_id) && m[conn_id].mouse_id is Some && m[conn_id].keyboard_id is Some {
        Some((m[conn_id].mouse_id->0, m[conn_id].keyboard_id->0))
    } else {
        None
    }
}

/// `after` is `before` with `conn_id` registered under the name `name`: an
/// existing connection keeps its IDs, a new one has none.
pub open spec fn registered(before: Connections, after: Connections, conn_id: i32, name: Seq<char>) -> bool {
    &&& after.dom() == before.dom().insert(conn_id)
    &&& forall|k: i32| k != conn_id && #[trigger] before.contains_key(k) ==> after[k] == before[k]
    &&& after[conn_id].peer_info@ == name
    &&& if before.contains_key(conn_id) {
        &&& after[conn_id].conn_id == before[conn_id].conn_id
        &&& after[conn_id].mouse_id == before[conn_id].mouse_id
        &&& after[conn_id].keyboard_id == before[conn_id].keyboard_id
    } else {
        &&& after[conn_id].conn_id == conn_id
        &&& after[conn_id].mouse_id is None
        &&& after[conn_id].keyboard_id is None
    }
}

impl MouseMuxState {
    pub open spec fn wf(&self) -> bool {
        connections_wf(self.connections@)
    }

    /// No window, no connections.
    pub fn new() -> (s: Self)
        ensures
            s.hwnd is None,
            s.connections@ == Connections::empty(),
            s.wf(),
    {
        MouseMuxState { hwnd: None, connections: HashMap::new() }
    }
}

/// RustDesk's message window.
pub fn get_rustdesk_hwnd(state: &MouseMuxState) -> (r: Option<usize>)
    ensures
        r == state.hwnd,
{
    state.hwnd
}

/// The mouse and keyboard IDs of a connection, once both are assigned.
pub fn get_ids_for_connection(state: &MouseMuxState, conn_id: i32) -> (r: Option<(u32, u32)>)
    ensures
        r == ids_of(state.connections@, conn_id),
{
    match state.connections.get(&conn_id) {
        Some(conn) => match (conn.mouse_id, conn.keyboard_id) {
            (Some(m), Some(k)) => Some((m, k)),
            _ => None,
        },
        None => None,
    }
}

/// Whether a connection has both IDs.
pub fn has_ids_for_connection(state: &MouseMuxState, conn_id: i32) -> (r: bool)
    ensures
        r == ids_of(state.connections@, conn_id) is Some,
{
    match state.connections.get(&conn_id) {
        Some(conn) => conn.mouse_id.is_some() && conn.keyboard_id.is_some(),
        None => false,
    }
}

/// Forget a connection. Returns whether it was tracked (then the injector's
/// copy of its IDs must be synced).
pub fn clear_ids_for_connection(state: &mut MouseMuxState, conn_id: i32) -> (removed: bool)
    ensures
        removed == old(state).connections@.contains_key(conn_id),
        final(state).connections@ == old(state).connections@.remove(conn_id),
        final(state).hwnd == old(state).hwnd,
        old(state).wf() ==> final(state).wf(),
{
    let removed = state.connections.remove(&conn_id).is_some();
    removed
}

/// The messages to post to MouseMux for a connection request, in order.
/// `ids_requested` is whether the last one asks for the IDs: it cannot
/// when RustDesk has no window for MouseMux's reply.
#[derive(Debug)]
pub struct RequestIdsPlan {
    pub messages: Vec<WindowMessage>,
    pub ids_requested: bool,
}

/// Register a connection and plan its ID request. The connection is
/// tracked first, whether or not MouseMux is running, so that it can be
/// registered again when MouseMux starts. Its name is cut to
/// `MAX_PEER_INFO_LENGTH` characters; IDs already assigned are kept.
pub fn request_ids(state: &mut MouseMuxState, conn_id: i32, peer_info: &str) -> (plan: RequestIdsPlan)
    ensures
        final(state).hwnd == old(state).hwnd,
        registered(
            old(state).connections@,
            final(state).connections@,
            conn_id,
            truncated_peer_info(peer_info@),
        ),
        old(state).wf() ==> final(state).wf(),
        plan.messages@ == request_ids_messages(conn_id, truncated_peer_info(peer_info@), old(state).hwnd),
        plan.ids_requested == old(state).hwnd is Some,
{
    let peer = truncate_peer_info(peer_info);
    let entry = match state.connections.remove(&conn_id) {
        Some(conn) => MouseMuxConnectionIDs {
            conn_id: conn.conn_id,
            peer_info: peer.clone(),
            mouse_id: conn.mouse_id,
            keyboard_id: conn.keyboard_id,
        },
        None => MouseMuxConnectionIDs { conn_id, peer_info: peer.clone(), mouse_id: None, keyboard_id: None },
    };
    let ghost old_map = old(state).connections@;
    state.connections.insert(conn_id, entry);
    assert(state.connections@.dom() =~= old_map.dom().insert(conn_id));
    let mut messages: Vec<WindowMessage> = Vec::new();
    messages.push(WindowMessage {
        msg: MOUSEMUX_REQUEST_CONNECTION,
        wparam: conn_id as usize,
        lparam: PROTOCOL_VERSION as isize,
    });
    push_name_messages(&mut messages, conn_id, &peer);
    let ids_requested = match state.hwnd {
        Some(h) => {
            messages.push(WindowMessage { msg: MOUSEMUX_REQUEST_IDS, wparam: conn_id as usize, lparam: h as isize });
            true
        },
        None => false,
    };
    RequestIdsPlan { messages, ids_requested }
}

/// What to do next while posting a connection request.
#[derive(Clone, Copy, Debug, PartialEq, Eq, Structural)]
pub enum PostStep {
    /// Post this message, then ask again.
    Post(WindowMessage),
    /// Stop: the request's result.
    Finished(bool),
}

/// The next step of posting `messages`, once `posted` of them were posted
/// and the last post succeeded or not: a failed post ends the request with
/// `false`; after the last message the request succeeded if it asked for
/// the IDs.
pub open spec fn request_ids_next(messages: Seq<WindowMessage>, ids_requested: bool, posted: nat, last_ok: bool) -> PostStep {
    if !last_ok {
        PostStep::Finished(false)
    } else if posted < messages.len() {
        PostStep::Post(messages[posted as int])
    } else {
        PostStep::Finished(ids_requested)
    }
}

/// Decide the next step of posting a request plan (see `request_ids_next`;
/// start with `posted == 0, last_ok == true`).
pub fn request_ids_step(plan: &RequestIdsPlan, posted: usize, last_ok: bool) -> (r: PostStep)
    ensures
        r == request_ids_next(plan.messages@, plan.ids_requested, posted as nat, last_ok),
{
    if !last_ok {
        PostStep::Finished(false)
    } else if posted < plan.messages.len() {
        PostStep::Post(plan.messages[posted])
    } else {
        PostStep::Finished(plan.ids_requested)
    }
}

/// Release a connection: forget it, reset the injector's copy of its IDs
/// (its input falls back to `ENIGO_INPUT_EXTRA_VALUE`), and only then give
/// the message that tells MouseMux. Local state is cleared whether or not
/// MouseMux is running; `None` when the connection is not tracked (nothing
/// changes).
pub fn release_ids(state: &mut MouseMuxState, enigo: &mut Enigo, conn_id: i32) -> (r: Option<WindowMessage>)
    ensures
        final(state).connections@ == old(state).connections@.remove(conn_id),
        final(state).hwnd == old(state).hwnd,
        old(state).wf() ==> final(state).wf(),
        final(enigo).current() == old(enigo).current(),
        final(enigo).ids() == (if old(state).connections@.contains_key(conn_id) {
            old(enigo).ids().remove(conn_id)
        } else {
            old(enigo).ids()
        }),
        r == (if old(state).connections@.contains_key(conn_id) {
            Some(window_message(MOUSEMUX_RELEASE_CONNECTION, conn_id as usize, 0))
        } else {
            None::<WindowMessage>
        }),
{
    if !state.connections.contains_key(&conn_id) {
        return None;
    }
    clear_ids_for_connection(state, conn_id);
    sync_mousemux_ids(state, enigo, conn_id);
    Some(WindowMessage { msg: MOUSEMUX_RELEASE_CONNECTION, wparam: conn_id as usize, lparam: 0 })
}

/// The startup notification: RustDesk's version and window, if it has one.
pub fn notify_startup(state: &MouseMuxState) -> (r: Option<WindowMessage>)
    ensures
        r == (match state.hwnd {
            Some(h) => Some(window_message(MOUSEMUX_NOTIFY_STARTUP, RUSTDESK_VERSION as usize, h as isize)),
            None => None::<WindowMessage>,
        }),
{
    match state.hwnd {
        Some(h) => Some(WindowMessage {
            msg: MOUSEMUX_NOTIFY_STARTUP,
            wparam: RUSTDESK_VERSION as usize,
            lparam: h as isize,
        }),
        None => None,
    }
}

/// The shutdown notification: RustDesk's version and window, if it has one.
pub fn notify_shutdown(state: &MouseMuxState) -> (r: Option<WindowMessage>)
    ensures
        r == (match state.hwnd {
            Some(h) => Some(window_message(MOUSEMUX_NOTIFY_SHUTDOWN, RUSTDESK_VERSION as usize, h as isize)),
            None => None::<WindowMessage>,
        }),
{
    match state.hwnd {
        Some(h) => Some(WindowMessage {
            msg: MOUSEMUX_NOTIFY_SHUTDOWN,
            wparam: RUSTDESK_VERSION as usize,
            lparam: h as isize,
        }),
        None => None,
    }
}

/// Forget the window and every connection (the window has been closed).
pub fn shutdown_mousemux_window(state: &mut MouseMuxState)
    ensures
        final(state).hwnd is None,
        final(state).connections@ == Connections::empty(),
        final(state).wf(),
{
    state.hwnd = None;
    state.connections.clear();
}

/// Whether any connection has both IDs.
pub fn has_ids(state: &MouseMuxState) -> (r: bool)
    ensures
        r == exists|k: i32| #[trigger] ids_of(state.connections@, k) is Some,
{
    let ghost m = state.connections@;
    let ghost mut n: int = 0;
    for kv in it: state.connections.iter()
        invariant
            m == state.connections@,
            n == it.index(),
            it.seq().len() == m.dom().len(),
            forall|i: int| 0 <= i < it.seq().len() ==> m.contains_key(*it.seq()[i].0) && m[*it.seq()[i].0] == *it.seq()[i].1,
            forall|k: i32| #[trigger] m.contains_key(k) ==> it.seq().contains((&k, &m[k])),
            forall|i: int| 0 <= i < it.index() ==> ids_of(m, *it.seq()[i].0) is None,
    {
        let conn = kv.1;
        if conn.mouse_id.is_some() && conn.keyboard_id.is_some() {
            assert(ids_of(m, *kv.0) is Some);
            return true;
        }
        proof {
            n = n + 1;
        }
    }
    assert(n == m.dom().len());
    false
}

/// Each connection with its name, for registering again once MouseMux
/// restarts: every tracked connection exactly once.
pub fn re_request_all_active_connections(state: &MouseMuxState) -> (r: Vec<(i32, String)>)
    ensures
        r@.len() == state.connections@.dom().len(),
        forall|i: int|
            0 <= i < r@.len() ==> state.connections@.contains_key(#[trigger] r@[i].0)
                && r@[i].1@ == state.connections@[r@[i].0].peer_info@,
        forall|k: i32|
            #[trigger] state.connections@.contains_key(k) ==> exists|i: int| 0 <= i < r@.len() && r@[i].0 == k,
        forall|i: int, j: int| 0 <= i < j < r@.len() ==> r@[i].0 != r@[j].0,
{
    let ghost m = state.connections@;
    let ghost len = m.dom().len() as int;
    let mut out: Vec<(i32, String)> = Vec::new();
    for kv in it: state.connections.iter()
        invariant
            m == state.connections@,
            len == m.dom().len(),
            it.seq().len() == len,
            it.seq().no_duplicates(),
            forall|i: int| 0 <= i < it.seq().len() ==> m.contains_key(*it.seq()[i].0) && m[*it.seq()[i].0] == *it.seq()[i].1,
            forall|k: i32| #[trigger] m.contains_key(k) ==> it.seq().contains((&k, &m[k])),
            out@.len() == it.index(),
            forall|i: int| 0 <= i < it.index() ==> #[trigger] out@[i].0 == *it.seq()[i].0
                && out@[i].1@ == it.seq()[i].1.peer_info@,
            forall|k: i32| #[trigger] m.contains_key(k) ==> (exists|i: int| 0 <= i < out@.len() && out@[i].0 == k)
                || (exists|j: int| out@.len() <= j < len && *it.seq()[j].0 == k),
            forall|i: int, j: int| 0 <= i < j < out@.len() ==> out@[i].0 != out@[j].0,
    {
        let ghost n = out@.len() as int;
        let ghost prev = out@;
        out.push((*kv.0, kv.1.peer_info.clone()));
        proof {
            assert(out@[n].0 == *it.seq()[n].0);
            assert forall|i: int| 0 <= i < n + 1 implies #[trigger] out@[i].0 == *it.seq()[i].0
                && out@[i].1@ == it.seq()[i].1.peer_info@ by {
                if i < n {
                    assert(out@[i] == prev[i]);
                }
            }
            assert forall|i: int, j: int| 0 <= i < j < n + 1 implies out@[i].0 != out@[j].0 by {
                if j == n {
                    assert(out@[i] == prev[i]);
                    if out@[i].0 == out@[j].0 {
                        assert(it.seq()[i] == it.seq()[j]);
                    }
                } else {
                    assert(out@[i] == prev[i]);
                    assert(out@[j] == prev[j]);
                }
            }
            assert forall|k: i32| #[trigger] m.contains_key(k) implies (exists|i: int| 0 <= i < out@.len() && out@[i].0 == k)
                || (exists|j: int| out@.len() <= j < len && *it.seq()[j].0 == k) by {
                if exists|i: int| 0 <= i < n && prev[i].0 == k {
                    let i = choose|i: int| 0 <= i < n && prev[i].0 == k;
                    assert(out@[i] == prev[i]);
                } else {
                    let j = choose|j: int| n <= j < len && *it.seq()[j].0 == k;
                    if j == n {
                        assert(out@[n].0 == k);
                    }
                }
            }
        }
    }
    out
}

/// `RegisterClassExA` fails with this error when the class is registered
/// already (by an earlier initialisation in this process).
pub const ERROR_CLASS_ALREADY_EXISTS: i32 = 1410;

/// Whether a window class can be used after registering it: registration
/// succeeded (a non-zero atom), or failed only because the class exists.
pub fn class_registration_ok(atom: u16, os_error: Option<i32>) -> (r: bool)
    ensures
        r == (atom != 0 || os_error == Some(ERROR_CLASS_ALREADY_EXISTS)),
{
    if atom == 0 {
        match os_error {
            Some(e) => e == ERROR_CLASS_ALREADY_EXISTS,
            None => false,
        }
    } else {
        true
    }
}

/// The number of users connected, as MouseMux reports them.
pub fn get_connected_users_count(count: &usize) -> (r: usize)
    ensures
        r == *count,
{
    *count
}

/// One more user.
pub fn increment_connected_users(count: &mut usize)
    requires
        *old(count) < usize::MAX,
    ensures
        *final(count) == *old(count) + 1,
{
    *count = *count + 1;
}

/// One user fewer; the count does not go below zero.
pub fn decrement_connected_users(count: &mut usize)
    ensures
        *final(count) == (if *old(count) > 0 { *old(count) - 1 } else { 0 }),
{
    if *count > 0 {
        *count = *count - 1;
    }
}

/// Set the count to MouseMux's own, which is authoritative.
pub fn set_connected_users_count(count: &mut usize, value: usize)
    ensures
        *final(count) == value,
{
    *count = value;
}

/// What the message window does after handling a message.
#[derive(Clone, Copy, Debug, PartialEq, Eq, Structural)]
pub enum WindowProcAction {
    /// Nothing more; the message is answered with 0.
    Done,
    /// Off the message thread: notify MouseMux of RustDesk's startup,
    /// register every connection again, then clear the in-flight flag.
    Reregister,
    /// Copy this connection's IDs to the input injector.
    SyncIds(i32),
    /// Refresh the main window's title.
    UpdateTitle,
    /// Off the message thread: notify MouseMux of RustDesk's shutdown, then
    /// exit the process.
    NotifyShutdownAndExit,
    /// End the message loop.
    PostQuit,
    /// Not a MouseMux message: hand it to the default window procedure.
    Default,
}

/// `after` is `before` with MouseMux's mouse ID `id` recorded for `conn_id`. A
/// connection that is not tracked (it went away before the reply) is
/// tracked again, with an empty name.
pub open spec fn mouse_id_assigned(before: Connections, after: Connections, conn_id: i32, id: u32) -> bool {
    &&& after.dom() == before.dom().insert(conn_id)
    &&& forall|k: i32| k != conn_id && #[trigger] before.contains_key(k) ==> after[k] == before[k]
    &&& if before.contains_key(conn_id) {
        after[conn_id] == MouseMuxConnectionIDs { mouse_id: Some(id), ..before[conn_id] }
    } else {
        &&& after[conn_id].conn_id == conn_id
        &&& after[conn_id].peer_info@ == Seq::<char>::empty()
        &&& after[conn_id].mouse_id == Some(id)
        &&& after[conn_id].keyboard_id is None
    }
}

/// `after` is `before` with MouseMux's keyboard ID `id` recorded for `conn_id`
/// (as in `mouse_id_assigned`).
pub open spec fn keyboard_id_assigned(before: Connections, after: Connections, conn_id: i32, id: u32) -> bool {
    &&& after.dom() == before.dom().insert(conn_id)
    &&& forall|k: i32| k != conn_id && #[trigger] before.contains_key(k) ==> after[k] == before[k]
    &&& if before.contains_key(conn_id) {
        after[conn_id] == MouseMuxConnectionIDs { keyboard_id: Some(id), ..before[conn_id] }
    } else {
        &&& after[conn_id].conn_id == conn_id
        &&& after[conn_id].peer_info@ == Seq::<char>::empty()
        &&& after[conn_id].mouse_id is None
        &&& after[conn_id].keyboard_id == Some(id)
    }
}

/// What the message window does on a message (see `window_proc`).
pub open spec fn window_proc_action(msg: u32, wparam: usize, reregister_in_flight: bool) -> WindowProcAction {
    if msg == MOUSEMUX_STARTUP_BROADCAST {
        if reregister_in_flight { WindowProcAction::Done } else { WindowProcAction::Reregister }
    } else if msg == MOUSEMUX_MOUSE_ID_ASSIGNED || msg == MOUSEMUX_KEYBOARD_ID_ASSIGNED {
        WindowProcAction::SyncIds(wparam as i32)
    } else if msg == MOUSEMUX_USER_ADD || msg == MOUSEMUX_USER_REMOVE || msg == MOUSEMUX_EXITING {
        WindowProcAction::UpdateTitle
    } else if msg == MOUSEMUX_REQUEST_EXIT {
        WindowProcAction::NotifyShutdownAndExit
    } else if msg == WM_DESTROY {
        WindowProcAction::PostQuit
    } else {
        WindowProcAction::Default
    }
}

/// The user count after a message: MouseMux's count (its parameter) after
/// a user is added or removed, zero once MouseMux exits, else unchanged.
pub open spec fn users_after(msg: u32, lparam: isize, users: usize) -> usize {
    if msg == MOUSEMUX_USER_ADD || msg == MOUSEMUX_USER_REMOVE {
        lparam as usize
    } else if msg == MOUSEMUX_EXITING {
        0
    } else {
        users
    }
}

/// Handle a message sent to RustDesk's MouseMux window.
///
/// A startup broadcast starts one re-registration; broadcasts that arrive
/// while one is in flight are ignored. An assigned ID is recorded for its
/// connection. On a user added or removed, the count is stepped and then
/// reconciled to MouseMux's count, which wins. When MouseMux exits, the
/// count is reset.
pub fn window_proc(
    state: &mut MouseMuxState,
    users: &mut usize,
    reregister_in_flight: &mut bool,
    msg: u32,
    wparam: usize,
    lparam: isize,
) -> (r: WindowProcAction)
    ensures
        r == window_proc_action(msg, wparam, *old(reregister_in_flight)),
        *final(reregister_in_flight) == (msg == MOUSEMUX_STARTUP_BROADCAST || *old(reregister_in_flight)),
        *final(users) == users_after(msg, lparam, *old(users)),
        final(state).hwnd == old(state).hwnd,
        msg == MOUSEMUX_MOUSE_ID_ASSIGNED ==> mouse_id_assigned(
            old(state).connections@,
            final(state).connections@,
            wparam as i32,
            lparam as u32,
        ),
        msg == MOUSEMUX_KEYBOARD_ID_ASSIGNED ==> keyboard_id_assigned(
            old(state).connections@,
            final(state).connections@,
            wparam as i32,
            lparam as u32,
        ),
        msg != MOUSEMUX_MOUSE_ID_ASSIGNED && msg != MOUSEMUX_KEYBOARD_ID_ASSIGNED
            ==> final(state).connections@ == old(state).connections@,
        old(state).wf() ==> final(state).wf(),
{
    if msg == MOUSEMUX_STARTUP_BROADCAST {
        if *reregister_in_flight {
            return WindowProcAction::Done;
        }
        *reregister_in_flight = true;
        WindowProcAction::Reregister
    } else if msg == MOUSEMUX_MOUSE_ID_ASSIGNED {
        let conn_id = wparam as i32;
        let mouse_id = lparam as u32;
        let entry = match state.connections.remove(&conn_id) {
            Some(conn) => MouseMuxConnectionIDs { mouse_id: Some(mouse_id), ..conn },
            None => MouseMuxConnectionIDs {
                conn_id,
                peer_info: String::new(),
                mouse_id: Some(mouse_id),
                keyboard_id: None,
            },
        };
        let ghost old_map = old(state).connections@;
        state.connections.insert(conn_id, entry);
        assert(state.connections@.dom() =~= old_map.dom().insert(conn_id));
        WindowProcAction::SyncIds(conn_id)
    } else if msg == MOUSEMUX_KEYBOARD_ID_ASSIGNED {
        let conn_id = wparam as i32;
        let keyboard_id = lparam as u32;
        let entry = match state.connections.remove(&conn_id) {
            Some(conn) => MouseMuxConnectionIDs { keyboard_id: Some(keyboard_id), ..conn },
            None => MouseMuxConnectionIDs {
                conn_id,
                peer_info: String::new(),
                mouse_id: None,
                keyboard_id: Some(keyboard_id),
            },
        };
        let ghost old_map = old(state).connections@;
        state.connections.insert(conn_id, entry);
        assert(state.connections@.dom() =~= old_map.dom().insert(conn_id));
        WindowProcAction::SyncIds(conn_id)
    } else if msg == MOUSEMUX_USER_ADD {
        let mousemux_total = lparam as usize;
        // At usize::MAX the step saturates; the count is reconciled next.
        if *users < usize::MAX {
            increment_connected_users(users);
        }
        let our_count = get_connected_users_count(users);
        if our_count != mousemux_total {
            set_connected_users_count(users, mousemux_total);
        }
        WindowProcAction::UpdateTitle
    } else if msg == MOUSEMUX_USER_REMOVE {
        let mousemux_total = lparam as usize;
        decrement_connected_users(users);
        let our_count = get_connected_users_count(users);
        if our_count != mousemux_total {
            set_connected_users_count(users, mousemux_total);
        }
        WindowProcAction::UpdateTitle
    } else if msg == MOUSEMUX_EXITING {
        *users = 0;
        WindowProcAction::UpdateTitle
    } else if msg == MOUSEMUX_REQUEST_EXIT {
        WindowProcAction::NotifyShutdownAndExit
    } else if msg == WM_DESTROY {
        WindowProcAction::PostQuit
    } else {
        WindowProcAction::Default
    }
}

/// Copy a connection's IDs from the MouseMux state to the input injector:
/// both IDs once assigned, else none (input falls back to the default).
pub fn sync_mousemux_ids(state: &MouseMuxState, enigo: &mut Enigo, conn_id: i32)
    ensures
        final(enigo).current() == old(enigo).current(),
        final(enigo).ids() == match ids_of(state.connections@, conn_id) {
            Some((m, k)) => old(enigo).ids().insert(conn_id, (m as usize, k as usize)),
            None => old(enigo).ids().remove(conn_id),
        },
{
    match get_ids_for_connection(state, conn_id) {
        Some((m, k)) => enigo.set_mousemux_ids(conn_id, Some(m), Some(k)),
        None => enigo.set_mousemux_ids(conn_id, None, None),
    }
}

/// Pick MouseMux's window from the lookups of its window classes, given
/// newest class first: the first class that has a window wins. Returns that
/// class's position and its window.
pub fn find_mousemux_window(lookups: &Vec<Option<usize>>) -> (r: Option<(usize, usize)>)
    ensures
        r is None <==> forall|i: int| 0 <= i < lookups@.len() ==> #[trigger] lookups@[i] is None,
        r matches Some((i, h)) ==> i < lookups@.len() && lookups@[i as int] == Some(h)
            && forall|j: int| 0 <= j < i ==> #[trigger] lookups@[j] is None,
{
    let mut i: usize = 0;
    while i < lookups.len()
        invariant
            i <= lookups@.len(),
            forall|j: int| 0 <= j < i ==> #[trigger] lookups@[j] is None,
        decreases lookups@.len() - i,
    {
        if let Some(h) = lookups[i] {
            return Some((i, h));
        }
        i = i + 1;
    }
    None
}

} // verus!
