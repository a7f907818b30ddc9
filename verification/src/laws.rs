//! Properties of the library that span several calls.
use vstd::prelude::*;
use crate::enigo::{
    modifier_held, spec_keybd_event_flags,
    char_events, key_up_outcome, mouse_down_event, mouse_up_event, sequence_events, KeyDownError,
    held_modifiers, key_down_next, key_down_outcome, plan_events, KeyDownPlanView, KeyDownStepView, key_press, key_release, keycode_of, presses_of,
    releases_of, utf16_units, Enigo, ENIGO_INPUT_EXTRA_VALUE,
};
use crate::input::{
    Key, KeybdInput, MouseButton, KEYEVENTF_EXTENDEDKEY, KEYEVENTF_KEYUP, KEYEVENTF_UNICODE, MOUSEEVENTF_ABSOLUTE,
    MOUSEEVENTF_HWHEEL, MOUSEEVENTF_MOVE, MOUSEEVENTF_VIRTUALDESK, MOUSEEVENTF_WHEEL, XBUTTON1, XBUTTON2,
};
use crate::session::{
    ids_of, users_after, keyboard_id_assigned, mouse_id_assigned, registered, request_ids_next, window_proc_action,
    Connections, PostStep, WindowProcAction,
};
use crate::protocol::{
    name_code, name_messages, name_terminator, request_ids_messages, truncated_peer_info, window_message,
    WindowMessage, MAX_PEER_INFO_LENGTH, MOUSEMUX_EXITING, MOUSEMUX_KEYBOARD_ID_ASSIGNED,
    MOUSEMUX_MOUSE_ID_ASSIGNED, MOUSEMUX_NOTIFY_SHUTDOWN, MOUSEMUX_NOTIFY_STARTUP,
    MOUSEMUX_RELEASE_CONNECTION, MOUSEMUX_REQUEST_CONNECTION, MOUSEMUX_REQUEST_EXIT, MOUSEMUX_REQUEST_IDS,
    MOUSEMUX_SET_CONNECTION_NAME, MOUSEMUX_STARTUP_BROADCAST, MOUSEMUX_USER_ADD, MOUSEMUX_USER_REMOVE,
    PROTOCOL_VERSION, RUSTDESK_VERSION, WM_DESTROY,
};

verus! {

/// The UTF-32 value that MouseMux assembles from four name messages,
/// starting at `start`: their bytes, low byte first.
pub open spec fn assembled_code(messages: Seq<WindowMessage>, start: int) -> int {
    messages[start].lparam + 256 * messages[start + 1].lparam + 65536 * messages[start + 2].lparam
        + 16777216 * messages[start + 3].lparam
}

/// Once MouseMux assigned a mouse ID and then a keyboard ID to a
/// connection, both are read back for it.
pub proof fn lemma_assigned_ids_read_back(
    m0: Connections,
    m1: Connections,
    m2: Connections,
    conn_id: i32,
    mouse_id: u32,
    keyboard_id: u32,
)
    requires
        mouse_id_assigned(m0, m1, conn_id, mouse_id),
        keyboard_id_assigned(m1, m2, conn_id, keyboard_id),
    ensures
        ids_of(m2, conn_id) == Some((mouse_id, keyboard_id)),
        forall|k: i32| k != conn_id ==> #[trigger] ids_of(m2, k) == ids_of(m0, k),
{
    assert(m1.contains_key(conn_id));
    assert forall|k: i32| k != conn_id implies #[trigger] ids_of(m2, k) == ids_of(m0, k) by {
        if m0.contains_key(k) {
            assert(m1.contains_key(k));
        }
    }
}

/// The IDs arrive in either order: a keyboard ID and then a mouse ID are
/// read back as well.
pub proof fn lemma_assigned_ids_read_back_any_order(
    m0: Connections,
    m1: Connections,
    m2: Connections,
    conn_id: i32,
    mouse_id: u32,
    keyboard_id: u32,
)
    requires
        keyboard_id_assigned(m0, m1, conn_id, keyboard_id),
        mouse_id_assigned(m1, m2, conn_id, mouse_id),
    ensures
        ids_of(m2, conn_id) == Some((mouse_id, keyboard_id)),
        forall|k: i32| k != conn_id ==> #[trigger] ids_of(m2, k) == ids_of(m0, k),
{
    assert(m1.contains_key(conn_id));
    assert forall|k: i32| k != conn_id implies #[trigger] ids_of(m2, k) == ids_of(m0, k) by {
        if m0.contains_key(k) {
            assert(m1.contains_key(k));
        }
    }
}

/// Registering a connection again (as on a MouseMux restart) keeps every
/// ID already assigned, its own and every other connection's.
pub proof fn lemma_registration_keeps_ids(m0: Connections, m1: Connections, conn_id: i32, name: Seq<char>)
    requires
        registered(m0, m1, conn_id, name),
    ensures
        forall|k: i32| #[trigger] ids_of(m1, k) == ids_of(m0, k),
{
    assert forall|k: i32| #[trigger] ids_of(m1, k) == ids_of(m0, k) by {
        if k != conn_id && m0.contains_key(k) {
            assert(m1[k] == m0[k]);
        }
    }
}

/// A released connection has no IDs; the others keep theirs.
pub proof fn lemma_release_forgets_ids(m0: Connections, m1: Connections, conn_id: i32)
    requires
        m1 == m0.remove(conn_id),
    ensures
        ids_of(m1, conn_id) is None,
        forall|k: i32| k != conn_id ==> #[trigger] ids_of(m1, k) == ids_of(m0, k),
{
}

/// A name is sent as at most `MAX_PEER_INFO_LENGTH` characters, the first
/// ones of the peer's name.
pub proof fn lemma_truncated_peer_info(s: Seq<char>)
    ensures
        truncated_peer_info(s).len() <= MAX_PEER_INFO_LENGTH,
        truncated_peer_info(s).len() == (if s.len() <= MAX_PEER_INFO_LENGTH { s.len() } else { MAX_PEER_INFO_LENGTH as nat }),
        forall|i: int| 0 <= i < truncated_peer_info(s).len() ==> #[trigger] truncated_peer_info(s)[i] == s[i],
{
}

/// MouseMux reads the name back: every group of four name messages
/// assembles the code sent for its character (the character itself when
/// it is ASCII, else '?'), so no character but NUL ends the name early;
/// every byte passes MouseMux's 0..=127 check, every message names the
/// connection, and the terminator assembles zero.
pub proof fn lemma_name_round_trip(conn_id: i32, name: Seq<char>)
    ensures
        name_messages(conn_id, name).len() == 4 * name.len(),
        forall|i: int|
            0 <= i < name.len() ==> #[trigger] assembled_code(name_messages(conn_id, name), 4 * i)
                == name_code(name[i]),
        forall|i: int| 0 <= i < name.len() ==> ((name[i] as u32) < 128 ==> #[trigger] name_code(name[i]) == name[i] as u32),
        forall|i: int|
            0 <= i < name.len() ==> #[trigger] assembled_code(name_messages(conn_id, name), 4 * i) == (if (
            name[i] as u32) < 128 {
                name[i] as u32 as int
            } else {
                0x3F
            }),
        forall|i: int|
            0 <= i < name.len() && (name[i] as u32) != 0 ==> #[trigger] assembled_code(name_messages(conn_id, name), 4 * i)
                != 0,
        forall|j: int|
            0 <= j < 4 * name.len() ==> 0 <= #[trigger] name_messages(conn_id, name)[j].lparam <= 127
                && name_messages(conn_id, name)[j].msg == MOUSEMUX_SET_CONNECTION_NAME
                && name_messages(conn_id, name)[j].wparam == conn_id as usize,
        assembled_code(name_terminator(conn_id), 0) == 0,
{
    let msgs = name_messages(conn_id, name);
    assert forall|i: int| 0 <= i < name.len() implies #[trigger] assembled_code(msgs, 4 * i) == name_code(name[i]) by {
        assert((4 * i) % 4 == 0 && (4 * i) / 4 == i);
        assert((4 * i + 1) % 4 == 1);
        assert((4 * i + 2) % 4 == 2);
        assert((4 * i + 3) % 4 == 3);
    }
    assert forall|j: int| 0 <= j < 4 * name.len() implies 0 <= #[trigger] msgs[j].lparam <= 127
        && msgs[j].msg == MOUSEMUX_SET_CONNECTION_NAME && msgs[j].wparam == conn_id as usize by {
        if j % 4 == 0 {
            assert(0 <= j / 4 < name.len());
        }
    }
}

/// Input injected for a connection carries the IDs that were set for it;
/// once they are cleared it carries the default again.
pub proof fn lemma_injected_input_carries_ids(e0: Enigo, e1: Enigo, conn_id: i32, ids: Option<(u32, u32)>)
    requires
        e1.ids() == match ids {
            Some((m, k)) => e0.ids().insert(conn_id, (m as usize, k as usize)),
            None => e0.ids().remove(conn_id),
        },
        e1.current() == Some(conn_id),
    ensures
        e1.spec_mouse_extra_info() == match ids {
            Some((m, _)) => m as usize,
            None => ENIGO_INPUT_EXTRA_VALUE,
        },
        e1.spec_keyboard_extra_info() == match ids {
            Some((_, k)) => k as usize,
            None => ENIGO_INPUT_EXTRA_VALUE,
        },
{
}

/// Setting one connection's IDs leaves the input of any other connection
/// as it was.
pub proof fn lemma_ids_are_per_connection(e0: Enigo, e1: Enigo, conn_id: i32, ids: Option<(u32, u32)>)
    requires
        e1.ids() == match ids {
            Some((m, k)) => e0.ids().insert(conn_id, (m as usize, k as usize)),
            None => e0.ids().remove(conn_id),
        },
        e1.current() == e0.current(),
        e0.current() != Some(conn_id),
    ensures
        e1.spec_mouse_extra_info() == e0.spec_mouse_extra_info(),
        e1.spec_keyboard_extra_info() == e0.spec_keyboard_extra_info(),
{
}

/// A layout key releases its modifiers in the reverse order of their
/// presses, each on the same key.
pub proof fn lemma_layout_modifiers_balanced(c: char, layout_code: u16, extra_info: usize)
    requires
        layout_code != 0xFFFF,
    ensures
        key_down_outcome(Key::Layout(c), layout_code, extra_info) matches Ok((presses, _, releases)) && {
            &&& presses.len() == releases.len()
            &&& presses.len() <= 3
            &&& forall|i: int|
                0 <= i < presses.len() ==> #[trigger] releases[i] == key_release(
                    presses[presses.len() - 1 - i].vk,
                    extra_info,
                ) && presses[presses.len() - 1 - i] == key_press(presses[presses.len() - 1 - i].vk, extra_info)
        },
{
    let mods = held_modifiers(layout_code);
    let p = presses_of(mods, extra_info);
    let r = releases_of(mods.reverse(), extra_info);
    assert forall|i: int| 0 <= i < p.len() implies #[trigger] r[i] == key_release(p[p.len() - 1 - i].vk, extra_info)
        && p[p.len() - 1 - i] == key_press(p[p.len() - 1 - i].vk, extra_info) by {
        assert(mods.reverse()[i] == mods[mods.len() - 1 - i]);
    }
}

/// The surrogate pair of a character outside the basic plane decodes back
/// to it; a character inside it is sent as its own code unit.
pub proof fn lemma_utf16_round_trip(c: char)
    ensures
        (c as u32) < 0x10000 ==> utf16_units(c) =~= seq![c as u16],
        (c as u32) >= 0x10000 ==> {
            let u = utf16_units(c);
            &&& u.len() == 2
            &&& 0xD800 <= u[0] <= 0xDBFF
            &&& 0xDC00 <= u[1] <= 0xDFFF
            &&& 0x10000 + (u[0] - 0xD800) * 0x400 + (u[1] - 0xDC00) == c as u32
        },
{
    let cp = c as u32;
    if cp >= 0x10000 {
        let v = cp - 0x10000;
        assert(v < 0x100000);
        assert(v / 0x400 < 0x400 && v == (v / 0x400) * 0x400 + v % 0x400) by (nonlinear_arith)
            requires
                v < 0x100000,
        ;
    }
}

/// Startup broadcasts that arrive while a re-registration is in flight
/// start no other.
pub proof fn lemma_duplicate_broadcast_ignored(wparam: usize)
    ensures
        window_proc_action(MOUSEMUX_STARTUP_BROADCAST, wparam, false) == WindowProcAction::Reregister,
        window_proc_action(MOUSEMUX_STARTUP_BROADCAST, wparam, true) == WindowProcAction::Done,
{
}

/// The messages posted, and the result, when the request plan `messages`
/// is posted by following `request_ids_next` from `posted` on, given that
/// the post with index `failed` (if any) fails and every other succeeds.
pub open spec fn request_ids_run(
    messages: Seq<WindowMessage>,
    ids_requested: bool,
    failed: Option<nat>,
    posted: nat,
    last_ok: bool,
) -> (Seq<WindowMessage>, bool)
    decreases messages.len() - posted,
{
    if !last_ok {
        (Seq::empty(), false)
    } else if posted < messages.len() {
        let rest = request_ids_run(messages, ids_requested, failed, posted + 1, failed != Some(posted));
        (seq![messages[posted as int]] + rest.0, rest.1)
    } else {
        (Seq::empty(), ids_requested)
    }
}

/// `request_ids_run` takes, at each point, the step that `request_ids_next`
/// gives.
pub proof fn lemma_request_ids_run_follows_steps(
    messages: Seq<WindowMessage>,
    ids_requested: bool,
    failed: Option<nat>,
    posted: nat,
    last_ok: bool,
)
    ensures
        request_ids_run(messages, ids_requested, failed, posted, last_ok) == match request_ids_next(
            messages,
            ids_requested,
            posted,
            last_ok,
        ) {
            PostStep::Post(m) => {
                let rest = request_ids_run(messages, ids_requested, failed, posted + 1, failed != Some(posted));
                (seq![m] + rest.0, rest.1)
            },
            PostStep::Finished(r) => (Seq::<WindowMessage>::empty(), r),
        },
{
}

proof fn lemma_request_ids_run_from(
    messages: Seq<WindowMessage>,
    ids_requested: bool,
    failed: Option<nat>,
    posted: nat,
)
    requires
        posted <= messages.len(),
        failed matches Some(i) ==> posted <= i < messages.len(),
    ensures
        request_ids_run(messages, ids_requested, failed, posted, true) == match failed {
            Some(i) => (messages.subrange(posted as int, (i + 1) as int), false),
            None => (messages.subrange(posted as int, messages.len() as int), ids_requested),
        },
    decreases messages.len() - posted,
{
    if posted < messages.len() {
        if failed == Some(posted) {
            assert(request_ids_run(messages, ids_requested, failed, posted + 1, false) == (
                Seq::<WindowMessage>::empty(),
                false,
            ));
            assert(messages.subrange(posted as int, (posted + 1) as int) =~= seq![messages[posted as int]]);
        } else {
            lemma_request_ids_run_from(messages, ids_requested, failed, posted + 1);
            let end = match failed {
                Some(i) => (i + 1) as int,
                None => messages.len() as int,
            };
            assert(messages.subrange(posted as int, end) =~= seq![messages[posted as int]]
                + messages.subrange((posted + 1) as int, end));
        }
    } else {
        assert(messages.subrange(posted as int, messages.len() as int) =~= Seq::<WindowMessage>::empty());
    }
}

/// Posting a connection request stops at the first failed post: the
/// messages up to and including it are posted, and the request fails.
/// Without a failure every message is posted, and the request succeeds if
/// it asked for the IDs.
pub proof fn lemma_request_ids_posting(messages: Seq<WindowMessage>, ids_requested: bool, failed: Option<nat>)
    requires
        failed matches Some(i) ==> i < messages.len(),
    ensures
        request_ids_run(messages, ids_requested, failed, 0, true) == match failed {
            Some(i) => (messages.take((i + 1) as int), false),
            None => (messages, ids_requested),
        },
{
    lemma_request_ids_run_from(messages, ids_requested, failed, 0);
    match failed {
        Some(i) => {
            assert(messages.subrange(0, (i + 1) as int) =~= messages.take((i + 1) as int));
        },
        None => {
            assert(messages.subrange(0, messages.len() as int) =~= messages);
        },
    }
}

/// Whether a send left an error text (a failed send without text counts
/// as no error).
pub open spec fn has_error_text(last: Option<Seq<char>>) -> bool {
    last is Some && last->0.len() > 0
}

/// How a key press ends given the key's own error text.
pub open spec fn key_result(error: Seq<char>) -> Result<(), Seq<char>> {
    if error.len() > 0 { Err(error) } else { Ok(()) }
}

pub open spec fn error_text_or_empty(last: Option<Seq<char>>) -> Seq<char> {
    match last {
        Some(e) => e,
        None => Seq::empty(),
    }
}

/// The events sent, and the result, when `plan` is sent by following
/// `key_down_next`, where the send of event `j` leaves the error text
/// `failures(j)` (`None`: it succeeded).
pub open spec fn key_down_run(
    plan: KeyDownPlanView,
    failures: spec_fn(nat) -> Option<Seq<char>>,
    sent: nat,
    error: Seq<char>,
    last: Option<Seq<char>>,
) -> (Seq<KeybdInput>, Result<(), Seq<char>>)
    decreases plan_events(plan).len() - sent,
{
    let (sent2, error2, step) = key_down_next(plan, sent, error, last);
    match step {
        KeyDownStepView::Send(ev) => {
            let rest = key_down_run(plan, failures, sent2, error2, failures(sent));
            (seq![ev] + rest.0, rest.1)
        },
        KeyDownStepView::Finished(r) => (Seq::empty(), r),
    }
}

proof fn lemma_key_down_run_releases(
    plan: KeyDownPlanView,
    failures: spec_fn(nat) -> Option<Seq<char>>,
    sent: nat,
    error: Seq<char>,
    last: Option<Seq<char>>,
)
    requires
        plan.0.len() + 1 <= sent <= plan_events(plan).len(),
    ensures
        key_down_run(plan, failures, sent, error, last) == (
            plan_events(plan).subrange(sent as int, plan_events(plan).len() as int),
            key_result(if sent == plan.0.len() + 1 { error_text_or_empty(last) } else { error }),
        ),
    decreases plan_events(plan).len() - sent,
{
    let events = plan_events(plan);
    let n = events.len();
    let err = if sent == plan.0.len() + 1 { error_text_or_empty(last) } else { error };
    if sent < n {
        lemma_key_down_run_releases(plan, failures, sent + 1, err, failures(sent));
        assert(events.subrange(sent as int, n as int) =~= seq![events[sent as int]] + events.subrange((sent + 1) as int, n as int));
    } else {
        assert(events.subrange(sent as int, n as int) =~= Seq::<KeybdInput>::empty());
    }
}

proof fn lemma_key_down_run_presses_ok(
    plan: KeyDownPlanView,
    failures: spec_fn(nat) -> Option<Seq<char>>,
    sent: nat,
    error: Seq<char>,
    last: Option<Seq<char>>,
)
    requires
        sent <= plan.0.len(),
        sent == 0 || !has_error_text(last),
        forall|j: nat| sent <= j < plan.0.len() ==> !has_error_text(#[trigger] failures(j)),
    ensures
        key_down_run(plan, failures, sent, error, last) == (
            plan_events(plan).subrange(sent as int, plan_events(plan).len() as int),
            key_result(error_text_or_empty(failures(plan.0.len()))),
        ),
    decreases plan.0.len() - sent,
{
    let events = plan_events(plan);
    let n = events.len();
    if sent < plan.0.len() {
        lemma_key_down_run_presses_ok(plan, failures, sent + 1, error, failures(sent));
    } else {
        lemma_key_down_run_releases(plan, failures, sent + 1, error, failures(sent));
    }
    assert(events.subrange(sent as int, n as int) =~= seq![events[sent as int]] + events.subrange((sent + 1) as int, n as int));
}

proof fn lemma_key_down_run_press_fails(
    plan: KeyDownPlanView,
    failures: spec_fn(nat) -> Option<Seq<char>>,
    failed: nat,
    sent: nat,
    error: Seq<char>,
    last: Option<Seq<char>>,
)
    requires
        sent <= failed < plan.0.len(),
        has_error_text(failures(failed)),
        sent == 0 || !has_error_text(last),
        forall|j: nat| sent <= j < failed ==> !has_error_text(#[trigger] failures(j)),
    ensures
        key_down_run(plan, failures, sent, error, last) == (
            plan_events(plan).subrange(sent as int, (failed + 1) as int),
            Err::<(), Seq<char>>(failures(failed)->0),
        ),
    decreases failed - sent,
{
    let events = plan_events(plan);
    if sent < failed {
        lemma_key_down_run_press_fails(plan, failures, failed, sent + 1, error, failures(sent));
        assert(events.subrange(sent as int, (failed + 1) as int) =~= seq![events[sent as int]] + events.subrange(
            (sent + 1) as int,
            (failed + 1) as int,
        ));
    } else {
        let next = key_down_next(plan, (failed + 1) as nat, error, failures(failed));
        assert(next.2 == KeyDownStepView::Finished(Err::<(), Seq<char>>(failures(failed)->0)));
        assert(key_down_run(plan, failures, (failed + 1) as nat, error, failures(failed)) == (
            Seq::<KeybdInput>::empty(),
            Err::<(), Seq<char>>(failures(failed)->0),
        ));
        assert(events.subrange(sent as int, (failed + 1) as int) =~= seq![events[sent as int]]);
    }
}

/// Sending a key press when no modifier press fails: every event is sent
/// (modifier presses, the key, the modifier releases, so no modifier is
/// left held), and the press ends with the key's own error, if it left one.
pub proof fn lemma_key_down_sends_all(plan: KeyDownPlanView, failures: spec_fn(nat) -> Option<Seq<char>>)
    requires
        forall|j: nat| j < plan.0.len() ==> !has_error_text(#[trigger] failures(j)),
    ensures
        key_down_run(plan, failures, 0, Seq::empty(), None) == (
            plan.0 + seq![plan.1] + plan.2,
            key_result(error_text_or_empty(failures(plan.0.len()))),
        ),
{
    lemma_key_down_run_presses_ok(plan, failures, 0, Seq::empty(), None);
    assert(plan_events(plan).subrange(0, plan_events(plan).len() as int) =~= plan_events(plan));
}

/// Sending a key press stops at the first modifier press that fails with
/// an error text: the presses up to it are sent, nothing after, and the
/// press ends with that error.
pub proof fn lemma_key_down_stops_at_failed_press(
    plan: KeyDownPlanView,
    failures: spec_fn(nat) -> Option<Seq<char>>,
    failed: nat,
)
    requires
        failed < plan.0.len(),
        has_error_text(failures(failed)),
        forall|j: nat| j < failed ==> !has_error_text(#[trigger] failures(j)),
    ensures
        key_down_run(plan, failures, 0, Seq::empty(), None) == (
            plan.0.take((failed + 1) as int),
            Err::<(), Seq<char>>(failures(failed)->0),
        ),
{
    lemma_key_down_run_press_fails(plan, failures, failed, 0, Seq::empty(), None);
    assert(plan_events(plan).subrange(0, (failed + 1) as int) =~= plan.0.take((failed + 1) as int));
}

/// The virtual-key code of every named key, as Windows numbers them.
pub proof fn lemma_keycode_table()
    ensures
        keycode_of(Key::Alt) == 0x12,
        keycode_of(Key::Backspace) == 0x08,
        keycode_of(Key::CapsLock) == 0x14,
        keycode_of(Key::Control) == 0xA2,
        keycode_of(Key::Delete) == 0x2E,
        keycode_of(Key::DownArrow) == 0x28,
        keycode_of(Key::End) == 0x23,
        keycode_of(Key::Escape) == 0x1B,
        keycode_of(Key::F1) == 0x70,
        keycode_of(Key::F10) == 0x79,
        keycode_of(Key::F11) == 0x7A,
        keycode_of(Key::F12) == 0x7B,
        keycode_of(Key::F2) == 0x71,
        keycode_of(Key::F3) == 0x72,
        keycode_of(Key::F4) == 0x73,
        keycode_of(Key::F5) == 0x74,
        keycode_of(Key::F6) == 0x75,
        keycode_of(Key::F7) == 0x76,
        keycode_of(Key::F8) == 0x77,
        keycode_of(Key::F9) == 0x78,
        keycode_of(Key::Home) == 0x24,
        keycode_of(Key::LeftArrow) == 0x25,
        keycode_of(Key::Option) == 0x12,
        keycode_of(Key::PageDown) == 0x22,
        keycode_of(Key::PageUp) == 0x21,
        keycode_of(Key::Return) == 0x0D,
        keycode_of(Key::RightArrow) == 0x27,
        keycode_of(Key::Shift) == 0x10,
        keycode_of(Key::Space) == 0x20,
        keycode_of(Key::Tab) == 0x09,
        keycode_of(Key::UpArrow) == 0x26,
        keycode_of(Key::Numpad0) == 0x60,
        keycode_of(Key::Numpad1) == 0x61,
        keycode_of(Key::Numpad2) == 0x62,
        keycode_of(Key::Numpad3) == 0x63,
        keycode_of(Key::Numpad4) == 0x64,
        keycode_of(Key::Numpad5) == 0x65,
        keycode_of(Key::Numpad6) == 0x66,
        keycode_of(Key::Numpad7) == 0x67,
        keycode_of(Key::Numpad8) == 0x68,
        keycode_of(Key::Numpad9) == 0x69,
        keycode_of(Key::Cancel) == 0x03,
        keycode_of(Key::Clear) == 0x0C,
        keycode_of(Key::Pause) == 0x13,
        keycode_of(Key::Kana) == 0x15,
        keycode_of(Key::Hangul) == 0x15,
        keycode_of(Key::Junja) == 0x17,
        keycode_of(Key::Final) == 0x18,
        keycode_of(Key::Hanja) == 0x19,
        keycode_of(Key::Kanji) == 0x19,
        keycode_of(Key::Convert) == 0x1C,
        keycode_of(Key::Select) == 0x29,
        keycode_of(Key::Print) == 0x2A,
        keycode_of(Key::Execute) == 0x2B,
        keycode_of(Key::Snapshot) == 0x2C,
        keycode_of(Key::Insert) == 0x2D,
        keycode_of(Key::Help) == 0x2F,
        keycode_of(Key::Sleep) == 0x5F,
        keycode_of(Key::Separator) == 0x6C,
        keycode_of(Key::Mute) == 0xAD,
        keycode_of(Key::VolumeDown) == 0xAE,
        keycode_of(Key::VolumeUp) == 0xAF,
        keycode_of(Key::Scroll) == 0x91,
        keycode_of(Key::NumLock) == 0x90,
        keycode_of(Key::RWin) == 0x5C,
        keycode_of(Key::Apps) == 0x5D,
        keycode_of(Key::Add) == 0x6B,
        keycode_of(Key::Multiply) == 0x6A,
        keycode_of(Key::Decimal) == 0x6E,
        keycode_of(Key::Subtract) == 0x6D,
        keycode_of(Key::Divide) == 0x6F,
        keycode_of(Key::NumpadEnter) == 0x0D,
        keycode_of(Key::RightShift) == 0xA1,
        keycode_of(Key::RightControl) == 0xA3,
        keycode_of(Key::RightAlt) == 0xA5,
        keycode_of(Key::Meta) == 0x5B,
        keycode_of(Key::Equals) == 0x3D,
        keycode_of(Key::Super) == 0x5B,
        keycode_of(Key::Command) == 0x5B,
        keycode_of(Key::Windows) == 0x5B,
        keycode_of(Key::Meta) == 0x5B,
{
}

/// Keys that Windows gives one virtual-key code: Alt and Option, Kana and
/// Hangul, Hanja and Kanji, Return and NumpadEnter, and the four names of
/// the left Windows key.
pub open spec fn same_physical_key(k1: Key, k2: Key) -> bool {
    ||| k1 == k2
    ||| (k1 == Key::Alt || k1 == Key::Option) && (k2 == Key::Alt || k2 == Key::Option)
    ||| (k1 == Key::Kana || k1 == Key::Hangul) && (k2 == Key::Kana || k2 == Key::Hangul)
    ||| (k1 == Key::Hanja || k1 == Key::Kanji) && (k2 == Key::Hanja || k2 == Key::Kanji)
    ||| (k1 == Key::Return || k1 == Key::NumpadEnter) && (k2 == Key::Return || k2 == Key::NumpadEnter)
    ||| (k1 == Key::Super || k1 == Key::Command || k1 == Key::Windows || k1 == Key::Meta)
        && (k2 == Key::Super || k2 == Key::Command || k2 == Key::Windows || k2 == Key::Meta)
}

/// Two named keys share a virtual-key code only when they are names of the
/// same physical key: no key is sent as another.
pub proof fn lemma_keycodes_distinct(k1: Key, k2: Key)
    requires
        !(k1 is Raw) && !(k1 is Layout),
        !(k2 is Raw) && !(k2 is Layout),
        keycode_of(k1) == keycode_of(k2),
    ensures
        same_physical_key(k1, k2),
{
    lemma_keycode_table();
}

/// Each mouse button is pressed and released with its own pair of flags
/// (the release flag is twice the press flag), the same extra-button data
/// and no motion; scroll "buttons" are neither pressed nor released.
pub proof fn lemma_mouse_buttons(button: MouseButton, extra_info: usize)
    ensures
        mouse_down_event(button, extra_info) is Some <==> mouse_up_event(button, extra_info) is Some,
        mouse_down_event(button, extra_info) matches Some(d) ==> {
            let u = mouse_up_event(button, extra_info)->0;
            &&& u.flags == 2 * d.flags
            &&& d.data == u.data
            &&& d.dx == 0 && d.dy == 0 && u.dx == 0 && u.dy == 0
            &&& d.extra_info == extra_info && u.extra_info == extra_info
        },
        button == MouseButton::Left ==> mouse_down_event(button, extra_info)->0.flags == 0x0002
            && mouse_down_event(button, extra_info)->0.data == 0,
        button == MouseButton::Right ==> mouse_down_event(button, extra_info)->0.flags == 0x0008
            && mouse_down_event(button, extra_info)->0.data == 0,
        button == MouseButton::Middle ==> mouse_down_event(button, extra_info)->0.flags == 0x0020
            && mouse_down_event(button, extra_info)->0.data == 0,
        button == MouseButton::Back ==> mouse_down_event(button, extra_info)->0.flags == 0x0080
            && mouse_down_event(button, extra_info)->0.data == 1,
        button == MouseButton::Forward ==> mouse_down_event(button, extra_info)->0.flags == 0x0080
            && mouse_down_event(button, extra_info)->0.data == 2,
        (button is ScrollUp || button is ScrollDown || button is ScrollLeft || button is ScrollRight)
            ==> mouse_down_event(button, extra_info) is None,
{
}

/// A layout key is pressed and released on the virtual-key code in the low
/// byte of its layout code, whole, with Shift, Control and Alt pressed
/// first when bits 0, 1 and 2 of the high byte ask for them; a character
/// the layout cannot type is refused, and not released either.
pub proof fn lemma_layout_key_codes(c: char, code: u16, extra_info: usize)
    ensures
        code == 0xFFFF ==> key_down_outcome(Key::Layout(c), code, extra_info) == Err::<KeyDownPlanView, KeyDownError>(
            KeyDownError::NoLayoutKeycode(c),
        ) && key_up_outcome(Key::Layout(c), code, extra_info) is None,
        code != 0xFFFF ==> (key_down_outcome(Key::Layout(c), code, extra_info) matches Ok((presses, main, releases)) && {
            &&& main == KeybdInput { flags: 0, vk: (code as int % 256) as u16, scan: 0, extra_info }
            &&& key_up_outcome(Key::Layout(c), code, extra_info) == Some(
                KeybdInput { flags: 2, vk: (code as int % 256) as u16, scan: 0, extra_info },
            )
            &&& presses == (if (code as int / 256) % 2 == 1 {
                seq![KeybdInput { flags: 0, vk: 0x10, scan: 0, extra_info }]
            } else {
                Seq::empty()
            }) + (if (code as int / 512) % 2 == 1 {
                seq![KeybdInput { flags: 0, vk: 0xA2, scan: 0, extra_info }]
            } else {
                Seq::empty()
            }) + (if (code as int / 1024) % 2 == 1 {
                seq![KeybdInput { flags: 0, vk: 0x12, scan: 0, extra_info }]
            } else {
                Seq::empty()
            })
            &&& releases == (if (code as int / 1024) % 2 == 1 {
                seq![KeybdInput { flags: 2, vk: 0x12, scan: 0, extra_info }]
            } else {
                Seq::empty()
            }) + (if (code as int / 512) % 2 == 1 {
                seq![KeybdInput { flags: 2, vk: 0xA2, scan: 0, extra_info }]
            } else {
                Seq::empty()
            }) + (if (code as int / 256) % 2 == 1 {
                seq![KeybdInput { flags: 2, vk: 0x10, scan: 0, extra_info }]
            } else {
                Seq::empty()
            })
        }),
{
    assert(code & 0xFFu16 == (code as int % 256) as u16) by (bit_vector);
    assert(((code >> 8u16) & 1u16 != 0) == ((code as int / 256) % 2 == 1)) by (bit_vector);
    assert(((code >> 8u16) & 2u16 != 0) == ((code as int / 512) % 2 == 1)) by (bit_vector);
    assert(((code >> 8u16) & 4u16 != 0) == ((code as int / 1024) % 2 == 1)) by (bit_vector);
    lemma_keycode_table();
    if code != 0xFFFF {
        let mods = held_modifiers(code);
        assert(presses_of(mods, extra_info) =~= (if (code as int / 256) % 2 == 1 {
            seq![KeybdInput { flags: 0, vk: 0x10, scan: 0, extra_info }]
        } else {
            Seq::empty()
        }) + (if (code as int / 512) % 2 == 1 {
            seq![KeybdInput { flags: 0, vk: 0xA2, scan: 0, extra_info }]
        } else {
            Seq::empty()
        }) + (if (code as int / 1024) % 2 == 1 {
            seq![KeybdInput { flags: 0, vk: 0x12, scan: 0, extra_info }]
        } else {
            Seq::empty()
        }));
        let m0: Seq<Key> = if modifier_held(code, 0) { seq![Key::Shift] } else { Seq::empty() };
        let m1: Seq<Key> = if modifier_held(code, 1) { seq![Key::Control] } else { Seq::empty() };
        let m2: Seq<Key> = if modifier_held(code, 2) { seq![Key::Alt] } else { Seq::empty() };
        assert(mods.reverse() =~= m2 + m1 + m0);
        assert(KEYEVENTF_KEYUP == 2);
        assert(releases_of(mods.reverse(), extra_info) =~= (if (code as int / 1024) % 2 == 1 {
            seq![KeybdInput { flags: 2, vk: 0x12, scan: 0, extra_info }]
        } else {
            Seq::empty()
        }) + (if (code as int / 512) % 2 == 1 {
            seq![KeybdInput { flags: 2, vk: 0xA2, scan: 0, extra_info }]
        } else {
            Seq::empty()
        }) + (if (code as int / 256) % 2 == 1 {
            seq![KeybdInput { flags: 2, vk: 0x10, scan: 0, extra_info }]
        } else {
            Seq::empty()
        }));
    }
}

/// Typing a character sends its UTF-16 code units unchanged: a character
/// of the basic plane is pressed and released as its own code point, one
/// outside it is pressed as the surrogate pair that decodes back to it.
pub proof fn lemma_char_events_type_the_char(c: char, extra_info: usize)
    ensures
        (c as u32) < 0x10000 ==> char_events(c, extra_info) == seq![
            KeybdInput { flags: 4, vk: 0, scan: c as u16, extra_info },
            KeybdInput { flags: 6, vk: 0, scan: c as u16, extra_info },
        ] && c as u16 as int == c as u32 as int,
        (c as u32) >= 0x10000 ==> {
            let ev = char_events(c, extra_info);
            &&& ev.len() == 2
            &&& ev[0].flags == 4 && ev[1].flags == 4
            &&& ev[0].vk == 0 && ev[1].vk == 0
            &&& ev[0].extra_info == extra_info && ev[1].extra_info == extra_info
            &&& 0xD800 <= ev[0].scan <= 0xDBFF
            &&& 0xDC00 <= ev[1].scan <= 0xDFFF
            &&& 0x10000 + (ev[0].scan - 0xD800) * 0x400 + (ev[1].scan - 0xDC00) == c as u32
        },
{
    lemma_utf16_round_trip(c);
    assert(KEYEVENTF_UNICODE | KEYEVENTF_KEYUP == 6) by (bit_vector);
}

/// Typing a string sends the events of each character in order: character
/// `i` occupies events `2 * i` and `2 * i + 1`.
pub proof fn lemma_sequence_events_in_order(s: Seq<char>, extra_info: usize)
    ensures
        sequence_events(s, extra_info).len() == 2 * s.len(),
        forall|i: int| 0 <= i < s.len() ==> #[trigger] sequence_events(s, extra_info).subrange(2 * i, 2 * i + 2)
            == char_events(s[i], extra_info),
    decreases s.len(),
{
    if s.len() > 0 {
        let t = s.drop_last();
        lemma_sequence_events_in_order(t, extra_info);
        let ev = sequence_events(s, extra_info);
        assert forall|i: int| 0 <= i < s.len() implies #[trigger] ev.subrange(2 * i, 2 * i + 2) == char_events(s[i], extra_info) by {
            if i < t.len() {
                assert(ev.subrange(2 * i, 2 * i + 2) =~= sequence_events(t, extra_info).subrange(2 * i, 2 * i + 2));
                assert(t[i] == s[i]);
            } else {
                assert(ev.subrange(2 * i, 2 * i + 2) =~= char_events(s.last(), extra_info));
            }
        }
    }
}

/// The numbers of the protocol and of the input events, as MouseMux and
/// Windows define them.
pub proof fn lemma_protocol_numbers()
    ensures
        MOUSEMUX_NOTIFY_STARTUP == 0x800A && MOUSEMUX_NOTIFY_SHUTDOWN == 0x8014,
        MOUSEMUX_REQUEST_CONNECTION == 0x801E && MOUSEMUX_SET_CONNECTION_NAME == 0x8028,
        MOUSEMUX_REQUEST_IDS == 0x8032 && MOUSEMUX_RELEASE_CONNECTION == 0x803C,
        MOUSEMUX_STARTUP_BROADCAST == 0x8064 && MOUSEMUX_MOUSE_ID_ASSIGNED == 0x806E,
        MOUSEMUX_KEYBOARD_ID_ASSIGNED == 0x8078 && MOUSEMUX_USER_ADD == 0x80A0,
        MOUSEMUX_USER_REMOVE == 0x80AA && MOUSEMUX_REQUEST_EXIT == 0x80C8 && MOUSEMUX_EXITING == 0x80D2,
        WM_DESTROY == 0x0002,
        PROTOCOL_VERSION == 123 && RUSTDESK_VERSION == 149 && MAX_PEER_INFO_LENGTH == 256,
        ENIGO_INPUT_EXTRA_VALUE == 100,
        KEYEVENTF_EXTENDEDKEY == 1 && KEYEVENTF_KEYUP == 2 && KEYEVENTF_UNICODE == 4,
        MOUSEEVENTF_MOVE == 0x0001 && MOUSEEVENTF_WHEEL == 0x0800 && MOUSEEVENTF_HWHEEL == 0x1000,
        MOUSEEVENTF_VIRTUALDESK == 0x4000 && MOUSEEVENTF_ABSOLUTE == 0x8000,
        XBUTTON1 == 1 && XBUTTON2 == 2,
{
}

/// The messages of a connection request, in order: the connection request
/// with protocol 123, four name bytes per character, four zero bytes, and
/// the ID request naming RustDesk's window when it has one.
pub proof fn lemma_request_ids_message_layout(conn_id: i32, name: Seq<char>, rustdesk_hwnd: Option<usize>)
    ensures
        ({
            let m = request_ids_messages(conn_id, name, rustdesk_hwnd);
            let n = name.len() as int;
            &&& m.len() == 1 + 4 * n + 4 + (if rustdesk_hwnd is Some { 1int } else { 0 })
            &&& m[0] == WindowMessage { msg: 0x801E, wparam: conn_id as usize, lparam: 123 }
            &&& m.subrange(1, 1 + 4 * n) == name_messages(conn_id, name)
            &&& forall|j: int| 1 + 4 * n <= j < 5 + 4 * n ==> #[trigger] m[j] == WindowMessage {
                msg: 0x8028,
                wparam: conn_id as usize,
                lparam: 0,
            }
            &&& rustdesk_hwnd matches Some(h) ==> m[5 + 4 * n] == WindowMessage {
                msg: 0x8032,
                wparam: conn_id as usize,
                lparam: h as isize,
            }
        }),
{
    lemma_protocol_numbers();
    let m = request_ids_messages(conn_id, name, rustdesk_hwnd);
    let n = name.len() as int;
    let head = seq![window_message(MOUSEMUX_REQUEST_CONNECTION, conn_id as usize, PROTOCOL_VERSION as isize)];
    assert((head + name_messages(conn_id, name)).subrange(1, 1 + 4 * n) =~= name_messages(conn_id, name));
    assert(m.subrange(1, 1 + 4 * n) =~= name_messages(conn_id, name));
}

/// What each MouseMux message does, by its number: the first startup
/// broadcast re-registers (a later one while that runs does nothing), an
/// assigned ID is synced for the connection in wparam, a user added or
/// removed sets the count to MouseMux's own (lparam), MouseMux exiting
/// resets it, an exit request notifies and exits, WM_DESTROY ends the loop,
/// and anything else goes to the default window procedure.
pub proof fn lemma_window_proc_table(msg: u32, wparam: usize, lparam: isize, users: usize, in_flight: bool)
    ensures
        msg == 0x8064 ==> window_proc_action(msg, wparam, in_flight) == (if in_flight {
            WindowProcAction::Done
        } else {
            WindowProcAction::Reregister
        }),
        (msg == 0x806E || msg == 0x8078) ==> window_proc_action(msg, wparam, in_flight)
            == WindowProcAction::SyncIds(wparam as i32),
        (msg == 0x80A0 || msg == 0x80AA) ==> users_after(msg, lparam, users) == lparam as usize
            && window_proc_action(msg, wparam, in_flight) == WindowProcAction::UpdateTitle,
        msg == 0x80D2 ==> users_after(msg, lparam, users) == 0
            && window_proc_action(msg, wparam, in_flight) == WindowProcAction::UpdateTitle,
        msg == 0x80C8 ==> window_proc_action(msg, wparam, in_flight) == WindowProcAction::NotifyShutdownAndExit,
        msg == 0x0002 ==> window_proc_action(msg, wparam, in_flight) == WindowProcAction::PostQuit,
        msg != 0x80A0 && msg != 0x80AA && msg != 0x80D2 ==> users_after(msg, lparam, users) == users,
        msg != 0x8064 && msg != 0x806E && msg != 0x8078 && msg != 0x80A0 && msg != 0x80AA && msg != 0x80D2
            && msg != 0x80C8 && msg != 0x0002 ==> window_proc_action(msg, wparam, in_flight) == WindowProcAction::Default,
{
    lemma_protocol_numbers();
}

/// A named key is pressed alone, and released, by its own virtual-key code
/// (which is never 0).
pub proof fn lemma_named_key_press(key: Key, extra_info: usize)
    requires
        !(key is Raw) && !(key is Layout),
    ensures
        keycode_of(key) != 0,
        key_down_outcome(key, 0, extra_info) == Ok::<KeyDownPlanView, KeyDownError>(
            (Seq::empty(), KeybdInput { flags: 0, vk: keycode_of(key), scan: 0, extra_info }, Seq::empty()),
        ),
        key_up_outcome(key, 0, extra_info) == Some(KeybdInput { flags: 2, vk: keycode_of(key), scan: 0, extra_info }),
{
    lemma_keycode_table();
}

/// A scan code with an 0xE0 or 0xE1 prefix byte is sent as an extended key,
/// unless the event carries a Unicode unit; other flags are kept.
pub proof fn lemma_extended_key_flags(flags: u32, scan: u16)
    ensures
        ((flags / 4) % 2 == 0 && (scan / 256 == 0xE0 || scan / 256 == 0xE1))
            ==> spec_keybd_event_flags(flags, scan) == flags | 1u32,
        !((flags / 4) % 2 == 0 && (scan / 256 == 0xE0 || scan / 256 == 0xE1))
            ==> spec_keybd_event_flags(flags, scan) == flags,
{
    assert((flags & 4u32 == 0) == ((flags / 4) % 2 == 0)) by (bit_vector);
    assert((scan >> 8u16) == scan / 256) by (bit_vector);
    lemma_protocol_numbers();
}

} // verus!
