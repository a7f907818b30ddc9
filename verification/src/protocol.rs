//! The MouseMux window-message protocol: message numbers, the
//! messages RustDesk posts, and the encoding of a peer's name.
use vstd::prelude::*;
use crate::text::push_char;

verus! {

/// First message number available to applications.
pub const WM_APP: u32 = 0x8000;
/// Sent to a window that is being destroyed.
pub const WM_DESTROY: u32 = 0x0002;

/// RustDesk is starting (wparam: RustDesk version, lparam: its window).
pub const MOUSEMUX_NOTIFY_STARTUP: u32 = WM_APP + 10;
/// RustDesk is shutting down (wparam: RustDesk version, lparam: its window).
pub const MOUSEMUX_NOTIFY_SHUTDOWN: u32 = WM_APP + 20;
/// Request a connection slot (wparam: conn_id, lparam: protocol version).
pub const MOUSEMUX_REQUEST_CONNECTION: u32 = WM_APP + 30;
/// One byte of the peer's name (wparam: conn_id, lparam: the byte).
pub const MOUSEMUX_SET_CONNECTION_NAME: u32 = WM_APP + 40;
/// Request device IDs once the name is sent (wparam: conn_id, lparam: window).
pub const MOUSEMUX_REQUEST_IDS: u32 = WM_APP + 50;
/// Release a connection and its IDs (wparam: conn_id).
pub const MOUSEMUX_RELEASE_CONNECTION: u32 = WM_APP + 60;

/// MouseMux started: register again.
pub const MOUSEMUX_STARTUP_BROADCAST: u32 = WM_APP + 100;
/// Mouse ID assigned (wparam: conn_id, lparam: mouse ID).
pub const MOUSEMUX_MOUSE_ID_ASSIGNED: u32 = WM_APP + 110;
/// Keyboard ID assigned (wparam: conn_id, lparam: keyboard ID).
pub const MOUSEMUX_KEYBOARD_ID_ASSIGNED: u32 = WM_APP + 120;
/// A user was added (wparam: user ID, lparam: MouseMux's user count).
pub const MOUSEMUX_USER_ADD: u32 = WM_APP + 160;
/// A user was removed (wparam: user ID, lparam: MouseMux's user count).
pub const MOUSEMUX_USER_REMOVE: u32 = WM_APP + 170;
/// MouseMux asks RustDesk to exit.
pub const MOUSEMUX_REQUEST_EXIT: u32 = WM_APP + 200;
/// MouseMux is exiting.
pub const MOUSEMUX_EXITING: u32 = WM_APP + 210;

/// The protocol version sent with a connection request (123, which comes
/// with the four-byte name encoding).
pub const PROTOCOL_VERSION: u32 = 123;
/// The RustDesk version reported at startup and shutdown (1.4.9).
pub const RUSTDESK_VERSION: u32 = 149;
/// The longest peer name sent, in characters.
pub const MAX_PEER_INFO_LENGTH: usize = 256;

/// A window message: its number and its two parameters.
#[derive(Clone, Copy, Debug, PartialEq, Eq, Structural)]
pub struct WindowMessage {
    pub msg: u32,
    pub wparam: usize,
    pub lparam: isize,
}

pub open spec fn window_message(msg: u32, wparam: usize, lparam: isize) -> WindowMessage {
    WindowMessage { msg, wparam, lparam }
}

/// A peer name as it is sent: its first `MAX_PEER_INFO_LENGTH` characters.
pub open spec fn truncated_peer_info(s: Seq<char>) -> Seq<char> {
    if s.len() <= MAX_PEER_INFO_LENGTH { s } else { s.take(MAX_PEER_INFO_LENGTH as int) }
}

/// The code point sent for a character of a name: the character if it is
/// ASCII, else '?' (MouseMux accepts 0..=127 only).
pub open spec fn name_code(c: char) -> u32 {
    if (c as u32) < 128 { c as u32 } else { 63 }
}

/// One byte of a name, posted for a connection.
pub open spec fn name_byte_message(conn_id: i32, byte: u32) -> WindowMessage {
    window_message(MOUSEMUX_SET_CONNECTION_NAME, conn_id as usize, byte as isize)
}

/// The name messages: each character as UTF-32 little-endian, four
/// messages of one byte each, low byte first.
pub open spec fn name_messages(conn_id: i32, name: Seq<char>) -> Seq<WindowMessage> {
    Seq::new(
        4 * name.len(),
        |i: int| name_byte_message(conn_id, if i % 4 == 0 { name_code(name[i / 4]) } else { 0 }),
    )
}

/// The end of a name: four zero bytes, UTF-32 zero.
pub open spec fn name_terminator(conn_id: i32) -> Seq<WindowMessage> {
    Seq::new(4, |i: int| name_byte_message(conn_id, 0))
}

/// The messages that request device IDs for a connection: the connection
/// request, the name, and (if RustDesk's window exists, for the reply) the
/// ID request.
pub open spec fn request_ids_messages(conn_id: i32, name: Seq<char>, rustdesk_hwnd: Option<usize>) -> Seq<
    WindowMessage,
> {
    seq![window_message(MOUSEMUX_REQUEST_CONNECTION, conn_id as usize, PROTOCOL_VERSION as isize)]
        + name_messages(conn_id, name) + name_terminator(conn_id) + match rustdesk_hwnd {
        Some(h) => seq![window_message(MOUSEMUX_REQUEST_IDS, conn_id as usize, h as isize)],
        None => Seq::empty(),
    }
}

/// The first `MAX_PEER_INFO_LENGTH` characters of `peer_info`.
pub fn truncate_peer_info(peer_info: &str) -> (r: String)
    ensures
        r@ == truncated_peer_info(peer_info@),
{
    let mut out = String::new();
    let mut n: usize = 0;
    for c in it: peer_info.chars()
        invariant
            it.seq() == peer_info@,
            n == out@.len(),
            n <= MAX_PEER_INFO_LENGTH,
            n == (if it.index() <= MAX_PEER_INFO_LENGTH { it.index() } else { MAX_PEER_INFO_LENGTH as int }),
            out@ == peer_info@.take(n as int),
    {
        if n < MAX_PEER_INFO_LENGTH {
            proof {
                assert(peer_info@.take(n as int + 1) =~= peer_info@.take(n as int).push(c));
            }
            push_char(&mut out, c);
            n = n + 1;
        }
    }
    proof {
        if peer_info@.len() <= MAX_PEER_INFO_LENGTH {
            assert(out@ =~= peer_info@);
        }
    }
    out
}

/// Append the messages that send `name` for `conn_id`, terminator included.
pub fn push_name_messages(messages: &mut Vec<WindowMessage>, conn_id: i32, name: &String)
    ensures
        final(messages)@ == old(messages)@ + name_messages(conn_id, name@) + name_terminator(conn_id),
{
    let ghost start = messages@;
    for ch in it: name.as_str().chars()
        invariant
            it.seq() == name@,
            messages@ == start + name_messages(conn_id, name@.take(it.index())),
    {
        let cp: u32 = if (ch as u32) < 128 { ch as u32 } else { 63 };
        let ghost before = messages@;
        let mut shift: u32 = 0;
        while shift < 4
            invariant
                0 <= shift <= 4,
                cp < 128,
                cp == name_code(ch),
                messages@ == before + Seq::new(
                    shift as nat,
                    |j: int| name_byte_message(conn_id, if j == 0 { cp } else { 0 }),
                ),
            decreases 4 - shift,
        {
            let byte: u32 = (cp >> (shift * 8)) & 0xFF;
            assert(byte == if shift == 0 { cp } else { 0 }) by (bit_vector)
                requires
                    cp < 128,
                    shift < 4,
                    byte == (cp >> (shift * 8)) & 0xFF,
            ;
            messages.push(WindowMessage {
                msg: MOUSEMUX_SET_CONNECTION_NAME,
                wparam: conn_id as usize,
                lparam: byte as isize,
            });
            proof {
                assert(before + Seq::new(
                    (shift + 1) as nat,
                    |j: int| name_byte_message(conn_id, if j == 0 { cp } else { 0 }),
                ) =~= messages@);
            }
            shift = shift + 1;
        }
        proof {
            let k = it.index();
            let next = name@.take(k + 1);
            assert(next[k] == ch);
            assert forall|i: int| 0 <= i < 4 * (k + 1) implies #[trigger] messages@[start.len() + i]
                == name_messages(conn_id, next)[i] by {
                if i < 4 * k {
                    assert(name@.take(k)[i / 4] == next[i / 4]);
                }
            }
            assert(messages@ =~= start + name_messages(conn_id, next));
        }
    }
    assert(name@.take(name@.len() as int) =~= name@);
    let mut zeros: u32 = 0;
    let ghost before = messages@;
    while zeros < 4
        invariant
            0 <= zeros <= 4,
            messages@ == before + name_terminator(conn_id).take(zeros as int),
        decreases 4 - zeros,
    {
        messages.push(WindowMessage { msg: MOUSEMUX_SET_CONNECTION_NAME, wparam: conn_id as usize, lparam: 0 });
        proof {
            assert(name_terminator(conn_id).take(zeros as int + 1) =~= name_terminator(conn_id).take(
                zeros as int,
            ).push(name_byte_message(conn_id, 0)));
        }
        zeros = zeros + 1;
    }
    assert(name_terminator(conn_id).take(4) =~= name_terminator(conn_id));
}

} // verus!
