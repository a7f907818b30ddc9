# mousemux

The verified core of RustDesk's MouseMux integration, which lets several
remote users drive one Windows desktop, each with a mouse and keyboard that
MouseMux tells apart by the device ID carried in every injected event.

- `src/enigo.rs` – the input injector: per-connection device IDs and the
  `SendInput` events for mouse and keyboard actions (key tables, layout keys
  with their modifiers, UTF-16 typing), and `key_down_step`, which decides
  send by send how far a key press goes when a send fails.
- `src/protocol.rs` – the MouseMux window-message protocol: message numbers,
  the connection request and the UTF-32 encoding of a peer's name.
- `src/session.rs` – RustDesk's MouseMux state: connections and their IDs,
  the user count, the decision taken on each message MouseMux sends, and
  `request_ids_step`, which decides post by post how far a request goes.
- `src/laws.rs` – properties across calls (IDs read back after assignment,
  re-registration keeps IDs, names decode back, modifiers are balanced,
  posting and sending stop exactly where the original does…).
- `app/lib.rs` – the Win32 side: global state and locks, the message window
  and loop, posting messages and `SendInput`.
