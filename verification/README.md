# ambient_fd

Use systemd's `OpenFile=` and file descriptor store from a service: read the
descriptors that systemd passes (`LISTEN_FDS`, `LISTEN_FDNAMES`), tell what
kind each one is, and build the messages for systemd's notification socket.

Layout:

- `src/` is the library, written in Verus and verified:
  - `decimal`: reading `usize` numbers as `usize::from_str` does, and writing
    decimal numbers; a read gives back what a write wrote.
  - `names`: splitting the colon-separated name list; split and join undo
    each other.
  - `raw`: the descriptors and names from the two environment values.
  - `checked`: names interpreted (`connection`, `stored`, `unknown`) and the
    kind of each descriptor decided from systemd's checks.
  - `notify`, `fd_store`: the `KEY=VALUE` notification messages.
- `app/` reads the environment, asks systemd (through the `systemd` crate)
  about each descriptor, and sends the messages over the socket.
- `tests/` runs the library on concrete values.
