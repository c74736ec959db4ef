# web_serial_logger

A browser tool that records what arrives on a serial port (Web Serial API)
into a file chosen by the user (File System Access API).

- `src/` is the verified library: every decision the tool takes.
  - `app`: the controller, a state machine over clicks and the end of a
    recording.  It returns the command for the caller to carry out.  Its type
    invariant keeps the setup buttons locked during a recording, and a
    recording always has a chosen file and port.
  - `worker`: the byte counter of a recording, the read buffer size, and the
    notice shown for a non-empty file.
  - `view`: events, alert kinds, and the baud-rate selector.
  - `startup`: the startup errors and the decision to lock the page.
  - `text`: decimal and hexadecimal formatting and `u32` parsing, with a
    proved round trip.
- `app/` is the browser side: DOM, serial port, file, and the event loop.
- `tests/` runs the library on concrete values.
