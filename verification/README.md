# karakuri-syphon

A standalone Syphon output sink plugin for the [Karakuri](https://github.com/toyoshim/Karakuri)
visual performance system, with a core that is verified with [Verus](https://github.com/verus-lang/verus).

`karakuri-syphon` runs as an independent out-of-process helper. It talks to Karakuri over
standard I/O in newline-delimited JSON (`output_plugin` wire protocol version 1), and publishes
the `IOSurfaceID` that comes with each frame to local Syphon clients, without copying pixels.

## Layout

- `src/`: the verified library. It says what to do; it neither opens ports nor reads lines.
  - `protocol`: the numbers of the messages on the Syphon ports, and what a send came to.
  - `clients`: the clients of a channel, and messages addressed to them.
  - `announce`: the notifications by which a server makes itself known.
  - `server`: the Syphon server; `server_laws`: what holds of it across its operations.
  - `unsupported`: the server on a system without Syphon.
  - `message`, `line`, `options`: what host and plugin say, the lines it comes on, and the
    command line.
  - `session`: the conversation with the host; `session_laws`: what holds of it from start
    to end.
- `tests/`: tests of the library.
- `app/`: the program: message ports, notifications, JSON, standard I/O.

A client's port is a type parameter of the library, so nothing in it depends on macOS.

Besides what Verus's own library says of the standard library, one thing is taken on trust:
that `char::is_whitespace` is true of the characters with Unicode's `White_Space` property.

## License

MIT
