# webrtc-tunnel

Upgrades a stream connection (TCP or a local socket, with or without TLS) to a WebRTC peer
connection, and tunnels UDP and TCP ports through its data channels.

- `src/` is the verified library. It computes and decides; it never waits, reads or writes.
  - `transport`: messages over a byte stream, and the name of the peer at its other end
  - `client`, `server`: the two sides of an upgrade, as state machines; `client_laws` and
    `server_laws` say what holds of whole upgrades
  - `ice`, `rtc`: candidates, data channels, connections
  - `tls`, `certs`: certificates, and the setup of TLS as a state machine
  - `payload`, `tunnel`: what passes through the tunnel, and where it leads
- `app/` is the program around it: arguments, configuration files, sockets and tasks.
- `tests/` runs the library.

What the library takes from other crates is declared next to where it is used, in functions
marked `external_body`; the comment above each says what is relied on.
