# lgtv_ip_control

A client for controlling LG TVs over the IP Control protocol, with its
protocol logic verified in Verus.

- `src/` is the verified library: the command vocabulary
  (`constants::types`), the protocol parameters (`constants::default_settings`),
  the errors (`constants::errors`), the framing and AES encryption of messages
  (`encryption`), the commands and the reading of the TV's replies (`lg_tv`),
  the power procedures as state machines (`power`), the Wake-on-LAN packet and
  transport addresses (`tcp_connection`), and text helpers (`text`).
- `app/` is the async client around it: the TCP and UDP transport on tokio,
  the `LGTV` type whose methods drive the library's commands, parsers and
  procedures, and the error type with its `Display`.
- `tests/` exercises the library on concrete values.

Calls into OpenSSL (PBKDF2, AES), the operating system's random source, the
`regex` crate (character classes) and a few `std` functions stand behind
trusted wrappers whose contracts are stated in `encryption.rs` and `text.rs`.
