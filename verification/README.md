# lgtvctl

Control of LG webOS TVs from Linux/OpenWrt, with its logic verified by Verus.

- `src/` is the verified library: configuration defaults, overrides and the
  configuration file search order (`config`), Wake-on-LAN addresses and magic
  packets (`wol`), the webOS pairing and request protocol as a state machine
  (`webos`, `manifest`), what each command and HTTP endpoint does and what the
  tool prints (`cli`, `plan`, `server`), and character-level helpers (`text`).
- `app/` is the program around it: command-line parsing, reading and writing
  the TOML configuration, the TLS WebSocket connection, the UDP socket and the
  HTTP API. It asks the library what to do and does it.
- `tests/` runs the library on concrete values.
