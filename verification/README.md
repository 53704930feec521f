# Vaults Bridge

Verified core of the Vaults Bridge application for Passport Prime, and the
application around it.

- `src/transport/` is the WebUSB transport: newline-delimited framing with a cap
  on line length (`line`), the cutting of responses into transfers (`writer`),
  how the transport comes up and how serving ends (`startup`), the reader and the
  dispatcher as state machines (`reader`, `dispatcher`), what becomes of a payload
  (`dispatch`, `json`), the descriptors and control requests (`descriptor`), and
  the status texts (`status`).
- `src/backup_flow/` is the encrypted backup and restore: the decisions between
  the steps (`export`, `restore`), the file picker (`picker`), paths (`path`),
  file modes (`storage`), and what the screen shows (`panel`).
- `src/clock.rs` gives the time in milliseconds since the Unix epoch,
  `src/text.rs` renders numbers.
- `app/` carries out what the core decides: I/O, threads and the KeyOS platform.

Verus proves what the functions in `src/` state, with these exceptions, which are
believed: the three wrappers in `json` around `serde_json`, and in `clock` the
wrapper around `SystemTime::duration_since` and what is stated of
`SystemTime::now` and `Duration::as_millis`. Their doc comments say what is
claimed. Functions whose names begin with `law_` state what holds across
functions: that framed requests arrive whole and in order however the host cuts
them up, that a host reads back the responses that were sent, that a request is
taken up only after every transfer of the one before has been tried, that a
disconnect leaves nothing behind, that serving ends with an error only for want of
a write buffer, that only the keystore's backup is ever written, that a failed
restore keeps the records that wait.
