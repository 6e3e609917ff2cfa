# radb_client

A client library for Android's `adb`, written in Verus. The library decides
which `adb` commands to run and reads what they print; each public function
states in its contract the command it builds or the value it reads back.

## Layout

- `src/` — the verified library.
  - `command.rs`, `error.rs`: commands as plain values, process outcomes, errors.
  - `device.rs`, `client.rs`, `shell.rs`: devices, the `adb` executable, the
    client of one device and its shell; connecting and rooting are step
    functions from what happened to what to run next.
  - `pm.rs`, `dump.rs`: the package manager and the reading of `dumpsys package`.
  - `intent.rs`, `options.rs`, `logcat.rs`, `control.rs`, `files.rs`: arguments
    of `am`, `pm install`, `screenrecord`, `logcat`, and the other shell
    commands.
  - `devices.rs`, `text.rs`, `keycode.rs`, `types.rs`: parsers of `adb`
    output and the small vocabularies that commands use.
  - `apk.rs`: `apkanalyzer` commands and the reading of their output.
  - `scanner.rs`: the steps of probing one network address.
  - `outside.rs`: the calls into std and outside crates, with the contracts
    taken on trust.
  - `laws.rs`: properties that relate several functions, proved.
- `tests/` — tests run against canned `adb` output.
- `app/` — the parts that run processes, read files, open sockets and use
  threads, on top of the library.
