# kds_guard

The decision logic of KDS Guard, a Windows desktop companion that polls a
staff server for alarms and sounds them, written in Verus and proved against
its contracts.

- `src/text.rs`: whitespace trimming, stripping trailing characters, prefix
  tests and ASCII case-insensitive comparison, over `Seq<char>` specifications.
- `src/time.rs`: UTC instants, their order, and the end of a mute.
- `src/settings.rs`: the settings, their defaults and normalization, and the
  server's base address.
- `src/alarm.rs`: alarm responses, the decision taken on them, and alarm
  fingerprints.
- `src/status.rs`: the application state, the visible status, the bounded
  log, snapshots, and how a decision changes the status and the sound.
- `src/commands.rs`: what each user command and monitor step does to the state.
- `src/poll.rs`: the poll request (address and headers) and poll error texts.
- `src/power.rs`: the Windows sleep-guard flags and result.
- `src/laws.rs`: properties across operations (silenced alarms, mutes,
  decision priority, log bounds, normalization).

`app/` holds the Tauri shell: commands, threads, HTTP, audio, the settings file
and the tray. It performs the input and output and calls the library for every
decision.
