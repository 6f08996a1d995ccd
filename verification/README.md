# immichsync

The decision logic of ImmichSync, a Windows tray application that watches
folders and uploads photos and videos to an Immich server, written in Verus
and proved against its contracts.

- `src/api.rs` — the Immich client: construction from a server URL and API
  key (trailing slashes trimmed, the key checked as an HTTP header value),
  URL building, and the mapping of HTTP statuses to `ApiError`.
- `src/lifecycle.rs` — the tray application as a state machine: tray menu
  actions, pause/resume, one subprocess per UI window, the periodic queue
  statistics and the "uploads complete" notification.
- `src/watch_plan.rs` — which stored folders are watched, and which watched
  folder a file belongs to.
- `src/launch.rs` — the `--window <type>` subprocess mode, the first-run
  wizard decision and the hidden shutdown window's answers.
- `src/install.rs` — the install dialog's texts and state.
- `src/text.rs` — trimming, prefix stripping and decimal rendering over
  `Seq<char>`.

`app/` is the Windows program around the library: the Win32 message pump,
the tray, the egui dialogs, the upload pipeline and the watch engine. It
performs the effects that the library decides.
