# deskwarp

A desktop wallpaper manager: a library verified with Verus, and the tray daemon
that serves it over HTTP.

- `src/` – the library: wallpaper styles and their Win32 position codes, the
  error type, the `Wallpaper` manager over a platform back end
  (`platform::linux`; the decisions of the Windows back end in
  `platform::windows`), the HTTP API models, the responses of the HTTP
  handlers (`server`), the main thread's replies (`commands`), and the tray
  menu's decisions (`tray`).
- `app/` – the daemon: tray icon and event loop, the axum server, configuration
  loading, the serde copies of the API models, and the Windows back end
  (`windows_backend.rs`, built on Windows only), which makes the COM calls and
  leaves every decision to `platform::windows`.
- `tests/` – tests of the library.
