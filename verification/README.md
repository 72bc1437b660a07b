# spool

The verified core of Spool, a portable Windows front end for yt-dlp and ffmpeg.
The functions in `src/` carry Verus contracts and are proved against them, except the
few thin wrappers around outside calls (`std::str::from_utf8`, `str::to_lowercase`,
`String::from_utf8_lossy`, `serde_json::from_str`, `dirs::download_dir`) and the contract
given to `String::push`, whose contracts are trusted and stated in their doc comments.

- `src/settings.rs`: the settings, their defaults, how a stored settings file is
  completed with the defaults, and the settings store.
- `src/updater.rs`: the yt-dlp self-update check as a state machine, and the reading
  of yt-dlp's output into the status shown to the user.
- `src/commands.rs`: the decisions behind the window's commands (colours, pasted
  links, opening files, playlist probes).
- `src/debug.rs`: the records of the debug log.
- `src/text.rs`: character-level helpers (white space, trimming, searching).
- `app/`: the Tauri shell: windows, dialogs, sidecar processes and file access.
- `tests/`: tests of the library on concrete values.
