# ttsandsttp

A D-Bus service for text-to-speech and speech-to-text on Linux: local sherpa
models (VITS voices, Whisper recognition) and the DashScope cloud API.

The decisions of the service are a library verified with Verus (`src/`);
the program around it (`app/`) does the I/O: audio capture and playback,
D-Bus, HTTP, files, the keyring, and the floating-point sample processing.

## Layout

- `src/config` — configuration model, model registry (read from a parsed
  `models.json` document), validation, download planning, voice catalogue.
- `src/secrets.rs` — key redaction, key file locations, and the order in which
  key sources are tried.
- `src/services/api` — DashScope request framing, response reading and the
  server-sent-event line decoder.
- `src/services/models` — model storage layout, download plans and checks.
- `src/services/stt` — recognizer state, pause detection, Whisper model files.
- `src/services/tts.rs` — language selection, model files, speaking strategy,
  engine state.
- `src/daemon` — reported status, STT request timeout, stop replies.
- `src/utils` — sentence splitting, WAV encoding, trimming, paths, timestamps.
- `app/` — the executable.

Bundled resources (`models.json`, `voices.json`, `config.toml.default`,
`beep-high.wav`, `beep-low.wav`) are read at run time from
`/usr/share/ttsandsttp`, or from the directory named by
`TTSANDSTTP_RESOURCES`.
