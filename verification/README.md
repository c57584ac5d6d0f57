# live_captions_gtk

A desktop live-caption tool: it captures microphone or system audio, runs a
streaming speech recogniser on it, optionally restores punctuation, and shows
the result in a small floating window. Models are downloaded from a fixed
catalogue.

## Layout

- `src/` — the verified library (Verus): the model catalogue and settings,
  path and configuration rules, audio block assembly, source selection,
  download planning and retry rules, recogniser configuration, punctuation
  debouncing, inference metrics, caption de-duplication and the caption
  window's state. Every function carries a contract; the laws that relate
  several functions are public proof functions.
- `tests/` — tests of the library on concrete values.
- `app/` — the program around the library: GTK/libadwaita windows, GStreamer
  and PulseAudio capture, the native recogniser, HTTP downloads, archive
  extraction and settings files. It hands plain values to the library and
  acts on what comes back.
