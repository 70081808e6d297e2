# shiguredo_audio_toolbox

An AAC encoder and an AAC-LC / MP3 / Opus decoder built on Apple's Audio
Toolbox `AudioConverter`. The library holds the codec logic as state
machines with contracts; a thin layer holds the converter handles.

- `src/` is the library. It checks settings, lays out the formats and
  properties a converter is created with, buffers PCM samples and compressed
  packets, answers the converter's input requests, turns the outcome of each
  fill into frames or errors, and reads the platform's answers about which
  codecs it supports.
  - `error.rs`: the error type and its text.
  - `format.rs`: Audio Toolbox identifiers and stream formats.
  - `encoder.rs`, `decoder.rs`: the encoder and decoder state machines.
  - `codec_info.rs`: codec types and the supported-codec report.
- `app/` holds the `AudioConverter` handles and the Audio Toolbox calls
  (macOS only) and runs the fill loops, asking the library at each step.
- `tests/` exercises the library.
