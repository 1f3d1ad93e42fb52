# nitrogen_core

Wayland screen capture to a virtual camera for NVIDIA GPUs, with the
decisions of the program proved by Verus.

## Layout

- `src/` is the verified library. Every function in it carries a contract
  that Verus proves:
  - `config`, `av1`, `settings`: capture presets, codecs, AV1 options,
    configuration validation and the settings sections of the config file;
  - `cli`: argument parsing and how a cast command's options, the config
    file and the detected GPU combine into a capture configuration;
  - `nvenc`, `audio_encoder`: the parameters and options encoders are
    opened with;
  - `encode`, `frame_copy`, `scene`: frame generation plans, fixed-point
    blending, stride-aware frame copies, luma histograms for scene changes,
    tonemapping decisions;
  - `pipeline`, `mixer`, `output`, `ipc`: the state machines of the capture
    pipeline, the audio mixer, recording/streaming loops and the control
    socket protocol;
  - `hotkeys`, `overlay`, `performance`, `gpu`, `env`, `formats`, `types`,
    `error`, `text`: key handling, overlay drawing, metrics, GPU and
    environment detection from queried text, pixel formats, shared types,
    errors and text helpers.
- `tests/` exercises the library on concrete values.
- `app/` is the `nitrogen` program around the library: argument parsing,
  files, the desktop portal, PipeWire, FFmpeg, the Unix socket, and the
  floating-point parts (tonemapping curves, audio volumes, statistics in
  milliseconds).

The only trusted items are three wrappers in `src/text.rs` around
`str::to_lowercase`, `str::to_uppercase` and `String::push`.
Each name parser that ignores case makes that one call and hands the
lower-cased text to a verified function of its own (`Codec::from_lowered`,
`Preset::from_lowered`, `key_from_lowered` and the like), so the matching
logic can be called and checked on its own.
