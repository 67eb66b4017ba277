# sumi (verified core)

Library half of the sumi audio visualizer, written in Verus. `src/` holds the
logic with its contracts and the laws proved over it; `app/` is the Windows
program around it (WASAPI capture, wgpu rendering, tray icon, config file
I/O, logger set-up) and the floating-point signal processing.

- `floating` — window placement on a monitor's work area (corners and edges)
  and the extended style of the click-through overlay.
- `config` — settings, their defaults, the absolute defaults written beside a
  new config file, the log directory and shader file in effect (relative
  paths are read from the config file's directory), and the default config
  path.
- `audio` — the bounded ring of recent samples, mix-format rules, decoding of
  capture packets into channel samples, and device-name matching.
- `logging` — which old log files the start-up clean-up removes.
- `tray` — pixel layout of the tray icon's mini visualizer.
- `build_info` — version, commit and build time of the About text.
- `reload` — when an edited shader is recompiled.
- `surface` — which window resizes reach the render surface.
