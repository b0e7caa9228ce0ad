# lumin_wallpaper_rs

Attaches a window behind the Windows desktop icons so that it serves as an animated
wallpaper, watches the z-order so that it stays there, reports mouse state, detects
occlusion and lock screens, and forwards captured input to the wallpaper window.

## Layout

- `src/` is the verified library (Verus). It holds every decision the library takes,
  on plain values: the desktop window hierarchy and the order of window operations that
  attach the engine, style bits, monitor normalisation and target selection, mouse
  button edges, the secure-desktop and lock-screen rules, occlusion sampling, hook
  decoding and input forwarding. Each public function states its result in its
  contract; the laws that span several functions are public proof functions.
  - `platform/windows/attach.rs`: `AttachWindow` and its monitor, placement, watcher and
    mouse logic.
  - `platform/windows/functions.rs`: desktop state and occlusion sampling.
  - `platform/windows/mouse.rs`: `Events` and `EventForwarder`.
  - `platform/windows/procs.rs`: what the enumeration callbacks and input hooks decide.
  - `platform/windows/models.rs`, `monitors.rs`: the earlier `WindowsPlatform` state and
    its free-function interface.
  - `platform/windows/constants.rs`: the Win32 constants the rules use.
- `app/` is ordinary Rust around the library: the Win32 calls (through the `windows`
  crate), the watcher and hook threads, and the floating-point parts.
- `tests/` runs the library on concrete values.
