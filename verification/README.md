# Orbom

Circle anything on a Windows screen and see Google's image results for it. Orbom lives in the
tray, shows a floating glass-bead orb as its launcher, and speaks Korean and English.

## Layout

- `src/` is the verified library (Verus). It holds what Orbom decides and computes:
  - `selection` — selection rectangles, lasso bounds, drags, arrow keys and the crop of the
    captured screen into a 32-bit DIB;
  - `geometry` — the overlay's repaint regions, magnifier, header and handles, and the search
    panel's window, orb, caption and control layout;
  - `overlay` — menu commands, keys, the completion timer, mouse and pointer input, the orb
    button's hit test;
  - `panel` — the search panel's progress from page message to results, and its notices;
  - `search` — the crop as PNG and base64, the page scripts, the user agent and the origins
    allowed to message the app;
  - `art` — the icon images and the compiled icon resource;
  - `capture`, `settings`, `setup`, `i18n`, `text`, `bytes` — the dimmed screen copy, saved
    choices, install command lines, UI language and text helpers.
- `tests/` runs the library on concrete values.
- `app/` is the Windows program around it: windows, painting, the web view, the registry and
  files, and the floating-point orb and ink rendering.

Outside crates: `png` and `base64` are called from the library through small trusted wrappers
whose contracts are stated in `src/search.rs`; `windows-sys`, `windows`, `wry`, `webview2-com`
and `raw-window-handle` are used by `app/` only.
