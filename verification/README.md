# scap_rs

Screen capture for Linux, macOS and Windows, with its logic verified by Verus.

- `src/` is the verified library: frame layouts and the pixel conversions
  (`frame`), capture targets (`targets`), the platform checks (`utils`), and
  the decisions of the capture engines (`capturer::engine`): which display
  server to use, how a PipeWire buffer becomes a frame, when the PipeWire
  thread runs and how start and stop change its shared state, how X11 window
  titles are chosen and connected outputs become displays, how the output
  size is fitted, which windows are excluded and which pixel format is used
  on macOS, what a ScreenCaptureKit sample or a Windows capture frame becomes.
- `app/` holds what talks to the system: capture options with floating-point
  geometry, the capturer and its channel, PipeWire, the D-Bus ScreenCast
  portal, and X11 through xcb and Xlib.
- `tests/` exercises the library on concrete inputs.
