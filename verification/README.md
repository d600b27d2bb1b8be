# mpv-engine

Toolkit-agnostic core for embedding libmpv: engine state, commands,
properties, typed playback events, and render seams.

The library under `src/` decides and never talks to mpv, a GPU or the system.
A call says what to issue; what came back goes into the next call. So each
contract holds for every answer that mpv, a driver or the kernel can give, and
nothing in the library is taken on trust.

| module | what it holds |
|---|---|
| `engine` | builder, transport and the queued load, attach and detach, draws |
| `event` | mpv's event stream as typed playback events |
| `property` | property values and the types a property can be read as |
| `render` | backends, and the software frame with its opaque alpha |
| `error` | what can go wrong, and the text shown for it |
| `export::pool` | the rotation of exportable buffers |
| `export::pass` | one render into a buffer, handed to GL and taken back |
| `export::frame` | a frame in the shell's hands, and its import into wgpu |
| `export::pixels` | reading a frame back |
| `export::{linux, macos, windows, setup}` | bringing contexts and buffers up, and releasing what a failure leaves |
| `text` | lists, words, and number formats |

`app/` is the runtime around it: locks, threads, and the calls into libmpv,
EGL, CGL, WGL, Vulkan and D3D. It needs libmpv, and on Linux libEGL and
libgbm, to link.
