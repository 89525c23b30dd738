# pinray

Screen and audio capture for Linux, macOS and Windows, with the decisions proved.

Frames are captured through each system's own API — the Wayland portal with
PipeWire and X11 on Linux, ScreenCaptureKit on macOS, DXGI desktop duplication,
Windows Graphics Capture and WASAPI on Windows — and handed over raw, with
stride, pixel format, timestamps and sequence numbers intact.

`src/` is the library, verified with [Verus](https://github.com/verus-lang/verus).
It holds what a capture session, a source list or a backend decides and
computes: which backend answers for a session, how a frame is paced, cropped,
packed and converted, what a dropped packet or a lost device is reported as.
Every function states what it returns, and the laws that hold across functions
are proof functions beside them.

`app/` is the ordinary Rust around it. It makes the calls into the operating
system, hands the library plain values, and does what comes back.

`tests/` runs the library from outside.

| Module | What it decides |
| --- | --- |
| `config`, `session`, `facade` | configuration, lifecycle, and the choice of a platform |
| `backend`, `channel`, `queue` | what a session asks of a backend, and how frames wait |
| `frame`, `audio`, `pixels` | frames, packets, and the layout of pixels |
| `source`, `text`, `numbers`, `duration`, `error` | sources and their ids, and what these are written with |
| `platform_linux` | portal, PipeWire streams, X11 polling, the pointer |
| `platform_macos` | ScreenCaptureKit streams and content |
| `platform_windows` | duplication, graphics capture, loopback audio |

What is taken on trust is marked `external_body` or `assume_specification`, with
a comment that names the function behind it.
