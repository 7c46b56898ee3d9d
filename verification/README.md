# Phantom remote desktop server

A remote desktop server whose rules are verified with Verus: who may take over a
session, when a frame has to be a keyframe, which display is captured, how an agent
follows the Windows desktop, what goes over the pipe between the service and its
agent, how files, keys, pointers and sound are converted.

- `src/` is the verified library `phantom_server`. Every function states what it
  returns or changes; public proof functions named `law_*` state what holds across
  calls.
- `app/` is the program around it: command line, sockets, files, devices and
  windows. It performs the steps that the library decides on and hands back what
  happened.
- `tests/` runs the library, with the real encoder, compressor and hash.

## Modules

| module | what it holds |
| --- | --- |
| `doorbell` | which client owns the session |
| `config`, `parse`, `text`, `commands` | command line, texts and commands to run |
| `capture` | X11, PipeWire, GDI and scrap pictures: rows, sizes, black frames |
| `encode` | H.264 parameter sets and keyframes, compressed tiles |
| `pipeline` | when a picture is encoded |
| `input` | keys, events, injection, the pointer and its shape |
| `ipc` | the pipes between service and agent |
| `agent` | the loop that captures on Windows |
| `service` | the Windows service: sessions, agents, relay, installation |
| `display_ccd`, `displays`, `diagnostics` | displays and their modes |
| `audio` | samples and frames of sound |
| `file_transfer`, `digest` | sending and receiving files, and their hashes |

Times are nanoseconds on a clock that never goes back (`clock`).

The Wayland capture is built with `RUSTFLAGS="--cfg wayland"` where PipeWire is
installed.
