# tapeview

A terminal viewer for raw video files (RGB8 or V210 frames stored back to back),
written as a Verus library with a thin program around it.

- `src/` — the verified library:
  - `video` — pixel formats, frame sizes, frame conversion;
  - `file_loader` — the block cursor that decides where each block of the file is
    read and what a read means (next block, start over, end, error), with the laws
    that blocks come out in order and, when looping, round and round;
  - `event_systems::tape` — nearest-neighbour thumbnailing of RGB8 frames, the bounds
    under which it runs, and the tape's answer to each block; `tape` — the first,
    full-HD-only tape answer;
  - `app`, `event` — the viewer's decisions on keys and events (quit, one frame
    request in flight at a time, presenting frames);
  - `ui` — pop-up state and placement, picture centring;
  - `rgb_image` — the one call into the `image` crate.
- `app/` — the program: argument parsing, file reads, channels and tasks, terminal
  drawing with ratatui and ratatui-image, tracing.
- `tests/` — tests of the library.
