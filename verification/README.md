egui-mpv-glow
---
Uses libmpv to decode video into OpenGL textures that egui can draw, without the frames touching
main memory. The part that decides anything is a library verified with Verus.

- `src/` is the library. `advanced_client` numbers requests, sends them to the thread that talks to
  mpv, and keeps what mpv has reported; `omt_client` is that thread's queue, which hands mpv one
  request at a time; `render` and `texture` decide when to redraw and when to make a new texture;
  `player` puts the client and the renderer together. `protocol` proves what holds of client, thread
  and mpv together.
- `channel` is the one module with contracts that are trusted instead of proved: those of the
  channels of `crossbeam`.
- `app/` talks to mpv, OpenGL and egui. It runs the loops whose single steps the library decides.
- `tests/` runs the library.
