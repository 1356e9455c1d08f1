# iosurface_gl

An OpenGL context on macOS that draws into an `IOSurface`, which a plain `CALayer`
then shows. The decisions are a library verified with Verus; the calls into OpenGL,
AppKit and Core Animation are made by the code around it.

- `src/`: the library. `context`, `creation`, `resize`, `surface`, `layer` and
  `pixel_format` hold the operations. Each names the calls to make (`call`), or is a
  machine that names calls, puts one query and goes on with its result (`machine`).
  `window` reads the parent's window handle.
- `src/history.rs`: each operation as a whole, given the results of all its queries.
- `src/world.rs`, `src/effects.rs`, `src/laws.rs`, `src/life.rs`: what the calls amount
  to, and what holds of the operations together and over the life of a context. Among
  it: drawing into the framebuffer ends up in the surface that the layer shows; the
  framebuffer's name never changes; what was taken is given up again.
- `app/`: makes the calls, on macOS.
- `tests/`: the operations on concrete values.
