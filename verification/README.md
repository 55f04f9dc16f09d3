# game_renderer

A small 3D game (a window, a mouse-steered camera, a cube above a plane)
whose logic is verified with Verus.

- `src/` is the verified library: how window and device signals become
  input events and reach the registered handlers, the application's
  decisions on each event (exit, render, record focus, create the renderer
  once), the cube and plane meshes with their proved geometric facts, the
  mesh table, the column-major layout of matrices handed to shaders, and
  the decoding of `RRGGBBAA` colors.
- `app/` is the program around it: winit's event loop, wgpu rendering, and
  everything computed in `f32` (vectors, matrix products, transforms,
  the camera).
- `tests/` exercises the library on concrete values.
