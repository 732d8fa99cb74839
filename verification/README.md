# realtime_render

A small real-time renderer built on wgpu and winit, split in two:

- `src/` is a Verus-verified library holding the renderer's decisions: the per-frame
  transform list and its indices, camera key handling and movement direction, frame
  timing, billboard upload and draw planning, the HSV sector table, and the responses
  to window events and surface errors.
- `app/` is the program around it: window and GPU setup, pipelines, draw commands,
  file loading and the floating-point camera and lighting math.

The program reads its WGSL shaders at run time from `src/` under the working directory.
