# lumen

The core of a small wgpu scene viewer (a lit plane, orbiting light markers,
an HDR pass), written in Verus: the parts that decide and compute on plain
values are verified, the parts that talk to the GPU, the window system or
the file system, or compute on floating point, stay in ordinary Rust.

## Layout

- `src/` — the verified library
  - `mesh` — triangle-list indices of the plane, the cube and the UV sphere,
    with proofs that every index names a vertex and no triangle repeats a
    corner
  - `shading` — per-vertex corner counts used to average tangents of loaded
    meshes, with a proof that every corner is counted once
  - `buffers` — index buffer payloads (through `bytemuck`) and the slots of
    the light uniform buffer
  - `layout` — packed vertex buffer layouts and bind group numbering
  - `draw` — draw plans for models: one indexed draw per mesh, each with a
    material the model has
  - `surface` — surface and HDR target sizes, when frames are rendered, the
    surface format choice and recovery from lost frames
  - `input`, `viewer` — mouse, keyboard and window event decisions
  - `shaders` — shader names
- `tests/` — tests of the library on concrete values
- `app/` — the GPU and window side: buffers, pipelines, render passes,
  OBJ loading, vertex generation, conversions from `winit`/`wgpu` types
