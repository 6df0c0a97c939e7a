# scene_renderer

A small wgpu forward renderer with tiled light culling, split in two:

- `src/` — the verified core (Verus). Everything the renderer decides with
  integers and bookkeeping: the configuration and its defaults, the choice of
  surface format and present mode, what to do with an acquired frame or a
  window event, the light tile grid and its buffer sizes, the light slot table
  (add, remove, reuse, lookup), the model registry and the per-model GPU
  records it writes, the skybox index list, mesh attribute pairing and key
  bindings. GPU handles and float data are type parameters, so the core holds
  no floating point and no GPU type.
- `app/` — the program around it: window and event loop (winit), GPU setup,
  pipelines and uploads (wgpu), camera math (glam), settings file (serde_json),
  glTF loading (gltf, image). It converts to and from the core's types and
  performs the writes the core plans.
- `tests/` — tests of the core on concrete values.

At run time the program reads `renderer_config.json`, the scene from
`src/assets/scene.glb`, the skybox faces from `src/assets/`, and its WGSL
shaders from `src/app/shaders/`.
