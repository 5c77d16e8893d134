# cad_3e_engine

The verified core of a small OpenGL rendering engine.

- `src/` (Verus): the decisions of the engine, proved against their contracts.
  - `engine.rs`: the engine's switches and key states, its reaction to each
    window event (`EngineState::handle_event`), and its GL set-up plan.
  - `resources.rs`: meshes, shaders, textures and materials, the name-keyed
    resource store, the draw call of a mesh, the stages a shader compiles,
    the lookup that drawing an object makes, the steps of building a shader
    program, and the GL objects to release.
  - `registry.rs`: the name-keyed store behind the resources.
  - `window.rs`: the window's recorded size and title, when a resize applies,
    and which GL configuration the window is created with.
  - `gl.rs`: GL object names (from `glow`) and the GL commands the plans use.
  - `laws.rs`: properties that span calls (toggles undo themselves, a read
    gives back what was filed, releasing covers every resource, ...).
- `app/` (plain Rust): the event loop (winit), the window and GL context
  (glutin), every GL call (glow), image loading (image), and the camera and
  object transforms (nalgebra-glm, floating point).
- `tests/`: tests of the library on concrete values.
