# render_engine

A small real-time 3D viewer: a wgpu renderer with Phong lighting, a procedural
sky, a particle system, glTF model loading and egui panels, driven by a winit
event loop.

The decision-making core of the viewer is a Verus-verified library:

- `src/scene.rs`: the ordered list of mesh instances, user-model groups with
  fresh ids, adding, moving and removing whole models.
- `src/object_controls.rs`: the Blender-style grab/rotate/scale mode machine
  with axis constraints and cancel-to-snapshot.
- `src/interaction.rs`: what a mouse press or release, or the Tab key, does to
  the selection, the drag and the panels.
- `src/input.rs`: held keys and buttons, double-click detection and the camera
  actions they ask for.
- `src/model_panel.rs`: the model list, the load queue and the overlay choice.
- `src/lights.rs`: which point lights reach the shader, and their animations.
- `src/particle.rs`: particle blend modes and render styles.
- `src/mesh.rs`: index lists of the built-in meshes, the ground grid and index
  buffer bytes.
- `src/pixels.rs`: conversion of glTF image layouts to RGBA8.
- `src/rng.rs`: the linear congruential generator behind particle spawning.

`app/` is the program around it: the window, GPU work, floating-point
geometry and camera motion, file loading and the egui widgets. `tests/` runs
the library on concrete values.
