# shapez

Verified core of a small voxel path-tracing front end and its engine integration.

- `src/` (Verus): voxel packing for the GPU (`gpu_voxel`), the dense voxel grid
  (`voxel_volume`), the integer side of a headless render run (`render_setup`),
  grouping of mesh triangles by material (`mesh_groups`), the HSV sector table of
  the material palette (`palette`) and the spawn rule of scene volumes (`volume`).
  Raw byte views of `u32` words come from `bytemuck` (`byte_cast`).
- `app/`: the headless `wgpu` runner (`main.rs`), scene upload with its
  floating-point camera and material data (`gpu_scene.rs`, `scene.rs`), command-line
  parsing (`cli.rs`). `shapez_bevy.rs` is the engine plugin; it is a library
  module of its own, not part of the runner, and builds only where `bevy` and
  the scene engine `shapezlib` are available.
- `tests/`: runtime tests of the library.
