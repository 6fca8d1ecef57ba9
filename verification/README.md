# vulkthing

The verified core of Vulkthing, a Vulkan voxel renderer: the parts of its build-time code
generation and of the game that decide and compute rather than talk to the GPU or the window
system.

- `src/` — the library, checked by Verus. Code generation of `descriptors.rs`, `gpu.rs`,
  `pipelines.rs` and `samplers.rs` from the renderer description and the reflected shader
  (`descriptor_code`, `generate`, `pipeline_code`, `shader_set`, `reflect`, `descriptors`,
  `config`, `helper`, `codegen`, `pipelines`); sections of the generated renderer module:
  its header and resource structs (`header_code`), render passes (`pass_code`), descriptor sets
  with their pool sizes (`set_code`), and each graphics pipeline's layout, specialization,
  vertex input and fixed-function states (`layout_code`, `vertex_code`, `state_code`); frame
  stepping and the voxel configuration generation (`frame`); the voxel octree built from a heightmap
  (`voxel`), chunk scanning (`chunks`), integer cuboids (`geometry`); keyboard input and window
  events (`input`, `app_state`); surface, memory and queue selection (`surface`); settings menus
  (`settings`); command line options (`cli`).
- `tests/` — tests of the library.
- `app/` — the program around it: reading the renderer description (KDL, with `knuffel`),
  listing and compiling shaders, reflecting SPIR-V with `spirv-reflect`, writing the generated
  files.
