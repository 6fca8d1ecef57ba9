//! Verified core of the Vulkthing voxel renderer: the shader and pipeline
//! bookkeeping used when generating renderer code, the reflection of GPU
//! types, the voxel octree built from heightmaps, integer geometry, and the
//! input state machine.

pub mod shader_type;
pub mod text;
pub mod reflect;
pub mod voxel;
pub mod geometry;
pub mod config;
pub mod helper;
pub mod pipelines;
pub mod descriptors;
pub mod codegen;
pub mod input;
pub mod settings;
pub mod surface;
pub mod cli;
pub mod generate;
pub mod descriptor_code;
pub mod shader_set;
pub mod pipeline_code;
pub mod chunks;
pub mod mesh;
pub mod vertex;
pub mod app_state;
pub mod vertex_code;
pub mod pass_code;
pub mod frame;
pub mod set_code;
pub mod header_code;
pub mod state_code;
pub mod layout_code;
