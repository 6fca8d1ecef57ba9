use vstd::prelude::*;
use crate::config::{spec_pipelines, spec_shaders, view_shader_list, Compute, Pipeline, Renderer, Specialization};
use crate::helper::{camel_from, camelcase_input_ok, supported_ty, to_camelcase};
use crate::shader_set::{shader_set, sorted_set};
use crate::shader_type::{spec_extension, ShaderType};
use crate::text::{
    concat_map, decimal, lemma_concat_map_step, lemma_take_all, push_decimal, str_eq, to_uppercase,
    uppercase,
};

verus! {

pub const PIPELINES_OPEN: &'static str = "pub struct Pipelines {\n";

pub const FIELD_OPEN: &'static str = "    pub ";

pub const PIPELINE_FIELD_CLOSE: &'static str = ": vk::Pipeline,\n";

pub const CLOSE_LINE: &'static str = "}\n";

pub const STRUCT_OPEN: &'static str = "\nstruct ";

pub const SPECIALIZATION_STRUCT: &'static str = "Specialization {\n";

pub const INDENT: &'static str = "    ";

pub const TYPE_SEP: &'static str = ": ";

pub const LINE_CLOSE: &'static str = ",\n";

pub const STATIC_STATES: &'static str = "\nstatic ASSEMBLY: vk::PipelineInputAssemblyStateCreateInfo = vk::PipelineInputAssemblyStateCreateInfo {\n    s_type: vk::StructureType::PIPELINE_INPUT_ASSEMBLY_STATE_CREATE_INFO,\n    p_next: std::ptr::null(),\n    flags: vk::PipelineInputAssemblyStateCreateFlags::empty(),\n    topology: vk::PrimitiveTopology::TRIANGLE_LIST,\n    primitive_restart_enable: 0,\n    _marker: std::marker::PhantomData,\n};\n\nstatic DYNAMIC_STATES: [vk::DynamicState; 2] = [\n    vk::DynamicState::VIEWPORT,\n    vk::DynamicState::SCISSOR,\n];\n\nstatic DYNAMIC_STATE: vk::PipelineDynamicStateCreateInfo = vk::PipelineDynamicStateCreateInfo {\n    s_type: vk::StructureType::PIPELINE_DYNAMIC_STATE_CREATE_INFO,\n    p_next: std::ptr::null(),\n    flags: vk::PipelineDynamicStateCreateFlags::empty(),\n    dynamic_state_count: 2,\n    p_dynamic_states: &raw const DYNAMIC_STATES[0],\n    _marker: std::marker::PhantomData,\n};\n";

pub const STATIC_OPEN: &'static str = "\nstatic ";

pub const UNDERSCORE: &'static str = "_";

pub const MODULE_CODE_SIZE: &'static str = ": vk::ShaderModuleCreateInfo = vk::ShaderModuleCreateInfo {\n    s_type: vk::StructureType::SHADER_MODULE_CREATE_INFO,\n    p_next: std::ptr::null(),\n    flags: vk::ShaderModuleCreateFlags::empty(),\n    code_size: ";

pub const MODULE_P_CODE: &'static str = "_SPV.0.len(),\n    p_code: ";

pub const MODULE_CLOSE: &'static str = "_SPV.0.as_ptr() as *const u32,\n    _marker: std::marker::PhantomData,\n};\n";

pub const ENTRIES_TYPE: &'static str = "_FRAGMENT_SPECIALIZATION_ENTRIES: [vk::SpecializationMapEntry; ";

pub const ARRAY_OPEN: &'static str = "] = [\n";

pub const ENTRY_ID: &'static str = "    vk::SpecializationMapEntry {\n        constant_id: ";

pub const ENTRY_OFFSET: &'static str = ",\n        offset: ";

pub const ENTRY_SIZE: &'static str = ",\n        size: ";

pub const ENTRY_CLOSE: &'static str = ",\n    },\n";

pub const INFO_OPEN: &'static str = "];\n\nstatic ";

pub const INFO_COUNT: &'static str = "_FRAGMENT_SPECIALIZATION_INFO: vk::SpecializationInfo = vk::SpecializationInfo {\n    map_entry_count: ";

pub const INFO_ENTRIES: &'static str = ",\n    p_map_entries: &raw const ";

pub const INFO_DATA_SIZE: &'static str = "_FRAGMENT_SPECIALIZATION_ENTRIES[0],\n    data_size: ";

pub const INFO_DATA: &'static str = ",\n    p_data: &raw const ";

pub const INFO_SCRATCH: &'static str = "_FRAGMENT_SPECIALIZATION_SCRATCH) as *const std::ffi::c_void,\n};\n\nstatic ";

pub const SCRATCH_TYPE: &'static str = "_FRAGMENT_SPECIALIZATION_SCRATCH: ";

pub const SCRATCH_VALUE: &'static str = "Specialization = ";

pub const SCRATCH_FIELD_OPEN: &'static str = "        ";

pub const SCRATCH_CLOSE: &'static str = "};\n";

pub const STAGES_TYPE: &'static str = "_SHADER_STAGES: [vk::PipelineShaderStageCreateInfo; ";

pub const TASK_STAGE_OPEN: &'static str = "    vk::PipelineShaderStageCreateInfo {\n        s_type: vk::StructureType::PIPELINE_SHADER_STAGE_CREATE_INFO,\n        p_next: &raw const ";

pub const TASK_STAGE_CLOSE: &'static str = "_TASK as *const c_void,\n        flags: vk::PipelineShaderStageCreateFlags::empty(),\n        stage: vk::ShaderStageFlags::TASK_EXT,\n        module: vk::ShaderModule::null(),\n        p_name: c\"main\".as_ptr(),\n        p_specialization_info: std::ptr::null(),\n        _marker: std::marker::PhantomData,\n    },\n";

pub const STAGE_OPEN: &'static str = "    vk::PipelineShaderStageCreateInfo {\n        s_type: vk::StructureType::PIPELINE_SHADER_STAGE_CREATE_INFO,\n        p_next: &raw const ";

pub const STAGE_TYPE: &'static str = " as *const c_void,\n        flags: vk::PipelineShaderStageCreateFlags::empty(),\n        stage: vk::ShaderStageFlags::";

pub const STAGE_FRAGMENT: &'static str = ",\n        module: vk::ShaderModule::null(),\n        p_name: c\"main\".as_ptr(),\n        p_specialization_info: std::ptr::null(),\n        _marker: std::marker::PhantomData,\n    },\n    vk::PipelineShaderStageCreateInfo {\n        s_type: vk::StructureType::PIPELINE_SHADER_STAGE_CREATE_INFO,\n        p_next: &raw const ";

pub const STAGE_INFO: &'static str = "_FRAGMENT as *const c_void,\n        flags: vk::PipelineShaderStageCreateFlags::empty(),\n        stage: vk::ShaderStageFlags::FRAGMENT,\n        module: vk::ShaderModule::null(),\n        p_name: c\"main\".as_ptr(),\n        p_specialization_info: ";

pub const STAGES_CLOSE: &'static str = ",\n        _marker: std::marker::PhantomData,\n    },\n];\n";

pub const VERTEX_STATE: &'static str = "_VERTEX_STATE: vk::PipelineVertexInputStateCreateInfo = vk::PipelineVertexInputStateCreateInfo {\n    s_type: vk::StructureType::PIPELINE_VERTEX_INPUT_STATE_CREATE_INFO,\n    p_next: std::ptr::null(),\n    flags: vk::PipelineVertexInputStateCreateFlags::empty(),\n    vertex_binding_description_count: 0,\n    p_vertex_binding_descriptions: std::ptr::null(),\n    vertex_attribute_description_count: 0,\n    p_vertex_attribute_descriptions: std::ptr::null(),\n    _marker: std::marker::PhantomData,\n};\n";

pub const STATE_1: &'static str = "_VIEWPORT_STATE: vk::PipelineViewportStateCreateInfo = vk::PipelineViewportStateCreateInfo {\n    s_type: vk::StructureType::PIPELINE_VIEWPORT_STATE_CREATE_INFO,\n    p_next: std::ptr::null(),\n    flags: vk::PipelineViewportStateCreateFlags::empty(),\n    viewport_count: 1,\n    p_viewports: std::ptr::null(),\n    scissor_count: 1,\n    p_scissors: std::ptr::null(),\n    _marker: std::marker::PhantomData,\n};\n\nstatic ";

pub const STATE_2: &'static str = "_RASTERIZER: vk::PipelineRasterizationStateCreateInfo = vk::PipelineRasterizationStateCreateInfo {\n    s_type: vk::StructureType::PIPELINE_RASTERIZATION_STATE_CREATE_INFO,\n    p_next: std::ptr::null(),\n    flags: vk::PipelineRasterizationStateCreateFlags::empty(),\n    depth_clamp_enable: 0,\n    rasterizer_discard_enable: 0,\n    polygon_mode: vk::PolygonMode::";

pub const STATE_3: &'static str = ",\n    cull_mode: vk::CullModeFlags::";

pub const STATE_4: &'static str = ",\n    front_face: vk::FrontFace::COUNTER_CLOCKWISE,\n    depth_bias_enable: 0,\n    depth_bias_constant_factor: 0.,\n    depth_bias_clamp: 0.,\n    depth_bias_slope_factor: 0.,\n    line_width: 1.,\n    _marker: std::marker::PhantomData,\n};\n\nstatic ";

pub const STATE_5: &'static str = "_MULTISAMPLING: vk::PipelineMultisampleStateCreateInfo = vk::PipelineMultisampleStateCreateInfo {\n    s_type: vk::StructureType::PIPELINE_MULTISAMPLE_STATE_CREATE_INFO,\n    p_next: std::ptr::null(),\n    flags: vk::PipelineMultisampleStateCreateFlags::empty(),\n    rasterization_samples: vk::SampleCountFlags::TYPE_1,\n    sample_shading_enable: 0,\n    min_sample_shading: 0.,\n    p_sample_mask: std::ptr::null(),\n    alpha_to_coverage_enable: 0,\n    alpha_to_one_enable: 0,\n    _marker: std::marker::PhantomData,\n};\n\nstatic ";

pub const STATE_6: &'static str = "_BLEND_ATTACHMENTS: [vk::PipelineColorBlendAttachmentState; 1] = [\n    vk::PipelineColorBlendAttachmentState {\n        blend_enable: 0,\n        src_color_blend_factor: vk::BlendFactor::ZERO,\n        dst_color_blend_factor: vk::BlendFactor::ZERO,\n        color_blend_op: vk::BlendOp::ADD,\n        src_alpha_blend_factor: vk::BlendFactor::ZERO,\n        dst_alpha_blend_factor: vk::BlendFactor::ZERO,\n        alpha_blend_op: vk::BlendOp::ADD,\n        color_write_mask: vk::ColorComponentFlags::RGBA,\n    },\n];\n\nstatic ";

pub const STATE_7: &'static str = "_BLEND: vk::PipelineColorBlendStateCreateInfo = vk::PipelineColorBlendStateCreateInfo {\n    s_type: vk::StructureType::PIPELINE_COLOR_BLEND_STATE_CREATE_INFO,\n    p_next: std::ptr::null(),\n    flags: vk::PipelineColorBlendStateCreateFlags::empty(),\n    logic_op_enable: 0,\n    logic_op: vk::LogicOp::CLEAR,\n    attachment_count: 1,\n    p_attachments: &raw const ";

pub const STATE_8: &'static str = "_BLEND_ATTACHMENTS[0],\n    blend_constants: [0., 0., 0., 0.],\n    _marker: std::marker::PhantomData,\n};\n\nstatic ";

pub const STATE_9: &'static str = "_DEPTH: vk::PipelineDepthStencilStateCreateInfo = vk::PipelineDepthStencilStateCreateInfo {\n    s_type: vk::StructureType::PIPELINE_DEPTH_STENCIL_STATE_CREATE_INFO,\n    p_next: std::ptr::null(),\n    flags: vk::PipelineDepthStencilStateCreateFlags::empty(),\n    depth_test_enable: 1,\n    depth_write_enable: 1,\n    depth_compare_op: vk::CompareOp::LESS_OR_EQUAL,\n    depth_bounds_test_enable: 0,\n    stencil_test_enable: 0,\n    front: vk::StencilOpState {\n        fail_op: vk::StencilOp::KEEP,\n        pass_op: vk::StencilOp::KEEP,\n        depth_fail_op: vk::StencilOp::KEEP,\n        compare_op: vk::CompareOp::NEVER,\n        compare_mask: 0,\n        write_mask: 0,\n        reference: 0,\n    },\n    back: vk::StencilOpState {\n        fail_op: vk::StencilOp::KEEP,\n        pass_op: vk::StencilOp::KEEP,\n        depth_fail_op: vk::StencilOp::KEEP,\n        compare_op: vk::CompareOp::NEVER,\n        compare_mask: 0,\n        write_mask: 0,\n        reference: 0,\n    },\n    min_depth_bounds: 0.,\n    max_depth_bounds: 1.,\n    _marker: std::marker::PhantomData,\n};\n\nstatic mut ";

pub const STATE_10: &'static str = "_COLOR_FORMATS: [vk::Format; 1] = [vk::Format::UNDEFINED];\n\nstatic ";

pub const STATE_11: &'static str = "_RENDERING: vk::PipelineRenderingCreateInfo = vk::PipelineRenderingCreateInfo {\n    s_type: vk::StructureType::PIPELINE_RENDERING_CREATE_INFO,\n    p_next: std::ptr::null(),\n    view_mask: 0,\n    color_attachment_count: 1,\n    p_color_attachment_formats: unsafe { &raw const ";

pub const STATE_12: &'static str = "_COLOR_FORMATS[0] },\n    depth_attachment_format: DEPTH_FORMAT,\n    stencil_attachment_format: vk::Format::UNDEFINED,\n    _marker: std::marker::PhantomData,\n};\n\nstatic mut ";

pub const STATE_13: &'static str = "_PIPELINE: vk::GraphicsPipelineCreateInfo = vk::GraphicsPipelineCreateInfo {\n    s_type: vk::StructureType::GRAPHICS_PIPELINE_CREATE_INFO,\n    p_next: &raw const ";

pub const STATE_14: &'static str = "_RENDERING as *const _,\n    flags: vk::PipelineCreateFlags::empty(),\n    stage_count: ";

pub const STATE_15: &'static str = ",\n    p_stages: &raw const ";

pub const STATE_16: &'static str = "_SHADER_STAGES[0],\n    p_vertex_input_state: ";

pub const STATE_17: &'static str = ",\n    p_input_assembly_state: &raw const ASSEMBLY,\n    p_tessellation_state: std::ptr::null(),\n    p_viewport_state: &raw const ";

pub const STATE_18: &'static str = "_VIEWPORT_STATE,\n    p_rasterization_state: &raw const ";

pub const STATE_19: &'static str = "_RASTERIZER,\n    p_multisample_state: &raw const ";

pub const STATE_20: &'static str = "_MULTISAMPLING,\n    p_depth_stencil_state: &raw const ";

pub const STATE_21: &'static str = "_DEPTH,\n    p_color_blend_state: &raw const ";

pub const STATE_22: &'static str = "_BLEND,\n    p_dynamic_state: &raw const DYNAMIC_STATE,\n    layout: vk::PipelineLayout::null(),\n    render_pass: vk::RenderPass::null(),\n    subpass: 0,\n    base_pipeline_handle: vk::Pipeline::null(),\n    base_pipeline_index: 0,\n    _marker: std::marker::PhantomData,\n};\n";

pub const COMPUTE_PIPELINE: &'static str = "_PIPELINE: vk::ComputePipelineCreateInfo = vk::ComputePipelineCreateInfo {\n    s_type: vk::StructureType::COMPUTE_PIPELINE_CREATE_INFO,\n    p_next: std::ptr::null(),\n    flags: vk::PipelineCreateFlags::empty(),\n    stage: vk::PipelineShaderStageCreateInfo {\n        s_type: vk::StructureType::PIPELINE_SHADER_STAGE_CREATE_INFO,\n        p_next: std::ptr::null(),\n        flags: vk::PipelineShaderStageCreateFlags::empty(),\n        stage: vk::ShaderStageFlags::COMPUTE,\n        module: vk::ShaderModule::null(),\n        p_name: c\"main\".as_ptr(),\n        p_specialization_info: std::ptr::null(),\n    },\n    layout: vk::PipelineLayout::null(),\n    base_pipeline_handle: vk::Pipeline::null(),\n    base_pipeline_index: 0,\n};\n";

pub const SPV_TYPE: &'static str = "_SPV: SpvArray<{ ";

pub const SPV_VALUE: &'static str = ".len() }> = SpvArray(*";

pub const SPV_CLOSE: &'static str = ");\n";

pub const CLEANUP_OPEN: &'static str = "\nimpl Pipelines {\n    pub fn cleanup(&self, dev: &Dev) {\n";

pub const DESTROY_OPEN: &'static str = "        unsafe { dev.destroy_pipeline(self.";

pub const DESTROY_CLOSE: &'static str = ", None) };\n";

pub const CREATE_OPEN: &'static str = "    }\n}\n\n#[allow(clippy::identity_op)]\npub fn create_pipelines(\n    _msaa_samples: vk::SampleCountFlags,\n";

pub const CREATE_PARAMS_CLOSE: &'static str = "    swapchain: &Swapchain,\n    layout: vk::PipelineLayout,\n    dev: &Dev,\n) -> Pipelines {\n";

pub const UNSAFE_OPEN: &'static str = "    unsafe { ";

pub const SCRATCH_SET: &'static str = "_FRAGMENT_SPECIALIZATION_SCRATCH.";

pub const ASSIGN: &'static str = " = ";

pub const UNSAFE_CLOSE: &'static str = " };\n";

pub const COLOR_FORMAT_SET: &'static str = "_COLOR_FORMATS[0] = swapchain.format.format };\n";

pub const LAYOUT_SET: &'static str = "_PIPELINE.layout = layout };\n";

pub const PIPELINES_INIT: &'static str = "    let mut pipelines: Pipelines = unsafe { MaybeUninit::zeroed().assume_init() };\n";

pub const MESH_GUARD: &'static str = "    if dev.support.mesh_shaders {\n    ";

pub const GRAPHICS_OPEN: &'static str = "    let _ = unsafe { (dev.fp_v1_0().create_graphics_pipelines)(\n";

pub const GRAPHICS_HANDLE: &'static str = "        dev.handle(),\n";

pub const GRAPHICS_CACHE: &'static str = "        vk::PipelineCache::null(),\n";

pub const GRAPHICS_COUNT: &'static str = "        1,\n";

pub const GRAPHICS_INFO: &'static str = "        &raw const ";

pub const GRAPHICS_INFO_CLOSE: &'static str = "_PIPELINE,\n";

pub const GRAPHICS_ALLOCATOR: &'static str = "        std::ptr::null(),\n";

pub const GRAPHICS_TARGET: &'static str = "        &mut pipelines.";

pub const GRAPHICS_TARGET_CLOSE: &'static str = ",\n";

pub const GRAPHICS_CLOSE: &'static str = "    ) };\n";

pub const GUARD_CLOSE: &'static str = "    }\n";

pub const COMPUTES_OPEN: &'static str = "    let _ = unsafe { (dev.fp_v1_0().create_compute_pipelines)(\n        dev.handle(),\n        vk::PipelineCache::null(),\n        ";

pub const COMPUTES_INFO: &'static str = ",\n        &raw const ";

pub const COMPUTES_TARGET: &'static str = "_PIPELINE,\n        std::ptr::null(),\n        (pipelines.as_mut_ptr() as *mut vk::Pipeline).offset(";

pub const COMPUTES_CLOSE: &'static str = "),\n    ) };\n";

pub const PIPELINES_CLOSE: &'static str = "    pipelines\n}\n";

pub const BYTES_OPEN: &'static str = "include_bytes!(concat!(env!(\"OUT_DIR\"), \"/shaders/";

pub const DOT: &'static str = ".";

pub const BYTES_CLOSE: &'static str = ".spv\"))";

pub const INFO_REF_OPEN: &'static str = "&raw const ";

pub const INFO_REF_CLOSE: &'static str = "_FRAGMENT_SPECIALIZATION_INFO";

pub const NULL: &'static str = "std::ptr::null()";

pub const VERTEX_STATE_REF_CLOSE: &'static str = "_VERTEX_STATE";

/// The first specialization constant with the given name.
pub open spec fn first_spec(specs: Seq<Specialization>, name: Seq<char>) -> Specialization
    decreases specs.len(),
{
    if specs.len() == 0 {
        arbitrary()
    } else if specs[0].name@ == name {
        specs[0]
    } else {
        first_spec(specs.drop_first(), name)
    }
}

/// Whether a specialization constant with the given name is declared, with a type that the
/// generated code knows the size and zero value of.
pub open spec fn spec_usable(specs: Seq<Specialization>, name: Seq<char>) -> bool {
    &&& exists|i: int| 0 <= i < specs.len() && #[trigger] specs[i].name@ == name
    &&& supported_ty(first_spec(specs, name).ty@)
}

/// Whether the generated code can describe a pipeline: each of its fragment specialization
/// constants is declared with a supported type, the constants' data (four bytes each) fits in
/// `usize`, and its name converts to camel case.
pub open spec fn pipeline_ok(r: Renderer, p: Pipeline) -> bool {
    match p.fragment_specialization {
        Some(specs) => {
            &&& camelcase_input_ok(p.name@)
            &&& 4 * specs@.len() <= usize::MAX
            &&& forall|i: int|
                0 <= i < specs@.len() ==> #[trigger] spec_usable(r.specializations@, specs@[i]@)
        },
        None => true,
    }
}

/// Uppercase name of a shader kind, as generated identifiers use it.
pub open spec fn type_upper(t: ShaderType) -> Seq<char> {
    match t {
        ShaderType::Compute => "COMPUTE"@,
        ShaderType::Fragment => "FRAGMENT"@,
        ShaderType::Mesh => "MESH"@,
        ShaderType::Task => "TASK"@,
        ShaderType::Vertex => "VERTEX"@,
    }
}

/// The field of the `Pipelines` struct for one pipeline.
pub open spec fn pipeline_field(p: Pipeline) -> Seq<char> {
    FIELD_OPEN@ + p.name@ + PIPELINE_FIELD_CLOSE@
}

/// One field of a pipeline's specialization struct.
pub open spec fn spec_struct_field(specs: Seq<Specialization>, s: String) -> Seq<char> {
    INDENT@ + s@ + TYPE_SEP@ + first_spec(specs, s@).ty@ + LINE_CLOSE@
}

/// The struct holding the fragment specialization constants of a pipeline.
pub open spec fn specialization_struct(r: Renderer, p: Pipeline) -> Seq<char> {
    match p.fragment_specialization {
        Some(specs) => STRUCT_OPEN@ + camel_from(p.name@, true) + SPECIALIZATION_STRUCT@
            + concat_map(specs@, |s: String| spec_struct_field(r.specializations@, s))
            + CLOSE_LINE@,
        None => seq![],
    }
}

/// The map entries of `n` specialization constants of four bytes each.
pub open spec fn spec_entries(n: nat) -> Seq<char>
    decreases n,
{
    if n == 0 {
        seq![]
    } else {
        spec_entries((n - 1) as nat) + ENTRY_ID@ + decimal((n - 1) as nat) + ENTRY_OFFSET@
            + decimal(4 * (n - 1) as nat) + ENTRY_SIZE@ + decimal(4) + ENTRY_CLOSE@
    }
}

/// Rust literal of the zero value of a specialization constant.
pub open spec fn default_literal(s: Specialization) -> Seq<char> {
    if s.ty@ == "f32"@ {
        "0."@
    } else {
        "0"@
    }
}

/// One field of a pipeline's specialization scratch value.
pub open spec fn scratch_field(specs: Seq<Specialization>, s: String) -> Seq<char> {
    SCRATCH_FIELD_OPEN@ + s@ + TYPE_SEP@ + default_literal(first_spec(specs, s@)) + LINE_CLOSE@
}

/// The specialization map entries, info and scratch value of a pipeline with fragment
/// specialization constants.
pub open spec fn specialization_info(r: Renderer, p: Pipeline, pu: Seq<char>) -> Seq<char> {
    match p.fragment_specialization {
        Some(specs) => {
            let n = specs@.len();
            let camel = camel_from(p.name@, true);
            STATIC_OPEN@ + pu + ENTRIES_TYPE@ + decimal(n) + ARRAY_OPEN@ + spec_entries(n)
                + INFO_OPEN@ + pu + INFO_COUNT@ + decimal(n) + INFO_ENTRIES@ + pu
                + INFO_DATA_SIZE@ + decimal(4 * n) + INFO_DATA@ + pu + INFO_SCRATCH@ + pu
                + SCRATCH_TYPE@ + camel + SCRATCH_VALUE@ + camel + SPECIALIZATION_STRUCT@
                + concat_map(specs@, |s: String| scratch_field(r.specializations@, s))
                + SCRATCH_CLOSE@
        },
        None => seq![],
    }
}

/// The fragment stage's specialization info: a reference to the pipeline's info, or null.
pub open spec fn info_ref(p: Pipeline, pu: Seq<char>) -> Seq<char> {
    if p.fragment_specialization is Some {
        INFO_REF_OPEN@ + pu + INFO_REF_CLOSE@
    } else {
        NULL@
    }
}

/// Number of shader stages of a pipeline, in decimal.
pub open spec fn stage_count(p: Pipeline) -> Seq<char> {
    if p.task_shaders {
        "3"@
    } else {
        "2"@
    }
}

/// The task stage of a pipeline with task shaders.
pub open spec fn task_stage(pu: Seq<char>) -> Seq<char> {
    TASK_STAGE_OPEN@ + pu + TASK_STAGE_CLOSE@
}

/// The (empty) vertex input state of a pipeline without mesh shaders.
pub open spec fn vertex_state(pu: Seq<char>) -> Seq<char> {
    STATIC_OPEN@ + pu + VERTEX_STATE@
}

/// The shader stages of a pipeline: task stage if any, vertex or mesh stage, fragment stage.
pub open spec fn shader_stages(p: Pipeline, pu: Seq<char>) -> Seq<char> {
    STATIC_OPEN@ + pu + STAGES_TYPE@ + stage_count(p) + ARRAY_OPEN@ + (if p.task_shaders {
        task_stage(pu)
    } else {
        ""@
    }) + STAGE_OPEN@ + pu + UNDERSCORE@ + (if p.mesh_shaders {
        "MESH"@
    } else {
        "VERTEX"@
    }) + STAGE_TYPE@ + (if p.mesh_shaders {
        "MESH_EXT"@
    } else {
        "VERTEX"@
    }) + STAGE_FRAGMENT@ + pu + STAGE_INFO@ + info_ref(p, pu) + STAGES_CLOSE@ + (if !p.mesh_shaders {
        vertex_state(pu)
    } else {
        ""@
    })
}

/// The vertex input state a pipeline refers to: none with mesh shaders.
pub open spec fn vertex_input_ref(p: Pipeline, pu: Seq<char>) -> Seq<char> {
    if p.mesh_shaders {
        NULL@
    } else {
        INFO_REF_OPEN@ + pu + VERTEX_STATE_REF_CLOSE@
    }
}

/// The fixed-function states and the create info of a graphics pipeline.
pub open spec fn pipeline_states(p: Pipeline, pu: Seq<char>) -> Seq<char> {
    STATIC_OPEN@ + pu + STATE_1@ + pu + STATE_2@ + p.polygon_mode@ + STATE_3@ + p.cull_mode@
        + STATE_4@ + pu + STATE_5@ + pu + STATE_6@ + pu + STATE_7@ + pu + STATE_8@ + pu
        + STATE_9@ + pu + STATE_10@ + pu + STATE_11@ + pu + STATE_12@ + pu + STATE_13@ + pu
        + STATE_14@ + stage_count(p) + STATE_15@ + pu + STATE_16@ + vertex_input_ref(p, pu)
        + STATE_17@ + pu + STATE_18@ + pu + STATE_19@ + pu + STATE_20@ + pu + STATE_21@ + pu
        + STATE_22@
}

/// Every static a graphics pipeline needs.
pub open spec fn pipeline_statics(r: Renderer, p: Pipeline, pu: Seq<char>) -> Seq<char> {
    specialization_info(r, p, pu) + shader_stages(p, pu) + pipeline_states(p, pu)
}

/// The statement destroying a pipeline in `Pipelines::cleanup`.
pub open spec fn pipeline_destroy(name: Seq<char>) -> Seq<char> {
    DESTROY_OPEN@ + name + DESTROY_CLOSE@
}

/// A parameter of `create_pipelines` for a specialization constant one pipeline owns.
pub open spec fn private_param(specs: Seq<Specialization>, p: Pipeline, s: String) -> Seq<char> {
    if !first_spec(specs, s@).shared {
        INDENT@ + p.name@ + UNDERSCORE@ + s@ + TYPE_SEP@ + first_spec(specs, s@).ty@ + LINE_CLOSE@
    } else {
        seq![]
    }
}

/// The parameters of `create_pipelines` for the specialization constants a pipeline owns.
pub open spec fn private_params(r: Renderer, p: Pipeline) -> Seq<char> {
    match p.fragment_specialization {
        Some(specs) => concat_map(specs@, |s: String| private_param(r.specializations@, p, s)),
        None => seq![],
    }
}

/// The statement storing one specialization constant of a pipeline into its scratch value.
pub open spec fn scratch_set(specs: Seq<Specialization>, p: Pipeline, pu: Seq<char>, s: String) -> Seq<
    char,
> {
    UNSAFE_OPEN@ + pu + SCRATCH_SET@ + s@ + ASSIGN@ + (if first_spec(specs, s@).shared {
        s@
    } else {
        p.name@ + UNDERSCORE@ + s@
    }) + UNSAFE_CLOSE@
}

/// The statements filling a pipeline's specialization scratch value and color format.
pub open spec fn pipeline_scratch(r: Renderer, p: Pipeline, pu: Seq<char>) -> Seq<char> {
    (match p.fragment_specialization {
        Some(specs) => concat_map(specs@, |s: String| scratch_set(r.specializations@, p, pu, s)),
        None => seq![],
    }) + UNSAFE_OPEN@ + pu + COLOR_FORMAT_SET@
}

/// The statement setting the layout of a pipeline's create info.
pub open spec fn layout_set(name: Seq<char>) -> Seq<char> {
    UNSAFE_OPEN@ + name + LAYOUT_SET@
}

/// The call creating one graphics pipeline; with mesh shaders, only where the device supports
/// them.
pub open spec fn pipeline_create(p: Pipeline, pu: Seq<char>) -> Seq<char> {
    let tab = if p.mesh_shaders {
        INDENT@
    } else {
        ""@
    };
    (if p.mesh_shaders {
        MESH_GUARD@
    } else {
        ""@
    }) + GRAPHICS_OPEN@ + tab + GRAPHICS_HANDLE@ + tab + GRAPHICS_CACHE@ + tab + GRAPHICS_COUNT@
        + tab + GRAPHICS_INFO@ + pu + GRAPHICS_INFO_CLOSE@ + tab + GRAPHICS_ALLOCATOR@ + tab
        + GRAPHICS_TARGET@ + p.name@ + GRAPHICS_TARGET_CLOSE@ + tab + GRAPHICS_CLOSE@ + (
    if p.mesh_shaders {
        GUARD_CLOSE@
    } else {
        ""@
    })
}

/// What the generated code holds for one pipeline in one of its per-pipeline sections.
pub open spec fn pipeline_section(k: u8, r: Renderer, it: (Pipeline, Seq<char>)) -> Seq<char> {
    if k == 0 {
        pipeline_field(it.0)
    } else if k == 1 {
        specialization_struct(r, it.0)
    } else if k == 2 {
        pipeline_statics(r, it.0, it.1)
    } else if k == 3 {
        pipeline_destroy(it.0.name@)
    } else if k == 4 {
        private_params(r, it.0)
    } else if k == 5 {
        pipeline_scratch(r, it.0, it.1)
    } else if k == 6 {
        layout_set(it.1)
    } else {
        pipeline_create(it.0, it.1)
    }
}

/// What the generated code holds for one compute pipeline in one of its per-compute sections.
pub open spec fn compute_section(k: u8, c: Compute) -> Seq<char> {
    if k == 0 {
        FIELD_OPEN@ + c.name@ + PIPELINE_FIELD_CLOSE@
    } else if k == 1 {
        STATIC_OPEN@ + c.name@ + COMPUTE_PIPELINE@
    } else if k == 2 {
        pipeline_destroy(c.name@)
    } else {
        layout_set(c.name@)
    }
}

/// The name of a shader's compiled SPIR-V file, embedded at build time.
pub open spec fn spv_bytes(s: (Seq<char>, ShaderType)) -> Seq<char> {
    BYTES_OPEN@ + s.0 + DOT@ + spec_extension(s.1) + BYTES_CLOSE@
}

/// What the generated code holds for one shader: its module create info, or its SPIR-V bytes.
pub open spec fn shader_section(k: u8, it: ((Seq<char>, ShaderType), Seq<char>)) -> Seq<char> {
    let id = it.1 + UNDERSCORE@ + type_upper(it.0.1);
    if k == 0 {
        STATIC_OPEN@ + id + MODULE_CODE_SIZE@ + id + MODULE_P_CODE@ + id + MODULE_CLOSE@
    } else {
        STATIC_OPEN@ + id + SPV_TYPE@ + spv_bytes(it.0) + SPV_VALUE@ + spv_bytes(it.0) + SPV_CLOSE@
    }
}

/// A parameter of `create_pipelines` for a specialization constant shared between pipelines.
pub open spec fn shared_param(s: Specialization) -> Seq<char> {
    if s.shared {
        INDENT@ + s.name@ + TYPE_SEP@ + s.ty@ + LINE_CLOSE@
    } else {
        seq![]
    }
}

/// The call creating all compute pipelines at once, after the graphics pipelines.
pub open spec fn computes_create(computes: Seq<Compute>, pipeline_count: nat) -> Seq<char> {
    if computes.len() > 0 {
        COMPUTES_OPEN@ + decimal(computes.len()) + COMPUTES_INFO@ + computes[0].name@
            + COMPUTES_TARGET@ + decimal(pipeline_count) + COMPUTES_CLOSE@
    } else {
        seq![]
    }
}

/// Each pipeline with its uppercase name.
pub open spec fn pipeline_items(ps: Seq<Pipeline>, pu: Seq<Seq<char>>) -> Seq<(Pipeline, Seq<char>)> {
    Seq::new(ps.len(), |i: int| (ps[i], pu[i]))
}

/// Each shader with its uppercase name.
pub open spec fn shader_items(ss: Seq<(Seq<char>, ShaderType)>, su: Seq<Seq<char>>) -> Seq<
    ((Seq<char>, ShaderType), Seq<char>),
> {
    Seq::new(ss.len(), |i: int| (ss[i], su[i]))
}

pub open spec fn strings_view(v: Seq<String>) -> Seq<Seq<char>> {
    v.map_values(|s: String| s@)
}

/// The generated `pipelines.rs`, given the uppercase name `pu[i]` of each pipeline, the
/// shaders `ss` in the order they are generated, and the uppercase name `su[j]` of each shader.
pub open spec fn spec_pipelines_text(
    r: Renderer,
    pu: Seq<Seq<char>>,
    ss: Seq<(Seq<char>, ShaderType)>,
    su: Seq<Seq<char>>,
) -> Seq<char> {
    let ps = spec_pipelines(r.passes@);
    let items = pipeline_items(ps, pu);
    let shaders = shader_items(ss, su);
    let cs = r.computes@;
    PIPELINES_OPEN@ + concat_map(items, |it: (Pipeline, Seq<char>)| pipeline_section(0, r, it))
        + concat_map(cs, |c: Compute| compute_section(0, c)) + CLOSE_LINE@ + concat_map(
        items,
        |it: (Pipeline, Seq<char>)| pipeline_section(1, r, it),
    ) + STATIC_STATES@ + concat_map(
        shaders,
        |it: ((Seq<char>, ShaderType), Seq<char>)| shader_section(0, it),
    ) + concat_map(items, |it: (Pipeline, Seq<char>)| pipeline_section(2, r, it)) + concat_map(
        cs,
        |c: Compute| compute_section(1, c),
    ) + concat_map(shaders, |it: ((Seq<char>, ShaderType), Seq<char>)| shader_section(1, it))
        + CLEANUP_OPEN@ + concat_map(items, |it: (Pipeline, Seq<char>)| pipeline_section(3, r, it))
        + concat_map(cs, |c: Compute| compute_section(2, c)) + CREATE_OPEN@ + concat_map(
        r.specializations@,
        |s: Specialization| shared_param(s),
    ) + concat_map(items, |it: (Pipeline, Seq<char>)| pipeline_section(4, r, it))
        + CREATE_PARAMS_CLOSE@ + concat_map(
        items,
        |it: (Pipeline, Seq<char>)| pipeline_section(5, r, it),
    ) + concat_map(items, |it: (Pipeline, Seq<char>)| pipeline_section(6, r, it)) + concat_map(
        cs,
        |c: Compute| compute_section(3, c),
    ) + PIPELINES_INIT@ + concat_map(items, |it: (Pipeline, Seq<char>)| pipeline_section(7, r, it))
        + computes_create(cs, ps.len()) + PIPELINES_CLOSE@
}

/// Every shader the pipelines of a renderer are built from, then its compute shaders.
pub open spec fn all_shaders(r: Renderer) -> Seq<(Seq<char>, ShaderType)> {
    spec_shaders(spec_pipelines(r.passes@)) + r.computes@.map_values(
        |c: Compute| (c.name@, ShaderType::Compute),
    )
}

/// Whether the pipelines of a renderer can be generated: every configured shader path has its
/// stage's extension, and every pipeline passes [`pipeline_ok`].
pub open spec fn pipelines_renderable(r: Renderer) -> bool {
    &&& r.spec_shader_paths_valid()
    &&& forall|i: int|
        0 <= i < spec_pipelines(r.passes@).len() ==> #[trigger] pipeline_ok(
            r,
            spec_pipelines(r.passes@)[i],
        )
}

/// The generated `pipelines.rs` of a renderer, or `None` where generation stops.
pub open spec fn spec_generate_pipelines(r: Renderer) -> Option<Seq<char>> {
    if pipelines_renderable(r) {
        let ss = sorted_set(all_shaders(r));
        Some(
            spec_pipelines_text(
                r,
                spec_pipelines(r.passes@).map_values(|p: Pipeline| uppercase(p.name@)),
                ss,
                ss.map_values(|s: (Seq<char>, ShaderType)| uppercase(s.0)),
            ),
        )
    } else {
        None
    }
}


proof fn lemma_first_spec(specs: Seq<Specialization>, name: Seq<char>, i: int)
    requires
        0 <= i < specs.len(),
        specs[i].name@ == name,
        forall|j: int| 0 <= j < i ==> #[trigger] specs[j].name@ != name,
    ensures
        first_spec(specs, name) == specs[i],
    decreases i,
{
    if i > 0 {
        assert(specs[0].name@ != name);
        let rest = specs.drop_first();
        assert forall|j: int| 0 <= j < i - 1 implies #[trigger] rest[j].name@ != name by {
            assert(rest[j] == specs[j + 1]);
        }
        lemma_first_spec(rest, name, i - 1);
    }
}

/// The first specialization constant with the given name, which must be declared.
pub(crate) fn find_spec<'a>(r: &'a Renderer, name: &str) -> (res: &'a Specialization)
    requires
        exists|i: int|
            0 <= i < r.specializations@.len() && #[trigger] r.specializations@[i].name@ == name@,
    ensures
        *res == first_spec(r.specializations@, name@),
{
    let res = r.find_specialization(name);
    proof {
        let i = choose|i: int|
            0 <= i < r.specializations@.len() && r.specializations@[i] == *res && res.name@
                == name@ && forall|j: int|
                0 <= j < i ==> #[trigger] r.specializations@[j].name@ != name@;
        lemma_first_spec(r.specializations@, name@, i);
    }
    res
}

fn usable(r: &Renderer, name: &str) -> (res: bool)
    ensures
        res == spec_usable(r.specializations@, name@),
{
    let mut i: usize = 0;
    while i < r.specializations.len()
        invariant
            i <= r.specializations@.len(),
            forall|j: int| 0 <= j < i ==> #[trigger] r.specializations@[j].name@ != name@,
        decreases r.specializations@.len() - i,
    {
        if str_eq(r.specializations[i].name.as_str(), name) {
            let s = find_spec(r, name);
            let ty = s.ty.as_str();
            return str_eq(ty, "f32") || str_eq(ty, "i32") || str_eq(ty, "u32");
        }
        i = i + 1;
    }
    false
}

/// For each character of `s`, the character before it, and an underscore before the first.
spec fn previous_chars(s: Seq<char>) -> Seq<char> {
    Seq::new(s.len(), |j: int| if j == 0 { '_' } else { s[j - 1] })
}

fn camelcase_ok(name: &str) -> (res: bool)
    ensures
        res == camelcase_input_ok(name@),
{
    let n = name.unicode_len();
    if n == 0 {
        return false;
    }
    if name.get_char(0) == '_' || name.get_char(n - 1) == '_' {
        return false;
    }
    let ghost prev = previous_chars(name@);
    let mut starts_word = true;
    let mut i: usize = 0;
    while i < n
        invariant
            n == name@.len(),
            n > 0,
            name@[0] != '_',
            name@[n - 1] != '_',
            prev == previous_chars(name@),
            i <= n,
            starts_word == (prev[i as int] == '_') || i == n,
            forall|j: int|
                0 <= j < i && #[trigger] prev[j] == '_' ==> name@[j] != '_' && (name@[j] as u32)
                    < 128,
        decreases n - i,
    {
        let c = name.get_char(i);
        assert(starts_word == (prev[i as int] == '_'));
        if starts_word && (c == '_' || (c as u32) >= 128) {
            if i > 0 {
                assert(name@[i - 1] == '_');
            }
            return false;
        }
        starts_word = c == '_';
        i = i + 1;
        if i < n {
            assert(prev[i as int] == name@[i - 1]);
        }
    }
    assert forall|j: int| 1 <= j < name@.len() && name@[j - 1] == '_' implies #[trigger] name@[j]
        != '_' by {
        assert(prev[j] == name@[j - 1]);
    }
    assert forall|j: int| 0 <= j < name@.len() && (j == 0 || name@[j - 1] == '_') implies (
    #[trigger] name@[j] as u32) < 128 by {
        assert(prev[j] == '_');
    }
    true
}

/// Whether the generated code can describe the pipeline, as [`pipeline_ok`] states.
pub(crate) fn check_pipeline(r: &Renderer, p: &Pipeline) -> (res: bool)
    ensures
        res == pipeline_ok(*r, *p),
{
    match &p.fragment_specialization {
        Some(specs) => {
            if !camelcase_ok(p.name.as_str()) || specs.len() > usize::MAX / 4 {
                return false;
            }
            let mut i: usize = 0;
            while i < specs.len()
                invariant
                    p.fragment_specialization == Some(*specs),
                    i <= specs@.len(),
                    forall|j: int|
                        0 <= j < i ==> #[trigger] spec_usable(r.specializations@, specs@[j]@),
                decreases specs@.len() - i,
            {
                if !usable(r, specs[i].as_str()) {
                    assert(!spec_usable(r.specializations@, specs@[i as int]@));
                    return false;
                }
                i = i + 1;
            }
            true
        },
        None => true,
    }
}


/// Every specialization constant in the list is declared with a supported type.
pub open spec fn all_usable(specs: Seq<Specialization>, names: Seq<String>) -> bool {
    forall|i: int| 0 <= i < names.len() ==> #[trigger] spec_usable(specs, names[i]@)
}

fn struct_field_str(r: &Renderer, s: &String) -> (res: String)
    requires
        spec_usable(r.specializations@, s@),
    ensures
        res@ == spec_struct_field(r.specializations@, *s),
{
    let spec = find_spec(r, s.as_str());
    let mut t = String::from_str(INDENT);
    t.append(s.as_str());
    t.append(TYPE_SEP);
    t.append(spec.ty.as_str());
    t.append(LINE_CLOSE);
    t
}

fn struct_fields_str(r: &Renderer, specs: &Vec<String>) -> (res: String)
    requires
        all_usable(r.specializations@, specs@),
    ensures
        res@ == concat_map(specs@, |s: String| spec_struct_field(r.specializations@, s)),
{
    let mut t = String::new();
    let mut i: usize = 0;
    assert(specs@.take(0) =~= Seq::<String>::empty());
    while i < specs.len()
        invariant
            all_usable(r.specializations@, specs@),
            i <= specs@.len(),
            t@ == concat_map(specs@.take(i as int), |s: String| spec_struct_field(r.specializations@, s)),
        decreases specs@.len() - i,
    {
        proof {
            lemma_concat_map_step(specs@, |s: String| spec_struct_field(r.specializations@, s), i as int);
        }
        assert(spec_usable(r.specializations@, specs@[i as int]@));
        let f = struct_field_str(r, &specs[i]);
        t.append(f.as_str());
        i = i + 1;
    }
    proof {
        lemma_take_all(specs@);
    }
    t
}

fn scratch_field_str(r: &Renderer, s: &String) -> (res: String)
    requires
        spec_usable(r.specializations@, s@),
    ensures
        res@ == scratch_field(r.specializations@, *s),
{
    let spec = find_spec(r, s.as_str());
    let mut t = String::from_str(SCRATCH_FIELD_OPEN);
    t.append(s.as_str());
    t.append(TYPE_SEP);
    t.append(spec.type_default());
    t.append(LINE_CLOSE);
    t
}

fn scratch_fields_str(r: &Renderer, specs: &Vec<String>) -> (res: String)
    requires
        all_usable(r.specializations@, specs@),
    ensures
        res@ == concat_map(specs@, |s: String| scratch_field(r.specializations@, s)),
{
    let mut t = String::new();
    let mut i: usize = 0;
    assert(specs@.take(0) =~= Seq::<String>::empty());
    while i < specs.len()
        invariant
            all_usable(r.specializations@, specs@),
            i <= specs@.len(),
            t@ == concat_map(specs@.take(i as int), |s: String| scratch_field(r.specializations@, s)),
        decreases specs@.len() - i,
    {
        proof {
            lemma_concat_map_step(specs@, |s: String| scratch_field(r.specializations@, s), i as int);
        }
        assert(spec_usable(r.specializations@, specs@[i as int]@));
        let f = scratch_field_str(r, &specs[i]);
        t.append(f.as_str());
        i = i + 1;
    }
    proof {
        lemma_take_all(specs@);
    }
    t
}

fn private_param_str(r: &Renderer, p: &Pipeline, s: &String) -> (res: String)
    requires
        spec_usable(r.specializations@, s@),
    ensures
        res@ == private_param(r.specializations@, *p, *s),
{
    let spec = find_spec(r, s.as_str());
    if !spec.shared {
        let mut t = String::from_str(INDENT);
        t.append(p.name.as_str());
        t.append(UNDERSCORE);
        t.append(s.as_str());
        t.append(TYPE_SEP);
        t.append(spec.ty.as_str());
        t.append(LINE_CLOSE);
        t
    } else {
        String::new()
    }
}

fn private_params_str(r: &Renderer, p: &Pipeline) -> (res: String)
    requires
        pipeline_ok(*r, *p),
    ensures
        res@ == private_params(*r, *p),
{
    match &p.fragment_specialization {
        Some(specs) => {
            let mut t = String::new();
            let mut i: usize = 0;
            assert(specs@.take(0) =~= Seq::<String>::empty());
            while i < specs.len()
                invariant
                    all_usable(r.specializations@, specs@),
                    i <= specs@.len(),
                    t@ == concat_map(
                        specs@.take(i as int),
                        |s: String| private_param(r.specializations@, *p, s),
                    ),
                decreases specs@.len() - i,
            {
                proof {
                    lemma_concat_map_step(
                        specs@,
                        |s: String| private_param(r.specializations@, *p, s),
                        i as int,
                    );
                }
                assert(spec_usable(r.specializations@, specs@[i as int]@));
                let f = private_param_str(r, p, &specs[i]);
                t.append(f.as_str());
                i = i + 1;
            }
            proof {
                lemma_take_all(specs@);
            }
            t
        },
        None => String::new(),
    }
}

fn scratch_set_str(r: &Renderer, p: &Pipeline, pu: &String, s: &String) -> (res: String)
    requires
        spec_usable(r.specializations@, s@),
    ensures
        res@ == scratch_set(r.specializations@, *p, pu@, *s),
{
    let spec = find_spec(r, s.as_str());
    let value = if spec.shared {
        String::from_str(s.as_str())
    } else {
        let mut v = String::from_str(p.name.as_str());
        v.append(UNDERSCORE);
        v.append(s.as_str());
        v
    };
    let mut t = String::from_str(UNSAFE_OPEN);
    t.append(pu.as_str());
    t.append(SCRATCH_SET);
    t.append(s.as_str());
    t.append(ASSIGN);
    t.append(value.as_str());
    t.append(UNSAFE_CLOSE);
    t
}

fn scratch_sets_str(r: &Renderer, p: &Pipeline, pu: &String) -> (res: String)
    requires
        pipeline_ok(*r, *p),
    ensures
        res@ == (match p.fragment_specialization {
            Some(specs) => concat_map(specs@, |s: String| scratch_set(r.specializations@, *p, pu@, s)),
            None => seq![],
        }),
{
    match &p.fragment_specialization {
        Some(specs) => {
            let mut t = String::new();
            let mut i: usize = 0;
            assert(specs@.take(0) =~= Seq::<String>::empty());
            while i < specs.len()
                invariant
                    all_usable(r.specializations@, specs@),
                    i <= specs@.len(),
                    t@ == concat_map(
                        specs@.take(i as int),
                        |s: String| scratch_set(r.specializations@, *p, pu@, s),
                    ),
                decreases specs@.len() - i,
            {
                proof {
                    lemma_concat_map_step(
                        specs@,
                        |s: String| scratch_set(r.specializations@, *p, pu@, s),
                        i as int,
                    );
                }
                assert(spec_usable(r.specializations@, specs@[i as int]@));
                let f = scratch_set_str(r, p, pu, &specs[i]);
                t.append(f.as_str());
                i = i + 1;
            }
            proof {
                lemma_take_all(specs@);
            }
            t
        },
        None => String::new(),
    }
}

fn entries_str(n: usize) -> (res: String)
    requires
        4 * n <= usize::MAX,
    ensures
        res@ == spec_entries(n as nat),
{
    let mut t = String::new();
    let mut i: usize = 0;
    while i < n
        invariant
            4 * n <= usize::MAX,
            i <= n,
            t@ == spec_entries(i as nat),
        decreases n - i,
    {
        t.append(ENTRY_ID);
        push_decimal(&mut t, i as u64);
        t.append(ENTRY_OFFSET);
        push_decimal(&mut t, 4 * i as u64);
        t.append(ENTRY_SIZE);
        push_decimal(&mut t, 4);
        t.append(ENTRY_CLOSE);
        i = i + 1;
    }
    t
}

fn specialization_struct_str(r: &Renderer, p: &Pipeline) -> (res: String)
    requires
        pipeline_ok(*r, *p),
    ensures
        res@ == specialization_struct(*r, *p),
{
    match &p.fragment_specialization {
        Some(specs) => {
            let camel = to_camelcase(p.name.as_str());
            let fields = struct_fields_str(r, specs);
            let mut t = String::from_str(STRUCT_OPEN);
            t.append(camel.as_str());
            t.append(SPECIALIZATION_STRUCT);
            t.append(fields.as_str());
            t.append(CLOSE_LINE);
            t
        },
        None => String::new(),
    }
}

fn specialization_info_str(r: &Renderer, p: &Pipeline, pu: &String) -> (res: String)
    requires
        pipeline_ok(*r, *p),
    ensures
        res@ == specialization_info(*r, *p, pu@),
{
    match &p.fragment_specialization {
        Some(specs) => {
            let n = specs.len();
            let pu = pu.as_str();
            let camel = to_camelcase(p.name.as_str());
            let entries = entries_str(n);
            let fields = scratch_fields_str(r, specs);
            let mut t = String::from_str(STATIC_OPEN);
            t.append(pu);
            t.append(ENTRIES_TYPE);
            push_decimal(&mut t, n as u64);
            t.append(ARRAY_OPEN);
            t.append(entries.as_str());
            t.append(INFO_OPEN);
            t.append(pu);
            t.append(INFO_COUNT);
            push_decimal(&mut t, n as u64);
            t.append(INFO_ENTRIES);
            t.append(pu);
            t.append(INFO_DATA_SIZE);
            push_decimal(&mut t, 4 * n as u64);
            t.append(INFO_DATA);
            t.append(pu);
            t.append(INFO_SCRATCH);
            t.append(pu);
            t.append(SCRATCH_TYPE);
            t.append(camel.as_str());
            t.append(SCRATCH_VALUE);
            t.append(camel.as_str());
            t.append(SPECIALIZATION_STRUCT);
            t.append(fields.as_str());
            t.append(SCRATCH_CLOSE);
            t
        },
        None => String::new(),
    }
}

fn stage_count_str(p: &Pipeline) -> (res: &'static str)
    ensures
        res@ == stage_count(*p),
{
    if p.task_shaders {
        "3"
    } else {
        "2"
    }
}

fn info_ref_str(p: &Pipeline, pu: &str) -> (res: String)
    ensures
        res@ == info_ref(*p, pu@),
{
    if p.fragment_specialization.is_some() {
        let mut t = String::from_str(INFO_REF_OPEN);
        t.append(pu);
        t.append(INFO_REF_CLOSE);
        t
    } else {
        String::from_str(NULL)
    }
}

fn vertex_input_ref_str(p: &Pipeline, pu: &str) -> (res: String)
    ensures
        res@ == vertex_input_ref(*p, pu@),
{
    if p.mesh_shaders {
        String::from_str(NULL)
    } else {
        let mut t = String::from_str(INFO_REF_OPEN);
        t.append(pu);
        t.append(VERTEX_STATE_REF_CLOSE);
        t
    }
}

fn shader_stages_str(p: &Pipeline, pu: &str) -> (res: String)
    ensures
        res@ == shader_stages(*p, pu@),
{
    let task = if p.task_shaders {
        let mut t = String::from_str(TASK_STAGE_OPEN);
        t.append(pu);
        t.append(TASK_STAGE_CLOSE);
        t
    } else {
        String::from_str("")
    };
    let vertex = if !p.mesh_shaders {
        let mut t = String::from_str(STATIC_OPEN);
        t.append(pu);
        t.append(VERTEX_STATE);
        t
    } else {
        String::from_str("")
    };
    let info = info_ref_str(p, pu);
    let mut t = String::from_str(STATIC_OPEN);
    t.append(pu);
    t.append(STAGES_TYPE);
    t.append(stage_count_str(p));
    t.append(ARRAY_OPEN);
    t.append(task.as_str());
    t.append(STAGE_OPEN);
    t.append(pu);
    t.append(UNDERSCORE);
    t.append(if p.mesh_shaders { "MESH" } else { "VERTEX" });
    t.append(STAGE_TYPE);
    t.append(if p.mesh_shaders { "MESH_EXT" } else { "VERTEX" });
    t.append(STAGE_FRAGMENT);
    t.append(pu);
    t.append(STAGE_INFO);
    t.append(info.as_str());
    t.append(STAGES_CLOSE);
    t.append(vertex.as_str());
    t
}

fn pipeline_states_str(p: &Pipeline, pu: &str) -> (res: String)
    ensures
        res@ == pipeline_states(*p, pu@),
{
    let vertex_input = vertex_input_ref_str(p, pu);
    let mut t = String::from_str(STATIC_OPEN);
    t.append(pu);
    t.append(STATE_1);
    t.append(pu);
    t.append(STATE_2);
    t.append(p.polygon_mode.as_str());
    t.append(STATE_3);
    t.append(p.cull_mode.as_str());
    t.append(STATE_4);
    t.append(pu);
    t.append(STATE_5);
    t.append(pu);
    t.append(STATE_6);
    t.append(pu);
    t.append(STATE_7);
    t.append(pu);
    t.append(STATE_8);
    t.append(pu);
    t.append(STATE_9);
    t.append(pu);
    t.append(STATE_10);
    t.append(pu);
    t.append(STATE_11);
    t.append(pu);
    t.append(STATE_12);
    t.append(pu);
    t.append(STATE_13);
    t.append(pu);
    t.append(STATE_14);
    t.append(stage_count_str(p));
    t.append(STATE_15);
    t.append(pu);
    t.append(STATE_16);
    t.append(vertex_input.as_str());
    t.append(STATE_17);
    t.append(pu);
    t.append(STATE_18);
    t.append(pu);
    t.append(STATE_19);
    t.append(pu);
    t.append(STATE_20);
    t.append(pu);
    t.append(STATE_21);
    t.append(pu);
    t.append(STATE_22);
    t
}

fn pipeline_create_str(p: &Pipeline, pu: &str) -> (res: String)
    ensures
        res@ == pipeline_create(*p, pu@),
{
    let tab = if p.mesh_shaders {
        INDENT
    } else {
        ""
    };
    let mut t = String::from_str(if p.mesh_shaders { MESH_GUARD } else { "" });
    t.append(GRAPHICS_OPEN);
    t.append(tab);
    t.append(GRAPHICS_HANDLE);
    t.append(tab);
    t.append(GRAPHICS_CACHE);
    t.append(tab);
    t.append(GRAPHICS_COUNT);
    t.append(tab);
    t.append(GRAPHICS_INFO);
    t.append(pu);
    t.append(GRAPHICS_INFO_CLOSE);
    t.append(tab);
    t.append(GRAPHICS_ALLOCATOR);
    t.append(tab);
    t.append(GRAPHICS_TARGET);
    t.append(p.name.as_str());
    t.append(GRAPHICS_TARGET_CLOSE);
    t.append(tab);
    t.append(GRAPHICS_CLOSE);
    t.append(if p.mesh_shaders { GUARD_CLOSE } else { "" });
    t
}

fn pipeline_section_str(r: &Renderer, p: &Pipeline, pu: &String, k: u8) -> (res: String)
    requires
        pipeline_ok(*r, *p),
    ensures
        res@ == pipeline_section(k, *r, (*p, pu@)),
{
    if k == 0 {
        let mut t = String::from_str(FIELD_OPEN);
        t.append(p.name.as_str());
        t.append(PIPELINE_FIELD_CLOSE);
        t
    } else if k == 1 {
        specialization_struct_str(r, p)
    } else if k == 2 {
        let mut t = specialization_info_str(r, p, pu);
        let stages = shader_stages_str(p, pu.as_str());
        t.append(stages.as_str());
        let states = pipeline_states_str(p, pu.as_str());
        t.append(states.as_str());
        t
    } else if k == 3 {
        let mut t = String::from_str(DESTROY_OPEN);
        t.append(p.name.as_str());
        t.append(DESTROY_CLOSE);
        t
    } else if k == 4 {
        private_params_str(r, p)
    } else if k == 5 {
        let mut t = scratch_sets_str(r, p, pu);
        t.append(UNSAFE_OPEN);
        t.append(pu.as_str());
        t.append(COLOR_FORMAT_SET);
        t
    } else if k == 6 {
        let mut t = String::from_str(UNSAFE_OPEN);
        t.append(pu.as_str());
        t.append(LAYOUT_SET);
        t
    } else {
        pipeline_create_str(p, pu.as_str())
    }
}

/// Whether every pipeline of the list passes [`pipeline_ok`].
pub open spec fn all_pipelines_ok(r: Renderer, ps: Seq<Pipeline>) -> bool {
    forall|i: int| 0 <= i < ps.len() ==> #[trigger] pipeline_ok(r, ps[i])
}

pub open spec fn pipelines_view(v: Seq<&Pipeline>) -> Seq<Pipeline> {
    v.map_values(|p: &Pipeline| *p)
}

fn push_pipeline_sections(
    out: &mut String,
    r: &Renderer,
    pipelines: &Vec<&Pipeline>,
    upper: &Vec<String>,
    k: u8,
)
    requires
        upper@.len() == pipelines@.len(),
        all_pipelines_ok(*r, pipelines_view(pipelines@)),
    ensures
        final(out)@ == old(out)@ + concat_map(
            pipeline_items(pipelines_view(pipelines@), strings_view(upper@)),
            |it: (Pipeline, Seq<char>)| pipeline_section(k, *r, it),
        ),
{
    let ghost items = pipeline_items(pipelines_view(pipelines@), strings_view(upper@));
    let ghost start = out@;
    let mut i: usize = 0;
    while i < pipelines.len()
        invariant
            upper@.len() == pipelines@.len(),
            all_pipelines_ok(*r, pipelines_view(pipelines@)),
            items == pipeline_items(pipelines_view(pipelines@), strings_view(upper@)),
            i <= pipelines@.len(),
            out@ == start + concat_map(
                items.take(i as int),
                |it: (Pipeline, Seq<char>)| pipeline_section(k, *r, it),
            ),
        decreases pipelines@.len() - i,
    {
        proof {
            lemma_concat_map_step(items, |it: (Pipeline, Seq<char>)| pipeline_section(k, *r, it), i as int);
        }
        let p = pipelines[i];
        assert(pipelines_view(pipelines@)[i as int] == *p);
        assert(items[i as int] == (*p, upper@[i as int]@));
        let t = pipeline_section_str(r, p, &upper[i], k);
        out.append(t.as_str());
        i = i + 1;
    }
    proof {
        lemma_take_all(items);
    }
}

fn push_compute_sections(out: &mut String, computes: &Vec<Compute>, k: u8)
    ensures
        final(out)@ == old(out)@ + concat_map(computes@, |c: Compute| compute_section(k, c)),
{
    let ghost start = out@;
    let mut i: usize = 0;
    while i < computes.len()
        invariant
            i <= computes@.len(),
            out@ == start + concat_map(computes@.take(i as int), |c: Compute| compute_section(k, c)),
        decreases computes@.len() - i,
    {
        proof {
            lemma_concat_map_step(computes@, |c: Compute| compute_section(k, c), i as int);
        }
        let name = computes[i].name.as_str();
        let t = if k == 0 {
            let mut t = String::from_str(FIELD_OPEN);
            t.append(name);
            t.append(PIPELINE_FIELD_CLOSE);
            t
        } else if k == 1 {
            let mut t = String::from_str(STATIC_OPEN);
            t.append(name);
            t.append(COMPUTE_PIPELINE);
            t
        } else if k == 2 {
            let mut t = String::from_str(DESTROY_OPEN);
            t.append(name);
            t.append(DESTROY_CLOSE);
            t
        } else {
            let mut t = String::from_str(UNSAFE_OPEN);
            t.append(name);
            t.append(LAYOUT_SET);
            t
        };
        out.append(t.as_str());
        i = i + 1;
    }
    proof {
        lemma_take_all(computes@);
    }
}

fn type_upper_str(t: ShaderType) -> (res: &'static str)
    ensures
        res@ == type_upper(t),
{
    match t {
        ShaderType::Compute => "COMPUTE",
        ShaderType::Fragment => "FRAGMENT",
        ShaderType::Mesh => "MESH",
        ShaderType::Task => "TASK",
        ShaderType::Vertex => "VERTEX",
    }
}

fn shader_section_str(shader: (&str, ShaderType), su: &str, k: u8) -> (res: String)
    ensures
        res@ == shader_section(k, ((shader.0@, shader.1), su@)),
{
    let mut id = String::from_str(su);
    id.append(UNDERSCORE);
    id.append(type_upper_str(shader.1));
    let id = id.as_str();
    if k == 0 {
        let mut t = String::from_str(STATIC_OPEN);
        t.append(id);
        t.append(MODULE_CODE_SIZE);
        t.append(id);
        t.append(MODULE_P_CODE);
        t.append(id);
        t.append(MODULE_CLOSE);
        t
    } else {
        let mut bytes = String::from_str(BYTES_OPEN);
        bytes.append(shader.0);
        bytes.append(DOT);
        bytes.append(shader.1.extension());
        bytes.append(BYTES_CLOSE);
        let bytes = bytes.as_str();
        let mut t = String::from_str(STATIC_OPEN);
        t.append(id);
        t.append(SPV_TYPE);
        t.append(bytes);
        t.append(SPV_VALUE);
        t.append(bytes);
        t.append(SPV_CLOSE);
        t
    }
}

fn push_shader_sections(
    out: &mut String,
    shaders: &Vec<(&str, ShaderType)>,
    upper: &Vec<String>,
    k: u8,
)
    requires
        upper@.len() == shaders@.len(),
    ensures
        final(out)@ == old(out)@ + concat_map(
            shader_items(view_shader_list(shaders@), strings_view(upper@)),
            |it: ((Seq<char>, ShaderType), Seq<char>)| shader_section(k, it),
        ),
{
    let ghost items = shader_items(view_shader_list(shaders@), strings_view(upper@));
    let ghost start = out@;
    let mut i: usize = 0;
    while i < shaders.len()
        invariant
            upper@.len() == shaders@.len(),
            items == shader_items(view_shader_list(shaders@), strings_view(upper@)),
            i <= shaders@.len(),
            out@ == start + concat_map(
                items.take(i as int),
                |it: ((Seq<char>, ShaderType), Seq<char>)| shader_section(k, it),
            ),
        decreases shaders@.len() - i,
    {
        proof {
            lemma_concat_map_step(
                items,
                |it: ((Seq<char>, ShaderType), Seq<char>)| shader_section(k, it),
                i as int,
            );
        }
        let shader = shaders[i];
        assert(items[i as int] == ((shader.0@, shader.1), upper@[i as int]@));
        let t = shader_section_str(shader, upper[i].as_str(), k);
        out.append(t.as_str());
        i = i + 1;
    }
    proof {
        lemma_take_all(items);
    }
}

fn push_shared_params(out: &mut String, r: &Renderer)
    ensures
        final(out)@ == old(out)@ + concat_map(
            r.specializations@,
            |s: Specialization| shared_param(s),
        ),
{
    let ghost start = out@;
    let mut i: usize = 0;
    while i < r.specializations.len()
        invariant
            i <= r.specializations@.len(),
            out@ == start + concat_map(
                r.specializations@.take(i as int),
                |s: Specialization| shared_param(s),
            ),
        decreases r.specializations@.len() - i,
    {
        proof {
            lemma_concat_map_step(r.specializations@, |s: Specialization| shared_param(s), i as int);
        }
        let spec = &r.specializations[i];
        if spec.shared {
            let mut t = String::from_str(INDENT);
            t.append(spec.name.as_str());
            t.append(TYPE_SEP);
            t.append(spec.ty.as_str());
            t.append(LINE_CLOSE);
            out.append(t.as_str());
        }
        i = i + 1;
    }
    proof {
        lemma_take_all(r.specializations@);
    }
}

fn computes_create_str(computes: &Vec<Compute>, pipeline_count: usize) -> (res: String)
    ensures
        res@ == computes_create(computes@, pipeline_count as nat),
{
    if computes.len() > 0 {
        let mut t = String::from_str(COMPUTES_OPEN);
        push_decimal(&mut t, computes.len() as u64);
        t.append(COMPUTES_INFO);
        t.append(computes[0].name.as_str());
        t.append(COMPUTES_TARGET);
        push_decimal(&mut t, pipeline_count as u64);
        t.append(COMPUTES_CLOSE);
        t
    } else {
        String::new()
    }
}


/// The text of the generated `pipelines.rs`, given the uppercase name of each pipeline of the
/// renderer (`pipeline_upper[i]` for its `i`-th pipeline), the shaders to embed in the order they
/// are generated, and the uppercase name of each of those shaders.
pub fn pipelines_text(
    renderer: &Renderer,
    pipeline_upper: &Vec<String>,
    shaders: &Vec<(&str, ShaderType)>,
    shader_upper: &Vec<String>,
) -> (res: String)
    requires
        pipeline_upper@.len() == spec_pipelines(renderer.passes@).len(),
        shader_upper@.len() == shaders@.len(),
        all_pipelines_ok(*renderer, spec_pipelines(renderer.passes@)),
    ensures
        res@ == spec_pipelines_text(
            *renderer,
            strings_view(pipeline_upper@),
            view_shader_list(shaders@),
            strings_view(shader_upper@),
        ),
{
    let pipelines = renderer.pipelines();
    assert(pipelines_view(pipelines@) == spec_pipelines(renderer.passes@));
    let computes = &renderer.computes;
    let mut out = String::from_str(PIPELINES_OPEN);
    push_pipeline_sections(&mut out, renderer, &pipelines, pipeline_upper, 0);
    push_compute_sections(&mut out, computes, 0);
    out.append(CLOSE_LINE);
    push_pipeline_sections(&mut out, renderer, &pipelines, pipeline_upper, 1);
    out.append(STATIC_STATES);
    push_shader_sections(&mut out, shaders, shader_upper, 0);
    push_pipeline_sections(&mut out, renderer, &pipelines, pipeline_upper, 2);
    push_compute_sections(&mut out, computes, 1);
    push_shader_sections(&mut out, shaders, shader_upper, 1);
    out.append(CLEANUP_OPEN);
    push_pipeline_sections(&mut out, renderer, &pipelines, pipeline_upper, 3);
    push_compute_sections(&mut out, computes, 2);
    out.append(CREATE_OPEN);
    push_shared_params(&mut out, renderer);
    push_pipeline_sections(&mut out, renderer, &pipelines, pipeline_upper, 4);
    out.append(CREATE_PARAMS_CLOSE);
    push_pipeline_sections(&mut out, renderer, &pipelines, pipeline_upper, 5);
    push_pipeline_sections(&mut out, renderer, &pipelines, pipeline_upper, 6);
    push_compute_sections(&mut out, computes, 3);
    out.append(PIPELINES_INIT);
    push_pipeline_sections(&mut out, renderer, &pipelines, pipeline_upper, 7);
    let create = computes_create_str(computes, pipelines.len());
    out.append(create.as_str());
    out.append(PIPELINES_CLOSE);
    out
}

/// The text of the generated `pipelines.rs` for a renderer: the `Pipelines` struct, the
/// specialization structs, the shader modules, the static create infos of every graphics and
/// compute pipeline, the embedded SPIR-V of every shader, `Pipelines::cleanup` and
/// `create_pipelines`. The shaders are those of the renderer's pipelines and compute pipelines,
/// each once, in ascending order of name and kind. `None` where generation stops: a configured
/// shader path lacks its stage's extension, or a pipeline fails [`pipeline_ok`].
pub fn generate_pipelines(renderer: &Renderer) -> (res: Option<String>)
    ensures
        match res {
            Some(text) => spec_generate_pipelines(*renderer) == Some(text@),
            None => spec_generate_pipelines(*renderer) is None,
        },
{
    if !renderer.shader_paths_valid() {
        return None;
    }
    let pipelines = renderer.pipelines();
    let ghost ps = spec_pipelines(renderer.passes@);
    assert(pipelines_view(pipelines@) == ps);
    let mut i: usize = 0;
    while i < pipelines.len()
        invariant
            pipelines_view(pipelines@) == ps,
            ps == spec_pipelines(renderer.passes@),
            i <= pipelines@.len(),
            forall|j: int| 0 <= j < i ==> #[trigger] pipeline_ok(*renderer, ps[j]),
        decreases pipelines@.len() - i,
    {
        assert(ps[i as int] == *pipelines@[i as int]);
        if !check_pipeline(renderer, pipelines[i]) {
            assert(!pipeline_ok(*renderer, ps[i as int]));
            return None;
        }
        i = i + 1;
    }
    assert(pipelines_renderable(*renderer));
    let mut list = renderer.shaders();
    let ghost shaders_of_pipelines = view_shader_list(list@);
    let ghost cs = renderer.computes@.map_values(|c: Compute| (c.name@, ShaderType::Compute));
    let mut j: usize = 0;
    while j < renderer.computes.len()
        invariant
            cs == renderer.computes@.map_values(|c: Compute| (c.name@, ShaderType::Compute)),
            j <= renderer.computes@.len(),
            view_shader_list(list@) == shaders_of_pipelines + cs.take(j as int),
        decreases renderer.computes@.len() - j,
    {
        let ghost before = list@;
        list.push((renderer.computes[j].name.as_str(), ShaderType::Compute));
        assert(cs.take((j + 1) as int) =~= cs.take(j as int).push(cs[j as int]));
        assert(view_shader_list(list@) =~= view_shader_list(before).push(cs[j as int]));
        j = j + 1;
    }
    assert(cs.take(cs.len() as int) =~= cs);
    assert(view_shader_list(list@) == all_shaders(*renderer));
    let shaders = shader_set(&list);
    let ghost ss = view_shader_list(shaders@);
    let mut pipeline_upper: Vec<String> = Vec::new();
    let mut k: usize = 0;
    while k < pipelines.len()
        invariant
            pipelines_view(pipelines@) == ps,
            k <= pipelines@.len(),
            strings_view(pipeline_upper@) == ps.take(k as int).map_values(
                |p: Pipeline| uppercase(p.name@),
            ),
        decreases pipelines@.len() - k,
    {
        let ghost before = pipeline_upper@;
        assert(ps[k as int] == *pipelines@[k as int]);
        pipeline_upper.push(to_uppercase(pipelines[k].name.as_str()));
        assert(ps.take((k + 1) as int) =~= ps.take(k as int).push(ps[k as int]));
        assert(strings_view(pipeline_upper@) =~= strings_view(before).push(
            uppercase(ps[k as int].name@),
        ));
        k = k + 1;
    }
    assert(ps.take(ps.len() as int) =~= ps);
    let mut shader_upper: Vec<String> = Vec::new();
    let mut m: usize = 0;
    while m < shaders.len()
        invariant
            ss == view_shader_list(shaders@),
            m <= shaders@.len(),
            strings_view(shader_upper@) == ss.take(m as int).map_values(
                |s: (Seq<char>, ShaderType)| uppercase(s.0),
            ),
        decreases shaders@.len() - m,
    {
        let ghost before = shader_upper@;
        assert(ss[m as int] == (shaders@[m as int].0@, shaders@[m as int].1));
        shader_upper.push(to_uppercase(shaders[m].0));
        assert(ss.take((m + 1) as int) =~= ss.take(m as int).push(ss[m as int]));
        assert(strings_view(shader_upper@) =~= strings_view(before).push(uppercase(ss[m as int].0)));
        m = m + 1;
    }
    assert(ss.take(ss.len() as int) =~= ss);
    Some(pipelines_text(renderer, &pipeline_upper, &shaders, &shader_upper))
}

} // verus!
