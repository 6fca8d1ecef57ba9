use vulkthing::config::{
    Compute, DescriptorSet, Pass, Pipeline, Renderer, Sampler, SdrColor, Specialization,
};
use vulkthing::descriptor_code::generate_descriptors;
use vulkthing::descriptors::{DescriptorType, ReflectedBinding, ReflectedSet};
use vulkthing::generate::{generate_gpu, generate_samplers};
use vulkthing::pipeline_code::generate_pipelines;
use vulkthing::reflect::TypeDescription;

fn pipeline(name: &str) -> Pipeline {
    Pipeline {
        name: name.to_string(),
        task_shaders: false,
        mesh_shaders: false,
        vertex_shader: None,
        vertex_bindings: vec![],
        task_shader: None,
        mesh_shader: None,
        fragment_shader: None,
        fragment_specialization: None,
        polygon_mode: "FILL".to_string(),
        cull_mode: "NONE".to_string(),
        descriptor_sets: vec![],
    }
}

fn pass(name: &str, pipelines: Vec<Pipeline>) -> Pass {
    Pass {
        name: name.to_string(),
        debug_name: name.to_string(),
        debug_color: SdrColor { red: 0, green: 0, blue: 0 },
        msaa: false,
        pipelines,
        subpasses: vec![],
        dependencies: vec![],
    }
}

fn specialization(name: &str, ty: &str, shared: bool) -> Specialization {
    Specialization { name: name.to_string(), ty: ty.to_string(), shared }
}

fn renderer(passes: Vec<Pass>, computes: &[&str], specializations: Vec<Specialization>) -> Renderer {
    Renderer {
        samplers: vec![],
        descriptor_set: DescriptorSet { name: "global".to_string(), pool_size: 1, bindings: vec![] },
        passes,
        computes: computes.iter().map(|c| Compute { name: c.to_string() }).collect(),
        specializations,
    }
}

fn example_renderer() -> Renderer {
    let mut voxels = pipeline("voxels");
    voxels.task_shaders = true;
    voxels.mesh_shaders = true;
    voxels.mesh_shader = Some("voxel.mesh".to_string());
    voxels.fragment_specialization = Some(vec!["voxel_size".to_string(), "debug_mode".to_string()]);
    voxels.cull_mode = "BACK".to_string();
    let mut sky = pipeline("sky");
    sky.vertex_shader = Some("fullscreen.vert".to_string());
    let mut tone_map = pipeline("tone_map");
    tone_map.vertex_shader = Some("fullscreen.vert".to_string());
    tone_map.fragment_shader = Some("tonemap.frag".to_string());
    tone_map.fragment_specialization = Some(vec!["exposure".to_string()]);
    tone_map.polygon_mode = "LINE".to_string();
    tone_map.cull_mode = "FRONT".to_string();
    renderer(
        vec![pass("main", vec![voxels, sky]), pass("post", vec![tone_map])],
        &["cull", "blur"],
        vec![
            specialization("voxel_size", "u32", true),
            specialization("debug_mode", "i32", false),
            specialization("exposure", "f32", false),
        ],
    )
}

const EXPECTED_PIPELINES: &str = r##"pub struct Pipelines {
    pub voxels: vk::Pipeline,
    pub sky: vk::Pipeline,
    pub tone_map: vk::Pipeline,
    pub cull: vk::Pipeline,
    pub blur: vk::Pipeline,
}

struct VoxelsSpecialization {
    voxel_size: u32,
    debug_mode: i32,
}

struct ToneMapSpecialization {
    exposure: f32,
}

static ASSEMBLY: vk::PipelineInputAssemblyStateCreateInfo = vk::PipelineInputAssemblyStateCreateInfo {
    s_type: vk::StructureType::PIPELINE_INPUT_ASSEMBLY_STATE_CREATE_INFO,
    p_next: std::ptr::null(),
    flags: vk::PipelineInputAssemblyStateCreateFlags::empty(),
    topology: vk::PrimitiveTopology::TRIANGLE_LIST,
    primitive_restart_enable: 0,
    _marker: std::marker::PhantomData,
};

static DYNAMIC_STATES: [vk::DynamicState; 2] = [
    vk::DynamicState::VIEWPORT,
    vk::DynamicState::SCISSOR,
];

static DYNAMIC_STATE: vk::PipelineDynamicStateCreateInfo = vk::PipelineDynamicStateCreateInfo {
    s_type: vk::StructureType::PIPELINE_DYNAMIC_STATE_CREATE_INFO,
    p_next: std::ptr::null(),
    flags: vk::PipelineDynamicStateCreateFlags::empty(),
    dynamic_state_count: 2,
    p_dynamic_states: &raw const DYNAMIC_STATES[0],
    _marker: std::marker::PhantomData,
};

static BLUR_COMPUTE: vk::ShaderModuleCreateInfo = vk::ShaderModuleCreateInfo {
    s_type: vk::StructureType::SHADER_MODULE_CREATE_INFO,
    p_next: std::ptr::null(),
    flags: vk::ShaderModuleCreateFlags::empty(),
    code_size: BLUR_COMPUTE_SPV.0.len(),
    p_code: BLUR_COMPUTE_SPV.0.as_ptr() as *const u32,
    _marker: std::marker::PhantomData,
};

static CULL_COMPUTE: vk::ShaderModuleCreateInfo = vk::ShaderModuleCreateInfo {
    s_type: vk::StructureType::SHADER_MODULE_CREATE_INFO,
    p_next: std::ptr::null(),
    flags: vk::ShaderModuleCreateFlags::empty(),
    code_size: CULL_COMPUTE_SPV.0.len(),
    p_code: CULL_COMPUTE_SPV.0.as_ptr() as *const u32,
    _marker: std::marker::PhantomData,
};

static FULLSCREEN_VERTEX: vk::ShaderModuleCreateInfo = vk::ShaderModuleCreateInfo {
    s_type: vk::StructureType::SHADER_MODULE_CREATE_INFO,
    p_next: std::ptr::null(),
    flags: vk::ShaderModuleCreateFlags::empty(),
    code_size: FULLSCREEN_VERTEX_SPV.0.len(),
    p_code: FULLSCREEN_VERTEX_SPV.0.as_ptr() as *const u32,
    _marker: std::marker::PhantomData,
};

static SKY_FRAGMENT: vk::ShaderModuleCreateInfo = vk::ShaderModuleCreateInfo {
    s_type: vk::StructureType::SHADER_MODULE_CREATE_INFO,
    p_next: std::ptr::null(),
    flags: vk::ShaderModuleCreateFlags::empty(),
    code_size: SKY_FRAGMENT_SPV.0.len(),
    p_code: SKY_FRAGMENT_SPV.0.as_ptr() as *const u32,
    _marker: std::marker::PhantomData,
};

static TONEMAP_FRAGMENT: vk::ShaderModuleCreateInfo = vk::ShaderModuleCreateInfo {
    s_type: vk::StructureType::SHADER_MODULE_CREATE_INFO,
    p_next: std::ptr::null(),
    flags: vk::ShaderModuleCreateFlags::empty(),
    code_size: TONEMAP_FRAGMENT_SPV.0.len(),
    p_code: TONEMAP_FRAGMENT_SPV.0.as_ptr() as *const u32,
    _marker: std::marker::PhantomData,
};

static VOXEL_MESH: vk::ShaderModuleCreateInfo = vk::ShaderModuleCreateInfo {
    s_type: vk::StructureType::SHADER_MODULE_CREATE_INFO,
    p_next: std::ptr::null(),
    flags: vk::ShaderModuleCreateFlags::empty(),
    code_size: VOXEL_MESH_SPV.0.len(),
    p_code: VOXEL_MESH_SPV.0.as_ptr() as *const u32,
    _marker: std::marker::PhantomData,
};

static VOXELS_TASK: vk::ShaderModuleCreateInfo = vk::ShaderModuleCreateInfo {
    s_type: vk::StructureType::SHADER_MODULE_CREATE_INFO,
    p_next: std::ptr::null(),
    flags: vk::ShaderModuleCreateFlags::empty(),
    code_size: VOXELS_TASK_SPV.0.len(),
    p_code: VOXELS_TASK_SPV.0.as_ptr() as *const u32,
    _marker: std::marker::PhantomData,
};

static VOXELS_FRAGMENT: vk::ShaderModuleCreateInfo = vk::ShaderModuleCreateInfo {
    s_type: vk::StructureType::SHADER_MODULE_CREATE_INFO,
    p_next: std::ptr::null(),
    flags: vk::ShaderModuleCreateFlags::empty(),
    code_size: VOXELS_FRAGMENT_SPV.0.len(),
    p_code: VOXELS_FRAGMENT_SPV.0.as_ptr() as *const u32,
    _marker: std::marker::PhantomData,
};

static VOXELS_FRAGMENT_SPECIALIZATION_ENTRIES: [vk::SpecializationMapEntry; 2] = [
    vk::SpecializationMapEntry {
        constant_id: 0,
        offset: 0,
        size: 4,
    },
    vk::SpecializationMapEntry {
        constant_id: 1,
        offset: 4,
        size: 4,
    },
];

static VOXELS_FRAGMENT_SPECIALIZATION_INFO: vk::SpecializationInfo = vk::SpecializationInfo {
    map_entry_count: 2,
    p_map_entries: &raw const VOXELS_FRAGMENT_SPECIALIZATION_ENTRIES[0],
    data_size: 8,
    p_data: &raw const VOXELS_FRAGMENT_SPECIALIZATION_SCRATCH) as *const std::ffi::c_void,
};

static VOXELS_FRAGMENT_SPECIALIZATION_SCRATCH: VoxelsSpecialization = VoxelsSpecialization {
        voxel_size: 0,
        debug_mode: 0,
};

static VOXELS_SHADER_STAGES: [vk::PipelineShaderStageCreateInfo; 3] = [
    vk::PipelineShaderStageCreateInfo {
        s_type: vk::StructureType::PIPELINE_SHADER_STAGE_CREATE_INFO,
        p_next: &raw const VOXELS_TASK as *const c_void,
        flags: vk::PipelineShaderStageCreateFlags::empty(),
        stage: vk::ShaderStageFlags::TASK_EXT,
        module: vk::ShaderModule::null(),
        p_name: c"main".as_ptr(),
        p_specialization_info: std::ptr::null(),
        _marker: std::marker::PhantomData,
    },
    vk::PipelineShaderStageCreateInfo {
        s_type: vk::StructureType::PIPELINE_SHADER_STAGE_CREATE_INFO,
        p_next: &raw const VOXELS_MESH as *const c_void,
        flags: vk::PipelineShaderStageCreateFlags::empty(),
        stage: vk::ShaderStageFlags::MESH_EXT,
        module: vk::ShaderModule::null(),
        p_name: c"main".as_ptr(),
        p_specialization_info: std::ptr::null(),
        _marker: std::marker::PhantomData,
    },
    vk::PipelineShaderStageCreateInfo {
        s_type: vk::StructureType::PIPELINE_SHADER_STAGE_CREATE_INFO,
        p_next: &raw const VOXELS_FRAGMENT as *const c_void,
        flags: vk::PipelineShaderStageCreateFlags::empty(),
        stage: vk::ShaderStageFlags::FRAGMENT,
        module: vk::ShaderModule::null(),
        p_name: c"main".as_ptr(),
        p_specialization_info: &raw const VOXELS_FRAGMENT_SPECIALIZATION_INFO,
        _marker: std::marker::PhantomData,
    },
];

static VOXELS_VIEWPORT_STATE: vk::PipelineViewportStateCreateInfo = vk::PipelineViewportStateCreateInfo {
    s_type: vk::StructureType::PIPELINE_VIEWPORT_STATE_CREATE_INFO,
    p_next: std::ptr::null(),
    flags: vk::PipelineViewportStateCreateFlags::empty(),
    viewport_count: 1,
    p_viewports: std::ptr::null(),
    scissor_count: 1,
    p_scissors: std::ptr::null(),
    _marker: std::marker::PhantomData,
};

static VOXELS_RASTERIZER: vk::PipelineRasterizationStateCreateInfo = vk::PipelineRasterizationStateCreateInfo {
    s_type: vk::StructureType::PIPELINE_RASTERIZATION_STATE_CREATE_INFO,
    p_next: std::ptr::null(),
    flags: vk::PipelineRasterizationStateCreateFlags::empty(),
    depth_clamp_enable: 0,
    rasterizer_discard_enable: 0,
    polygon_mode: vk::PolygonMode::FILL,
    cull_mode: vk::CullModeFlags::BACK,
    front_face: vk::FrontFace::COUNTER_CLOCKWISE,
    depth_bias_enable: 0,
    depth_bias_constant_factor: 0.,
    depth_bias_clamp: 0.,
    depth_bias_slope_factor: 0.,
    line_width: 1.,
    _marker: std::marker::PhantomData,
};

static VOXELS_MULTISAMPLING: vk::PipelineMultisampleStateCreateInfo = vk::PipelineMultisampleStateCreateInfo {
    s_type: vk::StructureType::PIPELINE_MULTISAMPLE_STATE_CREATE_INFO,
    p_next: std::ptr::null(),
    flags: vk::PipelineMultisampleStateCreateFlags::empty(),
    rasterization_samples: vk::SampleCountFlags::TYPE_1,
    sample_shading_enable: 0,
    min_sample_shading: 0.,
    p_sample_mask: std::ptr::null(),
    alpha_to_coverage_enable: 0,
    alpha_to_one_enable: 0,
    _marker: std::marker::PhantomData,
};

static VOXELS_BLEND_ATTACHMENTS: [vk::PipelineColorBlendAttachmentState; 1] = [
    vk::PipelineColorBlendAttachmentState {
        blend_enable: 0,
        src_color_blend_factor: vk::BlendFactor::ZERO,
        dst_color_blend_factor: vk::BlendFactor::ZERO,
        color_blend_op: vk::BlendOp::ADD,
        src_alpha_blend_factor: vk::BlendFactor::ZERO,
        dst_alpha_blend_factor: vk::BlendFactor::ZERO,
        alpha_blend_op: vk::BlendOp::ADD,
        color_write_mask: vk::ColorComponentFlags::RGBA,
    },
];

static VOXELS_BLEND: vk::PipelineColorBlendStateCreateInfo = vk::PipelineColorBlendStateCreateInfo {
    s_type: vk::StructureType::PIPELINE_COLOR_BLEND_STATE_CREATE_INFO,
    p_next: std::ptr::null(),
    flags: vk::PipelineColorBlendStateCreateFlags::empty(),
    logic_op_enable: 0,
    logic_op: vk::LogicOp::CLEAR,
    attachment_count: 1,
    p_attachments: &raw const VOXELS_BLEND_ATTACHMENTS[0],
    blend_constants: [0., 0., 0., 0.],
    _marker: std::marker::PhantomData,
};

static VOXELS_DEPTH: vk::PipelineDepthStencilStateCreateInfo = vk::PipelineDepthStencilStateCreateInfo {
    s_type: vk::StructureType::PIPELINE_DEPTH_STENCIL_STATE_CREATE_INFO,
    p_next: std::ptr::null(),
    flags: vk::PipelineDepthStencilStateCreateFlags::empty(),
    depth_test_enable: 1,
    depth_write_enable: 1,
    depth_compare_op: vk::CompareOp::LESS_OR_EQUAL,
    depth_bounds_test_enable: 0,
    stencil_test_enable: 0,
    front: vk::StencilOpState {
        fail_op: vk::StencilOp::KEEP,
        pass_op: vk::StencilOp::KEEP,
        depth_fail_op: vk::StencilOp::KEEP,
        compare_op: vk::CompareOp::NEVER,
        compare_mask: 0,
        write_mask: 0,
        reference: 0,
    },
    back: vk::StencilOpState {
        fail_op: vk::StencilOp::KEEP,
        pass_op: vk::StencilOp::KEEP,
        depth_fail_op: vk::StencilOp::KEEP,
        compare_op: vk::CompareOp::NEVER,
        compare_mask: 0,
        write_mask: 0,
        reference: 0,
    },
    min_depth_bounds: 0.,
    max_depth_bounds: 1.,
    _marker: std::marker::PhantomData,
};

static mut VOXELS_COLOR_FORMATS: [vk::Format; 1] = [vk::Format::UNDEFINED];

static VOXELS_RENDERING: vk::PipelineRenderingCreateInfo = vk::PipelineRenderingCreateInfo {
    s_type: vk::StructureType::PIPELINE_RENDERING_CREATE_INFO,
    p_next: std::ptr::null(),
    view_mask: 0,
    color_attachment_count: 1,
    p_color_attachment_formats: unsafe { &raw const VOXELS_COLOR_FORMATS[0] },
    depth_attachment_format: DEPTH_FORMAT,
    stencil_attachment_format: vk::Format::UNDEFINED,
    _marker: std::marker::PhantomData,
};

static mut VOXELS_PIPELINE: vk::GraphicsPipelineCreateInfo = vk::GraphicsPipelineCreateInfo {
    s_type: vk::StructureType::GRAPHICS_PIPELINE_CREATE_INFO,
    p_next: &raw const VOXELS_RENDERING as *const _,
    flags: vk::PipelineCreateFlags::empty(),
    stage_count: 3,
    p_stages: &raw const VOXELS_SHADER_STAGES[0],
    p_vertex_input_state: std::ptr::null(),
    p_input_assembly_state: &raw const ASSEMBLY,
    p_tessellation_state: std::ptr::null(),
    p_viewport_state: &raw const VOXELS_VIEWPORT_STATE,
    p_rasterization_state: &raw const VOXELS_RASTERIZER,
    p_multisample_state: &raw const VOXELS_MULTISAMPLING,
    p_depth_stencil_state: &raw const VOXELS_DEPTH,
    p_color_blend_state: &raw const VOXELS_BLEND,
    p_dynamic_state: &raw const DYNAMIC_STATE,
    layout: vk::PipelineLayout::null(),
    render_pass: vk::RenderPass::null(),
    subpass: 0,
    base_pipeline_handle: vk::Pipeline::null(),
    base_pipeline_index: 0,
    _marker: std::marker::PhantomData,
};

static SKY_SHADER_STAGES: [vk::PipelineShaderStageCreateInfo; 2] = [
    vk::PipelineShaderStageCreateInfo {
        s_type: vk::StructureType::PIPELINE_SHADER_STAGE_CREATE_INFO,
        p_next: &raw const SKY_VERTEX as *const c_void,
        flags: vk::PipelineShaderStageCreateFlags::empty(),
        stage: vk::ShaderStageFlags::VERTEX,
        module: vk::ShaderModule::null(),
        p_name: c"main".as_ptr(),
        p_specialization_info: std::ptr::null(),
        _marker: std::marker::PhantomData,
    },
    vk::PipelineShaderStageCreateInfo {
        s_type: vk::StructureType::PIPELINE_SHADER_STAGE_CREATE_INFO,
        p_next: &raw const SKY_FRAGMENT as *const c_void,
        flags: vk::PipelineShaderStageCreateFlags::empty(),
        stage: vk::ShaderStageFlags::FRAGMENT,
        module: vk::ShaderModule::null(),
        p_name: c"main".as_ptr(),
        p_specialization_info: std::ptr::null(),
        _marker: std::marker::PhantomData,
    },
];

static SKY_VERTEX_STATE: vk::PipelineVertexInputStateCreateInfo = vk::PipelineVertexInputStateCreateInfo {
    s_type: vk::StructureType::PIPELINE_VERTEX_INPUT_STATE_CREATE_INFO,
    p_next: std::ptr::null(),
    flags: vk::PipelineVertexInputStateCreateFlags::empty(),
    vertex_binding_description_count: 0,
    p_vertex_binding_descriptions: std::ptr::null(),
    vertex_attribute_description_count: 0,
    p_vertex_attribute_descriptions: std::ptr::null(),
    _marker: std::marker::PhantomData,
};

static SKY_VIEWPORT_STATE: vk::PipelineViewportStateCreateInfo = vk::PipelineViewportStateCreateInfo {
    s_type: vk::StructureType::PIPELINE_VIEWPORT_STATE_CREATE_INFO,
    p_next: std::ptr::null(),
    flags: vk::PipelineViewportStateCreateFlags::empty(),
    viewport_count: 1,
    p_viewports: std::ptr::null(),
    scissor_count: 1,
    p_scissors: std::ptr::null(),
    _marker: std::marker::PhantomData,
};

static SKY_RASTERIZER: vk::PipelineRasterizationStateCreateInfo = vk::PipelineRasterizationStateCreateInfo {
    s_type: vk::StructureType::PIPELINE_RASTERIZATION_STATE_CREATE_INFO,
    p_next: std::ptr::null(),
    flags: vk::PipelineRasterizationStateCreateFlags::empty(),
    depth_clamp_enable: 0,
    rasterizer_discard_enable: 0,
    polygon_mode: vk::PolygonMode::FILL,
    cull_mode: vk::CullModeFlags::NONE,
    front_face: vk::FrontFace::COUNTER_CLOCKWISE,
    depth_bias_enable: 0,
    depth_bias_constant_factor: 0.,
    depth_bias_clamp: 0.,
    depth_bias_slope_factor: 0.,
    line_width: 1.,
    _marker: std::marker::PhantomData,
};

static SKY_MULTISAMPLING: vk::PipelineMultisampleStateCreateInfo = vk::PipelineMultisampleStateCreateInfo {
    s_type: vk::StructureType::PIPELINE_MULTISAMPLE_STATE_CREATE_INFO,
    p_next: std::ptr::null(),
    flags: vk::PipelineMultisampleStateCreateFlags::empty(),
    rasterization_samples: vk::SampleCountFlags::TYPE_1,
    sample_shading_enable: 0,
    min_sample_shading: 0.,
    p_sample_mask: std::ptr::null(),
    alpha_to_coverage_enable: 0,
    alpha_to_one_enable: 0,
    _marker: std::marker::PhantomData,
};

static SKY_BLEND_ATTACHMENTS: [vk::PipelineColorBlendAttachmentState; 1] = [
    vk::PipelineColorBlendAttachmentState {
        blend_enable: 0,
        src_color_blend_factor: vk::BlendFactor::ZERO,
        dst_color_blend_factor: vk::BlendFactor::ZERO,
        color_blend_op: vk::BlendOp::ADD,
        src_alpha_blend_factor: vk::BlendFactor::ZERO,
        dst_alpha_blend_factor: vk::BlendFactor::ZERO,
        alpha_blend_op: vk::BlendOp::ADD,
        color_write_mask: vk::ColorComponentFlags::RGBA,
    },
];

static SKY_BLEND: vk::PipelineColorBlendStateCreateInfo = vk::PipelineColorBlendStateCreateInfo {
    s_type: vk::StructureType::PIPELINE_COLOR_BLEND_STATE_CREATE_INFO,
    p_next: std::ptr::null(),
    flags: vk::PipelineColorBlendStateCreateFlags::empty(),
    logic_op_enable: 0,
    logic_op: vk::LogicOp::CLEAR,
    attachment_count: 1,
    p_attachments: &raw const SKY_BLEND_ATTACHMENTS[0],
    blend_constants: [0., 0., 0., 0.],
    _marker: std::marker::PhantomData,
};

static SKY_DEPTH: vk::PipelineDepthStencilStateCreateInfo = vk::PipelineDepthStencilStateCreateInfo {
    s_type: vk::StructureType::PIPELINE_DEPTH_STENCIL_STATE_CREATE_INFO,
    p_next: std::ptr::null(),
    flags: vk::PipelineDepthStencilStateCreateFlags::empty(),
    depth_test_enable: 1,
    depth_write_enable: 1,
    depth_compare_op: vk::CompareOp::LESS_OR_EQUAL,
    depth_bounds_test_enable: 0,
    stencil_test_enable: 0,
    front: vk::StencilOpState {
        fail_op: vk::StencilOp::KEEP,
        pass_op: vk::StencilOp::KEEP,
        depth_fail_op: vk::StencilOp::KEEP,
        compare_op: vk::CompareOp::NEVER,
        compare_mask: 0,
        write_mask: 0,
        reference: 0,
    },
    back: vk::StencilOpState {
        fail_op: vk::StencilOp::KEEP,
        pass_op: vk::StencilOp::KEEP,
        depth_fail_op: vk::StencilOp::KEEP,
        compare_op: vk::CompareOp::NEVER,
        compare_mask: 0,
        write_mask: 0,
        reference: 0,
    },
    min_depth_bounds: 0.,
    max_depth_bounds: 1.,
    _marker: std::marker::PhantomData,
};

static mut SKY_COLOR_FORMATS: [vk::Format; 1] = [vk::Format::UNDEFINED];

static SKY_RENDERING: vk::PipelineRenderingCreateInfo = vk::PipelineRenderingCreateInfo {
    s_type: vk::StructureType::PIPELINE_RENDERING_CREATE_INFO,
    p_next: std::ptr::null(),
    view_mask: 0,
    color_attachment_count: 1,
    p_color_attachment_formats: unsafe { &raw const SKY_COLOR_FORMATS[0] },
    depth_attachment_format: DEPTH_FORMAT,
    stencil_attachment_format: vk::Format::UNDEFINED,
    _marker: std::marker::PhantomData,
};

static mut SKY_PIPELINE: vk::GraphicsPipelineCreateInfo = vk::GraphicsPipelineCreateInfo {
    s_type: vk::StructureType::GRAPHICS_PIPELINE_CREATE_INFO,
    p_next: &raw const SKY_RENDERING as *const _,
    flags: vk::PipelineCreateFlags::empty(),
    stage_count: 2,
    p_stages: &raw const SKY_SHADER_STAGES[0],
    p_vertex_input_state: &raw const SKY_VERTEX_STATE,
    p_input_assembly_state: &raw const ASSEMBLY,
    p_tessellation_state: std::ptr::null(),
    p_viewport_state: &raw const SKY_VIEWPORT_STATE,
    p_rasterization_state: &raw const SKY_RASTERIZER,
    p_multisample_state: &raw const SKY_MULTISAMPLING,
    p_depth_stencil_state: &raw const SKY_DEPTH,
    p_color_blend_state: &raw const SKY_BLEND,
    p_dynamic_state: &raw const DYNAMIC_STATE,
    layout: vk::PipelineLayout::null(),
    render_pass: vk::RenderPass::null(),
    subpass: 0,
    base_pipeline_handle: vk::Pipeline::null(),
    base_pipeline_index: 0,
    _marker: std::marker::PhantomData,
};

static TONE_MAP_FRAGMENT_SPECIALIZATION_ENTRIES: [vk::SpecializationMapEntry; 1] = [
    vk::SpecializationMapEntry {
        constant_id: 0,
        offset: 0,
        size: 4,
    },
];

static TONE_MAP_FRAGMENT_SPECIALIZATION_INFO: vk::SpecializationInfo = vk::SpecializationInfo {
    map_entry_count: 1,
    p_map_entries: &raw const TONE_MAP_FRAGMENT_SPECIALIZATION_ENTRIES[0],
    data_size: 4,
    p_data: &raw const TONE_MAP_FRAGMENT_SPECIALIZATION_SCRATCH) as *const std::ffi::c_void,
};

static TONE_MAP_FRAGMENT_SPECIALIZATION_SCRATCH: ToneMapSpecialization = ToneMapSpecialization {
        exposure: 0.,
};

static TONE_MAP_SHADER_STAGES: [vk::PipelineShaderStageCreateInfo; 2] = [
    vk::PipelineShaderStageCreateInfo {
        s_type: vk::StructureType::PIPELINE_SHADER_STAGE_CREATE_INFO,
        p_next: &raw const TONE_MAP_VERTEX as *const c_void,
        flags: vk::PipelineShaderStageCreateFlags::empty(),
        stage: vk::ShaderStageFlags::VERTEX,
        module: vk::ShaderModule::null(),
        p_name: c"main".as_ptr(),
        p_specialization_info: std::ptr::null(),
        _marker: std::marker::PhantomData,
    },
    vk::PipelineShaderStageCreateInfo {
        s_type: vk::StructureType::PIPELINE_SHADER_STAGE_CREATE_INFO,
        p_next: &raw const TONE_MAP_FRAGMENT as *const c_void,
        flags: vk::PipelineShaderStageCreateFlags::empty(),
        stage: vk::ShaderStageFlags::FRAGMENT,
        module: vk::ShaderModule::null(),
        p_name: c"main".as_ptr(),
        p_specialization_info: &raw const TONE_MAP_FRAGMENT_SPECIALIZATION_INFO,
        _marker: std::marker::PhantomData,
    },
];

static TONE_MAP_VERTEX_STATE: vk::PipelineVertexInputStateCreateInfo = vk::PipelineVertexInputStateCreateInfo {
    s_type: vk::StructureType::PIPELINE_VERTEX_INPUT_STATE_CREATE_INFO,
    p_next: std::ptr::null(),
    flags: vk::PipelineVertexInputStateCreateFlags::empty(),
    vertex_binding_description_count: 0,
    p_vertex_binding_descriptions: std::ptr::null(),
    vertex_attribute_description_count: 0,
    p_vertex_attribute_descriptions: std::ptr::null(),
    _marker: std::marker::PhantomData,
};

static TONE_MAP_VIEWPORT_STATE: vk::PipelineViewportStateCreateInfo = vk::PipelineViewportStateCreateInfo {
    s_type: vk::StructureType::PIPELINE_VIEWPORT_STATE_CREATE_INFO,
    p_next: std::ptr::null(),
    flags: vk::PipelineViewportStateCreateFlags::empty(),
    viewport_count: 1,
    p_viewports: std::ptr::null(),
    scissor_count: 1,
    p_scissors: std::ptr::null(),
    _marker: std::marker::PhantomData,
};

static TONE_MAP_RASTERIZER: vk::PipelineRasterizationStateCreateInfo = vk::PipelineRasterizationStateCreateInfo {
    s_type: vk::StructureType::PIPELINE_RASTERIZATION_STATE_CREATE_INFO,
    p_next: std::ptr::null(),
    flags: vk::PipelineRasterizationStateCreateFlags::empty(),
    depth_clamp_enable: 0,
    rasterizer_discard_enable: 0,
    polygon_mode: vk::PolygonMode::LINE,
    cull_mode: vk::CullModeFlags::FRONT,
    front_face: vk::FrontFace::COUNTER_CLOCKWISE,
    depth_bias_enable: 0,
    depth_bias_constant_factor: 0.,
    depth_bias_clamp: 0.,
    depth_bias_slope_factor: 0.,
    line_width: 1.,
    _marker: std::marker::PhantomData,
};

static TONE_MAP_MULTISAMPLING: vk::PipelineMultisampleStateCreateInfo = vk::PipelineMultisampleStateCreateInfo {
    s_type: vk::StructureType::PIPELINE_MULTISAMPLE_STATE_CREATE_INFO,
    p_next: std::ptr::null(),
    flags: vk::PipelineMultisampleStateCreateFlags::empty(),
    rasterization_samples: vk::SampleCountFlags::TYPE_1,
    sample_shading_enable: 0,
    min_sample_shading: 0.,
    p_sample_mask: std::ptr::null(),
    alpha_to_coverage_enable: 0,
    alpha_to_one_enable: 0,
    _marker: std::marker::PhantomData,
};

static TONE_MAP_BLEND_ATTACHMENTS: [vk::PipelineColorBlendAttachmentState; 1] = [
    vk::PipelineColorBlendAttachmentState {
        blend_enable: 0,
        src_color_blend_factor: vk::BlendFactor::ZERO,
        dst_color_blend_factor: vk::BlendFactor::ZERO,
        color_blend_op: vk::BlendOp::ADD,
        src_alpha_blend_factor: vk::BlendFactor::ZERO,
        dst_alpha_blend_factor: vk::BlendFactor::ZERO,
        alpha_blend_op: vk::BlendOp::ADD,
        color_write_mask: vk::ColorComponentFlags::RGBA,
    },
];

static TONE_MAP_BLEND: vk::PipelineColorBlendStateCreateInfo = vk::PipelineColorBlendStateCreateInfo {
    s_type: vk::StructureType::PIPELINE_COLOR_BLEND_STATE_CREATE_INFO,
    p_next: std::ptr::null(),
    flags: vk::PipelineColorBlendStateCreateFlags::empty(),
    logic_op_enable: 0,
    logic_op: vk::LogicOp::CLEAR,
    attachment_count: 1,
    p_attachments: &raw const TONE_MAP_BLEND_ATTACHMENTS[0],
    blend_constants: [0., 0., 0., 0.],
    _marker: std::marker::PhantomData,
};

static TONE_MAP_DEPTH: vk::PipelineDepthStencilStateCreateInfo = vk::PipelineDepthStencilStateCreateInfo {
    s_type: vk::StructureType::PIPELINE_DEPTH_STENCIL_STATE_CREATE_INFO,
    p_next: std::ptr::null(),
    flags: vk::PipelineDepthStencilStateCreateFlags::empty(),
    depth_test_enable: 1,
    depth_write_enable: 1,
    depth_compare_op: vk::CompareOp::LESS_OR_EQUAL,
    depth_bounds_test_enable: 0,
    stencil_test_enable: 0,
    front: vk::StencilOpState {
        fail_op: vk::StencilOp::KEEP,
        pass_op: vk::StencilOp::KEEP,
        depth_fail_op: vk::StencilOp::KEEP,
        compare_op: vk::CompareOp::NEVER,
        compare_mask: 0,
        write_mask: 0,
        reference: 0,
    },
    back: vk::StencilOpState {
        fail_op: vk::StencilOp::KEEP,
        pass_op: vk::StencilOp::KEEP,
        depth_fail_op: vk::StencilOp::KEEP,
        compare_op: vk::CompareOp::NEVER,
        compare_mask: 0,
        write_mask: 0,
        reference: 0,
    },
    min_depth_bounds: 0.,
    max_depth_bounds: 1.,
    _marker: std::marker::PhantomData,
};

static mut TONE_MAP_COLOR_FORMATS: [vk::Format; 1] = [vk::Format::UNDEFINED];

static TONE_MAP_RENDERING: vk::PipelineRenderingCreateInfo = vk::PipelineRenderingCreateInfo {
    s_type: vk::StructureType::PIPELINE_RENDERING_CREATE_INFO,
    p_next: std::ptr::null(),
    view_mask: 0,
    color_attachment_count: 1,
    p_color_attachment_formats: unsafe { &raw const TONE_MAP_COLOR_FORMATS[0] },
    depth_attachment_format: DEPTH_FORMAT,
    stencil_attachment_format: vk::Format::UNDEFINED,
    _marker: std::marker::PhantomData,
};

static mut TONE_MAP_PIPELINE: vk::GraphicsPipelineCreateInfo = vk::GraphicsPipelineCreateInfo {
    s_type: vk::StructureType::GRAPHICS_PIPELINE_CREATE_INFO,
    p_next: &raw const TONE_MAP_RENDERING as *const _,
    flags: vk::PipelineCreateFlags::empty(),
    stage_count: 2,
    p_stages: &raw const TONE_MAP_SHADER_STAGES[0],
    p_vertex_input_state: &raw const TONE_MAP_VERTEX_STATE,
    p_input_assembly_state: &raw const ASSEMBLY,
    p_tessellation_state: std::ptr::null(),
    p_viewport_state: &raw const TONE_MAP_VIEWPORT_STATE,
    p_rasterization_state: &raw const TONE_MAP_RASTERIZER,
    p_multisample_state: &raw const TONE_MAP_MULTISAMPLING,
    p_depth_stencil_state: &raw const TONE_MAP_DEPTH,
    p_color_blend_state: &raw const TONE_MAP_BLEND,
    p_dynamic_state: &raw const DYNAMIC_STATE,
    layout: vk::PipelineLayout::null(),
    render_pass: vk::RenderPass::null(),
    subpass: 0,
    base_pipeline_handle: vk::Pipeline::null(),
    base_pipeline_index: 0,
    _marker: std::marker::PhantomData,
};

static cull_PIPELINE: vk::ComputePipelineCreateInfo = vk::ComputePipelineCreateInfo {
    s_type: vk::StructureType::COMPUTE_PIPELINE_CREATE_INFO,
    p_next: std::ptr::null(),
    flags: vk::PipelineCreateFlags::empty(),
    stage: vk::PipelineShaderStageCreateInfo {
        s_type: vk::StructureType::PIPELINE_SHADER_STAGE_CREATE_INFO,
        p_next: std::ptr::null(),
        flags: vk::PipelineShaderStageCreateFlags::empty(),
        stage: vk::ShaderStageFlags::COMPUTE,
        module: vk::ShaderModule::null(),
        p_name: c"main".as_ptr(),
        p_specialization_info: std::ptr::null(),
    },
    layout: vk::PipelineLayout::null(),
    base_pipeline_handle: vk::Pipeline::null(),
    base_pipeline_index: 0,
};

static blur_PIPELINE: vk::ComputePipelineCreateInfo = vk::ComputePipelineCreateInfo {
    s_type: vk::StructureType::COMPUTE_PIPELINE_CREATE_INFO,
    p_next: std::ptr::null(),
    flags: vk::PipelineCreateFlags::empty(),
    stage: vk::PipelineShaderStageCreateInfo {
        s_type: vk::StructureType::PIPELINE_SHADER_STAGE_CREATE_INFO,
        p_next: std::ptr::null(),
        flags: vk::PipelineShaderStageCreateFlags::empty(),
        stage: vk::ShaderStageFlags::COMPUTE,
        module: vk::ShaderModule::null(),
        p_name: c"main".as_ptr(),
        p_specialization_info: std::ptr::null(),
    },
    layout: vk::PipelineLayout::null(),
    base_pipeline_handle: vk::Pipeline::null(),
    base_pipeline_index: 0,
};

static BLUR_COMPUTE_SPV: SpvArray<{ include_bytes!(concat!(env!("OUT_DIR"), "/shaders/blur.comp.spv")).len() }> = SpvArray(*include_bytes!(concat!(env!("OUT_DIR"), "/shaders/blur.comp.spv")));

static CULL_COMPUTE_SPV: SpvArray<{ include_bytes!(concat!(env!("OUT_DIR"), "/shaders/cull.comp.spv")).len() }> = SpvArray(*include_bytes!(concat!(env!("OUT_DIR"), "/shaders/cull.comp.spv")));

static FULLSCREEN_VERTEX_SPV: SpvArray<{ include_bytes!(concat!(env!("OUT_DIR"), "/shaders/fullscreen.vert.spv")).len() }> = SpvArray(*include_bytes!(concat!(env!("OUT_DIR"), "/shaders/fullscreen.vert.spv")));

static SKY_FRAGMENT_SPV: SpvArray<{ include_bytes!(concat!(env!("OUT_DIR"), "/shaders/sky.frag.spv")).len() }> = SpvArray(*include_bytes!(concat!(env!("OUT_DIR"), "/shaders/sky.frag.spv")));

static TONEMAP_FRAGMENT_SPV: SpvArray<{ include_bytes!(concat!(env!("OUT_DIR"), "/shaders/tonemap.frag.spv")).len() }> = SpvArray(*include_bytes!(concat!(env!("OUT_DIR"), "/shaders/tonemap.frag.spv")));

static VOXEL_MESH_SPV: SpvArray<{ include_bytes!(concat!(env!("OUT_DIR"), "/shaders/voxel.mesh.spv")).len() }> = SpvArray(*include_bytes!(concat!(env!("OUT_DIR"), "/shaders/voxel.mesh.spv")));

static VOXELS_TASK_SPV: SpvArray<{ include_bytes!(concat!(env!("OUT_DIR"), "/shaders/voxels.task.spv")).len() }> = SpvArray(*include_bytes!(concat!(env!("OUT_DIR"), "/shaders/voxels.task.spv")));

static VOXELS_FRAGMENT_SPV: SpvArray<{ include_bytes!(concat!(env!("OUT_DIR"), "/shaders/voxels.frag.spv")).len() }> = SpvArray(*include_bytes!(concat!(env!("OUT_DIR"), "/shaders/voxels.frag.spv")));

impl Pipelines {
    pub fn cleanup(&self, dev: &Dev) {
        unsafe { dev.destroy_pipeline(self.voxels, None) };
        unsafe { dev.destroy_pipeline(self.sky, None) };
        unsafe { dev.destroy_pipeline(self.tone_map, None) };
        unsafe { dev.destroy_pipeline(self.cull, None) };
        unsafe { dev.destroy_pipeline(self.blur, None) };
    }
}

#[allow(clippy::identity_op)]
pub fn create_pipelines(
    _msaa_samples: vk::SampleCountFlags,
    voxel_size: u32,
    voxels_debug_mode: i32,
    tone_map_exposure: f32,
    swapchain: &Swapchain,
    layout: vk::PipelineLayout,
    dev: &Dev,
) -> Pipelines {
    unsafe { VOXELS_FRAGMENT_SPECIALIZATION_SCRATCH.voxel_size = voxel_size };
    unsafe { VOXELS_FRAGMENT_SPECIALIZATION_SCRATCH.debug_mode = voxels_debug_mode };
    unsafe { VOXELS_COLOR_FORMATS[0] = swapchain.format.format };
    unsafe { SKY_COLOR_FORMATS[0] = swapchain.format.format };
    unsafe { TONE_MAP_FRAGMENT_SPECIALIZATION_SCRATCH.exposure = tone_map_exposure };
    unsafe { TONE_MAP_COLOR_FORMATS[0] = swapchain.format.format };
    unsafe { VOXELS_PIPELINE.layout = layout };
    unsafe { SKY_PIPELINE.layout = layout };
    unsafe { TONE_MAP_PIPELINE.layout = layout };
    unsafe { cull_PIPELINE.layout = layout };
    unsafe { blur_PIPELINE.layout = layout };
    let mut pipelines: Pipelines = unsafe { MaybeUninit::zeroed().assume_init() };
    if dev.support.mesh_shaders {
        let _ = unsafe { (dev.fp_v1_0().create_graphics_pipelines)(
            dev.handle(),
            vk::PipelineCache::null(),
            1,
            &raw const VOXELS_PIPELINE,
            std::ptr::null(),
            &mut pipelines.voxels,
        ) };
    }
    let _ = unsafe { (dev.fp_v1_0().create_graphics_pipelines)(
        dev.handle(),
        vk::PipelineCache::null(),
        1,
        &raw const SKY_PIPELINE,
        std::ptr::null(),
        &mut pipelines.sky,
    ) };
    let _ = unsafe { (dev.fp_v1_0().create_graphics_pipelines)(
        dev.handle(),
        vk::PipelineCache::null(),
        1,
        &raw const TONE_MAP_PIPELINE,
        std::ptr::null(),
        &mut pipelines.tone_map,
    ) };
    let _ = unsafe { (dev.fp_v1_0().create_compute_pipelines)(
        dev.handle(),
        vk::PipelineCache::null(),
        2,
        &raw const cull_PIPELINE,
        std::ptr::null(),
        (pipelines.as_mut_ptr() as *mut vk::Pipeline).offset(3),
    ) };
    pipelines
}
"##;

const EXPECTED_SAMPLERS: &str = r##"pub struct Samplers {    pub nearest: vk::Sampler,
    pub pixel: vk::Sampler,
}

static SAMPLER_nearest: vk::SamplerCreateInfo = vk::SamplerCreateInfo {
        s_type: vk::StructureType::SAMPLER_CREATE_INFO,
        p_next: std::ptr::null(),
        flags: vk::SamplerCreateFlags::empty(),
        mag_filter: vk::Filter::NEAREST,
        min_filter: vk::Filter::NEAREST,
        mipmap_mode: vk::SamplerMipmapMode::NEAREST,
        address_mode_u: vk::SamplerAddressMode::CLAMP_TO_EDGE,
        address_mode_v: vk::SamplerAddressMode::CLAMP_TO_EDGE,
        address_mode_w: vk::SamplerAddressMode::CLAMP_TO_EDGE,
        mip_lod_bias: 0.,
        anisotropy_enable: 0,
        max_anisotropy: 0.,
        compare_enable: 0,
        compare_op: vk::CompareOp::NEVER,
        min_lod: 0.,
        max_lod: 0.,
        border_color: vk::BorderColor::FLOAT_TRANSPARENT_BLACK,
        unnormalized_coordinates: 0,
    };

static SAMPLER_pixel: vk::SamplerCreateInfo = vk::SamplerCreateInfo {
        s_type: vk::StructureType::SAMPLER_CREATE_INFO,
        p_next: std::ptr::null(),
        flags: vk::SamplerCreateFlags::empty(),
        mag_filter: vk::Filter::LINEAR,
        min_filter: vk::Filter::LINEAR,
        mipmap_mode: vk::SamplerMipmapMode::NEAREST,
        address_mode_u: vk::SamplerAddressMode::REPEAT,
        address_mode_v: vk::SamplerAddressMode::REPEAT,
        address_mode_w: vk::SamplerAddressMode::REPEAT,
        mip_lod_bias: 0.,
        anisotropy_enable: 0,
        max_anisotropy: 0.,
        compare_enable: 0,
        compare_op: vk::CompareOp::NEVER,
        min_lod: 0.,
        max_lod: 0.,
        border_color: vk::BorderColor::FLOAT_TRANSPARENT_BLACK,
        unnormalized_coordinates: 1,
    };

pub fn create_samplers(dev: &Dev) -> Samplers {
    let nearest = unsafe { dev.create_sampler(&SAMPLER_nearest, None).unwrap_unchecked() };
    let pixel = unsafe { dev.create_sampler(&SAMPLER_pixel, None).unwrap_unchecked() };
    Samplers {
        nearest,
        pixel,
    }
}

impl Samplers {
    pub fn cleanup(&self, dev: &Dev) {
        unsafe { dev.destroy_sampler(self.nearest, None) };
        unsafe { dev.destroy_sampler(self.pixel, None) };
    }
}
"##;

const EXPECTED_DESCRIPTORS: &str = r##"static DESCRIPTOR_SET_BINDINGS: [vk::DescriptorSetLayoutBinding<'static>; 3] = [
    vk::DescriptorSetLayoutBinding {
        binding: 0,
        descriptor_type: vk::DescriptorType::UNIFORM_BUFFER,
        descriptor_count: 1,
        stage_flags: vk::ShaderStageFlags::ALL,
        p_immutable_samplers: std::ptr::null(),
        _marker: std::marker::PhantomData,
    },
    vk::DescriptorSetLayoutBinding {
        binding: 1,
        descriptor_type: vk::DescriptorType::STORAGE_BUFFER,
        descriptor_count: 1,
        stage_flags: vk::ShaderStageFlags::ALL,
        p_immutable_samplers: std::ptr::null(),
        _marker: std::marker::PhantomData,
    },
    vk::DescriptorSetLayoutBinding {
        binding: 2,
        descriptor_type: vk::DescriptorType::UNIFORM_BUFFER,
        descriptor_count: 1,
        stage_flags: vk::ShaderStageFlags::ALL,
        p_immutable_samplers: std::ptr::null(),
        _marker: std::marker::PhantomData,
    },
];

static DESCRIPTOR_SET_LAYOUT: vk::DescriptorSetLayoutCreateInfo = vk::DescriptorSetLayoutCreateInfo {
    s_type: vk::StructureType::DESCRIPTOR_SET_LAYOUT_CREATE_INFO,
    p_next: std::ptr::null(),
    flags: vk::DescriptorSetLayoutCreateFlags::empty(),
    binding_count: 3,
    p_bindings: &raw const DESCRIPTOR_SET_BINDINGS[0],
    _marker: std::marker::PhantomData,
};

static DESCRIPTOR_POOL_SIZES: [vk::DescriptorPoolSize; 2] = [
    vk::DescriptorPoolSize {
        ty: vk::DescriptorType::UNIFORM_BUFFER,
        descriptor_count: 4,
    },
    vk::DescriptorPoolSize {
        ty: vk::DescriptorType::STORAGE_BUFFER,
        descriptor_count: 2,
    },
];

static DESCRIPTOR_POOL: vk::DescriptorPoolCreateInfo = vk::DescriptorPoolCreateInfo {
    s_type: vk::StructureType::DESCRIPTOR_POOL_CREATE_INFO,
    p_next: std::ptr::null(),
    flags: vk::DescriptorPoolCreateFlags::empty(),
    max_sets: 2,
    pool_size_count: 2,
    p_pool_sizes: &raw const DESCRIPTOR_POOL_SIZES[0],
    _marker: std::marker::PhantomData,
};

pub fn alloc_descriptor_set(
    global: &UniformBuffer<crate::gpu::Global>,
    voxels: &StorageBuffer<[crate::gpu::Voxel]>,
    camera: &UniformBuffer<crate::gpu::Camera>,
    dev: &Dev,
    layout: vk::DescriptorSetLayout,
    pool: vk::DescriptorPool,
) -> [vk::DescriptorSet; FRAMES_IN_FLIGHT] {
    let layouts = [layout; FRAMES_IN_FLIGHT];
    let descriptor_set_alloc_info = vk::DescriptorSetAllocateInfo::default()
        .descriptor_pool(pool)
        .set_layouts(&layouts);
    let descriptors: [vk::DescriptorSet; FRAMES_IN_FLIGHT] =
        unsafe { dev.allocate_descriptor_sets(&descriptor_set_alloc_info) }
            .unwrap()
            .try_into()
            .unwrap();
    update_descriptor_set(&descriptors, global, voxels, camera, dev);
    descriptors
}

#[allow(clippy::unused_enumerate_index)]
pub fn update_descriptor_set(
    descriptors: &[vk::DescriptorSet; FRAMES_IN_FLIGHT],
        global: &UniformBuffer<crate::gpu::Global>,
        voxels: &StorageBuffer<[crate::gpu::Voxel]>,
        camera: &UniformBuffer<crate::gpu::Camera>,
    dev: &Dev,
    ) {
    for (_flight_index, descriptor) in descriptors.iter().enumerate() {
        let global_buffer = global.descriptor(_flight_index);
        let global = vk::WriteDescriptorSet::default()
            .dst_set(*descriptor)
            .dst_binding(0)
            .descriptor_type(vk::DescriptorType::UNIFORM_BUFFER)
            .buffer_info(std::slice::from_ref(&global_buffer));
        let voxels_buffer = voxels.descriptor(_flight_index);
        let voxels = vk::WriteDescriptorSet::default()
            .dst_set(*descriptor)
            .dst_binding(1)
            .descriptor_type(vk::DescriptorType::STORAGE_BUFFER)
            .buffer_info(std::slice::from_ref(&voxels_buffer));
        let camera_buffer = camera.descriptor(_flight_index);
        let camera = vk::WriteDescriptorSet::default()
            .dst_set(*descriptor)
            .dst_binding(2)
            .descriptor_type(vk::DescriptorType::UNIFORM_BUFFER)
            .buffer_info(std::slice::from_ref(&camera_buffer));
        let writes = [global, voxels, camera];
        let writes = &writes;
        unsafe { dev.update_descriptor_sets(writes, &[]) };
    }
}

pub fn create_descriptor_set_layout(_samplers: &Samplers, dev: &Dev) -> vk::DescriptorSetLayout {
    unsafe { dev.create_descriptor_set_layout(&DESCRIPTOR_SET_LAYOUT, None).unwrap_unchecked() }
}

pub fn create_descriptor_pool(dev: &Dev) -> vk::DescriptorPool {
    unsafe { dev.create_descriptor_pool(&DESCRIPTOR_POOL, None).unwrap_unchecked() }
}
"##;

const EXPECTED_DESCRIPTORS_EMPTY: &str = r##"static DESCRIPTOR_SET_BINDINGS: [vk::DescriptorSetLayoutBinding<'static>; 0] = [
];

static DESCRIPTOR_SET_LAYOUT: vk::DescriptorSetLayoutCreateInfo = vk::DescriptorSetLayoutCreateInfo {
    s_type: vk::StructureType::DESCRIPTOR_SET_LAYOUT_CREATE_INFO,
    p_next: std::ptr::null(),
    flags: vk::DescriptorSetLayoutCreateFlags::empty(),
    binding_count: 0,
    p_bindings: &raw const DESCRIPTOR_SET_BINDINGS[0],
    _marker: std::marker::PhantomData,
};

static DESCRIPTOR_POOL_SIZES: [vk::DescriptorPoolSize; 0] = [
];

static DESCRIPTOR_POOL: vk::DescriptorPoolCreateInfo = vk::DescriptorPoolCreateInfo {
    s_type: vk::StructureType::DESCRIPTOR_POOL_CREATE_INFO,
    p_next: std::ptr::null(),
    flags: vk::DescriptorPoolCreateFlags::empty(),
    max_sets: 2,
    pool_size_count: 0,
    p_pool_sizes: &raw const DESCRIPTOR_POOL_SIZES[0],
    _marker: std::marker::PhantomData,
};

pub fn alloc_descriptor_set(
    dev: &Dev,
    layout: vk::DescriptorSetLayout,
    pool: vk::DescriptorPool,
) -> [vk::DescriptorSet; FRAMES_IN_FLIGHT] {
    let layouts = [layout; FRAMES_IN_FLIGHT];
    let descriptor_set_alloc_info = vk::DescriptorSetAllocateInfo::default()
        .descriptor_pool(pool)
        .set_layouts(&layouts);
    let descriptors: [vk::DescriptorSet; FRAMES_IN_FLIGHT] =
        unsafe { dev.allocate_descriptor_sets(&descriptor_set_alloc_info) }
            .unwrap()
            .try_into()
            .unwrap();
    update_descriptor_set(&descriptors, dev);
    descriptors
}

#[allow(clippy::unused_enumerate_index)]
pub fn update_descriptor_set(
    descriptors: &[vk::DescriptorSet; FRAMES_IN_FLIGHT],
    dev: &Dev,
    ) {
    for (_flight_index, descriptor) in descriptors.iter().enumerate() {
        let writes = [];
        let writes = &writes;
        unsafe { dev.update_descriptor_sets(writes, &[]) };
    }
}

pub fn create_descriptor_set_layout(_samplers: &Samplers, dev: &Dev) -> vk::DescriptorSetLayout {
    unsafe { dev.create_descriptor_set_layout(&DESCRIPTOR_SET_LAYOUT, None).unwrap_unchecked() }
}

pub fn create_descriptor_pool(dev: &Dev) -> vk::DescriptorPool {
    unsafe { dev.create_descriptor_pool(&DESCRIPTOR_POOL, None).unwrap_unchecked() }
}
"##;

#[test]
fn pipelines_file_matches_template() {
    let text = generate_pipelines(&example_renderer()).unwrap();
    assert_eq!(text, EXPECTED_PIPELINES);
}

#[test]
fn pipelines_shaders_are_deduplicated_and_sorted() {
    let text = generate_pipelines(&example_renderer()).unwrap();
    let modules: Vec<&str> = text
        .lines()
        .filter(|l| l.starts_with("static ") && l.contains(": vk::ShaderModuleCreateInfo"))
        .collect();
    assert_eq!(
        modules,
        vec![
            "static BLUR_COMPUTE: vk::ShaderModuleCreateInfo = vk::ShaderModuleCreateInfo {",
            "static CULL_COMPUTE: vk::ShaderModuleCreateInfo = vk::ShaderModuleCreateInfo {",
            "static FULLSCREEN_VERTEX: vk::ShaderModuleCreateInfo = vk::ShaderModuleCreateInfo {",
            "static SKY_FRAGMENT: vk::ShaderModuleCreateInfo = vk::ShaderModuleCreateInfo {",
            "static TONEMAP_FRAGMENT: vk::ShaderModuleCreateInfo = vk::ShaderModuleCreateInfo {",
            "static VOXEL_MESH: vk::ShaderModuleCreateInfo = vk::ShaderModuleCreateInfo {",
            "static VOXELS_TASK: vk::ShaderModuleCreateInfo = vk::ShaderModuleCreateInfo {",
            "static VOXELS_FRAGMENT: vk::ShaderModuleCreateInfo = vk::ShaderModuleCreateInfo {",
        ]
    );
}

#[test]
fn pipelines_names_are_uppercased() {
    let text = generate_pipelines(&example_renderer()).unwrap();
    assert!(text.contains("static mut TONE_MAP_PIPELINE: vk::GraphicsPipelineCreateInfo"));
    assert!(!text.contains("static tone_map_PIPELINE"));
    assert!(text.contains("static cull_PIPELINE: vk::ComputePipelineCreateInfo"));
}

#[test]
fn pipelines_empty_renderer() {
    let text = generate_pipelines(&renderer(vec![], &[], vec![])).unwrap();
    assert!(text.starts_with("pub struct Pipelines {\n}\n\nstatic ASSEMBLY"));
    assert!(text.ends_with("    let mut pipelines: Pipelines = unsafe { MaybeUninit::zeroed().assume_init() };\n    pipelines\n}\n"));
}

#[test]
fn pipelines_rejects_path_without_extension() {
    let mut p = pipeline("sky");
    p.vertex_shader = Some("fullscreen.glsl".to_string());
    assert_eq!(generate_pipelines(&renderer(vec![pass("main", vec![p])], &[], vec![])), None);
}

#[test]
fn pipelines_rejects_unknown_specialization() {
    let mut p = pipeline("sky");
    p.fragment_specialization = Some(vec!["missing".to_string()]);
    assert_eq!(generate_pipelines(&renderer(vec![pass("main", vec![p])], &[], vec![])), None);
}

#[test]
fn pipelines_rejects_unsupported_specialization_type() {
    let mut p = pipeline("sky");
    p.fragment_specialization = Some(vec!["scale".to_string()]);
    let r = renderer(vec![pass("main", vec![p])], &[], vec![specialization("scale", "f64", false)]);
    assert_eq!(generate_pipelines(&r), None);
}

#[test]
fn pipelines_rejects_name_with_empty_word() {
    let mut p = pipeline("sky__box");
    p.fragment_specialization = Some(vec!["scale".to_string()]);
    let r = renderer(vec![pass("main", vec![p])], &[], vec![specialization("scale", "f32", false)]);
    assert_eq!(generate_pipelines(&r), None);
}

#[test]
fn samplers_file_matches_template() {
    let mut r = renderer(vec![], &[], vec![]);
    r.samplers = vec![
        Sampler {
            name: "nearest".to_string(),
            filter: "NEAREST".to_string(),
            address_mode: "CLAMP_TO_EDGE".to_string(),
            unnormalized_coordinates: false,
        },
        Sampler {
            name: "pixel".to_string(),
            filter: "LINEAR".to_string(),
            address_mode: "REPEAT".to_string(),
            unnormalized_coordinates: true,
        },
    ];
    assert_eq!(generate_samplers(&r), EXPECTED_SAMPLERS);
}

fn type_description(name: &str, member_name: &str) -> TypeDescription {
    TypeDescription {
        name: name.to_string(),
        struct_member_name: member_name.to_string(),
        is_struct: false,
        is_array: false,
        is_matrix: false,
        is_vector: false,
        is_float: false,
        is_int: false,
        array_dims: vec![],
        scalar_width: 0,
        scalar_signedness: 0,
        vector_component_count: 0,
        matrix_row_count: 0,
        matrix_column_count: 0,
        members: vec![],
    }
}

fn block(name: &str, members: Vec<TypeDescription>) -> TypeDescription {
    let mut t = type_description(name, "");
    t.is_struct = true;
    t.members = members;
    t
}

fn buffer(name: &str, binding: u32, ty: DescriptorType, description: TypeDescription) -> ReflectedBinding {
    ReflectedBinding {
        name: name.to_string(),
        binding,
        descriptor_type: ty,
        type_description: Some(description),
    }
}

fn example_bindings() -> Vec<ReflectedBinding> {
    vec![
        buffer("global", 0, DescriptorType::UniformBuffer, block("Global", vec![])),
        buffer(
            "voxels",
            1,
            DescriptorType::StorageBuffer,
            block("VoxelBuffer", vec![type_description("Voxel", "voxels")]),
        ),
        buffer("camera", 2, DescriptorType::UniformBuffer, block("Camera", vec![])),
    ]
}

#[test]
fn descriptors_file_matches_template() {
    let sets = vec![ReflectedSet { bindings: example_bindings() }];
    assert_eq!(generate_descriptors(&sets).unwrap(), EXPECTED_DESCRIPTORS);
}

#[test]
fn descriptors_pool_sizes_count_two_per_binding() {
    let sets = vec![ReflectedSet { bindings: example_bindings() }];
    let text = generate_descriptors(&sets).unwrap();
    assert!(text.contains("        ty: vk::DescriptorType::UNIFORM_BUFFER,\n        descriptor_count: 4,\n"));
    assert!(text.contains("        ty: vk::DescriptorType::STORAGE_BUFFER,\n        descriptor_count: 2,\n"));
    assert!(text.contains("static DESCRIPTOR_POOL_SIZES: [vk::DescriptorPoolSize; 2] = [\n"));
}

#[test]
fn descriptors_of_empty_set() {
    let sets = vec![ReflectedSet { bindings: vec![] }];
    assert_eq!(generate_descriptors(&sets).unwrap(), EXPECTED_DESCRIPTORS_EMPTY);
}

#[test]
fn descriptors_need_exactly_one_set() {
    assert_eq!(generate_descriptors(&vec![]), None);
    let sets = vec![ReflectedSet { bindings: vec![] }, ReflectedSet { bindings: vec![] }];
    assert_eq!(generate_descriptors(&sets), None);
}

#[test]
fn descriptors_reject_image_binding() {
    let mut bindings = example_bindings();
    bindings.push(buffer("depth", 3, DescriptorType::SampledImage, block("Depth", vec![])));
    assert_eq!(generate_descriptors(&vec![ReflectedSet { bindings }]), None);
}

#[test]
fn descriptors_reject_storage_buffer_without_member() {
    let bindings = vec![buffer("voxels", 0, DescriptorType::StorageBuffer, block("VoxelBuffer", vec![]))];
    assert_eq!(generate_descriptors(&vec![ReflectedSet { bindings }]), None);
}

fn vector3(member: &str) -> TypeDescription {
    let mut t = type_description("", member);
    t.is_vector = true;
    t.is_float = true;
    t.scalar_width = 32;
    t.vector_component_count = 3;
    t
}

fn matrix4(member: &str) -> TypeDescription {
    let mut t = type_description("", member);
    t.is_matrix = true;
    t.is_float = true;
    t.scalar_width = 32;
    t.matrix_row_count = 4;
    t.matrix_column_count = 4;
    t
}

fn scalar(member: &str, width: u32, is_float: bool, signedness: u32) -> TypeDescription {
    let mut t = type_description("", member);
    t.is_float = is_float;
    t.is_int = !is_float;
    t.scalar_width = width;
    t.scalar_signedness = signedness;
    t
}

#[test]
fn gpu_file_defines_member_structs_first() {
    let mut camera = block("Camera", vec![vector3("position"), matrix4("matrix")]);
    camera.struct_member_name = "camera".to_string();
    let global = block("Global", vec![camera, scalar("time", 32, true, 0), scalar("flags", 16, false, 0)]);
    let sets = vec![ReflectedSet {
        bindings: vec![buffer("global", 0, DescriptorType::UniformBuffer, global)],
    }];
    let text = generate_gpu(&sets).unwrap();
    assert_eq!(
        text,
        "#[repr(C, align(4))]\n#[derive(Clone, Copy, Debug)]\npub struct Camera {\n    pub position: nalgebra::Vector3<f32>,\n    pub matrix: nalgebra::Matrix4<f32>,\n}\n\n#[repr(C, align(4))]\n#[derive(Clone, Copy, Debug)]\npub struct Global {\n    pub camera: Camera,\n    pub time: f32,\n    pub flags: u16,\n}\n\n"
    );
}

#[test]
fn gpu_file_fails_without_type_description() {
    let sets = vec![ReflectedSet {
        bindings: vec![ReflectedBinding {
            name: "global".to_string(),
            binding: 0,
            descriptor_type: DescriptorType::UniformBuffer,
            type_description: None,
        }],
    }];
    assert_eq!(generate_gpu(&sets), None);
}
