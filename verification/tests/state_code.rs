use vulkthing::config::{Attachment, Pipeline, Subpass, VertexAttribute, VertexBinding};
use vulkthing::state_code::pipeline_state_text;
use vulkthing::vertex_code::vertex_input_text;

fn color(name: &str) -> Attachment {
    Attachment {
        name: name.to_string(),
        swapchain: false,
        store: true,
        format: None,
        layout: "COLOR_ATTACHMENT_OPTIMAL".to_string(),
        layout_final: None,
        clear: false,
    }
}

/// The pipeline states as the renderer's code generator writes them, from its own templates.
fn expected_states(
    pipeline: &str,
    vertex_binding_count: usize,
    attribute_count: usize,
    polygon_mode: &str,
    cull_mode: &str,
    rasterization_samples: &str,
    color_attachment_count: usize,
    depth_bool: u32,
    subpass_index: usize,
) -> String {
    let mut out = String::new();
    let first = format!(r#"    ],
    {pipeline}_vertex_state: vk::PipelineVertexInputStateCreateInfo {{
        s_type: vk::StructureType::PIPELINE_VERTEX_INPUT_STATE_CREATE_INFO,
        p_next: std::ptr::null(),
        flags: vk::PipelineVertexInputStateCreateFlags::empty(),
        vertex_binding_description_count: {vertex_binding_count},
        p_vertex_binding_descriptions: unsafe {{ SCRATCH.{pipeline}_vertex_bindings.as_ptr() }},
        vertex_attribute_description_count: {attribute_count},
        p_vertex_attribute_descriptions: unsafe {{ SCRATCH.{pipeline}_vertex_attributes.as_ptr() }},
    }},
    {pipeline}_viewport: vk::Viewport {{
        x: 0.,
        y: 0.,
        width: 0.,
        height: 0.,
        min_depth: 0.,
        max_depth: 1.,
    }},
    {pipeline}_scissor: vk::Rect2D {{
        offset: vk::Offset2D {{ x: 0, y: 0 }},
        extent: vk::Extent2D {{ width: 0, height: 0 }},
    }},
    {pipeline}_viewport_state: vk::PipelineViewportStateCreateInfo {{
        s_type: vk::StructureType::PIPELINE_VIEWPORT_STATE_CREATE_INFO,
        p_next: std::ptr::null(),
        flags: vk::PipelineViewportStateCreateFlags::empty(),
        viewport_count: 1,
        p_viewports: unsafe {{ &SCRATCH.{pipeline}_viewport }},
        scissor_count: 1,
        p_scissors: unsafe {{ &SCRATCH.{pipeline}_scissor }},
    }},
    {pipeline}_rasterizer: vk::PipelineRasterizationStateCreateInfo {{
        s_type: vk::StructureType::PIPELINE_RASTERIZATION_STATE_CREATE_INFO,
        p_next: std::ptr::null(),
        flags: vk::PipelineRasterizationStateCreateFlags::empty(),
        depth_clamp_enable: 0,
        rasterizer_discard_enable: 0,
        polygon_mode: vk::PolygonMode::{polygon_mode},
        cull_mode: vk::CullModeFlags::{cull_mode},
        front_face: vk::FrontFace::COUNTER_CLOCKWISE,
        depth_bias_enable: 0,
        depth_bias_constant_factor: 0.,
        depth_bias_clamp: 0.,
        depth_bias_slope_factor: 0.,
        line_width: 1.,
    }},
    {pipeline}_multisampling: vk::PipelineMultisampleStateCreateInfo {{
        s_type: vk::StructureType::PIPELINE_MULTISAMPLE_STATE_CREATE_INFO,
        p_next: std::ptr::null(),
        flags: vk::PipelineMultisampleStateCreateFlags::empty(),
        rasterization_samples: vk::SampleCountFlags::{rasterization_samples},
        sample_shading_enable: 0,
        min_sample_shading: 0.,
        p_sample_mask: std::ptr::null(),
        alpha_to_coverage_enable: 0,
        alpha_to_one_enable: 0,
    }},
    {pipeline}_blend_attachments: ["#);
    out += first.strip_prefix("    ],\n").unwrap();
    out += "\n";
    for _ in 0..color_attachment_count {
        out += &format!(r#"        vk::PipelineColorBlendAttachmentState {{
            blend_enable: 0,
            src_color_blend_factor: vk::BlendFactor::ZERO,
            dst_color_blend_factor: vk::BlendFactor::ZERO,
            color_blend_op: vk::BlendOp::ADD,
            src_alpha_blend_factor: vk::BlendFactor::ZERO,
            dst_alpha_blend_factor: vk::BlendFactor::ZERO,
            alpha_blend_op: vk::BlendOp::ADD,
            color_write_mask: vk::ColorComponentFlags::RGBA,
        }},"#);
        out += "\n";
    }
    out += &format!(r#"    ],
    {pipeline}_blend: vk::PipelineColorBlendStateCreateInfo {{
        s_type: vk::StructureType::PIPELINE_COLOR_BLEND_STATE_CREATE_INFO,
        p_next: std::ptr::null(),
        flags: vk::PipelineColorBlendStateCreateFlags::empty(),
        logic_op_enable: 0,
        logic_op: vk::LogicOp::CLEAR,
        attachment_count: {color_attachment_count},
        p_attachments: unsafe {{ SCRATCH.{pipeline}_blend_attachments.as_ptr() }},
        blend_constants: [0., 0., 0., 0.],
    }},
    {pipeline}_depth: vk::PipelineDepthStencilStateCreateInfo {{
        s_type: vk::StructureType::PIPELINE_DEPTH_STENCIL_STATE_CREATE_INFO,
        p_next: std::ptr::null(),
        flags: vk::PipelineDepthStencilStateCreateFlags::empty(),
        depth_test_enable: {depth_bool},
        depth_write_enable: {depth_bool},
        depth_compare_op: vk::CompareOp::LESS,
        depth_bounds_test_enable: 0,
        stencil_test_enable: 0,
        front: vk::StencilOpState {{
            fail_op: vk::StencilOp::KEEP,
            pass_op: vk::StencilOp::KEEP,
            depth_fail_op: vk::StencilOp::KEEP,
            compare_op: vk::CompareOp::NEVER,
            compare_mask: 0,
            write_mask: 0,
            reference: 0,
        }},
        back: vk::StencilOpState {{
            fail_op: vk::StencilOp::KEEP,
            pass_op: vk::StencilOp::KEEP,
            depth_fail_op: vk::StencilOp::KEEP,
            compare_op: vk::CompareOp::NEVER,
            compare_mask: 0,
            write_mask: 0,
            reference: 0,
        }},
        min_depth_bounds: 0.,
        max_depth_bounds: 1.,
    }},
    {pipeline}_pipeline: vk::GraphicsPipelineCreateInfo {{
        s_type: vk::StructureType::GRAPHICS_PIPELINE_CREATE_INFO,
        p_next: std::ptr::null(),
        flags: vk::PipelineCreateFlags::empty(),
        stage_count: 2,
        p_stages: unsafe {{ SCRATCH.{pipeline}_shader_stages.as_ptr() }},
        p_vertex_input_state: unsafe {{ &SCRATCH.{pipeline}_vertex_state }},
        p_input_assembly_state: unsafe {{ &SCRATCH.assembly }},
        p_tessellation_state: std::ptr::null(),
        p_viewport_state: unsafe {{ &SCRATCH.{pipeline}_viewport_state }},
        p_rasterization_state: unsafe {{ &SCRATCH.{pipeline}_rasterizer }},
        p_multisample_state: unsafe {{ &SCRATCH.{pipeline}_multisampling }},
        p_depth_stencil_state: unsafe {{ &SCRATCH.{pipeline}_depth }},
        p_color_blend_state: unsafe {{ &SCRATCH.{pipeline}_blend }},
        p_dynamic_state: unsafe {{ &SCRATCH.dynamic_state }},
        layout: vk::PipelineLayout::null(),
        render_pass: vk::RenderPass::null(),
        subpass: {subpass_index},
        base_pipeline_handle: vk::Pipeline::null(),
        base_pipeline_index: 0,
    }},"#);
    out += "\n";
    out
}

#[test]
fn pipeline_states_follow_the_subpass() {
    let pipeline = Pipeline {
        name: "terrain".to_string(),
        task_shaders: false,
        mesh_shaders: false,
        vertex_shader: None,
        vertex_bindings: vec![VertexBinding {
            rate: "VERTEX".to_string(),
            attributes: vec![
                VertexAttribute { _name: "position".to_string(), format: "R32G32B32_SFLOAT".to_string(), unused: false },
                VertexAttribute { _name: "pad".to_string(), format: "R32_SFLOAT".to_string(), unused: true },
            ],
        }],
        task_shader: None,
        mesh_shader: None,
        fragment_shader: None,
        fragment_specialization: None,
        polygon_mode: "LINE".to_string(),
        cull_mode: "NONE".to_string(),
        descriptor_sets: vec![],
    };
    let subpass = Subpass {
        name: "main".to_string(),
        color_attachments: vec![color("albedo"), color("normal")],
        depth_attachment: Some(color("depth")),
        input_attachment: vec![],
        msaa: true,
    };
    let vertex = vertex_input_text("terrain", &pipeline.vertex_bindings).unwrap();
    // The vertex input arrays end with the list close that starts the original's next write.
    assert!(vertex.ends_with("    ],\n"));
    let expected = vertex + &expected_states("terrain", 1, 1, "LINE", "NONE", "empty()", 2, 1, 3);
    assert_eq!(pipeline_state_text(&pipeline, &subpass, 3), Some(expected));
}

#[test]
fn no_depth_and_single_sample() {
    let pipeline = Pipeline {
        name: "sky".to_string(),
        task_shaders: false,
        mesh_shaders: false,
        vertex_shader: None,
        vertex_bindings: vec![],
        task_shader: None,
        mesh_shader: None,
        fragment_shader: None,
        fragment_specialization: None,
        polygon_mode: "FILL".to_string(),
        cull_mode: "BACK".to_string(),
        descriptor_sets: vec![],
    };
    let subpass = Subpass {
        name: "main".to_string(),
        color_attachments: vec![color("albedo")],
        depth_attachment: None,
        input_attachment: vec![],
        msaa: false,
    };
    let vertex = vertex_input_text("sky", &vec![]).unwrap();
    let expected = vertex + &expected_states("sky", 0, 0, "FILL", "BACK", "TYPE_1", 1, 0, 0);
    assert_eq!(pipeline_state_text(&pipeline, &subpass, 0), Some(expected));
}
