use vstd::prelude::*;
use crate::config::{Pipeline, Subpass};
use crate::text::{decimal, push_decimal};
use crate::vertex_code::{attribute_count, locations_before, spec_vertex_input, vertex_input_text, formats_known, vertex_counts_fit};

verus! {

pub const STATE_0: &'static str = "    ";

pub const STATE_1: &'static str = "_vertex_state: vk::PipelineVertexInputStateCreateInfo {\n        s_type: vk::StructureType::PIPELINE_VERTEX_INPUT_STATE_CREATE_INFO,\n        p_next: std::ptr::null(),\n        flags: vk::PipelineVertexInputStateCreateFlags::empty(),\n        vertex_binding_description_count: ";

pub const STATE_2: &'static str = ",\n        p_vertex_binding_descriptions: unsafe { SCRATCH.";

pub const STATE_3: &'static str = "_vertex_bindings.as_ptr() },\n        vertex_attribute_description_count: ";

pub const STATE_4: &'static str = ",\n        p_vertex_attribute_descriptions: unsafe { SCRATCH.";

pub const STATE_5: &'static str = "_vertex_attributes.as_ptr() },\n    },\n    ";

pub const STATE_6: &'static str = "_viewport: vk::Viewport {\n        x: 0.,\n        y: 0.,\n        width: 0.,\n        height: 0.,\n        min_depth: 0.,\n        max_depth: 1.,\n    },\n    ";

pub const STATE_7: &'static str = "_scissor: vk::Rect2D {\n        offset: vk::Offset2D { x: 0, y: 0 },\n        extent: vk::Extent2D { width: 0, height: 0 },\n    },\n    ";

pub const STATE_8: &'static str = "_viewport_state: vk::PipelineViewportStateCreateInfo {\n        s_type: vk::StructureType::PIPELINE_VIEWPORT_STATE_CREATE_INFO,\n        p_next: std::ptr::null(),\n        flags: vk::PipelineViewportStateCreateFlags::empty(),\n        viewport_count: 1,\n        p_viewports: unsafe { &SCRATCH.";

pub const STATE_9: &'static str = "_viewport },\n        scissor_count: 1,\n        p_scissors: unsafe { &SCRATCH.";

pub const STATE_10: &'static str = "_scissor },\n    },\n    ";

pub const STATE_11: &'static str = "_rasterizer: vk::PipelineRasterizationStateCreateInfo {\n        s_type: vk::StructureType::PIPELINE_RASTERIZATION_STATE_CREATE_INFO,\n        p_next: std::ptr::null(),\n        flags: vk::PipelineRasterizationStateCreateFlags::empty(),\n        depth_clamp_enable: 0,\n        rasterizer_discard_enable: 0,\n        polygon_mode: vk::PolygonMode::";

pub const STATE_12: &'static str = ",\n        cull_mode: vk::CullModeFlags::";

pub const STATE_13: &'static str = ",\n        front_face: vk::FrontFace::COUNTER_CLOCKWISE,\n        depth_bias_enable: 0,\n        depth_bias_constant_factor: 0.,\n        depth_bias_clamp: 0.,\n        depth_bias_slope_factor: 0.,\n        line_width: 1.,\n    },\n    ";

pub const STATE_14: &'static str = "_multisampling: vk::PipelineMultisampleStateCreateInfo {\n        s_type: vk::StructureType::PIPELINE_MULTISAMPLE_STATE_CREATE_INFO,\n        p_next: std::ptr::null(),\n        flags: vk::PipelineMultisampleStateCreateFlags::empty(),\n        rasterization_samples: vk::SampleCountFlags::";

pub const STATE_15: &'static str = ",\n        sample_shading_enable: 0,\n        min_sample_shading: 0.,\n        p_sample_mask: std::ptr::null(),\n        alpha_to_coverage_enable: 0,\n        alpha_to_one_enable: 0,\n    },\n    ";

pub const STATE_16: &'static str = "_blend_attachments: [\n";

pub const STATE_17: &'static str = "    ],\n    ";

pub const STATE_18: &'static str = "_blend: vk::PipelineColorBlendStateCreateInfo {\n        s_type: vk::StructureType::PIPELINE_COLOR_BLEND_STATE_CREATE_INFO,\n        p_next: std::ptr::null(),\n        flags: vk::PipelineColorBlendStateCreateFlags::empty(),\n        logic_op_enable: 0,\n        logic_op: vk::LogicOp::CLEAR,\n        attachment_count: ";

pub const STATE_19: &'static str = ",\n        p_attachments: unsafe { SCRATCH.";

pub const STATE_20: &'static str = "_blend_attachments.as_ptr() },\n        blend_constants: [0., 0., 0., 0.],\n    },\n    ";

pub const STATE_21: &'static str = "_depth: vk::PipelineDepthStencilStateCreateInfo {\n        s_type: vk::StructureType::PIPELINE_DEPTH_STENCIL_STATE_CREATE_INFO,\n        p_next: std::ptr::null(),\n        flags: vk::PipelineDepthStencilStateCreateFlags::empty(),\n        depth_test_enable: ";

pub const STATE_22: &'static str = ",\n        depth_write_enable: ";

pub const STATE_23: &'static str = ",\n        depth_compare_op: vk::CompareOp::LESS,\n        depth_bounds_test_enable: 0,\n        stencil_test_enable: 0,\n        front: vk::StencilOpState {\n            fail_op: vk::StencilOp::KEEP,\n            pass_op: vk::StencilOp::KEEP,\n            depth_fail_op: vk::StencilOp::KEEP,\n            compare_op: vk::CompareOp::NEVER,\n            compare_mask: 0,\n            write_mask: 0,\n            reference: 0,\n        },\n        back: vk::StencilOpState {\n            fail_op: vk::StencilOp::KEEP,\n            pass_op: vk::StencilOp::KEEP,\n            depth_fail_op: vk::StencilOp::KEEP,\n            compare_op: vk::CompareOp::NEVER,\n            compare_mask: 0,\n            write_mask: 0,\n            reference: 0,\n        },\n        min_depth_bounds: 0.,\n        max_depth_bounds: 1.,\n    },\n    ";

pub const STATE_24: &'static str = "_pipeline: vk::GraphicsPipelineCreateInfo {\n        s_type: vk::StructureType::GRAPHICS_PIPELINE_CREATE_INFO,\n        p_next: std::ptr::null(),\n        flags: vk::PipelineCreateFlags::empty(),\n        stage_count: 2,\n        p_stages: unsafe { SCRATCH.";

pub const STATE_25: &'static str = "_shader_stages.as_ptr() },\n        p_vertex_input_state: unsafe { &SCRATCH.";

pub const STATE_26: &'static str = "_vertex_state },\n        p_input_assembly_state: unsafe { &SCRATCH.assembly },\n        p_tessellation_state: std::ptr::null(),\n        p_viewport_state: unsafe { &SCRATCH.";

pub const STATE_27: &'static str = "_viewport_state },\n        p_rasterization_state: unsafe { &SCRATCH.";

pub const STATE_28: &'static str = "_rasterizer },\n        p_multisample_state: unsafe { &SCRATCH.";

pub const STATE_29: &'static str = "_multisampling },\n        p_depth_stencil_state: unsafe { &SCRATCH.";

pub const STATE_30: &'static str = "_depth },\n        p_color_blend_state: unsafe { &SCRATCH.";

pub const STATE_31: &'static str = "_blend },\n        p_dynamic_state: unsafe { &SCRATCH.dynamic_state },\n        layout: vk::PipelineLayout::null(),\n        render_pass: vk::RenderPass::null(),\n        subpass: ";

pub const STATE_32: &'static str = ",\n        base_pipeline_handle: vk::Pipeline::null(),\n        base_pipeline_index: 0,\n    },\n";

pub const BLEND_ATTACHMENT: &'static str = "        vk::PipelineColorBlendAttachmentState {\n            blend_enable: 0,\n            src_color_blend_factor: vk::BlendFactor::ZERO,\n            dst_color_blend_factor: vk::BlendFactor::ZERO,\n            color_blend_op: vk::BlendOp::ADD,\n            src_alpha_blend_factor: vk::BlendFactor::ZERO,\n            dst_alpha_blend_factor: vk::BlendFactor::ZERO,\n            alpha_blend_op: vk::BlendOp::ADD,\n            color_write_mask: vk::ColorComponentFlags::RGBA,\n        },\n";

pub const SAMPLES_MSAA: &'static str = "empty()";

pub const SAMPLES_ONE: &'static str = "TYPE_1";

/// Sample count flag of a subpass's attachments: set by the swapchain's multisampling when the
/// subpass uses it, one sample otherwise.
pub open spec fn samples_text(msaa: bool) -> Seq<char> {
    if msaa {
        SAMPLES_MSAA@
    } else {
        SAMPLES_ONE@
    }
}

/// Whether the depth test and depth writes are on: exactly when the subpass has a depth
/// attachment.
pub open spec fn depth_flag(s: Subpass) -> Seq<char> {
    if s.depth_attachment is Some {
        "1"@
    } else {
        "0"@
    }
}

fn samples_str(msaa: bool) -> (res: &'static str)
    ensures
        res@ == samples_text(msaa),
{
    if msaa {
        SAMPLES_MSAA
    } else {
        SAMPLES_ONE
    }
}

fn depth_str(s: &Subpass) -> (res: &'static str)
    ensures
        res@ == depth_flag(*s),
{
    if s.depth_attachment.is_some() {
        "1"
    } else {
        "0"
    }
}

/// One blend attachment state per color attachment of the first `k`.
pub open spec fn blend_attachments(k: nat) -> Seq<char>
    decreases k,
{
    if k == 0 {
        seq![]
    } else {
        blend_attachments((k - 1) as nat) + BLEND_ATTACHMENT@
    }
}

pub open spec fn state_part_0(p: Pipeline, s: Subpass, subpass_index: usize) -> Seq<char> {
    STATE_0@ + p.name@ + STATE_1@ + decimal(p.vertex_bindings@.len()) + STATE_2@ + p.name@ + STATE_3@ + decimal(locations_before(p.vertex_bindings@, p.vertex_bindings@.len() as int))
}

fn push_state_part_0(t: &mut String, p: &Pipeline, s: &Subpass, subpass_index: usize, attributes: usize)
    requires
        attributes == locations_before(p.vertex_bindings@, p.vertex_bindings@.len() as int),
    ensures
        final(t)@ == old(t)@ + state_part_0(*p, *s, subpass_index),
{
    let ghost start = t@;
    t.append(STATE_0);
    t.append(p.name.as_str());
    t.append(STATE_1);
    push_decimal(t, p.vertex_bindings.len() as u64);
    t.append(STATE_2);
    t.append(p.name.as_str());
    t.append(STATE_3);
    push_decimal(t, attributes as u64);
    assert(t@ =~= start + state_part_0(*p, *s, subpass_index));
}

pub open spec fn state_part_1(p: Pipeline, s: Subpass, subpass_index: usize) -> Seq<char> {
    STATE_4@ + p.name@ + STATE_5@ + p.name@ + STATE_6@ + p.name@ + STATE_7@ + p.name@
}

fn push_state_part_1(t: &mut String, p: &Pipeline, s: &Subpass, subpass_index: usize, attributes: usize)
    requires
        attributes == locations_before(p.vertex_bindings@, p.vertex_bindings@.len() as int),
    ensures
        final(t)@ == old(t)@ + state_part_1(*p, *s, subpass_index),
{
    let ghost start = t@;
    t.append(STATE_4);
    t.append(p.name.as_str());
    t.append(STATE_5);
    t.append(p.name.as_str());
    t.append(STATE_6);
    t.append(p.name.as_str());
    t.append(STATE_7);
    t.append(p.name.as_str());
    assert(t@ =~= start + state_part_1(*p, *s, subpass_index));
}

pub open spec fn state_part_2(p: Pipeline, s: Subpass, subpass_index: usize) -> Seq<char> {
    STATE_8@ + p.name@ + STATE_9@ + p.name@ + STATE_10@ + p.name@ + STATE_11@ + p.polygon_mode@
}

fn push_state_part_2(t: &mut String, p: &Pipeline, s: &Subpass, subpass_index: usize, attributes: usize)
    requires
        attributes == locations_before(p.vertex_bindings@, p.vertex_bindings@.len() as int),
    ensures
        final(t)@ == old(t)@ + state_part_2(*p, *s, subpass_index),
{
    let ghost start = t@;
    t.append(STATE_8);
    t.append(p.name.as_str());
    t.append(STATE_9);
    t.append(p.name.as_str());
    t.append(STATE_10);
    t.append(p.name.as_str());
    t.append(STATE_11);
    t.append(p.polygon_mode.as_str());
    assert(t@ =~= start + state_part_2(*p, *s, subpass_index));
}

pub open spec fn state_part_3(p: Pipeline, s: Subpass, subpass_index: usize) -> Seq<char> {
    STATE_12@ + p.cull_mode@ + STATE_13@ + p.name@ + STATE_14@ + samples_text(s.msaa) + STATE_15@ + p.name@
}

fn push_state_part_3(t: &mut String, p: &Pipeline, s: &Subpass, subpass_index: usize, attributes: usize)
    requires
        attributes == locations_before(p.vertex_bindings@, p.vertex_bindings@.len() as int),
    ensures
        final(t)@ == old(t)@ + state_part_3(*p, *s, subpass_index),
{
    let ghost start = t@;
    t.append(STATE_12);
    t.append(p.cull_mode.as_str());
    t.append(STATE_13);
    t.append(p.name.as_str());
    t.append(STATE_14);
    t.append(samples_str(s.msaa));
    t.append(STATE_15);
    t.append(p.name.as_str());
    assert(t@ =~= start + state_part_3(*p, *s, subpass_index));
}

pub open spec fn state_part_4(p: Pipeline, s: Subpass, subpass_index: usize) -> Seq<char> {
    STATE_16@
}

fn push_state_part_4(t: &mut String, p: &Pipeline, s: &Subpass, subpass_index: usize, attributes: usize)
    requires
        attributes == locations_before(p.vertex_bindings@, p.vertex_bindings@.len() as int),
    ensures
        final(t)@ == old(t)@ + state_part_4(*p, *s, subpass_index),
{
    let ghost start = t@;
    t.append(STATE_16);
    assert(t@ =~= start + state_part_4(*p, *s, subpass_index));
}

pub open spec fn state_part_5(p: Pipeline, s: Subpass, subpass_index: usize) -> Seq<char> {
    STATE_17@ + p.name@ + STATE_18@ + decimal(s.color_attachments@.len()) + STATE_19@ + p.name@ + STATE_20@ + p.name@
}

fn push_state_part_5(t: &mut String, p: &Pipeline, s: &Subpass, subpass_index: usize, attributes: usize)
    requires
        attributes == locations_before(p.vertex_bindings@, p.vertex_bindings@.len() as int),
    ensures
        final(t)@ == old(t)@ + state_part_5(*p, *s, subpass_index),
{
    let ghost start = t@;
    t.append(STATE_17);
    t.append(p.name.as_str());
    t.append(STATE_18);
    push_decimal(t, s.color_attachments.len() as u64);
    t.append(STATE_19);
    t.append(p.name.as_str());
    t.append(STATE_20);
    t.append(p.name.as_str());
    assert(t@ =~= start + state_part_5(*p, *s, subpass_index));
}

pub open spec fn state_part_6(p: Pipeline, s: Subpass, subpass_index: usize) -> Seq<char> {
    STATE_21@ + depth_flag(s) + STATE_22@ + depth_flag(s) + STATE_23@ + p.name@ + STATE_24@ + p.name@
}

fn push_state_part_6(t: &mut String, p: &Pipeline, s: &Subpass, subpass_index: usize, attributes: usize)
    requires
        attributes == locations_before(p.vertex_bindings@, p.vertex_bindings@.len() as int),
    ensures
        final(t)@ == old(t)@ + state_part_6(*p, *s, subpass_index),
{
    let ghost start = t@;
    t.append(STATE_21);
    t.append(depth_str(s));
    t.append(STATE_22);
    t.append(depth_str(s));
    t.append(STATE_23);
    t.append(p.name.as_str());
    t.append(STATE_24);
    t.append(p.name.as_str());
    assert(t@ =~= start + state_part_6(*p, *s, subpass_index));
}

pub open spec fn state_part_7(p: Pipeline, s: Subpass, subpass_index: usize) -> Seq<char> {
    STATE_25@ + p.name@ + STATE_26@ + p.name@ + STATE_27@ + p.name@ + STATE_28@ + p.name@
}

fn push_state_part_7(t: &mut String, p: &Pipeline, s: &Subpass, subpass_index: usize, attributes: usize)
    requires
        attributes == locations_before(p.vertex_bindings@, p.vertex_bindings@.len() as int),
    ensures
        final(t)@ == old(t)@ + state_part_7(*p, *s, subpass_index),
{
    let ghost start = t@;
    t.append(STATE_25);
    t.append(p.name.as_str());
    t.append(STATE_26);
    t.append(p.name.as_str());
    t.append(STATE_27);
    t.append(p.name.as_str());
    t.append(STATE_28);
    t.append(p.name.as_str());
    assert(t@ =~= start + state_part_7(*p, *s, subpass_index));
}

pub open spec fn state_part_8(p: Pipeline, s: Subpass, subpass_index: usize) -> Seq<char> {
    STATE_29@ + p.name@ + STATE_30@ + p.name@ + STATE_31@ + decimal(subpass_index as nat) + STATE_32@
}

fn push_state_part_8(t: &mut String, p: &Pipeline, s: &Subpass, subpass_index: usize, attributes: usize)
    requires
        attributes == locations_before(p.vertex_bindings@, p.vertex_bindings@.len() as int),
    ensures
        final(t)@ == old(t)@ + state_part_8(*p, *s, subpass_index),
{
    let ghost start = t@;
    t.append(STATE_29);
    t.append(p.name.as_str());
    t.append(STATE_30);
    t.append(p.name.as_str());
    t.append(STATE_31);
    push_decimal(t, subpass_index as u64);
    t.append(STATE_32);
    assert(t@ =~= start + state_part_8(*p, *s, subpass_index));
}

/// The fixed-function state of a graphics pipeline after its vertex input arrays: vertex input
/// state, viewport and scissor, rasterizer (with the pipeline's polygon and cull modes),
/// multisampling (as the subpass), one blend attachment per color attachment of the subpass,
/// depth testing exactly when the subpass has a depth attachment, and the pipeline create info
/// naming the subpass by its index.
pub open spec fn pipeline_states(p: Pipeline, s: Subpass, subpass_index: usize) -> Seq<char> {
    states_head(p, s, subpass_index) + blend_attachments(s.color_attachments@.len()) + states_tail(
        p,
        s,
        subpass_index,
    )
}

/// The states before the blend attachments.
pub open spec fn states_head(p: Pipeline, s: Subpass, subpass_index: usize) -> Seq<char> {
    state_part_0(p, s, subpass_index) + state_part_1(p, s, subpass_index) + state_part_2(p, s, subpass_index) + state_part_3(p, s, subpass_index) + state_part_4(p, s, subpass_index)
}

/// The states after the blend attachments.
pub open spec fn states_tail(p: Pipeline, s: Subpass, subpass_index: usize) -> Seq<char> {
    state_part_5(p, s, subpass_index) + state_part_6(p, s, subpass_index) + state_part_7(p, s, subpass_index) + state_part_8(p, s, subpass_index)
}

/// The scratch data of a graphics pipeline from its vertex input on: the vertex input arrays
/// (as [`spec_vertex_input`] gives them) followed by [`pipeline_states`]. `None` when an
/// attribute's format has no known size.
pub open spec fn spec_pipeline_state(p: Pipeline, s: Subpass, subpass_index: usize) -> Option<Seq<char>> {
    match spec_vertex_input(p.name@, p.vertex_bindings@) {
        Some(v) => Some(v + pipeline_states(p, s, subpass_index)),
        None => None,
    }
}

/// The scratch data of a graphics pipeline of subpass `subpass_index` from its vertex input
/// on, as [`spec_pipeline_state`] states.
pub fn pipeline_state_text(p: &Pipeline, s: &Subpass, subpass_index: usize) -> (res: Option<String>)
    requires
        formats_known(p.vertex_bindings@) ==> vertex_counts_fit(p.vertex_bindings@),
    ensures
        match res {
            Some(t) => spec_pipeline_state(*p, *s, subpass_index) == Some(t@),
            None => spec_pipeline_state(*p, *s, subpass_index) is None,
        },
{
    let mut t = match vertex_input_text(p.name.as_str(), &p.vertex_bindings) {
        Some(v) => v,
        None => return None,
    };
    let attributes = attribute_count(&p.vertex_bindings);
    let ghost start = t@;
    push_state_part_0(&mut t, p, s, subpass_index, attributes);
    push_state_part_1(&mut t, p, s, subpass_index, attributes);
    push_state_part_2(&mut t, p, s, subpass_index, attributes);
    push_state_part_3(&mut t, p, s, subpass_index, attributes);
    push_state_part_4(&mut t, p, s, subpass_index, attributes);
    assert(t@ =~= start + states_head(*p, *s, subpass_index));
    let ghost before_blend = t@;
    let mut k: usize = 0;
    while k < s.color_attachments.len()
        invariant
            k <= s.color_attachments@.len(),
            t@ == before_blend + blend_attachments(k as nat),
        decreases s.color_attachments@.len() - k,
    {
        t.append(BLEND_ATTACHMENT);
        k = k + 1;
    }
    let ghost before_tail = t@;
    push_state_part_5(&mut t, p, s, subpass_index, attributes);
    push_state_part_6(&mut t, p, s, subpass_index, attributes);
    push_state_part_7(&mut t, p, s, subpass_index, attributes);
    push_state_part_8(&mut t, p, s, subpass_index, attributes);
    assert(t@ =~= before_tail + states_tail(*p, *s, subpass_index));
    assert(t@ =~= start + pipeline_states(*p, *s, subpass_index));
    Some(t)
}

} // verus!
