use vulkthing::config::{Attachment, Dependency, DependencyEnd, Pass, SdrColor, Subpass};
use vulkthing::pass_code::render_pass_text;

fn attachment(name: &str, swapchain: bool, store: bool, clear: bool, final_layout: Option<&str>) -> Attachment {
    Attachment {
        name: name.to_string(),
        swapchain,
        store,
        format: None,
        layout: if name == "depth" { "DEPTH_STENCIL_ATTACHMENT_OPTIMAL" } else { "COLOR_ATTACHMENT_OPTIMAL" }
            .to_string(),
        layout_final: final_layout.map(|l| l.to_string()),
        clear,
    }
}

fn end(subpass: &str, stage: &str, access: &str) -> DependencyEnd {
    DependencyEnd { subpass: subpass.to_string(), stage_mask: stage.to_string(), access_mask: access.to_string() }
}

fn example(inputs: Vec<String>, dst: &str) -> Pass {
    Pass {
        name: "main".to_string(),
        debug_name: "Main".to_string(),
        debug_color: SdrColor { red: 0, green: 0, blue: 0 },
        msaa: false,
        pipelines: vec![],
        subpasses: vec![
            Subpass {
                name: "geometry".to_string(),
                color_attachments: vec![attachment("color", false, true, true, None)],
                depth_attachment: Some(attachment("depth", false, false, true, None)),
                input_attachment: vec![],
                msaa: true,
            },
            Subpass {
                name: "post".to_string(),
                color_attachments: vec![attachment("out", true, true, false, Some("PRESENT_SRC_KHR"))],
                depth_attachment: None,
                input_attachment: inputs,
                msaa: false,
            },
        ],
        dependencies: vec![Dependency {
            src: end("geometry", "COLOR_ATTACHMENT_OUTPUT", "COLOR_ATTACHMENT_WRITE"),
            dst: end(dst, "FRAGMENT_SHADER", "INPUT_ATTACHMENT_READ"),
            by_region: true,
        }],
    }
}

fn reference(attachment: usize, layout: &str) -> String {
    format!(
        r#"        vk::AttachmentReference {{
            attachment: {attachment},
            layout: vk::ImageLayout::{layout},
        }},
"#
    )
}

fn description(format: &str, samples: &str, load: &str, store: &str, final_layout: &str) -> String {
    format!(
        r#"        vk::AttachmentDescription {{
            flags: vk::AttachmentDescriptionFlags::empty(),
            format: {format},
            samples: vk::SampleCountFlags::{samples},
            load_op: vk::AttachmentLoadOp::{load},
            store_op: vk::AttachmentStoreOp::{store},
            stencil_load_op: vk::AttachmentLoadOp::DONT_CARE,
            stencil_store_op: vk::AttachmentStoreOp::DONT_CARE,
            initial_layout: vk::ImageLayout::UNDEFINED,
            final_layout: vk::ImageLayout::{final_layout},
        }},
"#
    )
}

fn subpass_description(input_count: usize, input_ptr: &str, color_count: usize, color_ptr: &str, depth_ptr: &str) -> String {
    format!(
        r#"        vk::SubpassDescription {{
            flags: vk::SubpassDescriptionFlags::empty(),
            pipeline_bind_point: vk::PipelineBindPoint::GRAPHICS,
            input_attachment_count: {input_count},
            p_input_attachments: {input_ptr},
            color_attachment_count: {color_count},
            p_color_attachments: {color_ptr},
            p_resolve_attachments: std::ptr::null(),
            p_depth_stencil_attachment: {depth_ptr},
            preserve_attachment_count: 0,
            p_preserve_attachments: std::ptr::null(),
        }},
"#
    )
}

#[test]
fn render_pass_scratch_text() {
    let pass = example(vec!["color".to_string()], "post");
    let mut expected = String::new();
    expected += "    main_geometry_color: [\n";
    expected += &reference(0, "COLOR_ATTACHMENT_OPTIMAL");
    expected += "    ],\n";
    expected += "    main_geometry_depth: vk::AttachmentReference {\n        attachment: 1,\n        layout: vk::ImageLayout::DEPTH_STENCIL_ATTACHMENT_OPTIMAL,\n    },\n";
    expected += "    main_post_color: [\n";
    expected += &reference(2, "COLOR_ATTACHMENT_OPTIMAL");
    expected += "    ],\n";
    expected += "    main_post_input: [\n";
    expected += &reference(0, "SHADER_READ_ONLY_OPTIMAL");
    expected += "    ],\n";
    expected += "    main_attachments: [\n";
    expected += &description("COLOR_FORMAT", "empty()", "CLEAR", "STORE", "COLOR_ATTACHMENT_OPTIMAL");
    expected += &description("DEPTH_FORMAT", "empty()", "CLEAR", "DONT_CARE", "DEPTH_STENCIL_ATTACHMENT_OPTIMAL");
    expected += &description("vk::Format::UNDEFINED", "TYPE_1", "DONT_CARE", "STORE", "PRESENT_SRC_KHR");
    expected += "    ],\n";
    expected += "    main_subpasses: [\n";
    expected += &subpass_description(
        0,
        "std::ptr::null()",
        1,
        "unsafe { SCRATCH.main_geometry_color.as_ptr() }",
        "unsafe { &SCRATCH.main_geometry_depth }",
    );
    expected += &subpass_description(
        1,
        "unsafe { SCRATCH.main_post_input.as_ptr() }",
        1,
        "unsafe { SCRATCH.main_post_color.as_ptr() }",
        "std::ptr::null()",
    );
    expected += "    ],\n";
    expected += "    main_dependencies: [\n";
    expected += r#"        vk::SubpassDependency {
            src_subpass: 0,
            dst_subpass: 1,
            src_stage_mask: vk::PipelineStageFlags::COLOR_ATTACHMENT_OUTPUT,
            dst_stage_mask: vk::PipelineStageFlags::FRAGMENT_SHADER,
            src_access_mask: vk::AccessFlags::COLOR_ATTACHMENT_WRITE,
            dst_access_mask: vk::AccessFlags::INPUT_ATTACHMENT_READ,
            dependency_flags: vk::DependencyFlags::BY_REGION,
        },
"#;
    expected += "    ],\n";
    expected += r#"    main_pass: vk::RenderPassCreateInfo {
        s_type: vk::StructureType::RENDER_PASS_CREATE_INFO,
        p_next: std::ptr::null(),
        flags: vk::RenderPassCreateFlags::empty(),
        attachment_count: 3,
        p_attachments: unsafe { SCRATCH.main_attachments.as_ptr() },
        subpass_count: 2,
        p_subpasses: unsafe { SCRATCH.main_subpasses.as_ptr() },
        dependency_count: 1,
        p_dependencies: unsafe { SCRATCH.main_dependencies.as_ptr() },
    },
"#;
    assert_eq!(render_pass_text(&pass), Some(expected));
}

#[test]
fn input_refers_to_the_last_color_of_its_name() {
    let mut pass = example(vec!["out".to_string(), "color".to_string()], "post");
    pass.subpasses[0].color_attachments.push(attachment("out", false, true, false, None));
    let text = render_pass_text(&pass).unwrap();
    // "out" is attachment 1 in the first subpass and attachment 3 in the second; the later wins.
    let input = text.split("main_post_input: [\n").nth(1).unwrap();
    assert!(input.starts_with(&(reference(3, "SHADER_READ_ONLY_OPTIMAL") + &reference(0, "SHADER_READ_ONLY_OPTIMAL"))));
}

#[test]
fn unknown_names_give_none() {
    assert_eq!(render_pass_text(&example(vec!["missing".to_string()], "post")), None);
    assert_eq!(render_pass_text(&example(vec![], "nowhere")), None);
}
