use vulkthing::config::{Attachment, DescriptorSet, Pass, Renderer, SdrColor, Specialization, Subpass};
use vulkthing::helper::{to_camelcase, AttachmentType};

fn attachment(name: &str, swapchain: bool) -> Attachment {
    Attachment {
        name: name.to_string(),
        swapchain,
        store: true,
        format: None,
        layout: "COLOR_ATTACHMENT_OPTIMAL".to_string(),
        layout_final: None,
        clear: false,
    }
}

fn subpass(name: &str, colors: Vec<Attachment>, depth: Option<Attachment>, inputs: &[&str]) -> Subpass {
    Subpass {
        name: name.to_string(),
        color_attachments: colors,
        depth_attachment: depth,
        input_attachment: inputs.iter().map(|s| s.to_string()).collect(),
        msaa: false,
    }
}

fn pass(subpasses: Vec<Subpass>) -> Pass {
    Pass {
        name: "main".to_string(),
        debug_name: "Main".to_string(),
        debug_color: SdrColor { red: 1, green: 2, blue: 3 },
        msaa: false,
        pipelines: vec![],
        subpasses,
        dependencies: vec![],
    }
}

fn example_pass() -> Pass {
    pass(vec![
        subpass("geometry", vec![attachment("albedo", false), attachment("normal", false)], Some(attachment("depth", false)), &[]),
        subpass("lighting", vec![attachment("output", true)], None, &["albedo", "normal"]),
    ])
}

#[test]
fn camelcase_conversion() {
    assert_eq!(to_camelcase("tone_map"), "ToneMap");
    assert_eq!(to_camelcase("voxels"), "Voxels");
    assert_eq!(to_camelcase("a_b_c"), "ABC");
    assert_eq!(to_camelcase("sky2_box"), "Sky2Box");
}

#[test]
fn specialization_types() {
    let f = Specialization { name: "exposure".to_string(), ty: "f32".to_string(), shared: false };
    let i = Specialization { name: "mode".to_string(), ty: "i32".to_string(), shared: true };
    assert_eq!(f.type_default(), "0.");
    assert_eq!(i.type_default(), "0");
    assert_eq!(f.type_size(), 4);
    assert_eq!(i.type_size(), 4);
}

#[test]
fn find_specialization_takes_the_first() {
    let r = Renderer {
        samplers: vec![],
        descriptor_set: DescriptorSet { name: "global".to_string(), pool_size: 1, bindings: vec![] },
        passes: vec![],
        computes: vec![],
        specializations: vec![
            Specialization { name: "a".to_string(), ty: "u32".to_string(), shared: false },
            Specialization { name: "b".to_string(), ty: "f32".to_string(), shared: false },
            Specialization { name: "a".to_string(), ty: "i32".to_string(), shared: true },
        ],
    };
    assert_eq!(r.find_specialization("a").ty, "u32");
    assert_eq!(r.find_specialization("b").ty, "f32");
}

#[test]
fn attachment_count_includes_depth() {
    let p = example_pass();
    assert_eq!(p.subpasses[0].attachment_count(), 3);
    assert_eq!(p.subpasses[1].attachment_count(), 1);
}

#[test]
fn attachments_are_numbered_through_the_pass() {
    let p = example_pass();
    let entries: Vec<(String, usize, AttachmentType, String)> = p
        .attachments()
        .into_iter()
        .map(|(s, i, t, a)| (s.name.clone(), i, t, a.name.clone()))
        .collect();
    assert_eq!(
        entries,
        vec![
            ("geometry".to_string(), 0, AttachmentType::Color, "albedo".to_string()),
            ("geometry".to_string(), 1, AttachmentType::Color, "normal".to_string()),
            ("geometry".to_string(), 2, AttachmentType::Depth, "depth".to_string()),
            ("lighting".to_string(), 3, AttachmentType::Color, "output".to_string()),
        ]
    );
}

#[test]
fn swapchain_queries() {
    let p = example_pass();
    assert!(p.writes_to_swapchain());
    assert_eq!(p.swapchain_attachment_index(), 3);
    let offscreen = pass(vec![subpass("only", vec![attachment("color", false)], None, &[])]);
    assert!(!offscreen.writes_to_swapchain());
}

#[test]
fn subpass_lookup_and_inputs() {
    let p = example_pass();
    assert_eq!(p.subpass_index("geometry"), 0);
    assert_eq!(p.subpass_index("lighting"), 1);
    assert!(p.used_as_input(&attachment("normal", false)));
    assert!(!p.used_as_input(&attachment("depth", false)));
}

#[test]
fn every_supported_type_has_size_and_default() {
    for ty in ["f32", "i32", "u32"] {
        let s = Specialization { name: "c".to_string(), ty: ty.to_string(), shared: false };
        assert_eq!(s.type_size(), 4);
        assert_eq!(s.type_default(), if ty == "f32" { "0." } else { "0" });
    }
}
