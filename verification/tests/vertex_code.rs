use vulkthing::config::{VertexAttribute, VertexBinding};
use vulkthing::vertex_code::vertex_input_text;

fn attr(format: &str, unused: bool) -> VertexAttribute {
    VertexAttribute { _name: "a".to_string(), format: format.to_string(), unused }
}

fn binding_entry(binding: usize, stride: usize, rate: &str) -> String {
    format!(
        "        vk::VertexInputBindingDescription {{\n            binding: {binding},\n            stride: {stride},\n            input_rate: vk::VertexInputRate::{rate},\n        }},\n"
    )
}

fn attribute_entry(binding: usize, location: usize, format: &str, offset: usize) -> String {
    format!(
        "        vk::VertexInputAttributeDescription {{\n            binding: {binding},\n            location: {location},\n            format: vk::Format::{format},\n            offset: {offset},\n        }},\n"
    )
}

#[test]
fn strides_round_up_and_locations_run_across_bindings() {
    let bindings = vec![
        VertexBinding {
            rate: "VERTEX".to_string(),
            attributes: vec![
                attr("R32G32B32_SFLOAT", false),
                attr("R16_UINT", true),
                attr("R32_SFLOAT", false),
            ],
        },
        VertexBinding {
            rate: "INSTANCE".to_string(),
            attributes: vec![attr("R16_UINT", false), attr("R32G32B32A32_SFLOAT", false)],
        },
    ];
    let mut expected = String::from("    grass_vertex_bindings: [\n");
    // 12 + 2 + 4 = 18, rounded up to 20; 2 + 16 = 18, rounded up to 20.
    expected += &binding_entry(0, 20, "VERTEX");
    expected += &binding_entry(1, 20, "INSTANCE");
    expected += "    ],\n    grass_vertex_attributes: [\n";
    expected += &attribute_entry(0, 0, "R32G32B32_SFLOAT", 0);
    // The unused attribute takes no location but its bytes still count in the offset.
    expected += &attribute_entry(0, 1, "R32_SFLOAT", 14);
    expected += &attribute_entry(1, 2, "R16_UINT", 0);
    expected += &attribute_entry(1, 3, "R32G32B32A32_SFLOAT", 2);
    expected += "    ],\n";
    assert_eq!(vertex_input_text("grass", &bindings), Some(expected));
}

#[test]
fn aligned_stride_stays_and_empty_lists() {
    let bindings = vec![VertexBinding {
        rate: "VERTEX".to_string(),
        attributes: vec![attr("R32_SFLOAT", false), attr("R32G32B32_SFLOAT", false)],
    }];
    let text = vertex_input_text("p", &bindings).unwrap();
    assert!(text.contains("stride: 16,"));
    assert_eq!(
        vertex_input_text("q", &vec![]),
        Some("    q_vertex_bindings: [\n    ],\n    q_vertex_attributes: [\n    ],\n".to_string())
    );
}

#[test]
fn unknown_format_gives_none() {
    let bindings = vec![VertexBinding {
        rate: "VERTEX".to_string(),
        attributes: vec![attr("R32_SFLOAT", false), attr("R8_UNORM", false)],
    }];
    assert_eq!(vertex_input_text("p", &bindings), None);
}
