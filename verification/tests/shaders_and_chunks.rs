use vulkthing::chunks::{contains_chunk, next_chunk};
use vulkthing::config::{Compute, DescriptorSet, Pass, Pipeline, Renderer, SdrColor};
use vulkthing::geometry::Vec3;
use vulkthing::shader_set::{shader_set, str_less};
use vulkthing::shader_type::ShaderType;

#[test]
fn string_order_is_by_code_point() {
    assert!(str_less("abc", "abd"));
    assert!(str_less("ab", "abc"));
    assert!(!str_less("abc", "ab"));
    assert!(!str_less("abc", "abc"));
    assert!(str_less("Zebra", "apple"));
    assert!(str_less("", "a"));
    assert!(str_less("z", "é"));
}

#[test]
fn shader_set_sorts_and_deduplicates() {
    let list = vec![
        ("sky", ShaderType::Fragment),
        ("fullscreen", ShaderType::Vertex),
        ("sky", ShaderType::Vertex),
        ("fullscreen", ShaderType::Vertex),
        ("blur", ShaderType::Compute),
        ("sky", ShaderType::Fragment),
        ("sky", ShaderType::Mesh),
    ];
    assert_eq!(
        shader_set(&list),
        vec![
            ("blur", ShaderType::Compute),
            ("fullscreen", ShaderType::Vertex),
            ("sky", ShaderType::Mesh),
            ("sky", ShaderType::Vertex),
            ("sky", ShaderType::Fragment),
        ]
    );
    assert_eq!(shader_set(&vec![]), vec![]);
}

fn v(x: i64, y: i64, z: i64) -> Vec3 {
    Vec3 { x, y, z }
}

#[test]
fn next_chunk_scans_in_order() {
    let camera = v(10, 20, 30);
    assert_eq!(next_chunk(camera, &vec![], 1, 0), Some(v(9, 19, 30)));
    let loaded = vec![v(9, 19, 30), v(9, 20, 30)];
    assert_eq!(next_chunk(camera, &loaded, 1, 0), Some(v(9, 21, 30)));
    assert_eq!(next_chunk(camera, &vec![v(9, 19, 29)], 1, 1), Some(v(9, 19, 30)));
}

#[test]
fn next_chunk_none_when_all_loaded() {
    let camera = v(0, 0, 0);
    let mut loaded = Vec::new();
    for x in -1..=1 {
        for y in -1..=1 {
            loaded.push(v(x, y, 0));
        }
    }
    assert_eq!(next_chunk(camera, &loaded, 1, 0), None);
    assert_eq!(next_chunk(camera, &vec![], -1, 0), None);
    assert_eq!(next_chunk(camera, &vec![], 0, 0), Some(camera));
    assert!(contains_chunk(&loaded, v(1, -1, 0)));
    assert!(!contains_chunk(&loaded, v(1, -1, 1)));
}

fn pipeline(name: &str, mesh: bool) -> Pipeline {
    Pipeline {
        name: name.to_string(),
        task_shaders: mesh,
        mesh_shaders: mesh,
        vertex_shader: None,
        vertex_bindings: vec![],
        task_shader: None,
        mesh_shader: None,
        fragment_shader: Some("shared.frag".to_string()),
        fragment_specialization: None,
        polygon_mode: "FILL".to_string(),
        cull_mode: "NONE".to_string(),
        descriptor_sets: vec![],
    }
}

#[test]
fn renderer_pipelines_and_shaders() {
    let pass = |name: &str, pipelines| Pass {
        name: name.to_string(),
        debug_name: name.to_string(),
        debug_color: SdrColor { red: 0, green: 0, blue: 0 },
        msaa: false,
        pipelines,
        subpasses: vec![],
        dependencies: vec![],
    };
    let r = Renderer {
        samplers: vec![],
        descriptor_set: DescriptorSet { name: "global".to_string(), pool_size: 1, bindings: vec![] },
        passes: vec![pass("a", vec![pipeline("terrain", true)]), pass("b", vec![pipeline("sky", false)])],
        computes: vec![Compute { name: "cull".to_string() }],
        specializations: vec![],
    };
    let names: Vec<&str> = r.pipelines().iter().map(|p| p.name.as_str()).collect();
    assert_eq!(names, vec!["terrain", "sky"]);
    assert!(r.shader_paths_valid());
    assert_eq!(
        r.shaders(),
        vec![
            ("terrain", ShaderType::Task),
            ("terrain", ShaderType::Mesh),
            ("shared", ShaderType::Fragment),
            ("sky", ShaderType::Vertex),
            ("shared", ShaderType::Fragment),
        ]
    );
    let mut bad = r;
    bad.passes[0].pipelines[0].fragment_shader = Some("shared.vert".to_string());
    assert!(!bad.shader_paths_valid());
}
