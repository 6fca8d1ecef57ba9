use vulkthing::descriptors::{DescriptorType, ReflectedBinding, ReflectedSet};
use vulkthing::reflect::{
    collect_all_types, collect_types, find_struct, get_alignment, is_struct, parse_scalar, parse_type,
    parse_type_nonarray, Scalar, Struct, Type, TypeDescription,
};

fn description(name: &str, member: &str) -> TypeDescription {
    TypeDescription {
        name: name.to_string(),
        struct_member_name: member.to_string(),
        is_struct: false,
        is_array: false,
        is_matrix: false,
        is_vector: false,
        is_float: false,
        is_int: false,
        array_dims: vec![],
        scalar_width: 0,
        scalar_signedness: 0,
        vector_component_count: 0,
        matrix_row_count: 0,
        matrix_column_count: 0,
        members: vec![],
    }
}

fn int_type(member: &str, width: u32, signedness: u32) -> TypeDescription {
    let mut t = description("", member);
    t.is_int = true;
    t.scalar_width = width;
    t.scalar_signedness = signedness;
    t
}

fn float(member: &str) -> TypeDescription {
    let mut t = description("", member);
    t.is_float = true;
    t.scalar_width = 32;
    t
}

fn structure(name: &str, member: &str, members: Vec<TypeDescription>) -> TypeDescription {
    let mut t = description(name, member);
    t.is_struct = true;
    t.members = members;
    t
}

#[test]
fn scalars_render_and_align() {
    assert_eq!(Scalar::F32.to_rust(), "f32");
    assert_eq!(Scalar::I16.to_rust(), "i16");
    assert_eq!(Scalar::U8.alignment(), 1);
    assert_eq!(Scalar::U16.alignment(), 2);
    assert_eq!(Scalar::I32.alignment(), 4);
}

#[test]
fn types_render_as_rust() {
    assert_eq!(Type::Scalar(Scalar::U32).to_rust(), "u32");
    assert_eq!(Type::Vector(Scalar::F32, 3).to_rust(), "nalgebra::Vector3<f32>");
    assert_eq!(Type::Matrix4F32.to_rust(), "nalgebra::Matrix4<f32>");
    assert_eq!(Type::Struct("Voxel".to_string()).to_rust(), "Voxel");
    let nested = Type::Array(Box::new(Type::Array(Box::new(Type::Scalar(Scalar::I8)), 4)), 10);
    assert_eq!(nested.to_rust(), "[[i8; 4]; 10]");
}

#[test]
fn scalar_parsing() {
    assert_eq!(parse_scalar(&float("x")), Some(Scalar::F32));
    assert_eq!(parse_scalar(&int_type("x", 8, 0)), Some(Scalar::U8));
    assert_eq!(parse_scalar(&int_type("x", 16, 1)), Some(Scalar::I16));
    assert_eq!(parse_scalar(&int_type("x", 32, 1)), Some(Scalar::I32));
    assert_eq!(parse_scalar(&int_type("x", 64, 0)), None);
    let mut half = float("x");
    half.scalar_width = 16;
    assert_eq!(parse_scalar(&half), None);
}

#[test]
fn type_parsing() {
    let mut vector = float("v");
    vector.is_vector = true;
    vector.vector_component_count = 4;
    assert!(matches!(parse_type_nonarray(&vector), Some(Type::Vector(Scalar::F32, 4))));
    let mut matrix = float("m");
    matrix.is_matrix = true;
    matrix.matrix_row_count = 4;
    matrix.matrix_column_count = 4;
    assert!(matches!(parse_type(&matrix), Some(Type::Matrix4F32)));
    matrix.matrix_row_count = 3;
    assert!(parse_type(&matrix).is_none());
    let mut array = int_type("a", 32, 0);
    array.is_array = true;
    array.array_dims = vec![16];
    assert_eq!(parse_type(&array).unwrap().to_rust(), "[u32; 16]");
    array.array_dims = vec![2, 2];
    assert!(parse_type(&array).is_none());
    assert!(parse_type(&structure("", "s", vec![])).is_none());
}

#[test]
fn struct_detection() {
    assert!(is_struct(&structure("Camera", "", vec![])));
    assert!(!is_struct(&structure("_Hidden", "", vec![])));
    assert!(!is_struct(&structure("StructuredBuffer", "", vec![])));
    assert!(!is_struct(&float("x")));
}

#[test]
fn alignment_lookup() {
    let structs = vec![("Light".to_string(), Struct { alignment: 16, members: vec![] })];
    assert_eq!(find_struct(&structs, "Light"), Some(0));
    assert_eq!(find_struct(&structs, "Camera"), None);
    assert_eq!(get_alignment(&Type::Struct("Light".to_string()), &structs), Some(16));
    assert_eq!(get_alignment(&Type::Struct("Camera".to_string()), &structs), None);
    let array = Type::Array(Box::new(Type::Vector(Scalar::U16, 2)), 3);
    assert_eq!(get_alignment(&array, &structs), Some(2));
    assert_eq!(get_alignment(&Type::Matrix4F32, &structs), Some(4));
}

#[test]
fn collect_types_keeps_each_struct_once() {
    let light = structure("Light", "light", vec![float("power"), int_type("flags", 8, 0)]);
    let scene = structure("Scene", "", vec![light, structure("Light", "other", vec![float("power")])]);
    let mut structs = Vec::new();
    assert!(collect_types(&scene, &mut structs));
    let names: Vec<&str> = structs.iter().map(|(n, _)| n.as_str()).collect();
    assert_eq!(names, vec!["Light", "Scene"]);
    assert_eq!(structs[0].1.alignment, 4);
    assert_eq!(structs[0].1.members.len(), 2);
    assert_eq!(structs[1].1.members[1].0, "other");
}

#[test]
fn collect_types_skips_runtime_arrays() {
    let mut runtime = int_type("data", 32, 0);
    runtime.is_array = true;
    runtime.array_dims = vec![0];
    let buffer = structure("Buffer", "", vec![runtime]);
    let mut structs = Vec::new();
    assert!(collect_types(&buffer, &mut structs));
    assert!(structs.is_empty());
}

#[test]
fn collect_all_types_over_sets() {
    let binding = |name: &str, t: Option<TypeDescription>| ReflectedBinding {
        name: name.to_string(),
        binding: 0,
        descriptor_type: DescriptorType::UniformBuffer,
        type_description: t,
    };
    let sets = vec![
        ReflectedSet { bindings: vec![binding("a", Some(structure("A", "", vec![int_type("x", 16, 1)])))] },
        ReflectedSet { bindings: vec![binding("b", Some(structure("B", "", vec![float("y")])))] },
    ];
    let info = collect_all_types(&sets).unwrap();
    let names: Vec<&str> = info.structs.iter().map(|(n, _)| n.as_str()).collect();
    assert_eq!(names, vec!["A", "B"]);
    assert_eq!(info.structs[0].1.alignment, 2);
    let bad = vec![ReflectedSet { bindings: vec![binding("c", None)] }];
    assert!(collect_all_types(&bad).is_none());
    let unknown_scalar = vec![ReflectedSet {
        bindings: vec![binding("d", Some(structure("D", "", vec![int_type("z", 64, 0)])))],
    }];
    assert!(collect_all_types(&unknown_scalar).is_none());
}

#[test]
fn runtime_array_of_unknown_struct_fails() {
    // A struct named with a leading underscore is never collected, so its alignment is unknown.
    let mut items = structure("_Hidden", "items", vec![float("v")]);
    items.is_array = true;
    items.array_dims = vec![0];
    let buffer = structure("Buffer", "", vec![items]);
    let mut structs = Vec::new();
    assert!(!collect_types(&buffer, &mut structs));
}
