use vulkthing::descriptors::{pool_sizes, AshDescriptor, AshEnum, DescriptorType, ReflectedBinding};
use vulkthing::reflect::TypeDescription;

fn description(name: &str, member: &str, members: Vec<TypeDescription>) -> TypeDescription {
    TypeDescription {
        name: name.to_string(),
        struct_member_name: member.to_string(),
        is_struct: true,
        is_array: false,
        is_matrix: false,
        is_vector: false,
        is_float: false,
        is_int: false,
        array_dims: vec![],
        scalar_width: 0,
        scalar_signedness: 0,
        vector_component_count: 0,
        matrix_row_count: 0,
        matrix_column_count: 0,
        members,
    }
}

fn binding(ty: DescriptorType, t: Option<TypeDescription>) -> ReflectedBinding {
    ReflectedBinding { name: "b".to_string(), binding: 0, descriptor_type: ty, type_description: t }
}

#[test]
fn pool_sizes_group_by_type_in_first_order() {
    let bindings = vec![
        binding(DescriptorType::StorageBuffer, None),
        binding(DescriptorType::UniformBuffer, None),
        binding(DescriptorType::StorageBuffer, None),
        binding(DescriptorType::StorageImage, None),
        binding(DescriptorType::StorageBuffer, None),
    ];
    assert_eq!(
        pool_sizes(&bindings),
        vec![
            (DescriptorType::StorageBuffer, 6),
            (DescriptorType::UniformBuffer, 2),
            (DescriptorType::StorageImage, 2),
        ]
    );
    assert_eq!(pool_sizes(&vec![]), vec![]);
}

#[test]
fn struct_type_of_buffers() {
    let uniform = binding(DescriptorType::UniformBuffer, Some(description("Global", "", vec![])));
    assert_eq!(uniform.struct_type(), Some("Global"));
    assert_eq!(uniform.ash_value_type(), "&UniformBuffer<crate::gpu::Global>");
    let storage = binding(
        DescriptorType::StorageBuffer,
        Some(description("VoxelBuffer", "", vec![description("Voxel", "voxels", vec![])])),
    );
    assert_eq!(storage.struct_type(), Some("Voxel"));
    assert_eq!(storage.ash_value_type(), "&StorageBuffer<[crate::gpu::Voxel]>");
    assert_eq!(storage.name(), "voxels");
    let image = binding(DescriptorType::StorageImage, Some(description("Image", "", vec![])));
    assert_eq!(image.struct_type(), None);
    assert_eq!(image.ash_value_type(), "vk::ImageView");
    assert_eq!(binding(DescriptorType::UniformBuffer, None).struct_type(), None);
    let tlas = binding(DescriptorType::AccelerationStructure, None);
    assert_eq!(tlas.ash_value_type(), "&Option<RaytraceResources>");
}

#[test]
fn ash_variants() {
    assert_eq!(DescriptorType::UniformBuffer.ash_variant(), "UNIFORM_BUFFER");
    assert_eq!(DescriptorType::StorageBuffer.ash_variant(), "STORAGE_BUFFER");
}
