use vulkthing::codegen::{attribute_size, BindingType, ShaderType};
use vulkthing::config::{
    AccelerationStructureBinding, DescriptorBinding, ImageBinding, InputAttachmentBinding,
    StorageBufferBinding, StorageImageBinding, UniformBinding, VertexAttribute,
};

#[test]
fn binding_type_names() {
    assert_eq!(BindingType::AccelerationStructure.name(), "ACCELERATION_STRUCTURE_KHR");
    assert_eq!(BindingType::Image.name(), "COMBINED_IMAGE_SAMPLER");
    assert_eq!(BindingType::InputAttachment.name(), "INPUT_ATTACHMENT");
    assert_eq!(BindingType::StorageBuffer.name(), "STORAGE_BUFFER");
    assert_eq!(BindingType::StorageImage.name(), "STORAGE_IMAGE");
    assert_eq!(BindingType::Uniform.name(), "UNIFORM_BUFFER");
}

#[test]
fn shader_type_names() {
    assert_eq!(ShaderType::Compute.lowercase(), "compute");
    assert_eq!(ShaderType::Vertex.camelcase(), "Vertex");
    assert_eq!(ShaderType::Fragment.extension(), "frag");
    assert_eq!(ShaderType::Compute.extension(), "comp");
    assert!(ShaderType::Compute < ShaderType::Vertex);
    assert!(ShaderType::Vertex < ShaderType::Fragment);
}

#[test]
fn descriptor_binding_accessors() {
    let uniform = DescriptorBinding::Uniform(UniformBinding {
        name: "camera".to_string(),
        stage: "VERTEX".to_string(),
        typ: "Camera".to_string(),
    });
    assert_eq!(uniform.descriptor_type(), BindingType::Uniform);
    assert_eq!(uniform.name(), "camera");
    assert_eq!(uniform.stage(), "VERTEX");
    assert_eq!(uniform.value_type(), "&UniformBuffer<Camera>");
    let storage = DescriptorBinding::StorageBuffer(StorageBufferBinding {
        name: "voxels".to_string(),
        stage: "COMPUTE".to_string(),
        typ: "[Voxel]".to_string(),
    });
    assert_eq!(storage.value_type(), "&StorageBuffer<[Voxel]>");
    let tlas = DescriptorBinding::AccelerationStructure(AccelerationStructureBinding {
        name: "tlas".to_string(),
        stage: "FRAGMENT".to_string(),
    });
    assert_eq!(tlas.descriptor_type(), BindingType::AccelerationStructure);
    assert_eq!(tlas.value_type(), "&Option<RaytraceResources>");
    let image = DescriptorBinding::Image(ImageBinding {
        name: "noise".to_string(),
        stage: "FRAGMENT".to_string(),
        sampler: "nearest".to_string(),
        layout: "SHADER_READ_ONLY_OPTIMAL".to_string(),
    });
    assert_eq!(image.value_type(), "vk::ImageView");
    assert_eq!(image.name(), "noise");
    let input = DescriptorBinding::InputAttachment(InputAttachmentBinding {
        name: "albedo".to_string(),
        stage: "FRAGMENT".to_string(),
    });
    assert_eq!(input.descriptor_type(), BindingType::InputAttachment);
    let storage_image = DescriptorBinding::StorageImage(StorageImageBinding {
        name: "target".to_string(),
        stage: "COMPUTE".to_string(),
    });
    assert_eq!(storage_image.stage(), "COMPUTE");
    assert_eq!(storage_image.value_type(), "vk::ImageView");
}

#[test]
fn attribute_sizes() {
    let attribute = |format: &str| VertexAttribute {
        _name: "a".to_string(),
        format: format.to_string(),
        unused: false,
    };
    assert_eq!(attribute_size(&attribute("R16_UINT")), 2);
    assert_eq!(attribute_size(&attribute("R32_SFLOAT")), 4);
    assert_eq!(attribute_size(&attribute("R32G32B32_SFLOAT")), 12);
    assert_eq!(attribute_size(&attribute("R32G32B32A32_SFLOAT")), 16);
}
