use vulkthing::config::{DescriptorBinding, DescriptorSet, Sampler, StorageImageBinding, UniformBinding};
use vulkthing::header_code::module_header;

fn uniform(name: &str, typ: &str) -> DescriptorBinding {
    DescriptorBinding::Uniform(UniformBinding { name: name.to_string(), stage: "ALL".to_string(), typ: typ.to_string() })
}

fn set(name: &str, bindings: Vec<DescriptorBinding>) -> DescriptorSet {
    DescriptorSet { name: name.to_string(), pool_size: 1, bindings }
}

#[test]
fn module_header_text() {
    let samplers = vec![Sampler {
        name: "pixel".to_string(),
        filter: "NEAREST".to_string(),
        address_mode: "REPEAT".to_string(),
        unnormalized_coordinates: false,
    }];
    let sets = vec![
        set("global", vec![uniform("material", "Material"), uniform("global", "Global")]),
        set(
            "postprocess",
            vec![
                DescriptorBinding::StorageImage(StorageImageBinding { name: "hdr".to_string(), stage: "COMPUTE".to_string() }),
                uniform("again", "Global"),
            ],
        ),
    ];
    let expected = "// Code generated from renderer.kdl.

use crate::renderer::raytracing::RaytraceResources;
use crate::renderer::shader::compile_glsl;
#[rustfmt::skip]
use crate::renderer::uniform::{Global, Material};
use crate::renderer::debug::set_label;
#[allow(unused_imports)]
use crate::renderer::util::{AsDescriptor, Dev, ImageResources, StorageBuffer, UniformBuffer};
use crate::renderer::{Pass, Swapchain, COLOR_FORMAT, DEPTH_FORMAT, FRAMES_IN_FLIGHT};
use ash::vk;
use std::ffi::CStr;
use std::mem::MaybeUninit;

pub struct Samplers {
    pub pixel: vk::Sampler,
}

pub struct DescriptorSetLayouts {
    pub global: vk::DescriptorSetLayout,
    pub postprocess: vk::DescriptorSetLayout,
}

pub struct DescriptorPools {
    pub global: vk::DescriptorPool,
    pub global_layout: vk::DescriptorSetLayout,
    pub postprocess: vk::DescriptorPool,
    pub postprocess_layout: vk::DescriptorSetLayout,
}
";
    assert_eq!(module_header("renderer.kdl", &samplers, &sets), expected);
}

#[test]
fn no_uniforms_gives_empty_import_list() {
    let text = module_header("r.kdl", &vec![], &vec![]);
    assert!(text.contains("use crate::renderer::uniform::{};\n"));
    assert!(text.ends_with("pub struct DescriptorPools {\n}\n"));
}
