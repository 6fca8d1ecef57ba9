use vstd::prelude::*;
use crate::config::{DescriptorBinding, VertexAttribute};
use crate::text::str_eq;

verus! {

/// The kind of a descriptor binding in the renderer description.
#[derive(Debug, Clone, Copy, PartialEq, Eq, Structural)]
pub enum BindingType {
    AccelerationStructure,
    Image,
    InputAttachment,
    StorageBuffer,
    StorageImage,
    Uniform,
}

/// The shader kinds of graphics and compute pipelines in the renderer description.
#[derive(Debug, Clone, Copy, PartialEq, Eq, Structural, PartialOrd, Ord)]
pub enum ShaderType {
    Compute,
    Vertex,
    Fragment,
}

pub open spec fn spec_binding_type_name(t: BindingType) -> Seq<char> {
    match t {
        BindingType::AccelerationStructure => "ACCELERATION_STRUCTURE_KHR"@,
        BindingType::Image => "COMBINED_IMAGE_SAMPLER"@,
        BindingType::InputAttachment => "INPUT_ATTACHMENT"@,
        BindingType::StorageBuffer => "STORAGE_BUFFER"@,
        BindingType::StorageImage => "STORAGE_IMAGE"@,
        BindingType::Uniform => "UNIFORM_BUFFER"@,
    }
}

impl BindingType {
    /// Name of the binding kind in ash's `vk::DescriptorType`.
    pub fn name(&self) -> (res: &'static str)
        ensures
            res@ == spec_binding_type_name(*self),
    {
        match self {
            BindingType::AccelerationStructure => "ACCELERATION_STRUCTURE_KHR",
            BindingType::Image => "COMBINED_IMAGE_SAMPLER",
            BindingType::InputAttachment => "INPUT_ATTACHMENT",
            BindingType::StorageBuffer => "STORAGE_BUFFER",
            BindingType::StorageImage => "STORAGE_IMAGE",
            BindingType::Uniform => "UNIFORM_BUFFER",
        }
    }
}

pub open spec fn spec_shader_lowercase(t: ShaderType) -> Seq<char> {
    match t {
        ShaderType::Compute => "compute"@,
        ShaderType::Fragment => "fragment"@,
        ShaderType::Vertex => "vertex"@,
    }
}

pub open spec fn spec_shader_camelcase(t: ShaderType) -> Seq<char> {
    match t {
        ShaderType::Compute => "Compute"@,
        ShaderType::Fragment => "Fragment"@,
        ShaderType::Vertex => "Vertex"@,
    }
}

pub open spec fn spec_shader_extension(t: ShaderType) -> Seq<char> {
    match t {
        ShaderType::Compute => "comp"@,
        ShaderType::Fragment => "frag"@,
        ShaderType::Vertex => "vert"@,
    }
}

impl ShaderType {
    pub fn lowercase(&self) -> (res: &'static str)
        ensures
            res@ == spec_shader_lowercase(*self),
    {
        match self {
            ShaderType::Compute => "compute",
            ShaderType::Fragment => "fragment",
            ShaderType::Vertex => "vertex",
        }
    }

    pub fn camelcase(&self) -> (res: &'static str)
        ensures
            res@ == spec_shader_camelcase(*self),
    {
        match self {
            ShaderType::Compute => "Compute",
            ShaderType::Fragment => "Fragment",
            ShaderType::Vertex => "Vertex",
        }
    }

    pub fn extension(&self) -> (res: &'static str)
        ensures
            res@ == spec_shader_extension(*self),
    {
        match self {
            ShaderType::Compute => "comp",
            ShaderType::Fragment => "frag",
            ShaderType::Vertex => "vert",
        }
    }
}

pub open spec fn spec_descriptor_type(b: DescriptorBinding) -> BindingType {
    match b {
        DescriptorBinding::AccelerationStructure(_) => BindingType::AccelerationStructure,
        DescriptorBinding::Image(_) => BindingType::Image,
        DescriptorBinding::InputAttachment(_) => BindingType::InputAttachment,
        DescriptorBinding::StorageBuffer(_) => BindingType::StorageBuffer,
        DescriptorBinding::StorageImage(_) => BindingType::StorageImage,
        DescriptorBinding::Uniform(_) => BindingType::Uniform,
    }
}

pub open spec fn spec_binding_name(b: DescriptorBinding) -> Seq<char> {
    match b {
        DescriptorBinding::AccelerationStructure(x) => x.name@,
        DescriptorBinding::Image(x) => x.name@,
        DescriptorBinding::InputAttachment(x) => x.name@,
        DescriptorBinding::StorageBuffer(x) => x.name@,
        DescriptorBinding::StorageImage(x) => x.name@,
        DescriptorBinding::Uniform(x) => x.name@,
    }
}

pub open spec fn spec_binding_stage(b: DescriptorBinding) -> Seq<char> {
    match b {
        DescriptorBinding::AccelerationStructure(x) => x.stage@,
        DescriptorBinding::Image(x) => x.stage@,
        DescriptorBinding::InputAttachment(x) => x.stage@,
        DescriptorBinding::StorageBuffer(x) => x.stage@,
        DescriptorBinding::StorageImage(x) => x.stage@,
        DescriptorBinding::Uniform(x) => x.stage@,
    }
}

/// Rust type of the value bound to a descriptor in generated code.
pub open spec fn spec_binding_value_type(b: DescriptorBinding) -> Seq<char> {
    match b {
        DescriptorBinding::AccelerationStructure(_) => "&Option<RaytraceResources>"@,
        DescriptorBinding::Image(_) => "vk::ImageView"@,
        DescriptorBinding::InputAttachment(_) => "vk::ImageView"@,
        DescriptorBinding::StorageImage(_) => "vk::ImageView"@,
        DescriptorBinding::StorageBuffer(x) => "&StorageBuffer<"@ + x.typ@ + ">"@,
        DescriptorBinding::Uniform(x) => "&UniformBuffer<"@ + x.typ@ + ">"@,
    }
}

impl DescriptorBinding {
    pub fn descriptor_type(&self) -> (res: BindingType)
        ensures
            res == spec_descriptor_type(*self),
    {
        match self {
            DescriptorBinding::AccelerationStructure(_) => BindingType::AccelerationStructure,
            DescriptorBinding::Image(_) => BindingType::Image,
            DescriptorBinding::InputAttachment(_) => BindingType::InputAttachment,
            DescriptorBinding::StorageBuffer(_) => BindingType::StorageBuffer,
            DescriptorBinding::StorageImage(_) => BindingType::StorageImage,
            DescriptorBinding::Uniform(_) => BindingType::Uniform,
        }
    }

    pub fn name(&self) -> (res: &str)
        ensures
            res@ == spec_binding_name(*self),
    {
        match self {
            DescriptorBinding::AccelerationStructure(as_) => as_.name.as_str(),
            DescriptorBinding::Image(image) => image.name.as_str(),
            DescriptorBinding::InputAttachment(input) => input.name.as_str(),
            DescriptorBinding::StorageBuffer(storage) => storage.name.as_str(),
            DescriptorBinding::StorageImage(image) => image.name.as_str(),
            DescriptorBinding::Uniform(uniform) => uniform.name.as_str(),
        }
    }

    pub fn stage(&self) -> (res: &str)
        ensures
            res@ == spec_binding_stage(*self),
    {
        match self {
            DescriptorBinding::AccelerationStructure(as_) => as_.stage.as_str(),
            DescriptorBinding::Image(image) => image.stage.as_str(),
            DescriptorBinding::InputAttachment(input) => input.stage.as_str(),
            DescriptorBinding::StorageBuffer(storage) => storage.stage.as_str(),
            DescriptorBinding::StorageImage(image) => image.stage.as_str(),
            DescriptorBinding::Uniform(uniform) => uniform.stage.as_str(),
        }
    }

    pub fn value_type(&self) -> (res: String)
        ensures
            res@ == spec_binding_value_type(*self),
    {
        match self {
            DescriptorBinding::AccelerationStructure(_) => String::from_str(
                "&Option<RaytraceResources>",
            ),
            DescriptorBinding::Image(_) | DescriptorBinding::InputAttachment(_)
            | DescriptorBinding::StorageImage(_) => String::from_str("vk::ImageView"),
            DescriptorBinding::StorageBuffer(storage) => {
                let mut res = String::from_str("&StorageBuffer<");
                res.append(storage.typ.as_str());
                res.append(">");
                res
            },
            DescriptorBinding::Uniform(uniform) => {
                let mut res = String::from_str("&UniformBuffer<");
                res.append(uniform.typ.as_str());
                res.append(">");
                res
            },
        }
    }
}

/// Size in bytes of a vertex attribute of the given format; `None` for formats the generator
/// does not know.
pub open spec fn spec_attribute_size(format: Seq<char>) -> Option<nat> {
    if format == "R16_UINT"@ {
        Some(2)
    } else if format == "R32_SFLOAT"@ {
        Some(4)
    } else if format == "R32G32B32_SFLOAT"@ {
        Some(12)
    } else if format == "R32G32B32A32_SFLOAT"@ {
        Some(16)
    } else {
        None
    }
}

/// Size in bytes of a vertex attribute.
pub fn attribute_size(attribute: &VertexAttribute) -> (res: usize)
    requires
        spec_attribute_size(attribute.format@) is Some,
    ensures
        spec_attribute_size(attribute.format@) == Some(res as nat),
{
    let f = attribute.format.as_str();
    if str_eq(f, "R16_UINT") {
        2
    } else if str_eq(f, "R32_SFLOAT") {
        4
    } else if str_eq(f, "R32G32B32_SFLOAT") {
        12
    } else {
        16
    }
}

} // verus!
