use vstd::prelude::*;

verus! {

/// The kind of a shader stage named in the renderer description.
#[derive(Debug, PartialEq, Eq, Structural, PartialOrd, Ord, Clone, Copy)]
pub enum ShaderType {
    Compute,
    Mesh,
    Task,
    Vertex,
    Fragment,
}

/// Lowercase name of a shader kind, as used in generated identifiers.
pub open spec fn spec_lowercase(t: ShaderType) -> Seq<char> {
    match t {
        ShaderType::Compute => "compute"@,
        ShaderType::Fragment => "fragment"@,
        ShaderType::Mesh => "mesh"@,
        ShaderType::Task => "task"@,
        ShaderType::Vertex => "vertex"@,
    }
}

/// File extension of a shader kind.
pub open spec fn spec_extension(t: ShaderType) -> Seq<char> {
    match t {
        ShaderType::Compute => "comp"@,
        ShaderType::Fragment => "frag"@,
        ShaderType::Mesh => "mesh"@,
        ShaderType::Task => "task"@,
        ShaderType::Vertex => "vert"@,
    }
}

impl ShaderType {
    pub fn lowercase(&self) -> (res: &'static str)
        ensures
            res@ == spec_lowercase(*self),
    {
        match self {
            ShaderType::Compute => "compute",
            ShaderType::Fragment => "fragment",
            ShaderType::Mesh => "mesh",
            ShaderType::Task => "task",
            ShaderType::Vertex => "vertex",
        }
    }

    pub fn extension(&self) -> (res: &'static str)
        ensures
            res@ == spec_extension(*self),
    {
        match self {
            ShaderType::Compute => "comp",
            ShaderType::Fragment => "frag",
            ShaderType::Mesh => "mesh",
            ShaderType::Task => "task",
            ShaderType::Vertex => "vert",
        }
    }

    pub fn requires_mesh_shaders(&self) -> (res: bool)
        ensures
            res == (*self == ShaderType::Mesh || *self == ShaderType::Task),
    {
        matches!(self, ShaderType::Mesh | ShaderType::Task)
    }
}

} // verus!
