use vstd::prelude::*;
use crate::text::str_eq;
use crate::shader_type::{spec_extension, ShaderType};

verus! {

/// A graphics pipeline found under `shaders/`: its name and how geometry reaches the
/// rasterizer.
#[derive(Debug)]
pub struct Pipeline {
    pub name: String,
    pub pre_rasterization: PreRasterization,
}

/// The shader stages before rasterization: a vertex shader, or a mesh shader with an optional
/// task shader.
#[derive(Debug, Clone, Copy, PartialEq, Eq, Structural)]
pub enum PreRasterization {
    Vertex,
    Mesh { has_task_shader: bool },
}

/// One shader of a pipeline.
#[derive(Debug, Clone, Copy)]
pub struct Shader<'a> {
    pub stage: ShaderStage,
    pub pipeline_name: &'a str,
}

#[derive(Debug, Clone, Copy, PartialEq, Eq, Structural)]
pub enum ShaderStage {
    Vertex,
    Task,
    Mesh,
    Fragment,
}

/// The stages of a pipeline's shaders, in the order vertex, task, mesh, fragment.
pub open spec fn spec_stages(p: PreRasterization) -> Seq<ShaderStage> {
    match p {
        PreRasterization::Vertex => seq![ShaderStage::Vertex, ShaderStage::Fragment],
        PreRasterization::Mesh { has_task_shader } => if has_task_shader {
            seq![ShaderStage::Task, ShaderStage::Mesh, ShaderStage::Fragment]
        } else {
            seq![ShaderStage::Mesh, ShaderStage::Fragment]
        },
    }
}

/// Name of the GLSL source file of a stage.
pub open spec fn spec_file_name(s: ShaderStage) -> Seq<char> {
    match s {
        ShaderStage::Vertex => "vertex.glsl"@,
        ShaderStage::Task => "task.glsl"@,
        ShaderStage::Mesh => "mesh.glsl"@,
        ShaderStage::Fragment => "fragment.glsl"@,
    }
}

/// Stage name passed to `glslangValidator -S`.
pub open spec fn spec_validator_stage(s: ShaderStage) -> Seq<char> {
    match s {
        ShaderStage::Vertex => "vert"@,
        ShaderStage::Task => "task"@,
        ShaderStage::Mesh => "mesh"@,
        ShaderStage::Fragment => "frag"@,
    }
}

/// Law: the stage `glslangValidator` is told is the first four letters of the stage's name, which
/// is the file extension of the same kind of shader; different stages get different names.
pub proof fn law_validator_stage_names_the_stage(s: ShaderStage, s2: ShaderStage)
    ensures
        spec_validator_stage(s) == spec_stage_name(s).take(4),
        spec_validator_stage(s) == spec_extension(
            match s {
                ShaderStage::Vertex => ShaderType::Vertex,
                ShaderStage::Task => ShaderType::Task,
                ShaderStage::Mesh => ShaderType::Mesh,
                ShaderStage::Fragment => ShaderType::Fragment,
            },
        ),
        s != s2 ==> spec_validator_stage(s) != spec_validator_stage(s2),
{
    reveal_strlit("vert");
    reveal_strlit("task");
    reveal_strlit("mesh");
    reveal_strlit("frag");
    reveal_strlit("vertex");
    reveal_strlit("fragment");
    assert("vertex"@.take(4) =~= "vert"@);
    assert("task"@.take(4) =~= "task"@);
    assert("mesh"@.take(4) =~= "mesh"@);
    assert("fragment"@.take(4) =~= "frag"@);
    if s != s2 {
        let a = spec_validator_stage(s);
        let b = spec_validator_stage(s2);
        if a == b {
            assert(a[0] == b[0]);
            assert(a[1] == b[1]);
        }
    }
}

/// Name of the stage in ash's `ShaderStageFlags`.
pub open spec fn spec_ash_uppercase(s: ShaderStage) -> Seq<char> {
    match s {
        ShaderStage::Vertex => "VERTEX"@,
        ShaderStage::Task => "TASK_EXT"@,
        ShaderStage::Mesh => "MESH_EXT"@,
        ShaderStage::Fragment => "FRAGMENT"@,
    }
}

/// Lowercase name of the stage, as printed.
pub open spec fn spec_stage_name(s: ShaderStage) -> Seq<char> {
    match s {
        ShaderStage::Vertex => "vertex"@,
        ShaderStage::Task => "task"@,
        ShaderStage::Mesh => "mesh"@,
        ShaderStage::Fragment => "fragment"@,
    }
}

impl Pipeline {
    pub fn name(&self) -> (res: &str)
        ensures
            res@ == self.name@,
    {
        self.name.as_str()
    }

    /// The pipeline's shaders: vertex, task, mesh and fragment, those the pipeline has.
    pub fn shaders(&self) -> (res: Vec<Shader<'_>>)
        ensures
            res@.len() == spec_stages(self.pre_rasterization).len(),
            forall|i: int|
                0 <= i < res@.len() ==> (#[trigger] res@[i]).stage == spec_stages(
                    self.pre_rasterization,
                )[i] && res@[i].pipeline_name@ == self.name@,
    {
        let mut res: Vec<Shader<'_>> = Vec::new();
        if let Some(s) = self.vertex_shader() {
            res.push(s);
        }
        if let Some(s) = self.task_shader() {
            res.push(s);
        }
        if let Some(s) = self.mesh_shader() {
            res.push(s);
        }
        res.push(self.fragment_shader());
        res
    }

    pub fn vertex_shader(&self) -> (res: Option<Shader<'_>>)
        ensures
            match res {
                Some(s) => self.pre_rasterization == PreRasterization::Vertex && s.stage
                    == ShaderStage::Vertex && s.pipeline_name@ == self.name@,
                None => self.pre_rasterization != PreRasterization::Vertex,
            },
    {
        match self.pre_rasterization {
            PreRasterization::Vertex => Some(
                Shader { stage: ShaderStage::Vertex, pipeline_name: self.name.as_str() },
            ),
            _ => None,
        }
    }

    pub fn task_shader(&self) -> (res: Option<Shader<'_>>)
        ensures
            match res {
                Some(s) => self.pre_rasterization == (PreRasterization::Mesh {
                    has_task_shader: true,
                }) && s.stage == ShaderStage::Task && s.pipeline_name@ == self.name@,
                None => self.pre_rasterization != (PreRasterization::Mesh {
                    has_task_shader: true,
                }),
            },
    {
        match self.pre_rasterization {
            PreRasterization::Mesh { has_task_shader: true } => Some(
                Shader { stage: ShaderStage::Task, pipeline_name: self.name.as_str() },
            ),
            _ => None,
        }
    }

    pub fn mesh_shader(&self) -> (res: Option<Shader<'_>>)
        ensures
            match res {
                Some(s) => self.pre_rasterization is Mesh && s.stage == ShaderStage::Mesh
                    && s.pipeline_name@ == self.name@,
                None => self.pre_rasterization is Vertex,
            },
    {
        match self.pre_rasterization {
            PreRasterization::Mesh { .. } => Some(
                Shader { stage: ShaderStage::Mesh, pipeline_name: self.name.as_str() },
            ),
            PreRasterization::Vertex => None,
        }
    }

    pub fn fragment_shader(&self) -> (res: Shader<'_>)
        ensures
            res.stage == ShaderStage::Fragment,
            res.pipeline_name@ == self.name@,
    {
        Shader { stage: ShaderStage::Fragment, pipeline_name: self.name.as_str() }
    }
}

/// Law: every pipeline has exactly one fragment shader, listed last, and exactly one shader
/// that feeds the rasterizer: a vertex shader for vertex pipelines, a mesh shader otherwise.
pub proof fn law_pipeline_stages(p: PreRasterization)
    ensures
        spec_stages(p).last() == ShaderStage::Fragment,
        forall|i: int|
            0 <= i < spec_stages(p).len() - 1 ==> #[trigger] spec_stages(p)[i]
                != ShaderStage::Fragment,
        (p is Vertex) <==> spec_stages(p).contains(ShaderStage::Vertex),
        (p is Mesh) <==> spec_stages(p).contains(ShaderStage::Mesh),
{
    match p {
        PreRasterization::Vertex => {
            assert(spec_stages(p)[0] == ShaderStage::Vertex);
        },
        PreRasterization::Mesh { has_task_shader } => {
            if has_task_shader {
                assert(spec_stages(p)[1] == ShaderStage::Mesh);
            } else {
                assert(spec_stages(p)[0] == ShaderStage::Mesh);
            }
        },
    }
}

impl<'a> Shader<'a> {
    pub fn pipeline_name(&self) -> (res: &'a str)
        ensures
            res@ == self.pipeline_name@,
    {
        self.pipeline_name
    }

    pub fn stage(&self) -> (res: ShaderStage)
        ensures
            res == self.stage,
    {
        self.stage
    }

    /// The components of the path of the shader's GLSL source, `shaders/<pipeline>/<stage>.glsl`,
    /// to be joined as a file system path.
    pub fn glsl_path(&self) -> (res: Vec<&'a str>)
        ensures
            res@.len() == 3,
            res@[0]@ == "shaders"@,
            res@[1]@ == self.pipeline_name@,
            res@[2]@ == spec_file_name(self.stage),
    {
        let file_name: &'static str = match self.stage {
            ShaderStage::Vertex => "vertex.glsl",
            ShaderStage::Task => "task.glsl",
            ShaderStage::Mesh => "mesh.glsl",
            ShaderStage::Fragment => "fragment.glsl",
        };
        let mut res: Vec<&'a str> = Vec::new();
        res.push("shaders");
        res.push(self.pipeline_name);
        res.push(file_name);
        res
    }

    pub fn glslang_validator_stage(&self) -> (res: &'static str)
        ensures
            res@ == spec_validator_stage(self.stage),
    {
        match self.stage {
            ShaderStage::Vertex => "vert",
            ShaderStage::Task => "task",
            ShaderStage::Mesh => "mesh",
            ShaderStage::Fragment => "frag",
        }
    }
}

impl ShaderStage {
    pub fn ash_uppercase(&self) -> (res: &'static str)
        ensures
            res@ == spec_ash_uppercase(*self),
    {
        match self {
            ShaderStage::Vertex => "VERTEX",
            ShaderStage::Task => "TASK_EXT",
            ShaderStage::Mesh => "MESH_EXT",
            ShaderStage::Fragment => "FRAGMENT",
        }
    }

    /// Lowercase name of the stage, as it is printed.
    pub fn name(&self) -> (res: &'static str)
        ensures
            res@ == spec_stage_name(*self),
    {
        match self {
            ShaderStage::Vertex => "vertex",
            ShaderStage::Task => "task",
            ShaderStage::Mesh => "mesh",
            ShaderStage::Fragment => "fragment",
        }
    }
}

/// How the shader files found in one pipeline directory determine the pipeline: a vertex
/// shader alone, or a mesh shader with an optional task shader; a fragment shader is required.
/// `None` for a directory that defines no valid pipeline.
pub open spec fn spec_classify(files: Seq<Seq<char>>) -> Option<PreRasterization> {
    let known = forall|i: int|
        0 <= i < files.len() ==> #[trigger] files[i] == "vertex.glsl"@ || files[i]
            == "task.glsl"@ || files[i] == "mesh.glsl"@ || files[i] == "fragment.glsl"@;
    let vertex = files.contains("vertex.glsl"@);
    let task = files.contains("task.glsl"@);
    let mesh = files.contains("mesh.glsl"@);
    let fragment = files.contains("fragment.glsl"@);
    if !known {
        None
    } else if vertex && !task && !mesh {
        if fragment {
            Some(PreRasterization::Vertex)
        } else {
            None
        }
    } else if !vertex && mesh {
        if fragment {
            Some(PreRasterization::Mesh { has_task_shader: task })
        } else {
            None
        }
    } else {
        None
    }
}

proof fn lemma_file_names_distinct()
    ensures
        "vertex.glsl"@ != "task.glsl"@,
        "vertex.glsl"@ != "mesh.glsl"@,
        "vertex.glsl"@ != "fragment.glsl"@,
        "task.glsl"@ != "mesh.glsl"@,
        "task.glsl"@ != "fragment.glsl"@,
        "mesh.glsl"@ != "fragment.glsl"@,
{
    reveal_strlit("vertex.glsl");
    reveal_strlit("task.glsl");
    reveal_strlit("mesh.glsl");
    reveal_strlit("fragment.glsl");
    assert("vertex.glsl"@[0] != "task.glsl"@[0]);
    assert("vertex.glsl"@[0] != "mesh.glsl"@[0]);
    assert("vertex.glsl"@[0] != "fragment.glsl"@[0]);
    assert("task.glsl"@[0] != "mesh.glsl"@[0]);
    assert("task.glsl"@[0] != "fragment.glsl"@[0]);
    assert("mesh.glsl"@[0] != "fragment.glsl"@[0]);
}

pub open spec fn names_view(v: Seq<String>) -> Seq<Seq<char>> {
    v.map_values(|s: String| s@)
}

/// Builds the pipeline of a directory named `name` holding the files `files`; `None` where the
/// files do not make a pipeline.
pub fn classify_pipeline(name: String, files: &Vec<String>) -> (res: Option<Pipeline>)
    ensures
        match res {
            Some(p) => spec_classify(names_view(files@)) == Some(p.pre_rasterization) && p.name
                == name,
            None => spec_classify(names_view(files@)) is None,
        },
{
    let ghost fs = names_view(files@);
    let mut has_vertex_shader = false;
    let mut has_task_shader = false;
    let mut has_mesh_shader = false;
    let mut has_fragment_shader = false;
    let mut i: usize = 0;
    while i < files.len()
        invariant
            fs == names_view(files@),
            i <= files@.len(),
            forall|j: int|
                0 <= j < i ==> #[trigger] fs[j] == "vertex.glsl"@ || fs[j] == "task.glsl"@ || fs[j]
                    == "mesh.glsl"@ || fs[j] == "fragment.glsl"@,
            has_vertex_shader == fs.take(i as int).contains("vertex.glsl"@),
            has_task_shader == fs.take(i as int).contains("task.glsl"@),
            has_mesh_shader == fs.take(i as int).contains("mesh.glsl"@),
            has_fragment_shader == fs.take(i as int).contains("fragment.glsl"@),
        decreases files@.len() - i,
    {
        let f = files[i].as_str();
        assert(fs[i as int] == f@);
        assert(fs.take((i + 1) as int) =~= fs.take(i as int).push(f@));
        proof {
            reveal_strlit("vertex.glsl");
            reveal_strlit("task.glsl");
            reveal_strlit("mesh.glsl");
            reveal_strlit("fragment.glsl");
            lemma_file_names_distinct();
            assert forall|x: Seq<char>| #[trigger]
                fs.take((i + 1) as int).contains(x) == (fs.take(i as int).contains(x) || x == f@) by {
                if fs.take((i + 1) as int).contains(x) {
                    let k = choose|k: int| 0 <= k < i + 1 && #[trigger] fs.take((i + 1) as int)[k] == x;
                    if k < i {
                        assert(fs.take(i as int)[k] == x);
                    }
                }
                if fs.take(i as int).contains(x) {
                    let k = choose|k: int| 0 <= k < i && #[trigger] fs.take(i as int)[k] == x;
                    assert(fs.take((i + 1) as int)[k] == x);
                }
                if x == f@ {
                    assert(fs.take((i + 1) as int)[i as int] == x);
                }
            }
        }
        if str_eq(f, "vertex.glsl") {
            has_vertex_shader = true;
        } else if str_eq(f, "task.glsl") {
            has_task_shader = true;
        } else if str_eq(f, "mesh.glsl") {
            has_mesh_shader = true;
        } else if str_eq(f, "fragment.glsl") {
            has_fragment_shader = true;
        } else {
            assert(!(fs[i as int] == "vertex.glsl"@ || fs[i as int] == "task.glsl"@ || fs[i as int]
                == "mesh.glsl"@ || fs[i as int] == "fragment.glsl"@));
            return None;
        }
        i = i + 1;
    }
    assert(fs.take(files@.len() as int) =~= fs);
    let pre_rasterization = if has_vertex_shader && !has_task_shader && !has_mesh_shader {
        PreRasterization::Vertex
    } else if !has_vertex_shader && has_mesh_shader {
        PreRasterization::Mesh { has_task_shader }
    } else {
        return None;
    };
    if !has_fragment_shader {
        return None;
    }
    Some(Pipeline { name, pre_rasterization })
}


/// Law: a directory that makes a pipeline holds exactly the GLSL sources of that pipeline's
/// shaders: each of its shaders has its source file there, and each file there is the source of
/// one of its shaders.
pub proof fn law_pipeline_sources_are_the_files(files: Seq<Seq<char>>)
    ensures
        spec_classify(files) matches Some(p) ==> {
            &&& forall|i: int|
                0 <= i < spec_stages(p).len() ==> files.contains(
                    #[trigger] spec_file_name(spec_stages(p)[i]),
                )
            &&& forall|j: int|
                0 <= j < files.len() ==> exists|i: int|
                    0 <= i < spec_stages(p).len() && #[trigger] files[j] == spec_file_name(
                        spec_stages(p)[i],
                    )
        },
{
    lemma_file_names_distinct();
    if let Some(p) = spec_classify(files) {
        let stages = spec_stages(p);
        assert forall|j: int| 0 <= j < files.len() implies exists|i: int|
            0 <= i < stages.len() && #[trigger] files[j] == spec_file_name(stages[i]) by {
            let f = files[j];
            assert(files.contains(f));
            if f == "vertex.glsl"@ {
                assert(f == spec_file_name(stages[0]));
            } else if f == "fragment.glsl"@ {
                assert(f == spec_file_name(stages[stages.len() - 1]));
            } else if f == "mesh.glsl"@ {
                if p == (PreRasterization::Mesh { has_task_shader: true }) {
                    assert(f == spec_file_name(stages[1]));
                } else {
                    assert(f == spec_file_name(stages[0]));
                }
            } else {
                assert(f == "task.glsl"@);
                assert(f == spec_file_name(stages[0]));
            }
        }
    }
}

} // verus!
