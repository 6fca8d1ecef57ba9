use vstd::prelude::*;
use crate::shader_type::ShaderType;
use crate::text::{ends_with, strip_suffix};

verus! {

/// Description of the renderer: samplers, the descriptor set, render passes with their
/// pipelines, compute shaders and specialization constants.
#[derive(Debug)]
pub struct Renderer {
    pub samplers: Vec<Sampler>,
    pub descriptor_set: DescriptorSet,
    pub passes: Vec<Pass>,
    pub computes: Vec<Compute>,
    pub specializations: Vec<Specialization>,
}

#[derive(Debug)]
pub struct Sampler {
    pub name: String,
    pub filter: String,
    pub address_mode: String,
    pub unnormalized_coordinates: bool,
}

/// A descriptor set: its name, how many sets its pool holds per frame in flight, and its
/// bindings.
#[derive(Debug)]
pub struct DescriptorSet {
    pub name: String,
    pub pool_size: usize,
    pub bindings: Vec<DescriptorBinding>,
}

#[derive(Debug)]
pub enum DescriptorBinding {
    AccelerationStructure(AccelerationStructureBinding),
    Image(ImageBinding),
    InputAttachment(InputAttachmentBinding),
    StorageBuffer(StorageBufferBinding),
    StorageImage(StorageImageBinding),
    Uniform(UniformBinding),
}

#[derive(Debug)]
pub struct AccelerationStructureBinding {
    pub name: String,
    pub stage: String,
}

#[derive(Debug)]
pub struct ImageBinding {
    pub name: String,
    pub stage: String,
    pub sampler: String,
    pub layout: String,
}

#[derive(Debug)]
pub struct InputAttachmentBinding {
    pub name: String,
    pub stage: String,
}

#[derive(Debug)]
pub struct StorageBufferBinding {
    pub name: String,
    pub stage: String,
    pub typ: String,
}

#[derive(Debug)]
pub struct StorageImageBinding {
    pub name: String,
    pub stage: String,
}

#[derive(Debug)]
pub struct UniformBinding {
    pub name: String,
    pub stage: String,
    pub typ: String,
}

/// A render pass: its pipelines, and the subpasses with their attachments.
#[derive(Debug)]
pub struct Pass {
    pub name: String,
    pub debug_name: String,
    pub debug_color: SdrColor,
    pub msaa: bool,
    pub pipelines: Vec<Pipeline>,
    pub subpasses: Vec<Subpass>,
    pub dependencies: Vec<Dependency>,
}

/// One side of a dependency between subpasses: the subpass, and the pipeline stages and memory
/// accesses (Vulkan flag names) that are ordered.
#[derive(Debug)]
pub struct DependencyEnd {
    pub subpass: String,
    pub stage_mask: String,
    pub access_mask: String,
}

/// An execution and memory dependency from one subpass to another.
#[derive(Debug)]
pub struct Dependency {
    pub src: DependencyEnd,
    pub dst: DependencyEnd,
    pub by_region: bool,
}

/// A subpass: the color attachments it writes, its optional depth attachment, and the names of
/// the attachments it reads as input.
#[derive(Debug)]
pub struct Subpass {
    pub name: String,
    pub color_attachments: Vec<Attachment>,
    pub depth_attachment: Option<Attachment>,
    pub input_attachment: Vec<String>,
    pub msaa: bool,
}

/// An image attachment of a subpass.
#[derive(Debug)]
pub struct Attachment {
    pub name: String,
    pub swapchain: bool,
    pub store: bool,
    pub format: Option<String>,
    pub layout: String,
    pub layout_final: Option<String>,
    /// Whether the attachment is cleared when the pass loads it.
    pub clear: bool,
}

#[derive(Debug, Clone, Copy)]
pub struct SdrColor {
    pub red: u8,
    pub green: u8,
    pub blue: u8,
}

/// A graphics pipeline; shader paths default to the pipeline's name.
#[derive(Debug)]
pub struct Pipeline {
    pub name: String,
    pub task_shaders: bool,
    pub mesh_shaders: bool,
    pub vertex_shader: Option<String>,
    pub vertex_bindings: Vec<VertexBinding>,
    pub task_shader: Option<String>,
    pub mesh_shader: Option<String>,
    pub fragment_shader: Option<String>,
    pub fragment_specialization: Option<Vec<String>>,
    pub polygon_mode: String,
    pub cull_mode: String,
    /// Names of the descriptor sets the pipeline's layout binds.
    pub descriptor_sets: Vec<String>,
}

#[derive(Debug)]
pub struct VertexBinding {
    pub rate: String,
    pub attributes: Vec<VertexAttribute>,
}

#[derive(Debug)]
pub struct VertexAttribute {
    pub _name: String,
    pub format: String,
    pub unused: bool,
}

#[derive(Debug)]
pub struct Compute {
    pub name: String,
}

#[derive(Debug)]
pub struct Specialization {
    pub name: String,
    pub ty: String,
    pub shared: bool,
}

/// The pipelines of all passes, pass after pass.
pub open spec fn spec_pipelines(passes: Seq<Pass>) -> Seq<Pipeline>
    decreases passes.len(),
{
    if passes.len() == 0 {
        seq![]
    } else {
        spec_pipelines(passes.drop_last()) + passes.last().pipelines@
    }
}

/// Name of the shader a pipeline uses for one stage: the configured path without the stage's
/// extension, or the pipeline's name when no path is configured.
pub open spec fn shader_name(path: Option<String>, extension: Seq<char>, pipeline: Seq<char>) -> Seq<
    char,
> {
    match path {
        Some(p) => p@.subrange(0, p@.len() - extension.len()),
        None => pipeline,
    }
}

/// Whether a configured shader path carries the stage's extension.
pub open spec fn path_ok(path: Option<String>, extension: Seq<char>) -> bool {
    match path {
        Some(p) => ends_with(p@, extension),
        None => true,
    }
}

/// The shaders a pipeline is built from, in the order task, mesh, vertex, fragment: a task
/// shader when task shaders are enabled, a mesh shader when mesh shaders are enabled, a vertex
/// shader otherwise, and always a fragment shader.
pub open spec fn pipeline_shaders(p: Pipeline) -> Seq<(Seq<char>, ShaderType)> {
    let task = if p.task_shaders {
        seq![(shader_name(p.task_shader, ".task"@, p.name@), ShaderType::Task)]
    } else {
        seq![]
    };
    let mesh = if p.mesh_shaders {
        seq![(shader_name(p.mesh_shader, ".mesh"@, p.name@), ShaderType::Mesh)]
    } else {
        seq![]
    };
    let vertex = if !p.mesh_shaders {
        seq![(shader_name(p.vertex_shader, ".vert"@, p.name@), ShaderType::Vertex)]
    } else {
        seq![]
    };
    task + mesh + vertex + seq![(shader_name(p.fragment_shader, ".frag"@, p.name@), ShaderType::Fragment)]
}

/// Law: a pipeline's shader list names each stage by its configured path with the stage's
/// extension dropped, or by the pipeline's name when no path is configured: with task shaders the
/// list starts with the task shader, followed by the mesh shader with mesh shaders (the vertex
/// shader otherwise), and ends with the fragment shader.
pub proof fn law_configured_paths_name_the_shaders(p: Pipeline)
    requires
        pipeline_paths_ok(p),
    ensures
        ({
            let l = pipeline_shaders(p);
            let t = if p.task_shaders { 1int } else { 0int };
            &&& l.len() == t + 2
            &&& p.task_shaders ==> l[0] == (match p.task_shader {
                Some(path) => path@.take(path@.len() - 5),
                None => p.name@,
            }, ShaderType::Task)
            &&& p.mesh_shaders ==> l[t] == (match p.mesh_shader {
                Some(path) => path@.take(path@.len() - 5),
                None => p.name@,
            }, ShaderType::Mesh)
            &&& !p.mesh_shaders ==> l[t] == (match p.vertex_shader {
                Some(path) => path@.take(path@.len() - 5),
                None => p.name@,
            }, ShaderType::Vertex)
            &&& l[t + 1] == (match p.fragment_shader {
                Some(path) => path@.take(path@.len() - 5),
                None => p.name@,
            }, ShaderType::Fragment)
        }),
{
    reveal_strlit(".task");
    reveal_strlit(".mesh");
    reveal_strlit(".vert");
    reveal_strlit(".frag");
    let l = pipeline_shaders(p);
    match p.task_shader {
        Some(path) => {
            assert(path@.subrange(0, path@.len() - 5) =~= path@.take(path@.len() - 5));
        },
        None => {},
    }
    match p.mesh_shader {
        Some(path) => {
            assert(path@.subrange(0, path@.len() - 5) =~= path@.take(path@.len() - 5));
        },
        None => {},
    }
    match p.vertex_shader {
        Some(path) => {
            assert(path@.subrange(0, path@.len() - 5) =~= path@.take(path@.len() - 5));
        },
        None => {},
    }
    match p.fragment_shader {
        Some(path) => {
            assert(path@.subrange(0, path@.len() - 5) =~= path@.take(path@.len() - 5));
        },
        None => {},
    }
}

/// Whether every shader path a pipeline uses carries its stage's extension.
pub open spec fn pipeline_paths_ok(p: Pipeline) -> bool {
    &&& p.task_shaders ==> path_ok(p.task_shader, ".task"@)
    &&& p.mesh_shaders ==> path_ok(p.mesh_shader, ".mesh"@)
    &&& !p.mesh_shaders ==> path_ok(p.vertex_shader, ".vert"@)
    &&& path_ok(p.fragment_shader, ".frag"@)
}

/// The shaders of all given pipelines, pipeline after pipeline.
pub open spec fn spec_shaders(pipelines: Seq<Pipeline>) -> Seq<(Seq<char>, ShaderType)>
    decreases pipelines.len(),
{
    if pipelines.len() == 0 {
        seq![]
    } else {
        spec_shaders(pipelines.drop_last()) + pipeline_shaders(pipelines.last())
    }
}

pub open spec fn view_shader_list(v: Seq<(&str, ShaderType)>) -> Seq<(Seq<char>, ShaderType)> {
    v.map_values(|p: (&str, ShaderType)| (p.0@, p.1))
}

fn shader_of<'a>(path: &'a Option<String>, extension: &str, pipeline: &'a str) -> (res: &'a str)
    requires
        path_ok(*path, extension@),
    ensures
        res@ == shader_name(*path, extension@, pipeline@),
{
    match path {
        Some(p) => {
            let stripped = strip_suffix(p.as_str(), extension);
            match stripped {
                Some(s) => s,
                None => p.as_str(),
            }
        },
        None => pipeline,
    }
}

impl Renderer {
    /// The pipelines of all passes, pass after pass.
    pub fn pipelines(&self) -> (res: Vec<&Pipeline>)
        ensures
            res@.map_values(|p: &Pipeline| *p) == spec_pipelines(self.passes@),
    {
        let mut res: Vec<&Pipeline> = Vec::new();
        let mut i: usize = 0;
        while i < self.passes.len()
            invariant
                i <= self.passes@.len(),
                res@.map_values(|p: &Pipeline| *p) == spec_pipelines(self.passes@.take(i as int)),
            decreases self.passes@.len() - i,
        {
            let pass = &self.passes[i];
            let ghost start = res@.map_values(|p: &Pipeline| *p);
            let mut j: usize = 0;
            while j < pass.pipelines.len()
                invariant
                    j <= pass.pipelines@.len(),
                    res@.map_values(|p: &Pipeline| *p) == start + pass.pipelines@.take(j as int),
                decreases pass.pipelines@.len() - j,
            {
                let ghost before = res@;
                res.push(&pass.pipelines[j]);
                assert(res@ == before.push(&pass.pipelines@[j as int]));
                assert(pass.pipelines@.take((j + 1) as int) =~= pass.pipelines@.take(j as int).push(
                    pass.pipelines@[j as int],
                ));
                assert(res@.map_values(|p: &Pipeline| *p) =~= before.map_values(|p: &Pipeline| *p).push(
                    pass.pipelines@[j as int],
                ));
                j = j + 1;
            }
            assert(pass.pipelines@.take(pass.pipelines@.len() as int) =~= pass.pipelines@);
            assert(self.passes@.take((i + 1) as int).drop_last() =~= self.passes@.take(i as int));
            i = i + 1;
        }
        assert(self.passes@.take(self.passes@.len() as int) =~= self.passes@);
        res
    }

    /// Whether every shader path configured for a used stage carries that stage's extension.
    pub open spec fn spec_shader_paths_valid(&self) -> bool {
        forall|i: int|
            0 <= i < spec_pipelines(self.passes@).len() ==> #[trigger] pipeline_paths_ok(
                spec_pipelines(self.passes@)[i],
            )
    }

    /// Checks that every configured shader path has its stage's extension, the condition under
    /// which [`Renderer::shaders`] succeeds.
    pub fn shader_paths_valid(&self) -> (res: bool)
        ensures
            res == self.spec_shader_paths_valid(),
    {
        let pipelines = self.pipelines();
        let ghost all = spec_pipelines(self.passes@);
        assert(pipelines@.len() == all.len());
        let mut i: usize = 0;
        while i < pipelines.len()
            invariant
                pipelines@.map_values(|p: &Pipeline| *p) == all,
                all == spec_pipelines(self.passes@),
                i <= pipelines@.len(),
                forall|j: int| 0 <= j < i ==> #[trigger] pipeline_paths_ok(all[j]),
            decreases pipelines@.len() - i,
        {
            let p = pipelines[i];
            assert(*p == all[i as int]);
            let ok = (!p.task_shaders || path_valid(&p.task_shader, ".task")) && (p.mesh_shaders
                || path_valid(&p.vertex_shader, ".vert")) && (!p.mesh_shaders || path_valid(
                &p.mesh_shader,
                ".mesh",
            )) && path_valid(&p.fragment_shader, ".frag");
            if !ok {
                assert(!pipeline_paths_ok(all[i as int]));
                return false;
            }
            i = i + 1;
        }
        true
    }

    /// Every shader to compile: for each pipeline, its task, mesh, vertex and fragment shaders
    /// as [`pipeline_shaders`] lists them.
    pub fn shaders(&self) -> (res: Vec<(&str, ShaderType)>)
        requires
            self.spec_shader_paths_valid(),
        ensures
            view_shader_list(res@) == spec_shaders(spec_pipelines(self.passes@)),
    {
        let pipelines = self.pipelines();
        let ghost all = spec_pipelines(self.passes@);
        let mut res: Vec<(&str, ShaderType)> = Vec::new();
        let mut i: usize = 0;
        while i < pipelines.len()
            invariant
                pipelines@.map_values(|p: &Pipeline| *p) == all,
                all == spec_pipelines(self.passes@),
                self.spec_shader_paths_valid(),
                i <= pipelines@.len(),
                view_shader_list(res@) == spec_shaders(all.take(i as int)),
            decreases pipelines@.len() - i,
        {
            let p = pipelines[i];
            assert(*p == all[i as int]);
            assert(pipeline_paths_ok(all[i as int]));
            let ghost start = res@;
            if p.task_shaders {
                res.push((shader_of(&p.task_shader, ".task", p.name.as_str()), ShaderType::Task));
            }
            if p.mesh_shaders {
                res.push((shader_of(&p.mesh_shader, ".mesh", p.name.as_str()), ShaderType::Mesh));
            }
            if !p.mesh_shaders {
                res.push(
                    (shader_of(&p.vertex_shader, ".vert", p.name.as_str()), ShaderType::Vertex),
                );
            }
            res.push(
                (shader_of(&p.fragment_shader, ".frag", p.name.as_str()), ShaderType::Fragment),
            );
            assert(all.take((i + 1) as int).drop_last() =~= all.take(i as int));
            assert(view_shader_list(res@) =~= view_shader_list(start) + pipeline_shaders(*p));
            i = i + 1;
        }
        assert(all.take(all.len() as int) =~= all);
        res
    }
}

fn path_valid(path: &Option<String>, extension: &str) -> (res: bool)
    ensures
        res == path_ok(*path, extension@),
{
    match path {
        Some(p) => strip_suffix(p.as_str(), extension).is_some(),
        None => true,
    }
}

} // verus!
