use vstd::prelude::*;
use crate::voxel::MeshingAlgorithmKind;

verus! {

/// A setting with a fixed list of choices, each with a label, shown as a combo box.
pub trait EnumInterface: Sized {
    /// The choices offered, in menu order.
    fn values() -> Vec<Self>;

    fn label(&self) -> &'static str;
}

/// Changes requested by the settings menu during a frame.
#[derive(Debug, Clone, Copy, PartialEq, Eq, Structural)]
pub struct InterfaceEvents {
    pub planet_changed: bool,
    pub grass_changed: bool,
    pub rebuild_swapchain: bool,
    pub rebuild_pipelines: bool,
    pub rebuild_voxels: bool,
}

/// How voxels are drawn.
#[derive(Debug, Clone, Copy, PartialEq, Eq, Structural)]
pub enum VoxelRendering {
    Classic,
    MeshShaders,
    RayTracing,
}

/// Features of the GPU the renderer adapts to.
#[derive(Debug, Clone, Copy, PartialEq, Eq, Structural)]
pub struct DeviceSupport {
    pub mesh_shaders: bool,
}

/// Tone mapping operators of the postprocessing pass.
#[derive(Debug, Clone, Copy, PartialEq, Eq, Structural)]
pub enum Tonemapper {
    RgbClamping,
    TumblinRushmeier,
    Schlick,
    Ward,
    Reinhard,
    ReinhardExtended,
    Hable,
    Uchimura,
    NarkowiczAces,
    HillAces,
}

/// Debugging data passed to shaders.
#[derive(Debug, Clone, Copy, PartialEq, Eq, Structural)]
pub struct Debug {
    pub meshlet_id: u32,
}

/// What the swapchain waiter reports once a frame's image is acquired: its index, or none when
/// the swapchain is out of date.
#[derive(Debug, Clone, Copy, PartialEq, Eq, Structural)]
pub struct SwapchainEvent {
    pub image_index: Option<usize>,
}

/// A sample count as a Vulkan `SampleCountFlags` bit set.
#[derive(Debug, Clone, Copy, PartialEq, Eq, Structural)]
pub struct SampleCount {
    pub flags: u32,
}

/// Number of frames the renderer prepares at once.
pub const FRAMES_IN_FLIGHT: usize = 2;

pub open spec fn spec_voxel_rendering_label(v: VoxelRendering) -> Seq<char> {
    match v {
        VoxelRendering::Classic => "Classic"@,
        VoxelRendering::MeshShaders => "Mesh shaders"@,
        VoxelRendering::RayTracing => "Ray tracing"@,
    }
}

pub open spec fn spec_tonemapper_label(t: Tonemapper) -> Seq<char> {
    match t {
        Tonemapper::RgbClamping => "RGB Clamping"@,
        Tonemapper::TumblinRushmeier => "Tumblin Rushmeier"@,
        Tonemapper::Schlick => "Schlick"@,
        Tonemapper::Ward => "Ward"@,
        Tonemapper::Reinhard => "Reinhard"@,
        Tonemapper::ReinhardExtended => "Reinhard extended"@,
        Tonemapper::Hable => "Hable"@,
        Tonemapper::Uchimura => "Uchimura"@,
        Tonemapper::NarkowiczAces => "Narkowicz ACES"@,
        Tonemapper::HillAces => "Hill ACES"@,
    }
}

pub open spec fn spec_meshing_label(k: MeshingAlgorithmKind) -> Seq<char> {
    match k {
        MeshingAlgorithmKind::Culled => "Culled Meshing"@,
        MeshingAlgorithmKind::Greedy => "Greedy Meshing"@,
    }
}

/// Label of a sample count: the largest of 8, 4 and 2 samples it allows, else one sample.
pub open spec fn spec_sample_count_label(flags: u32) -> Seq<char> {
    if flags & 8 == 8 {
        "8x"@
    } else if flags & 4 == 4 {
        "4x"@
    } else if flags & 2 == 2 {
        "2x"@
    } else {
        "1x"@
    }
}

impl EnumInterface for MeshingAlgorithmKind {
    fn values() -> (res: Vec<MeshingAlgorithmKind>)
        ensures
            res@ == seq![MeshingAlgorithmKind::Culled, MeshingAlgorithmKind::Greedy],
    {
        vec![MeshingAlgorithmKind::Culled, MeshingAlgorithmKind::Greedy]
    }

    fn label(&self) -> (res: &'static str)
        ensures
            res@ == spec_meshing_label(*self),
    {
        match self {
            MeshingAlgorithmKind::Culled => "Culled Meshing",
            MeshingAlgorithmKind::Greedy => "Greedy Meshing",
        }
    }
}

impl EnumInterface for VoxelRendering {
    fn values() -> (res: Vec<VoxelRendering>)
        ensures
            res@ == seq![VoxelRendering::Classic, VoxelRendering::MeshShaders, VoxelRendering::RayTracing],
    {
        vec![VoxelRendering::Classic, VoxelRendering::MeshShaders, VoxelRendering::RayTracing]
    }

    fn label(&self) -> (res: &'static str)
        ensures
            res@ == spec_voxel_rendering_label(*self),
    {
        match self {
            VoxelRendering::Classic => "Classic",
            VoxelRendering::MeshShaders => "Mesh shaders",
            VoxelRendering::RayTracing => "Ray tracing",
        }
    }
}

impl EnumInterface for Tonemapper {
    /// The tone mappers offered in the menu.
    fn values() -> (res: Vec<Tonemapper>)
        ensures
            res@ == seq![
                Tonemapper::RgbClamping,
                Tonemapper::Reinhard,
                Tonemapper::NarkowiczAces,
                Tonemapper::HillAces,
            ],
    {
        vec![
            Tonemapper::RgbClamping,
            Tonemapper::Reinhard,
            Tonemapper::NarkowiczAces,
            Tonemapper::HillAces,
        ]
    }

    fn label(&self) -> (res: &'static str)
        ensures
            res@ == spec_tonemapper_label(*self),
    {
        match self {
            Tonemapper::RgbClamping => "RGB Clamping",
            Tonemapper::TumblinRushmeier => "Tumblin Rushmeier",
            Tonemapper::Schlick => "Schlick",
            Tonemapper::Ward => "Ward",
            Tonemapper::Reinhard => "Reinhard",
            Tonemapper::ReinhardExtended => "Reinhard extended",
            Tonemapper::Hable => "Hable",
            Tonemapper::Uchimura => "Uchimura",
            Tonemapper::NarkowiczAces => "Narkowicz ACES",
            Tonemapper::HillAces => "Hill ACES",
        }
    }
}

impl EnumInterface for SampleCount {
    /// The sample counts offered in the menu: 2, 4 and 8 samples.
    fn values() -> (res: Vec<SampleCount>)
        ensures
            res@ == seq![SampleCount { flags: 2 }, SampleCount { flags: 4 }, SampleCount { flags: 8 }],
    {
        vec![SampleCount { flags: 2 }, SampleCount { flags: 4 }, SampleCount { flags: 8 }]
    }

    fn label(&self) -> (res: &'static str)
        ensures
            res@ == spec_sample_count_label(self.flags),
    {
        if self.flags & 8 == 8 {
            "8x"
        } else if self.flags & 4 == 4 {
            "4x"
        } else if self.flags & 2 == 2 {
            "2x"
        } else {
            "1x"
        }
    }
}

/// Index of the frame in flight that follows `index`.
pub fn next_flight_index(index: usize) -> (res: usize)
    requires
        index < FRAMES_IN_FLIGHT,
    ensures
        res == (index + 1) % (FRAMES_IN_FLIGHT as int),
        res < FRAMES_IN_FLIGHT,
{
    (index + 1) % FRAMES_IN_FLIGHT
}

} // verus!
