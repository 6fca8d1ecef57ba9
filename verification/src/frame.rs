use vstd::prelude::*;
use crate::settings::{next_flight_index, FRAMES_IN_FLIGHT};

verus! {

/// Which frame the renderer is drawing: the slot of the frame in flight, and how many frames
/// were drawn so far.
#[derive(Debug, Clone, Copy, PartialEq, Eq, Structural)]
pub struct FrameState {
    pub flight_index: usize,
    pub frame_index: usize,
}

/// What acquiring the next swapchain image gave.
#[derive(Debug, Clone, Copy, PartialEq, Eq, Structural)]
pub enum Acquire {
    /// The swapchain no longer matches the window.
    OutOfDate,
    /// The image with this index is ready to be drawn to.
    Image(usize),
}

/// What the renderer does for one frame.
#[derive(Debug, Clone, Copy, PartialEq, Eq, Structural)]
pub enum FrameAction {
    /// Recreate the swapchain and draw nothing this time.
    RecreateSwapchain,
    /// Record, submit and present the frame into this image; `first_render_done` is whether
    /// the very first frames have all completed, which is when every frame in flight has been
    /// used once.
    Draw { image_index: usize, first_render_done: bool },
}

impl FrameState {
    pub open spec fn wf(self) -> bool {
        self.flight_index < FRAMES_IN_FLIGHT
    }

    /// The first frame, in the first slot.
    pub fn new() -> (res: FrameState)
        ensures
            res == (FrameState { flight_index: 0, frame_index: 0 }),
            res.wf(),
    {
        FrameState { flight_index: 0, frame_index: 0 }
    }

    /// Decides a frame from what acquiring the swapchain image gave: an out-of-date swapchain
    /// is recreated and the frame is not counted; otherwise the frame is drawn into the image,
    /// and the next frame uses the next slot in flight.
    pub fn step(&mut self, acquired: Acquire) -> (action: FrameAction)
        requires
            old(self).wf(),
            acquired is Image ==> old(self).frame_index < usize::MAX,
        ensures
            final(self).wf(),
            match acquired {
                Acquire::OutOfDate => action == FrameAction::RecreateSwapchain && *final(self)
                    == *old(self),
                Acquire::Image(i) => action == (FrameAction::Draw {
                    image_index: i,
                    first_render_done: old(self).frame_index == FRAMES_IN_FLIGHT,
                }) && final(self).flight_index == (old(self).flight_index + 1) % (
                FRAMES_IN_FLIGHT as int) && final(self).frame_index == old(self).frame_index + 1,
            },
    {
        match acquired {
            Acquire::OutOfDate => FrameAction::RecreateSwapchain,
            Acquire::Image(image_index) => {
                let first_render_done = self.frame_index == FRAMES_IN_FLIGHT;
                self.flight_index = next_flight_index(self.flight_index);
                self.frame_index = self.frame_index + 1;
                FrameAction::Draw { image_index, first_render_done }
            },
        }
    }
}

/// Law: the slots in flight are used in turn. When the slot is the number of drawn frames modulo
/// `FRAMES_IN_FLIGHT` (as it is from [`FrameState::new`]), it still is after the next drawn frame,
/// whose slot and count [`FrameState::step`] gives.
pub proof fn law_flight_index_follows_frames(flight: int, frame: int)
    requires
        0 <= frame,
        flight == frame % (FRAMES_IN_FLIGHT as int),
    ensures
        (flight + 1) % (FRAMES_IN_FLIGHT as int) == (frame + 1) % (FRAMES_IN_FLIGHT as int),
{
    let n = FRAMES_IN_FLIGHT as int;
    vstd::arithmetic::div_mod::lemma_add_mod_noop(frame, 1, n);
    vstd::arithmetic::div_mod::lemma_small_mod(1, n as nat);
    vstd::arithmetic::div_mod::lemma_mod_twice(flight + 1, n);
}

/// The generation of the voxel configuration: it grows with each configuration change, so that
/// a mesh built under an older configuration can be told apart and discarded.
#[derive(Debug, Clone, Copy, PartialEq, Eq, Structural)]
pub struct ConfigGeneration {
    pub generation: u64,
}

impl ConfigGeneration {
    /// The generation of the first configuration.
    pub fn new() -> (res: ConfigGeneration)
        ensures
            res.generation == 0,
    {
        ConfigGeneration { generation: 0 }
    }

    /// Records a configuration change.
    pub fn bump(&mut self)
        requires
            old(self).generation < u64::MAX,
        ensures
            final(self).generation == old(self).generation + 1,
    {
        self.generation = self.generation + 1;
    }

    /// Whether a mesh whose work started under generation `started` may still be uploaded: only
    /// when the configuration has not changed since.
    pub fn accepts(&self, started: u64) -> (res: bool)
        ensures
            res == (started == self.generation),
    {
        started == self.generation
    }
}

} // verus!
