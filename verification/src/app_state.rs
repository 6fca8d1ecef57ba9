use vstd::prelude::*;
use crate::input::{spec_apply_keyboard, InputState, KeyEvent};
use crate::settings::InterfaceEvents;
use crate::surface::Extent2D;

verus! {

/// A window event, as far as the game reacts to it.
#[derive(Debug)]
pub enum WindowEvent {
    KeyboardInput(KeyEvent),
    Resized(Extent2D),
    CloseRequested,
    Other,
}

/// What the event loop does after a window event.
#[derive(Debug, Clone, Copy, PartialEq, Eq, Structural)]
pub enum WindowAction {
    Nothing,
    RecreateSwapchain(Extent2D),
    Exit,
}

/// What the renderer and the voxel workers redo after the settings menu changed something.
#[derive(Debug, Clone, Copy, PartialEq, Eq, Structural)]
pub struct FrameActions {
    pub recreate_swapchain: bool,
    pub recreate_pipelines: bool,
    pub update_voxels: bool,
}

/// The part of the application state that window events and frames decide on: the keyboard
/// state, and the window size the swapchain was last built for.
#[derive(Debug, Clone, Copy, PartialEq, Eq, Structural)]
pub struct AppState {
    pub input_state: InputState,
    pub last_window_size: Option<Extent2D>,
}

impl AppState {
    /// Handles a window event: keys update the input state, a resize to a new size rebuilds the
    /// swapchain (a resize to the size it was built for changes nothing), and closing the
    /// window exits.
    pub fn window_event(&mut self, event: WindowEvent) -> (action: WindowAction)
        requires
            old(self).input_state.jump.queued_count < usize::MAX,
        ensures
            match event {
                WindowEvent::KeyboardInput(e) => {
                    &&& final(self).input_state == spec_apply_keyboard(old(self).input_state, e)
                    &&& final(self).last_window_size == old(self).last_window_size
                    &&& action == WindowAction::Nothing
                },
                WindowEvent::Resized(size) => {
                    &&& final(self).input_state == old(self).input_state
                    &&& if old(self).last_window_size != Some(size) {
                        &&& action == WindowAction::RecreateSwapchain(size)
                        &&& final(self).last_window_size == Some(size)
                    } else {
                        &&& action == WindowAction::Nothing
                        &&& final(self).last_window_size == old(self).last_window_size
                    }
                },
                WindowEvent::CloseRequested => *final(self) == *old(self) && action
                    == WindowAction::Exit,
                WindowEvent::Other => *final(self) == *old(self) && action == WindowAction::Nothing,
            },
    {
        match event {
            WindowEvent::KeyboardInput(e) => {
                self.input_state.apply_keyboard(e);
                WindowAction::Nothing
            },
            WindowEvent::Resized(size) => {
                let changed = match self.last_window_size {
                    Some(last) => last != size,
                    None => true,
                };
                if changed {
                    self.last_window_size = Some(size);
                    WindowAction::RecreateSwapchain(size)
                } else {
                    WindowAction::Nothing
                }
            },
            WindowEvent::CloseRequested => WindowAction::Exit,
            WindowEvent::Other => WindowAction::Nothing,
        }
    }

    /// Ends a frame: the clicks queued during it are cleared, and the changes requested by the
    /// settings menu become actions: the swapchain is rebuilt if asked, otherwise the pipelines
    /// if asked, and the voxels are regenerated if asked. `None` when the menu changed the
    /// planet, which the game does not support.
    pub fn about_to_wait(&mut self, events: InterfaceEvents) -> (res: Option<FrameActions>)
        ensures
            final(self).input_state.jump.queued_count == 0,
            final(self).input_state.jump.pressed == old(self).input_state.jump.pressed,
            final(self).input_state == (InputState {
                jump: final(self).input_state.jump,
                ..old(self).input_state
            }),
            final(self).last_window_size == old(self).last_window_size,
            res == if events.planet_changed {
                None
            } else {
                Some(
                    FrameActions {
                        recreate_swapchain: events.rebuild_swapchain,
                        recreate_pipelines: !events.rebuild_swapchain && events.rebuild_pipelines,
                        update_voxels: events.rebuild_voxels,
                    },
                )
            },
    {
        self.input_state.reset_after_frame();
        if events.planet_changed {
            return None;
        }
        Some(
            FrameActions {
                recreate_swapchain: events.rebuild_swapchain,
                recreate_pipelines: !events.rebuild_swapchain && events.rebuild_pipelines,
                update_voxels: events.rebuild_voxels,
            },
        )
    }
}

} // verus!
