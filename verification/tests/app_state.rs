use vulkthing::app_state::{AppState, FrameActions, WindowAction, WindowEvent};
use vulkthing::input::{ElementState, InputState, Key, KeyEvent};
use vulkthing::settings::InterfaceEvents;
use vulkthing::surface::Extent2D;
use vulkthing::vertex::{attribute_descriptions, AttributeDescription};

fn state() -> AppState {
    AppState { input_state: InputState::new(), last_window_size: None }
}

#[test]
fn resize_rebuilds_only_on_change() {
    let mut s = state();
    let size = Extent2D { width: 1920, height: 1080 };
    assert_eq!(s.window_event(WindowEvent::Resized(size)), WindowAction::RecreateSwapchain(size));
    assert_eq!(s.last_window_size, Some(size));
    assert_eq!(s.window_event(WindowEvent::Resized(size)), WindowAction::Nothing);
    let smaller = Extent2D { width: 800, height: 600 };
    assert_eq!(s.window_event(WindowEvent::Resized(smaller)), WindowAction::RecreateSwapchain(smaller));
    assert_eq!(s.last_window_size, Some(smaller));
}

#[test]
fn keys_close_and_other_events() {
    let mut s = state();
    let press = KeyEvent { logical_key: Key::Character("w".to_string()), state: ElementState::Pressed };
    assert_eq!(s.window_event(WindowEvent::KeyboardInput(press)), WindowAction::Nothing);
    assert_eq!(s.input_state.movement_depth(), 1);
    assert_eq!(s.window_event(WindowEvent::Other), WindowAction::Nothing);
    assert_eq!(s.window_event(WindowEvent::CloseRequested), WindowAction::Exit);
    assert_eq!(s.last_window_size, None);
}

fn events(planet: bool, swapchain: bool, pipelines: bool, voxels: bool) -> InterfaceEvents {
    InterfaceEvents {
        planet_changed: planet,
        grass_changed: false,
        rebuild_swapchain: swapchain,
        rebuild_pipelines: pipelines,
        rebuild_voxels: voxels,
    }
}

#[test]
fn frame_end_actions() {
    let mut s = state();
    s.window_event(WindowEvent::KeyboardInput(KeyEvent { logical_key: Key::Space, state: ElementState::Pressed }));
    assert_eq!(s.input_state.movement_jumps(), 1);
    let actions = s.about_to_wait(events(false, true, true, false)).unwrap();
    assert_eq!(actions, FrameActions { recreate_swapchain: true, recreate_pipelines: false, update_voxels: false });
    assert_eq!(s.input_state.movement_jumps(), 0);
    let actions = s.about_to_wait(events(false, false, true, true)).unwrap();
    assert_eq!(actions, FrameActions { recreate_swapchain: false, recreate_pipelines: true, update_voxels: true });
    assert_eq!(s.about_to_wait(events(true, false, false, false)), None);
}

#[test]
fn attributes_are_packed_in_order() {
    let formats = vec![106, 106, 103];
    let sizes = vec![12, 12, 8];
    let descriptions = attribute_descriptions(1, &formats, &sizes);
    assert_eq!(
        descriptions,
        vec![
            AttributeDescription { binding: 1, location: 0, format: 106, offset: 0 },
            AttributeDescription { binding: 1, location: 1, format: 106, offset: 12 },
            AttributeDescription { binding: 1, location: 2, format: 103, offset: 24 },
        ]
    );
    assert!(attribute_descriptions(0, &vec![], &vec![]).is_empty());
}
