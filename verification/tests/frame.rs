use vulkthing::frame::{Acquire, ConfigGeneration, FrameAction, FrameState};
use vulkthing::settings::FRAMES_IN_FLIGHT;

#[test]
fn out_of_date_swapchain_is_recreated_without_counting_the_frame() {
    let mut s = FrameState::new();
    assert_eq!(s.step(Acquire::OutOfDate), FrameAction::RecreateSwapchain);
    assert_eq!(s, FrameState { flight_index: 0, frame_index: 0 });
}

#[test]
fn frames_cycle_through_the_slots_in_flight() {
    let mut s = FrameState::new();
    for frame in 0..7usize {
        assert_eq!(s.flight_index, frame % FRAMES_IN_FLIGHT);
        let action = s.step(Acquire::Image(frame + 10));
        assert_eq!(
            action,
            FrameAction::Draw { image_index: frame + 10, first_render_done: frame == FRAMES_IN_FLIGHT }
        );
        assert_eq!(s.frame_index, frame + 1);
    }
}

#[test]
fn a_config_change_discards_older_meshes() {
    let mut g = ConfigGeneration::new();
    let started = g.generation;
    assert!(g.accepts(started));
    g.bump();
    assert!(!g.accepts(started));
    assert!(g.accepts(started + 1));
}
