use triangle::events::EventFlags;
use triangle::frame::{
    AcquireOutcome, AppState, DynamicState, FlushOutcome, FrameAction, FrameData, FrameEvent, Phase,
    PreviousFrameEnd, SwapchainRecreation,
};
use triangle::setup::{Extent, FramebufferSetup, Viewport};

fn setup(count: usize, width: u32, height: u32) -> FramebufferSetup {
    FramebufferSetup { framebuffer_count: count, viewport: Viewport { extent: Extent { width, height } } }
}

fn flags(done: bool, recreate_swapchain: bool) -> EventFlags {
    EventFlags { done, recreate_swapchain }
}

/// Drives `state` through `events`, checking that each is accepted, and
/// returns the actions.
fn drive(state: &mut AppState, events: &[FrameEvent]) -> Vec<FrameAction> {
    let mut actions = vec![];
    for e in events {
        assert!(state.accepts(e), "{:?} refused in {:?}", e, state.phase);
        actions.push(state.step(*e));
    }
    actions
}

fn acquired(i: usize) -> FrameEvent {
    FrameEvent::ImageAcquired(AcquireOutcome::Acquired(i))
}

#[test]
fn new_state_is_idle_and_clean() {
    let state = AppState::new(setup(3, 800, 600));
    assert_eq!(state.phase, Phase::Idle);
    assert!(!state.recreate_swapchain);
    assert!(!state.done);
    assert_eq!(state.frame_data, FrameData::empty());
    assert_eq!(state.framebuffer_count, 3);
    assert_eq!(
        state.dynamic_state,
        DynamicState { viewport: Some(Viewport { extent: Extent { width: 800, height: 600 } }) }
    );
    assert_eq!(state.frame_counter, 0);
}

#[test]
fn only_start_is_accepted_between_frames() {
    let state = AppState::new(setup(2, 10, 10));
    assert!(state.accepts(&FrameEvent::Start));
    assert!(!state.accepts(&FrameEvent::ResourcesFreed));
    assert!(!state.accepts(&acquired(0)));
    assert!(!state.accepts(&FrameEvent::VertexBuffersCreated));
    assert!(!state.accepts(&FrameEvent::Flushed(FlushOutcome::Flushed)));
    assert!(!state.accepts(&FrameEvent::EventsPolled(flags(false, false))));
}

#[test]
fn frame_acquires_an_image_before_drawing() {
    let mut state = AppState::new(setup(2, 10, 10));
    let actions = drive(&mut state, &[FrameEvent::Start, FrameEvent::ResourcesFreed]);
    assert_eq!(actions, vec![FrameAction::FreeUnusedResources, FrameAction::AcquireImage]);
    assert_eq!(state.phase, Phase::AcquiringImage);
    assert!(!state.accepts(&FrameEvent::VertexBuffersCreated));
    assert_eq!(state.step(acquired(1)), FrameAction::CreateVertexBuffers);
    assert_eq!(state.frame_data.image_num, Some(1));
    assert!(state.frame_data.acquire_future);
}

#[test]
fn acquired_image_outside_framebuffers_is_refused() {
    let mut state = AppState::new(setup(2, 10, 10));
    drive(&mut state, &[FrameEvent::Start, FrameEvent::ResourcesFreed, acquired(2)]);
    assert!(!state.accepts(&FrameEvent::VertexBuffersCreated));
}

#[test]
fn complete_frame_draws_and_presents_the_acquired_image() {
    let mut state = AppState::new(setup(3, 800, 600));
    let actions = drive(
        &mut state,
        &[
            FrameEvent::Start,
            FrameEvent::ResourcesFreed,
            acquired(1),
            FrameEvent::VertexBuffersCreated,
            FrameEvent::CommandBufferBuilt,
            FrameEvent::Flushed(FlushOutcome::Flushed),
            FrameEvent::EventsPolled(flags(false, false)),
        ],
    );
    assert_eq!(
        actions,
        vec![
            FrameAction::FreeUnusedResources,
            FrameAction::AcquireImage,
            FrameAction::CreateVertexBuffers,
            FrameAction::BuildCommandBuffer { framebuffer: 1, first_vertex_buffer: 0, second_vertex_buffer: 1 },
            FrameAction::SubmitAndPresent { image_num: 1 },
            FrameAction::PollEvents { previous_frame_end: PreviousFrameEnd::Flushed },
            FrameAction::FrameFinished { stop: false },
        ]
    );
    assert_eq!(state.phase, Phase::Idle);
    assert_eq!(state.frame_counter, 1);
    assert_eq!(
        state.frame_data,
        FrameData { image_num: Some(1), acquire_future: false, vertex_buffers: 2, command_buffer: false }
    );
}

fn state_at_submission(framebuffers: usize) -> AppState {
    let mut state = AppState::new(setup(framebuffers, 8, 8));
    drive(
        &mut state,
        &[
            FrameEvent::Start,
            FrameEvent::ResourcesFreed,
            acquired(0),
            FrameEvent::VertexBuffersCreated,
            FrameEvent::CommandBufferBuilt,
        ],
    );
    state
}

#[test]
fn out_of_date_flush_keeps_rebuild_for_next_frame() {
    let mut state = state_at_submission(1);
    let a = state.step(FrameEvent::Flushed(FlushOutcome::OutOfDate));
    assert_eq!(a, FrameAction::PollEvents { previous_frame_end: PreviousFrameEnd::Restarted });
    assert!(state.recreate_swapchain);
    assert!(!state.frame_data.acquire_future);
    assert!(!state.frame_data.command_buffer);
    let a = state.step(FrameEvent::EventsPolled(flags(false, false)));
    assert_eq!(a, FrameAction::FrameFinished { stop: false });
    assert!(state.recreate_swapchain);
    let actions = drive(&mut state, &[FrameEvent::Start, FrameEvent::ResourcesFreed]);
    assert_eq!(actions[1], FrameAction::RecreateSwapchain);
}

#[test]
fn failed_flush_is_reported_and_restarted() {
    let mut state = state_at_submission(1);
    let a = state.step(FrameEvent::Flushed(FlushOutcome::Failed));
    assert_eq!(a, FrameAction::PollEvents { previous_frame_end: PreviousFrameEnd::RestartedAfterError });
    assert!(!state.recreate_swapchain);
}

#[test]
fn close_request_stops_the_loop() {
    let mut state = state_at_submission(1);
    state.step(FrameEvent::Flushed(FlushOutcome::Flushed));
    let a = state.step(FrameEvent::EventsPolled(flags(true, false)));
    assert_eq!(a, FrameAction::FrameFinished { stop: true });
    assert!(state.done);
}

#[test]
fn resize_leads_to_rebuild_next_frame() {
    let mut state = state_at_submission(1);
    state.step(FrameEvent::Flushed(FlushOutcome::Flushed));
    state.step(FrameEvent::EventsPolled(flags(false, true)));
    assert!(state.recreate_swapchain);
    let actions = drive(&mut state, &[FrameEvent::Start, FrameEvent::ResourcesFreed]);
    assert_eq!(actions, vec![FrameAction::FreeUnusedResources, FrameAction::RecreateSwapchain]);
    assert_eq!(state.frame_data, FrameData::empty());
    let a = state.step(FrameEvent::SwapchainRecreated(SwapchainRecreation::Recreated(setup(4, 1280, 720))));
    assert_eq!(a, FrameAction::AcquireImage);
    assert!(!state.recreate_swapchain);
    assert_eq!(state.framebuffer_count, 4);
    assert_eq!(state.dynamic_state.viewport, Some(Viewport { extent: Extent { width: 1280, height: 720 } }));
    let actions = drive(&mut state, &[acquired(3), FrameEvent::VertexBuffersCreated]);
    assert_eq!(
        actions[1],
        FrameAction::BuildCommandBuffer { framebuffer: 3, first_vertex_buffer: 0, second_vertex_buffer: 1 }
    );
}

/// A state between frames with a rebuild pending.
fn state_with_pending_rebuild() -> AppState {
    let mut state = AppState::new(setup(3, 800, 600));
    drive(
        &mut state,
        &[FrameEvent::Start, FrameEvent::ResourcesFreed, FrameEvent::ImageAcquired(AcquireOutcome::OutOfDate)],
    );
    state
}

#[test]
fn out_of_date_acquisition_skips_drawing_and_rebuilds_next_frame() {
    let mut state = AppState::new(setup(3, 800, 600));
    drive(&mut state, &[FrameEvent::Start, FrameEvent::ResourcesFreed]);
    let a = state.step(FrameEvent::ImageAcquired(AcquireOutcome::OutOfDate));
    assert_eq!(a, FrameAction::FrameFinished { stop: false });
    assert_eq!(state.phase, Phase::Idle);
    assert!(state.recreate_swapchain);
    assert_eq!(state.frame_counter, 1);
    assert_eq!(state.frame_data, FrameData::empty());
    let actions = drive(&mut state, &[FrameEvent::Start, FrameEvent::ResourcesFreed]);
    assert_eq!(actions[1], FrameAction::RecreateSwapchain);
}

#[test]
fn failed_rebuild_skips_drawing_and_keeps_rebuild_pending() {
    for outcome in [SwapchainRecreation::WindowGone, SwapchainRecreation::UnsupportedDimensions] {
        let mut state = state_with_pending_rebuild();
        assert!(state.recreate_swapchain);
        drive(&mut state, &[FrameEvent::Start, FrameEvent::ResourcesFreed]);
        assert_eq!(state.phase, Phase::RecreatingSwapchain);
        let a = state.step(FrameEvent::SwapchainRecreated(outcome));
        assert_eq!(a, FrameAction::FrameFinished { stop: false });
        assert_eq!(state.phase, Phase::Idle);
        assert!(state.recreate_swapchain);
        assert_eq!(state.frame_counter, 2);
        assert_eq!(state.framebuffer_count, 3);
        assert_eq!(state.dynamic_state.viewport, Some(Viewport { extent: Extent { width: 800, height: 600 } }));
        let actions = drive(&mut state, &[FrameEvent::Start, FrameEvent::ResourcesFreed]);
        assert_eq!(actions[1], FrameAction::RecreateSwapchain);
    }
}

#[test]
fn rebuild_with_no_framebuffers_is_refused() {
    let mut state = state_with_pending_rebuild();
    drive(&mut state, &[FrameEvent::Start, FrameEvent::ResourcesFreed]);
    assert!(!state.accepts(&FrameEvent::SwapchainRecreated(SwapchainRecreation::Recreated(setup(0, 1, 1)))));
}

#[test]
fn submission_needs_an_acquisition() {
    let mut state = AppState::new(setup(2, 8, 8));
    drive(&mut state, &[FrameEvent::Start, FrameEvent::ResourcesFreed, acquired(1), FrameEvent::VertexBuffersCreated]);
    state.frame_data.acquire_future = false;
    assert!(!state.accepts(&FrameEvent::CommandBufferBuilt));
}

#[test]
fn frame_counter_counts_frames_and_refuses_overflow() {
    let mut state = state_at_submission(1);
    state.step(FrameEvent::Flushed(FlushOutcome::Flushed));
    state.frame_counter = i32::MAX - 1;
    assert!(state.accepts(&FrameEvent::EventsPolled(flags(false, false))));
    state.step(FrameEvent::EventsPolled(flags(false, false)));
    assert_eq!(state.frame_counter, i32::MAX);

    let mut state = state_at_submission(1);
    state.step(FrameEvent::Flushed(FlushOutcome::Flushed));
    state.frame_counter = i32::MAX;
    assert!(!state.accepts(&FrameEvent::EventsPolled(flags(false, false))));

    let mut state = AppState::new(setup(1, 8, 8));
    drive(&mut state, &[FrameEvent::Start, FrameEvent::ResourcesFreed]);
    state.frame_counter = i32::MAX;
    assert!(!state.accepts(&FrameEvent::ImageAcquired(AcquireOutcome::OutOfDate)));
    assert!(state.accepts(&acquired(0)));
}

#[test]
fn start_keeps_flags_and_clears_frame_data() {
    let mut state = state_at_submission(2);
    state.step(FrameEvent::Flushed(FlushOutcome::OutOfDate));
    state.step(FrameEvent::EventsPolled(flags(true, true)));
    let before = state;
    state.step(FrameEvent::Start);
    assert_eq!(state.frame_data, FrameData::empty());
    assert_eq!(state.recreate_swapchain, before.recreate_swapchain);
    assert_eq!(state.done, before.done);
    assert_eq!(state.frame_counter, before.frame_counter);
    assert_eq!(state.framebuffer_count, before.framebuffer_count);
}
