//! Properties of the render loop that span several events or calls.

use vstd::prelude::*;

use crate::events::{fold_events, requests_close, requests_resize, EventFlags, WindowEventKind};
use crate::frame::{
    ends_frame, AcquireOutcome, AppState, FlushOutcome, FrameAction, FrameEvent, Phase,
    PreviousFrameEnd, SwapchainRecreation,
};
use crate::setup::{
    alpha_rank, CompositeAlpha, FramebufferSetup, QueueFamilyInfo, SupportedCompositeAlpha,
};

verus! {

/// Observing polled events one at a time from cleared flags, as the polling
/// callback does, ends with `done` exactly when some event asked to close the
/// window and `recreate_swapchain` exactly when some event reported a resize.
pub proof fn law_observed_events_set_flags(events: Seq<WindowEventKind>)
    ensures
        fold_events(events).done == requests_close(events),
        fold_events(events).recreate_swapchain == requests_resize(events),
    decreases events.len(),
{
    if events.len() > 0 {
        let prefix = events.drop_last();
        law_observed_events_set_flags(prefix);
        if requests_close(prefix) {
            let j = choose|j: int| 0 <= j < prefix.len() && prefix[j] == WindowEventKind::CloseRequested;
            assert(events[j] == prefix[j]);
        }
        if requests_resize(prefix) {
            let j = choose|j: int| 0 <= j < prefix.len() && prefix[j] == WindowEventKind::Resized;
            assert(events[j] == prefix[j]);
        }
        if requests_close(events) {
            let j = choose|j: int| 0 <= j < events.len() && events[j] == WindowEventKind::CloseRequested;
            if j < events.len() - 1 {
                assert(prefix[j] == events[j]);
            }
        }
        if requests_resize(events) {
            let j = choose|j: int| 0 <= j < events.len() && events[j] == WindowEventKind::Resized;
            if j < events.len() - 1 {
                assert(prefix[j] == events[j]);
            }
        }
    }
}

/// Starting a frame clears the frame data and keeps everything that outlives
/// a frame: the pending rebuild, the `done` flag, the framebuffers, the
/// viewport and the frame counter.
pub proof fn law_start_clears_frame_data(s: AppState)
    requires
        s.spec_accepts(FrameEvent::Start),
    ensures
        ({
            let (t, a) = s.spec_step(FrameEvent::Start);
            &&& a == FrameAction::FreeUnusedResources
            &&& t.frame_data.image_num is None
            &&& !t.frame_data.acquire_future
            &&& t.frame_data.vertex_buffers == 0
            &&& !t.frame_data.command_buffer
            &&& t.recreate_swapchain == s.recreate_swapchain
            &&& t.done == s.done
            &&& t.framebuffer_count == s.framebuffer_count
            &&& t.dynamic_state == s.dynamic_state
            &&& t.frame_counter == s.frame_counter
        }),
{
}

/// A frame rebuilds the swapchain exactly when a rebuild was pending when the
/// frame started; otherwise it goes straight on to acquire an image.
pub proof fn law_swapchain_rebuilt_iff_pending(s: AppState)
    requires
        s.phase == Phase::Idle,
    ensures
        ({
            let (s1, a1) = s.spec_step(FrameEvent::Start);
            let (s2, a2) = s1.spec_step(FrameEvent::ResourcesFreed);
            &&& s1.spec_accepts(FrameEvent::ResourcesFreed)
            &&& (a2 == FrameAction::RecreateSwapchain) == s.recreate_swapchain
            &&& !s.recreate_swapchain ==> a2 == FrameAction::AcquireImage
        }),
{
}

/// A rebuilt swapchain brings its framebuffers and viewport and clears the
/// pending rebuild, and the frame goes on to acquire an image. If the window
/// is gone or its size is not supported, the frame ends without drawing,
/// nothing else changes, and the rebuild stays pending for the next frame.
pub proof fn law_rebuild_outcome(s: AppState, r: SwapchainRecreation)
    requires
        s.spec_accepts(FrameEvent::SwapchainRecreated(r)),
    ensures
        ({
            let (t, a) = s.spec_step(FrameEvent::SwapchainRecreated(r));
            match r {
                SwapchainRecreation::Recreated(setup) => {
                    &&& !t.recreate_swapchain
                    &&& a == FrameAction::AcquireImage
                    &&& t.framebuffer_count == setup.framebuffer_count
                    &&& t.dynamic_state.viewport == Some(setup.viewport)
                },
                _ => {
                    &&& t.recreate_swapchain == s.recreate_swapchain
                    &&& a == (FrameAction::FrameFinished { stop: s.done })
                    &&& t.phase == Phase::Idle
                    &&& t.framebuffer_count == s.framebuffer_count
                    &&& t.dynamic_state == s.dynamic_state
                    &&& t.frame_data == s.frame_data
                    &&& t.done == s.done
                },
            }
        }),
{
}

/// The event reports something that asks for a swapchain rebuild: an
/// out-of-date acquisition or flush, or a polled resize.
pub open spec fn asks_for_rebuild(event: FrameEvent) -> bool {
    match event {
        FrameEvent::ImageAcquired(a) => a is OutOfDate,
        FrameEvent::Flushed(o) => o == FlushOutcome::OutOfDate,
        FrameEvent::EventsPolled(f) => f.recreate_swapchain,
        _ => false,
    }
}

/// A swapchain rebuild, once asked for, stays pending until a new swapchain
/// has been built: after any event, a rebuild is pending exactly when one was
/// pending before and the event is not a successful rebuild, or the event
/// itself asks for one.
pub proof fn law_rebuild_request_kept_until_rebuilt(s: AppState, event: FrameEvent)
    requires
        s.spec_accepts(event),
    ensures
        s.spec_step(event).0.recreate_swapchain == ((s.recreate_swapchain && !(event matches
            FrameEvent::SwapchainRecreated(r) && r is Recreated)) || asks_for_rebuild(event)),
{
}

/// A frame draws into the image it acquired: the acquired image's framebuffer
/// is the one the command buffer renders into, with vertex buffers 0 and 1,
/// and the same image is presented.
pub proof fn law_drawing_uses_acquired_image(s: AppState, i: usize)
    requires
        s.phase == Phase::AcquiringImage,
        i < s.framebuffer_count,
    ensures
        ({
            let (s1, a1) = s.spec_step(FrameEvent::ImageAcquired(AcquireOutcome::Acquired(i)));
            let (s2, a2) = s1.spec_step(FrameEvent::VertexBuffersCreated);
            let (s3, a3) = s2.spec_step(FrameEvent::CommandBufferBuilt);
            &&& s.spec_accepts(FrameEvent::ImageAcquired(AcquireOutcome::Acquired(i)))
            &&& a1 == FrameAction::CreateVertexBuffers
            &&& s1.spec_accepts(FrameEvent::VertexBuffersCreated)
            &&& a2 == (FrameAction::BuildCommandBuffer {
                framebuffer: i,
                first_vertex_buffer: 0,
                second_vertex_buffer: 1,
            })
            &&& s2.spec_accepts(FrameEvent::CommandBufferBuilt)
            &&& a3 == (FrameAction::SubmitAndPresent { image_num: i })
            &&& s3.phase == Phase::Submitting
        }),
{
}

/// An out-of-date acquisition ends the frame without drawing (nothing is
/// recorded or submitted), and the next frame rebuilds the swapchain before
/// anything else.
pub proof fn law_out_of_date_acquisition_skips_frame(s: AppState)
    requires
        s.spec_accepts(FrameEvent::ImageAcquired(AcquireOutcome::OutOfDate)),
    ensures
        ({
            let (s1, a1) = s.spec_step(FrameEvent::ImageAcquired(AcquireOutcome::OutOfDate));
            let (s2, _a2) = s1.spec_step(FrameEvent::Start);
            let (_s3, a3) = s2.spec_step(FrameEvent::ResourcesFreed);
            &&& a1 == (FrameAction::FrameFinished { stop: s.done })
            &&& s1.phase == Phase::Idle
            &&& s1.recreate_swapchain
            &&& s1.frame_data == s.frame_data
            &&& a3 == FrameAction::RecreateSwapchain
        }),
{
}

/// A drawn frame runs to its end whatever its flush ends with: the loop's
/// rebuild request gathers a polled resize, an out-of-date flush and any
/// rebuild already pending, and the loop stops exactly when the window asked
/// to close.
pub proof fn law_polled_flags_end_frame(s: AppState, outcome: FlushOutcome, flags: EventFlags)
    requires
        s.spec_accepts(FrameEvent::Flushed(outcome)),
        s.frame_counter < i32::MAX,
    ensures
        ({
            let (s1, _a1) = s.spec_step(FrameEvent::Flushed(outcome));
            let (s2, a2) = s1.spec_step(FrameEvent::EventsPolled(flags));
            &&& s1.spec_accepts(FrameEvent::EventsPolled(flags))
            &&& s2.recreate_swapchain == (flags.recreate_swapchain || outcome == FlushOutcome::OutOfDate
                || s.recreate_swapchain)
            &&& s2.done == flags.done
            &&& s2.phase == Phase::Idle
            &&& s2.frame_counter == s.frame_counter + 1
            &&& a2 == (FrameAction::FrameFinished { stop: flags.done })
        }),
{
}

/// A whole frame, from between frames back to between frames, when the image
/// is acquired and (if a rebuild is pending) the swapchain is rebuilt: every
/// report is taken, the image's framebuffer is drawn and the image presented,
/// one more frame is counted, and the loop stops exactly when the window
/// asked to close.
pub proof fn law_frame_completes(
    s: AppState,
    setup: FramebufferSetup,
    i: usize,
    outcome: FlushOutcome,
    flags: EventFlags,
)
    requires
        s.phase == Phase::Idle,
        s.frame_counter < i32::MAX,
        setup.framebuffer_count >= 1,
        i < (if s.recreate_swapchain { setup.framebuffer_count } else { s.framebuffer_count }),
    ensures
        ({
            let (s1, _a1) = s.spec_step(FrameEvent::Start);
            let (s2, _a2) = s1.spec_step(FrameEvent::ResourcesFreed);
            let s3 = if s.recreate_swapchain {
                s2.spec_step(FrameEvent::SwapchainRecreated(SwapchainRecreation::Recreated(setup))).0
            } else {
                s2
            };
            let (s4, _a4) = s3.spec_step(FrameEvent::ImageAcquired(AcquireOutcome::Acquired(i)));
            let (s5, a5) = s4.spec_step(FrameEvent::VertexBuffersCreated);
            let (s6, a6) = s5.spec_step(FrameEvent::CommandBufferBuilt);
            let (s7, _a7) = s6.spec_step(FrameEvent::Flushed(outcome));
            let (s8, a8) = s7.spec_step(FrameEvent::EventsPolled(flags));
            &&& s.spec_accepts(FrameEvent::Start)
            &&& s1.spec_accepts(FrameEvent::ResourcesFreed)
            &&& (s.recreate_swapchain ==> s2.spec_accepts(
                FrameEvent::SwapchainRecreated(SwapchainRecreation::Recreated(setup)),
            ))
            &&& s3.spec_accepts(FrameEvent::ImageAcquired(AcquireOutcome::Acquired(i)))
            &&& s4.spec_accepts(FrameEvent::VertexBuffersCreated)
            &&& s5.spec_accepts(FrameEvent::CommandBufferBuilt)
            &&& s6.spec_accepts(FrameEvent::Flushed(outcome))
            &&& s7.spec_accepts(FrameEvent::EventsPolled(flags))
            &&& a5 is BuildCommandBuffer && a5->framebuffer == i
            &&& a6 == (FrameAction::SubmitAndPresent { image_num: i })
            &&& a8 == (FrameAction::FrameFinished { stop: flags.done })
            &&& s8.phase == Phase::Idle
            &&& s8.frame_counter == s.frame_counter + 1
            &&& s8.done == flags.done
            &&& s8.recreate_swapchain == (flags.recreate_swapchain || outcome == FlushOutcome::OutOfDate)
        }),
{
}

/// Flushing a submission uses up the frame's acquisition and command buffer,
/// whatever the outcome, and asks for a rebuild when the swapchain is out of date.
pub proof fn law_flush_uses_up_submission(s: AppState, outcome: FlushOutcome)
    requires
        s.spec_accepts(FrameEvent::Flushed(outcome)),
    ensures
        ({
            let (t, _a) = s.spec_step(FrameEvent::Flushed(outcome));
            &&& !t.frame_data.acquire_future
            &&& !t.frame_data.command_buffer
            &&& t.frame_data.image_num == s.frame_data.image_num
            &&& t.frame_data.vertex_buffers == s.frame_data.vertex_buffers
            &&& (outcome == FlushOutcome::OutOfDate ==> t.recreate_swapchain)
            &&& (outcome != FlushOutcome::OutOfDate ==> t.recreate_swapchain == s.recreate_swapchain)
        }),
{
}

/// The frame counter counts frames run, drawn or ended early: it goes up by
/// one exactly on the events that end a frame, which are exactly those
/// answered with `FrameFinished`, and stays the same on every other event.
pub proof fn law_counter_counts_frames(s: AppState, event: FrameEvent)
    requires
        s.spec_accepts(event),
    ensures
        s.spec_step(event).0.frame_counter == s.frame_counter + (if ends_frame(event) {
            1int
        } else {
            0int
        }),
        (s.spec_step(event).1 is FrameFinished) == ends_frame(event),
        ends_frame(event) ==> s.spec_step(event).0.phase == Phase::Idle,
{
}

/// Every accepted event keeps the state invariant: framebuffers and a
/// viewport stay set up, and the frame counter stays non-negative.
pub proof fn law_steps_keep_invariant(s: AppState, event: FrameEvent)
    requires
        s.wf(),
        s.spec_accepts(event),
    ensures
        s.spec_step(event).0.wf(),
{
}

/// Between two frames the machine takes only `Start`, and in every other
/// phase exactly one kind of event is expected.
pub proof fn law_one_event_kind_per_phase(s: AppState, event: FrameEvent)
    requires
        s.spec_accepts(event),
    ensures
        s.phase == Phase::Idle <==> event is Start,
        s.phase == Phase::FreeingResources <==> event is ResourcesFreed,
        s.phase == Phase::RecreatingSwapchain <==> event is SwapchainRecreated,
        s.phase == Phase::AcquiringImage <==> event is ImageAcquired,
        s.phase == Phase::CreatingVertexBuffers <==> event is VertexBuffersCreated,
        s.phase == Phase::BuildingCommandBuffer <==> event is CommandBufferBuilt,
        s.phase == Phase::Submitting <==> event is Flushed,
        s.phase == Phase::PollingEvents <==> event is EventsPolled,
{
}

/// Flushing a submission is answered by polling the window's events, and the
/// previous frame's end is the flushed submission after a successful flush,
/// a fresh start after an out-of-date swapchain, and a reported error and a
/// fresh start after any other failure; nothing else about the state matters.
pub proof fn law_flush_answer(s: AppState, outcome: FlushOutcome)
    requires
        s.spec_accepts(FrameEvent::Flushed(outcome)),
    ensures
        outcome == FlushOutcome::Flushed ==> s.spec_step(FrameEvent::Flushed(outcome)).1
            == (FrameAction::PollEvents { previous_frame_end: PreviousFrameEnd::Flushed }),
        outcome == FlushOutcome::OutOfDate ==> s.spec_step(FrameEvent::Flushed(outcome)).1
            == (FrameAction::PollEvents { previous_frame_end: PreviousFrameEnd::Restarted }),
        outcome == FlushOutcome::Failed ==> s.spec_step(FrameEvent::Flushed(outcome)).1
            == (FrameAction::PollEvents { previous_frame_end: PreviousFrameEnd::RestartedAfterError }),
{
}

/// Which events each phase takes. While the swapchain is being rebuilt, a
/// rebuild that failed (window gone, size not supported) is always taken when
/// the frame counter has room, and a new swapchain exactly when it has at least
/// one framebuffer. Between frames `Start` is taken, after starting
/// `ResourcesFreed`, while acquiring any acquired image (and, with room in the
/// counter, an out-of-date swapchain), at submission any flush outcome, and
/// at polling any flags when the counter has room. Vertex buffers are taken
/// exactly when the acquired image has a framebuffer, and a command buffer
/// exactly when an image and its acquisition are pending.
pub proof fn law_acceptance(s: AppState, setup: FramebufferSetup, i: usize, outcome: FlushOutcome, flags: EventFlags)
    ensures
        s.phase == Phase::Idle ==> s.spec_accepts(FrameEvent::Start),
        s.phase == Phase::FreeingResources ==> s.spec_accepts(FrameEvent::ResourcesFreed),
        s.phase == Phase::RecreatingSwapchain && s.frame_counter < i32::MAX ==> {
            &&& s.spec_accepts(FrameEvent::SwapchainRecreated(SwapchainRecreation::WindowGone))
            &&& s.spec_accepts(FrameEvent::SwapchainRecreated(SwapchainRecreation::UnsupportedDimensions))
        },
        s.phase == Phase::RecreatingSwapchain ==> (s.spec_accepts(
            FrameEvent::SwapchainRecreated(SwapchainRecreation::Recreated(setup)),
        ) <==> setup.framebuffer_count >= 1),
        s.phase == Phase::AcquiringImage ==> s.spec_accepts(
            FrameEvent::ImageAcquired(AcquireOutcome::Acquired(i)),
        ),
        s.phase == Phase::AcquiringImage && s.frame_counter < i32::MAX ==> s.spec_accepts(
            FrameEvent::ImageAcquired(AcquireOutcome::OutOfDate),
        ),
        s.phase == Phase::CreatingVertexBuffers ==> (s.spec_accepts(FrameEvent::VertexBuffersCreated) <==> (
        s.frame_data.image_num matches Some(k) && k < s.framebuffer_count)),
        s.phase == Phase::BuildingCommandBuffer ==> (s.spec_accepts(FrameEvent::CommandBufferBuilt) <==> (
        s.frame_data.acquire_future && s.frame_data.image_num is Some)),
        s.phase == Phase::Submitting ==> s.spec_accepts(FrameEvent::Flushed(outcome)),
        s.phase == Phase::PollingEvents ==> (s.spec_accepts(FrameEvent::EventsPolled(flags)) <==> s.frame_counter
            < i32::MAX),
{
}

/// The `done` flag is set only by the window's events: every other event
/// leaves it as it was, polled flags replace it, and a frame's
/// `FrameFinished { stop }` carries the `done` flag the frame ends with, so
/// a frame cut short stops the loop exactly when it was already to stop.
pub proof fn law_done_only_from_window_events(s: AppState, event: FrameEvent)
    requires
        s.spec_accepts(event),
    ensures
        !(event is EventsPolled) ==> s.spec_step(event).0.done == s.done,
        event matches FrameEvent::EventsPolled(f) ==> s.spec_step(event).0.done == f.done,
        s.spec_step(event).1 matches FrameAction::FrameFinished { stop } ==> stop == s.spec_step(event).0.done,
{
}

/// The action that answers each event: free finished work at the start;
/// rebuild if a rebuild is pending, else acquire; after a new swapchain
/// acquire, after a failed rebuild end the frame; after an acquired image fill
/// the vertex buffers, after an out-of-date one end the frame; record commands
/// for the acquired image's framebuffer with vertex buffers 0 and 1; submit and
/// present the acquired image; after a flush poll events; after polling end
/// the frame.
pub proof fn law_answers(s: AppState, event: FrameEvent)
    requires
        s.spec_accepts(event),
    ensures
        ({
            let a = s.spec_step(event).1;
            &&& event is Start ==> a == FrameAction::FreeUnusedResources
            &&& event is ResourcesFreed ==> a == (if s.recreate_swapchain {
                FrameAction::RecreateSwapchain
            } else {
                FrameAction::AcquireImage
            })
            &&& event matches FrameEvent::SwapchainRecreated(r) ==> a == (if r is Recreated {
                FrameAction::AcquireImage
            } else {
                FrameAction::FrameFinished { stop: s.done }
            })
            &&& event matches FrameEvent::ImageAcquired(o) ==> a == (if o is Acquired {
                FrameAction::CreateVertexBuffers
            } else {
                FrameAction::FrameFinished { stop: s.done }
            })
            &&& event is VertexBuffersCreated ==> a == (FrameAction::BuildCommandBuffer {
                framebuffer: s.frame_data.image_num->0,
                first_vertex_buffer: 0,
                second_vertex_buffer: 1,
            })
            &&& event is CommandBufferBuilt ==> a == (FrameAction::SubmitAndPresent {
                image_num: s.frame_data.image_num->0,
            })
            &&& event is Flushed ==> a is PollEvents
            &&& event matches FrameEvent::EventsPolled(f) ==> a == (FrameAction::FrameFinished { stop: f.done })
        }),
{
}

/// The phase each event leads to.
pub proof fn law_phases(s: AppState, event: FrameEvent)
    requires
        s.spec_accepts(event),
    ensures
        ({
            let p = s.spec_step(event).0.phase;
            &&& event is Start ==> p == Phase::FreeingResources
            &&& event is ResourcesFreed ==> p == (if s.recreate_swapchain {
                Phase::RecreatingSwapchain
            } else {
                Phase::AcquiringImage
            })
            &&& event matches FrameEvent::SwapchainRecreated(r) ==> p == (if r is Recreated {
                Phase::AcquiringImage
            } else {
                Phase::Idle
            })
            &&& event matches FrameEvent::ImageAcquired(o) ==> p == (if o is Acquired {
                Phase::CreatingVertexBuffers
            } else {
                Phase::Idle
            })
            &&& event is VertexBuffersCreated ==> p == Phase::BuildingCommandBuffer
            &&& event is CommandBufferBuilt ==> p == Phase::Submitting
            &&& event is Flushed ==> p == Phase::PollingEvents
            &&& event is EventsPolled ==> p == Phase::Idle
        }),
{
}

/// What each event does to the frame data: the start clears it, an acquired
/// image becomes the frame's image with its acquisition pending, the vertex
/// buffers count two, the command buffer is recorded, a flush uses up the
/// acquisition and the command buffer; every other event leaves it unchanged.
pub proof fn law_frame_data(s: AppState, event: FrameEvent)
    requires
        s.spec_accepts(event),
    ensures
        ({
            let d = s.spec_step(event).0.frame_data;
            let o = s.frame_data;
            &&& event is Start ==> {
                &&& d.image_num is None
                &&& !d.acquire_future
                &&& d.vertex_buffers == 0
                &&& !d.command_buffer
            }
            &&& event matches FrameEvent::ImageAcquired(AcquireOutcome::Acquired(i)) ==> {
                &&& d.image_num == Some(i)
                &&& d.acquire_future
                &&& d.vertex_buffers == o.vertex_buffers
                &&& d.command_buffer == o.command_buffer
            }
            &&& event is VertexBuffersCreated ==> {
                &&& d.image_num == o.image_num
                &&& d.acquire_future == o.acquire_future
                &&& d.vertex_buffers == 2
                &&& d.command_buffer == o.command_buffer
            }
            &&& event is CommandBufferBuilt ==> {
                &&& d.image_num == o.image_num
                &&& d.acquire_future == o.acquire_future
                &&& d.vertex_buffers == o.vertex_buffers
                &&& d.command_buffer
            }
            &&& event is Flushed ==> {
                &&& d.image_num == o.image_num
                &&& !d.acquire_future
                &&& d.vertex_buffers == o.vertex_buffers
                &&& !d.command_buffer
            }
            &&& (event is ResourcesFreed || event is SwapchainRecreated || event is EventsPolled
                || event == FrameEvent::ImageAcquired(AcquireOutcome::OutOfDate)) ==> d == o
        }),
{
}

/// Framebuffers and the viewport change only when a new swapchain is built,
/// and then they are exactly the new ones.
pub proof fn law_framebuffers_change_only_on_rebuild(s: AppState, event: FrameEvent)
    requires
        s.spec_accepts(event),
    ensures
        event matches FrameEvent::SwapchainRecreated(SwapchainRecreation::Recreated(setup)) ==> {
            &&& s.spec_step(event).0.framebuffer_count == setup.framebuffer_count
            &&& s.spec_step(event).0.dynamic_state.viewport == Some(setup.viewport)
        },
        !(event matches FrameEvent::SwapchainRecreated(r) && r is Recreated) ==> {
            &&& s.spec_step(event).0.framebuffer_count == s.framebuffer_count
            &&& s.spec_step(event).0.dynamic_state == s.dynamic_state
        },
{
}

/// The render loop starts between frames, with nothing pending, nothing
/// counted, empty frame data, and exactly the framebuffers and viewport of the
/// initial setup.
pub proof fn law_start_up_state(setup: FramebufferSetup)
    requires
        setup.framebuffer_count >= 1,
    ensures
        ({
            let s = AppState::spec_new(setup);
            &&& s.framebuffer_count == setup.framebuffer_count
            &&& s.dynamic_state.viewport == Some(setup.viewport)
            &&& !s.recreate_swapchain
            &&& !s.done
            &&& s.phase == Phase::Idle
            &&& s.frame_counter == 0
            &&& s.frame_data.image_num is None
            &&& !s.frame_data.acquire_future
            &&& s.frame_data.vertex_buffers == 0
            &&& !s.frame_data.command_buffer
            &&& s.wf()
        }),
{
}

/// The composite-alpha mode chosen is supported, and no mode earlier in the
/// order opaque, pre-multiplied, post-multiplied, inherit is; there is none
/// exactly when no mode is supported. In particular opaque is chosen whenever
/// it is supported.
pub proof fn law_first_supported_alpha(a: SupportedCompositeAlpha)
    ensures
        a.spec_first() matches Some(m) ==> a.supports(m),
        a.spec_first() matches Some(m) ==> forall|e: CompositeAlpha|
            alpha_rank(e) < alpha_rank(m) ==> !#[trigger] a.supports(e),
        a.spec_first() is None <==> forall|e: CompositeAlpha| !#[trigger] a.supports(e),
        a.opaque ==> a.spec_first() == Some(CompositeAlpha::Opaque),
{
    if a.spec_first() is Some {
        assert(a.supports(a.spec_first()->0));
    } else {
        assert forall|e: CompositeAlpha| !#[trigger] a.supports(e) by {
            match e {
                CompositeAlpha::Opaque => {},
                CompositeAlpha::PreMultiplied => {},
                CompositeAlpha::PostMultiplied => {},
                CompositeAlpha::Inherit => {},
            }
        }
    }
}

/// A queue family is usable exactly when it supports graphics and its surface
/// query answered that it can present; a failed or missing query never counts.
pub proof fn law_usable_family(f: QueueFamilyInfo)
    ensures
        f.spec_usable() <==> (f.supports_graphics && f.surface_supported == Some(true)),
        f.surface_supported is None ==> !f.spec_usable(),
{
}

} // verus!
