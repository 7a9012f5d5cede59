//! The render loop as a state machine. Each frame runs through a series of
//! phases; at every phase the caller performs the action that the machine
//! returned (freeing finished GPU work, rebuilding the swapchain, acquiring an
//! image, filling vertex buffers, recording and submitting commands, polling
//! the window) and reports the outcome back as the next event. A frame whose
//! swapchain cannot be rebuilt or whose image cannot be acquired ends early,
//! without drawing, and the rebuild is tried again in the next frame.

use vstd::prelude::*;

use crate::events::EventFlags;
use crate::setup::{FramebufferSetup, Viewport};

verus! {

/// The per-frame resources, by presence and count.
#[derive(Clone, Copy, Debug, PartialEq, Eq)]
pub struct FrameData {
    /// The swapchain image acquired for this frame, if any.
    pub image_num: Option<usize>,
    /// An acquisition is waiting to be submitted.
    pub acquire_future: bool,
    /// How many vertex buffers this frame has filled.
    pub vertex_buffers: usize,
    /// A recorded command buffer is waiting to be submitted.
    pub command_buffer: bool,
}

impl FrameData {
    /// Nothing acquired, filled or recorded yet.
    pub open spec fn spec_empty() -> FrameData {
        FrameData { image_num: None, acquire_future: false, vertex_buffers: 0, command_buffer: false }
    }

    /// The frame data at the start of a frame: nothing acquired, filled or recorded.
    pub fn empty() -> (data: FrameData)
        ensures
            data == FrameData::spec_empty(),
            data.image_num is None,
            !data.acquire_future,
            data.vertex_buffers == 0,
            !data.command_buffer,
    {
        FrameData { image_num: None, acquire_future: false, vertex_buffers: 0, command_buffer: false }
    }
}

/// The pipeline state that is set at draw time rather than baked into the pipeline.
#[derive(Clone, Copy, Debug, PartialEq, Eq)]
pub struct DynamicState {
    /// The viewport, once the framebuffers have been set up.
    pub viewport: Option<Viewport>,
}

/// Where the render loop stands.
#[derive(Clone, Copy, Debug, PartialEq, Eq)]
pub enum Phase {
    /// Between two frames.
    Idle,
    /// Waiting for finished GPU work to be released.
    FreeingResources,
    /// Waiting for the swapchain to be rebuilt.
    RecreatingSwapchain,
    /// Waiting for a swapchain image to draw upon.
    AcquiringImage,
    /// Waiting for this frame's vertex buffers.
    CreatingVertexBuffers,
    /// Waiting for this frame's command buffer.
    BuildingCommandBuffer,
    /// Waiting for the submission to be flushed.
    Submitting,
    /// Waiting for the window's events.
    PollingEvents,
}

/// How an attempt to rebuild the swapchain ended.
#[derive(Clone, Copy, Debug, PartialEq, Eq)]
pub enum SwapchainRecreation {
    /// The window has no inner size any more; nothing was rebuilt.
    WindowGone,
    /// The surface rejected the window's size (this happens while the user is
    /// dragging the window's border); nothing was rebuilt.
    UnsupportedDimensions,
    /// A new swapchain was built, and the framebuffers with it.
    Recreated(FramebufferSetup),
}

/// How flushing a frame's submission ended.
#[derive(Clone, Copy, Debug, PartialEq, Eq)]
pub enum FlushOutcome {
    /// The work was submitted and the image queued for presentation.
    Flushed,
    /// The swapchain no longer matches the surface.
    OutOfDate,
    /// Any other error; it is reported and the frame is dropped.
    Failed,
}

/// How acquiring a swapchain image ended.
#[derive(Clone, Copy, Debug, PartialEq, Eq)]
pub enum AcquireOutcome {
    /// The swapchain image at this position may be drawn upon.
    Acquired(usize),
    /// The swapchain no longer matches the surface.
    OutOfDate,
}

/// What the caller reports back to the machine.
#[derive(Clone, Copy, Debug, PartialEq, Eq)]
pub enum FrameEvent {
    /// A new frame begins.
    Start,
    /// Finished GPU work has been released.
    ResourcesFreed,
    /// The swapchain rebuild ended this way.
    SwapchainRecreated(SwapchainRecreation),
    /// Acquiring a swapchain image ended this way.
    ImageAcquired(AcquireOutcome),
    /// The frame's two vertex buffers are filled.
    VertexBuffersCreated,
    /// The frame's command buffer is recorded.
    CommandBufferBuilt,
    /// The submission was flushed with this outcome.
    Flushed(FlushOutcome),
    /// The window's events yielded these flags.
    EventsPolled(EventFlags),
}

/// What becomes of the handle on the previous frame's GPU work.
#[derive(Clone, Copy, Debug, PartialEq, Eq)]
pub enum PreviousFrameEnd {
    /// Keep the flushed submission.
    Flushed,
    /// Start again from "now", because the swapchain is out of date.
    Restarted,
    /// Report the flush error, then start again from "now".
    RestartedAfterError,
}

/// What the caller is to do next.
#[derive(Clone, Copy, Debug, PartialEq, Eq)]
pub enum FrameAction {
    /// Release the GPU work that has finished.
    FreeUnusedResources,
    /// Rebuild the swapchain for the window's current size.
    RecreateSwapchain,
    /// Acquire the next swapchain image, waiting without time limit.
    AcquireImage,
    /// Fill the frame's two vertex buffers.
    CreateVertexBuffers,
    /// Record a command buffer that clears framebuffer `framebuffer` and draws
    /// the given vertex buffers, in this order.
    BuildCommandBuffer { framebuffer: usize, first_vertex_buffer: usize, second_vertex_buffer: usize },
    /// Submit the command buffer after the acquisition and present image `image_num`.
    SubmitAndPresent { image_num: usize },
    /// Store the previous frame's end as told, then poll the window's events.
    PollEvents { previous_frame_end: PreviousFrameEnd },
    /// The frame is over (drawn, or ended early); stop the loop if `stop`.
    FrameFinished { stop: bool },
}

/// The state of the render loop.
#[derive(Clone, Copy, Debug, PartialEq, Eq)]
pub struct AppState {
    /// The swapchain must be rebuilt at the start of the next frame.
    pub recreate_swapchain: bool,
    /// The window asked to close.
    pub done: bool,
    pub frame_data: FrameData,
    /// One framebuffer per swapchain image.
    pub framebuffer_count: usize,
    pub dynamic_state: DynamicState,
    pub phase: Phase,
    /// How many frames have been run, whether drawn or ended early.
    pub frame_counter: i32,
}

/// The frame ends with this event: the window's events were taken, or the
/// frame was cut short because the swapchain could not be rebuilt or is out
/// of date.
pub open spec fn ends_frame(event: FrameEvent) -> bool {
    match event {
        FrameEvent::EventsPolled(_) => true,
        FrameEvent::SwapchainRecreated(r) => !(r is Recreated),
        FrameEvent::ImageAcquired(a) => a is OutOfDate,
        _ => false,
    }
}

impl AppState {
    /// The state invariant: framebuffers and the viewport are set up, and the
    /// frame counter is not negative.
    pub open spec fn wf(self) -> bool {
        &&& self.framebuffer_count >= 1
        &&& self.dynamic_state.viewport is Some
        &&& self.frame_counter >= 0
    }

    /// The state right after start-up, with the framebuffers of `setup`.
    pub open spec fn spec_new(setup: FramebufferSetup) -> AppState {
        AppState {
            recreate_swapchain: false,
            done: false,
            frame_data: FrameData::spec_empty(),
            framebuffer_count: setup.framebuffer_count,
            dynamic_state: DynamicState { viewport: Some(setup.viewport) },
            phase: Phase::Idle,
            frame_counter: 0,
        }
    }

    /// Whether the machine takes `event` now. Besides the event expected in
    /// the current phase, this holds what the work announced by the event's
    /// answer needs: at least one new framebuffer after a rebuild, an acquired
    /// image that has a framebuffer before a command buffer is recorded, a
    /// pending acquisition before submitting, and room in the frame counter
    /// before a frame ends.
    pub open spec fn spec_accepts(self, event: FrameEvent) -> bool {
        &&& match event {
            FrameEvent::Start => self.phase == Phase::Idle,
            FrameEvent::ResourcesFreed => self.phase == Phase::FreeingResources,
            FrameEvent::SwapchainRecreated(r) => {
                &&& self.phase == Phase::RecreatingSwapchain
                &&& (r matches SwapchainRecreation::Recreated(s) ==> s.framebuffer_count >= 1)
            },
            FrameEvent::ImageAcquired(_) => self.phase == Phase::AcquiringImage,
            FrameEvent::VertexBuffersCreated => {
                &&& self.phase == Phase::CreatingVertexBuffers
                &&& self.frame_data.image_num matches Some(i)
                &&& i < self.framebuffer_count
            },
            FrameEvent::CommandBufferBuilt => {
                &&& self.phase == Phase::BuildingCommandBuffer
                &&& self.frame_data.acquire_future
                &&& self.frame_data.image_num is Some
            },
            FrameEvent::Flushed(_) => self.phase == Phase::Submitting,
            FrameEvent::EventsPolled(_) => self.phase == Phase::PollingEvents,
        }
        &&& ends_frame(event) ==> self.frame_counter < i32::MAX
    }

    /// The state after the current frame is cut short: the frame's work is
    /// dropped and the loop goes on (or stops, if the window asked to close)
    /// with the next frame.
    pub open spec fn spec_end_frame_early(self) -> AppState {
        AppState { phase: Phase::Idle, frame_counter: (self.frame_counter + 1) as i32, ..self }
    }

    /// The next state and the action to perform, for an accepted event.
    pub open spec fn spec_step(self, event: FrameEvent) -> (AppState, FrameAction) {
        match event {
            FrameEvent::Start => (
                AppState { frame_data: FrameData::spec_empty(), phase: Phase::FreeingResources, ..self },
                FrameAction::FreeUnusedResources,
            ),
            FrameEvent::ResourcesFreed => if self.recreate_swapchain {
                (AppState { phase: Phase::RecreatingSwapchain, ..self }, FrameAction::RecreateSwapchain)
            } else {
                (AppState { phase: Phase::AcquiringImage, ..self }, FrameAction::AcquireImage)
            },
            FrameEvent::SwapchainRecreated(r) => match r {
                SwapchainRecreation::Recreated(setup) => (
                    AppState {
                        framebuffer_count: setup.framebuffer_count,
                        dynamic_state: DynamicState { viewport: Some(setup.viewport) },
                        recreate_swapchain: false,
                        phase: Phase::AcquiringImage,
                        ..self
                    },
                    FrameAction::AcquireImage,
                ),
                _ => (self.spec_end_frame_early(), FrameAction::FrameFinished { stop: self.done }),
            },
            FrameEvent::ImageAcquired(a) => match a {
                AcquireOutcome::Acquired(i) => (
                    AppState {
                        frame_data: FrameData { image_num: Some(i), acquire_future: true, ..self.frame_data },
                        phase: Phase::CreatingVertexBuffers,
                        ..self
                    },
                    FrameAction::CreateVertexBuffers,
                ),
                AcquireOutcome::OutOfDate => (
                    AppState { recreate_swapchain: true, ..self.spec_end_frame_early() },
                    FrameAction::FrameFinished { stop: self.done },
                ),
            },
            FrameEvent::VertexBuffersCreated => (
                AppState {
                    frame_data: FrameData { vertex_buffers: 2, ..self.frame_data },
                    phase: Phase::BuildingCommandBuffer,
                    ..self
                },
                FrameAction::BuildCommandBuffer {
                    framebuffer: self.frame_data.image_num.unwrap(),
                    first_vertex_buffer: 0,
                    second_vertex_buffer: 1,
                },
            ),
            FrameEvent::CommandBufferBuilt => (
                AppState {
                    frame_data: FrameData { command_buffer: true, ..self.frame_data },
                    phase: Phase::Submitting,
                    ..self
                },
                FrameAction::SubmitAndPresent { image_num: self.frame_data.image_num.unwrap() },
            ),
            FrameEvent::Flushed(outcome) => (
                AppState {
                    frame_data: FrameData { acquire_future: false, command_buffer: false, ..self.frame_data },
                    recreate_swapchain: outcome == FlushOutcome::OutOfDate || self.recreate_swapchain,
                    phase: Phase::PollingEvents,
                    ..self
                },
                FrameAction::PollEvents {
                    previous_frame_end: match outcome {
                        FlushOutcome::Flushed => PreviousFrameEnd::Flushed,
                        FlushOutcome::OutOfDate => PreviousFrameEnd::Restarted,
                        FlushOutcome::Failed => PreviousFrameEnd::RestartedAfterError,
                    },
                },
            ),
            FrameEvent::EventsPolled(flags) => (
                AppState {
                    recreate_swapchain: flags.recreate_swapchain || self.recreate_swapchain,
                    done: flags.done,
                    ..self.spec_end_frame_early()
                },
                FrameAction::FrameFinished { stop: flags.done },
            ),
        }
    }

    /// The state at start-up, once the framebuffers of `setup` exist: no
    /// swapchain rebuild pending, not done, empty frame data, the viewport of
    /// `setup`, between frames, no frame run.
    pub fn new(setup: FramebufferSetup) -> (state: AppState)
        requires
            setup.framebuffer_count >= 1,
        ensures
            state == AppState::spec_new(setup),
            state.wf(),
            state.framebuffer_count == setup.framebuffer_count,
            state.dynamic_state.viewport == Some(setup.viewport),
            !state.recreate_swapchain,
            !state.done,
            state.phase == Phase::Idle,
            state.frame_counter == 0,
            state.frame_data.image_num is None,
            !state.frame_data.acquire_future,
            state.frame_data.vertex_buffers == 0,
            !state.frame_data.command_buffer,
    {
        AppState {
            recreate_swapchain: false,
            done: false,
            frame_data: FrameData::empty(),
            framebuffer_count: setup.framebuffer_count,
            dynamic_state: DynamicState { viewport: Some(setup.viewport) },
            phase: Phase::Idle,
            frame_counter: 0,
        }
    }

    /// Whether the machine takes `event` now (see `spec_accepts`).
    pub fn accepts(&self, event: &FrameEvent) -> (r: bool)
        ensures
            r == self.spec_accepts(*event),
    {
        let ends = match event {
            FrameEvent::EventsPolled(_) => true,
            FrameEvent::SwapchainRecreated(r) => !matches!(r, SwapchainRecreation::Recreated(_)),
            FrameEvent::ImageAcquired(a) => matches!(a, AcquireOutcome::OutOfDate),
            _ => false,
        };
        let expected = match event {
            FrameEvent::Start => matches!(self.phase, Phase::Idle),
            FrameEvent::ResourcesFreed => matches!(self.phase, Phase::FreeingResources),
            FrameEvent::SwapchainRecreated(r) => {
                matches!(self.phase, Phase::RecreatingSwapchain) && match r {
                    SwapchainRecreation::Recreated(s) => s.framebuffer_count >= 1,
                    _ => true,
                }
            },
            FrameEvent::ImageAcquired(_) => matches!(self.phase, Phase::AcquiringImage),
            FrameEvent::VertexBuffersCreated => {
                matches!(self.phase, Phase::CreatingVertexBuffers) && match self.frame_data.image_num {
                    Some(i) => i < self.framebuffer_count,
                    None => false,
                }
            },
            FrameEvent::CommandBufferBuilt => {
                matches!(self.phase, Phase::BuildingCommandBuffer) && self.frame_data.acquire_future
                    && self.frame_data.image_num.is_some()
            },
            FrameEvent::Flushed(_) => matches!(self.phase, Phase::Submitting),
            FrameEvent::EventsPolled(_) => matches!(self.phase, Phase::PollingEvents),
        };
        expected && (!ends || self.frame_counter < i32::MAX)
    }

    /// Cuts the current frame short: back between frames, one more frame run.
    fn end_frame_early(&mut self)
        requires
            old(self).frame_counter < i32::MAX,
        ensures
            *final(self) == old(self).spec_end_frame_early(),
    {
        self.phase = Phase::Idle;
        self.frame_counter = self.frame_counter + 1;
    }

    /// Advances the machine by one event and returns the action to perform.
    ///
    /// A frame goes: `Start` (the frame data is cleared; free finished work),
    /// `ResourcesFreed` (rebuild the swapchain if a rebuild is pending, else
    /// acquire an image), `SwapchainRecreated` (a new swapchain brings its
    /// framebuffers and viewport, clears the pending rebuild, and the frame
    /// goes on to acquire an image; if the window is gone or its size is not
    /// supported, the frame ends without drawing and the rebuild stays
    /// pending), `ImageAcquired` (an acquired image becomes the frame's image
    /// and the vertex buffers are filled; an out-of-date swapchain ends the
    /// frame without drawing and asks for a rebuild), `VertexBuffersCreated`
    /// (record commands for the acquired image's framebuffer, drawing vertex
    /// buffers 0 and 1), `CommandBufferBuilt` (submit and present the acquired
    /// image), `Flushed` (the acquisition and command buffer are used up; an
    /// out-of-date swapchain asks for a rebuild; decide what the previous
    /// frame's end becomes, then poll events), `EventsPolled` (a polled resize
    /// asks for a rebuild, which adds to any rebuild already asked for; the
    /// loop stops if the window asked to close). Every frame, whether drawn or
    /// ended early, adds one to the frame counter.
    pub fn step(&mut self, event: FrameEvent) -> (action: FrameAction)
        requires
            old(self).spec_accepts(event),
        ensures
            (*final(self), action) == old(self).spec_step(event),
            old(self).wf() ==> final(self).wf(),
    {
        match event {
            FrameEvent::Start => {
                self.frame_data = FrameData::empty();
                self.phase = Phase::FreeingResources;
                FrameAction::FreeUnusedResources
            },
            FrameEvent::ResourcesFreed => {
                if self.recreate_swapchain {
                    self.phase = Phase::RecreatingSwapchain;
                    FrameAction::RecreateSwapchain
                } else {
                    self.phase = Phase::AcquiringImage;
                    FrameAction::AcquireImage
                }
            },
            FrameEvent::SwapchainRecreated(r) => {
                match r {
                    SwapchainRecreation::Recreated(setup) => {
                        self.framebuffer_count = setup.framebuffer_count;
                        self.dynamic_state = DynamicState { viewport: Some(setup.viewport) };
                        self.recreate_swapchain = false;
                        self.phase = Phase::AcquiringImage;
                        FrameAction::AcquireImage
                    },
                    _ => {
                        self.end_frame_early();
                        FrameAction::FrameFinished { stop: self.done }
                    },
                }
            },
            FrameEvent::ImageAcquired(a) => {
                match a {
                    AcquireOutcome::Acquired(i) => {
                        self.frame_data.image_num = Some(i);
                        self.frame_data.acquire_future = true;
                        self.phase = Phase::CreatingVertexBuffers;
                        FrameAction::CreateVertexBuffers
                    },
                    AcquireOutcome::OutOfDate => {
                        self.end_frame_early();
                        self.recreate_swapchain = true;
                        FrameAction::FrameFinished { stop: self.done }
                    },
                }
            },
            FrameEvent::VertexBuffersCreated => {
                let framebuffer = match self.frame_data.image_num {
                    Some(i) => i,
                    None => 0,
                };
                self.frame_data.vertex_buffers = 2;
                self.phase = Phase::BuildingCommandBuffer;
                FrameAction::BuildCommandBuffer { framebuffer, first_vertex_buffer: 0, second_vertex_buffer: 1 }
            },
            FrameEvent::CommandBufferBuilt => {
                let image_num = match self.frame_data.image_num {
                    Some(i) => i,
                    None => 0,
                };
                self.frame_data.command_buffer = true;
                self.phase = Phase::Submitting;
                FrameAction::SubmitAndPresent { image_num }
            },
            FrameEvent::Flushed(outcome) => {
                self.frame_data.acquire_future = false;
                self.frame_data.command_buffer = false;
                self.phase = Phase::PollingEvents;
                let previous_frame_end = match outcome {
                    FlushOutcome::Flushed => PreviousFrameEnd::Flushed,
                    FlushOutcome::OutOfDate => {
                        self.recreate_swapchain = true;
                        PreviousFrameEnd::Restarted
                    },
                    FlushOutcome::Failed => PreviousFrameEnd::RestartedAfterError,
                };
                FrameAction::PollEvents { previous_frame_end }
            },
            FrameEvent::EventsPolled(flags) => {
                self.end_frame_early();
                self.recreate_swapchain = flags.recreate_swapchain || self.recreate_swapchain;
                self.done = flags.done;
                FrameAction::FrameFinished { stop: flags.done }
            },
        }
    }
}

} // verus!
