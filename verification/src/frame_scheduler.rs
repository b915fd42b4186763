//! The frame scheduler: what to do next in a redraw tick.
//!
//! The scheduler performs no GPU or window call itself. It is handed one
//! event at a time, a window signal or the outcome of the work it asked for
//! last, and answers with the next piece of work. A tick starts with
//! `Event::RedrawEventsCleared` and ends when the answer is `Action::Wait`.

use crate::render_output::{
    image_of, Extent, RenderOutput, Swapchain, SwapchainCreateInfo, SwapchainError, SwapchainImage,
};
use vstd::prelude::*;

verus! {

/// A default 2D color view of one swapchain image.
#[derive(Clone, Copy, Debug, PartialEq, Eq, Structural)]
pub struct ImageView {
    pub image: SwapchainImage,
}

/// The area of the framebuffer that is drawn to. It starts at the origin.
#[derive(Clone, Copy, Debug, PartialEq, Eq, Structural)]
pub struct Viewport {
    pub dimensions: Extent,
}

/// What happens to an attachment's contents when rendering begins.
#[derive(Clone, Copy, Debug, PartialEq, Eq, Structural)]
pub enum LoadOp {
    Load,
    Clear,
    DontCare,
}

/// What happens to an attachment's contents when rendering ends.
#[derive(Clone, Copy, Debug, PartialEq, Eq, Structural)]
pub enum StoreOp {
    Store,
    DontCare,
}

/// The color attachment that a frame renders to.
#[derive(Clone, Copy, Debug, PartialEq, Eq, Structural)]
pub struct RenderingAttachment {
    pub view: ImageView,
    pub load_op: LoadOp,
    pub store_op: StoreOp,
}

/// A non-indexed draw call.
#[derive(Clone, Copy, Debug, PartialEq, Eq, Structural)]
pub struct Draw {
    pub vertex_count: u32,
    pub instance_count: u32,
    pub first_vertex: u32,
    pub first_instance: u32,
}

/// The completion signal of a frame's GPU work.
#[derive(Clone, Copy, Debug, PartialEq, Eq, Structural)]
pub enum FrameSignal {
    /// A placeholder that is complete from the start.
    Completed,
    /// The fence of the submission with this serial number.
    InFlight(u64),
}

/// Why an image could not be acquired.
#[derive(Clone, Copy, Debug, PartialEq, Eq, Structural)]
pub enum AcquireError {
    /// The surface changed and the swapchain is unusable.
    OutOfDate,
    Other,
}

/// Why a frame could not be presented.
#[derive(Clone, Copy, Debug, PartialEq, Eq, Structural)]
pub enum FlushError {
    /// The surface changed and the swapchain is unusable.
    OutOfDate,
    Other,
}

/// A successful acquisition.
#[derive(Clone, Copy, Debug, PartialEq, Eq, Structural)]
pub struct AcquiredImage {
    pub image_index: u32,
    /// The image is usable, but the swapchain no longer matches the surface.
    pub suboptimal: bool,
}

/// Why the scheduler gave up.
#[derive(Clone, Copy, Debug, PartialEq, Eq, Structural)]
pub enum FrameError {
    /// The swapchain could not be recreated, and not for want of a
    /// supported extent.
    Recreate(SwapchainError),
    /// Acquisition failed, and not because the swapchain is out of date.
    Acquire,
    /// The acquired image is none of the swapchain's.
    ImageIndexOutOfRange,
    /// The event answers no work that the scheduler asked for.
    UnexpectedEvent,
}

/// Where in a tick the scheduler is: the work that it waits for.
#[derive(Clone, Copy, Debug, PartialEq, Eq, Structural)]
pub enum Phase {
    /// Between ticks.
    Idle,
    /// The previous frame's bookkeeping is being released.
    Cleaning,
    /// The window is being asked for its size.
    Measuring,
    /// The swapchain is being recreated at `extent`.
    Recreating { extent: Extent },
    Acquiring,
    Recording { image_index: u32 },
    Submitted { image_index: u32 },
    Presenting { image_index: u32 },
    /// The loop has ended, on a close request or a fatal error.
    Stopped,
}

/// What the scheduler is told.
#[derive(Clone, Copy, Debug, PartialEq, Eq)]
pub enum Event {
    /// The window was resized.
    Resized,
    /// The user asked to close the window.
    CloseRequested,
    /// All pending window events are handled: time to draw.
    RedrawEventsCleared,
    /// Answers `Action::Cleanup`.
    CleanedUp,
    /// Answers `Action::QueryExtent`.
    DrawableExtent(Extent),
    /// Answers `Action::Recreate`: the image count of the new swapchain, or
    /// the refusal.
    Recreated(Result<u32, SwapchainError>),
    /// Answers `Action::Acquire`.
    Acquired(Result<AcquiredImage, AcquireError>),
    /// Answers `Action::Record`.
    Recorded,
    /// Answers `Action::Submit`.
    Submitted,
    /// Answers `Action::Present`.
    Presented(Result<(), FlushError>),
}

/// What the scheduler asks for.
#[derive(Clone, Copy, Debug, PartialEq, Eq, Structural)]
pub enum Action {
    /// Nothing until the next window event.
    Wait,
    /// Leave the event loop.
    Exit,
    /// Fail with this error.
    Abort(FrameError),
    /// Poll `signal` and release what the GPU has finished with. Does not
    /// wait.
    Cleanup { signal: FrameSignal },
    /// Ask the window for its inner size.
    QueryExtent,
    /// Replace the swapchain by one with these parameters.
    Recreate(SwapchainCreateInfo),
    /// Acquire the next image of this swapchain, without a timeout.
    Acquire { swapchain: u64 },
    /// Record one command buffer, for a single submission: begin rendering
    /// to `attachment`, set `viewport`, bind the pipeline and the vertex
    /// buffer, issue `draw`, end rendering.
    Record { attachment: RenderingAttachment, viewport: Viewport, draw: Draw },
    /// Submit the recorded commands to the present queue, to run after
    /// `after` and after the acquisition of image `image_index`.
    Submit { after: FrameSignal, image_index: u32 },
    /// Present the image on the same queue, then signal a fence and flush.
    Present { swapchain: u64, image_index: u32 },
}

/// The serial number that follows `serial`.
pub open spec fn next_serial(serial: u64) -> u64 {
    if serial == u64::MAX {
        0
    } else {
        (serial + 1) as u64
    }
}

/// The scheduler's state, as plain values.
#[derive(Clone, Copy, Debug, PartialEq, Eq, Structural)]
pub struct SchedulerState {
    pub phase: Phase,
    /// The swapchain is stale and is recreated at the start of the next tick.
    pub recreate_swapchain: bool,
    /// The signal of the last frame that was presented, or the placeholder.
    pub previous_frame_end: FrameSignal,
    /// The serial number of the next submission.
    pub next_serial: u64,
    pub swapchain: Swapchain,
    pub image_count: u32,
    /// The number of vertices in the vertex buffer.
    pub vertex_count: u32,
}

impl SchedulerState {
    /// The state can be reached: the swapchain has an image, the image that
    /// a frame works on is one of the swapchain's, no swapchain is asked for
    /// with an empty extent, and the next submission's signal is not yet
    /// held.
    pub open spec fn valid(self) -> bool {
        &&& self.image_count >= 1
        &&& self.previous_frame_end != FrameSignal::InFlight(self.next_serial)
        &&& match self.phase {
            Phase::Recreating { extent } => !extent.empty(),
            Phase::Recording { image_index } => image_index < self.image_count,
            Phase::Submitted { image_index } => image_index < self.image_count,
            Phase::Presenting { image_index } => image_index < self.image_count,
            _ => true,
        }
    }

    /// The view of image `image_index` of the swapchain in use.
    pub open spec fn view_of(self, image_index: u32) -> ImageView {
        ImageView { image: image_of(self.swapchain, image_index as int) }
    }

    /// The attachment of a frame that draws to image `image_index`: the
    /// image's view, cleared at the start and stored at the end.
    pub open spec fn attachment_of(self, image_index: u32) -> RenderingAttachment {
        RenderingAttachment {
            view: self.view_of(image_index),
            load_op: LoadOp::Clear,
            store_op: StoreOp::Store,
        }
    }

    /// One instance of the whole vertex buffer.
    pub open spec fn draw(self) -> Draw {
        Draw {
            vertex_count: self.vertex_count,
            instance_count: 1,
            first_vertex: 0,
            first_instance: 0,
        }
    }

    /// The viewport that covers the swapchain in use.
    pub open spec fn viewport(self) -> Viewport {
        Viewport { dimensions: self.swapchain.create_info.image_extent }
    }

    /// The scheduler gives up with `error`.
    pub open spec fn abort(self, error: FrameError) -> (SchedulerState, Action) {
        (SchedulerState { phase: Phase::Stopped, ..self }, Action::Abort(error))
    }

    /// The tick ends here.
    pub open spec fn rest(self) -> (SchedulerState, Action) {
        (SchedulerState { phase: Phase::Idle, ..self }, Action::Wait)
    }

    /// Between ticks: window signals are taken, and a redraw starts a tick
    /// with the cleanup of the previous frame.
    pub open spec fn step_idle(self, event: Event) -> (SchedulerState, Action) {
        match event {
            Event::Resized => (SchedulerState { recreate_swapchain: true, ..self }, Action::Wait),
            Event::CloseRequested => (
                SchedulerState { phase: Phase::Stopped, ..self },
                Action::Exit,
            ),
            Event::RedrawEventsCleared => (
                SchedulerState { phase: Phase::Cleaning, ..self },
                Action::Cleanup { signal: self.previous_frame_end },
            ),
            _ => self.abort(FrameError::UnexpectedEvent),
        }
    }

    /// After cleanup: a stale swapchain is recreated first, at the window's
    /// size; else the next image is acquired.
    pub open spec fn step_cleaning(self, event: Event) -> (SchedulerState, Action) {
        match event {
            Event::CleanedUp => if self.recreate_swapchain {
                (SchedulerState { phase: Phase::Measuring, ..self }, Action::QueryExtent)
            } else {
                (
                    SchedulerState { phase: Phase::Acquiring, ..self },
                    Action::Acquire { swapchain: self.swapchain.id },
                )
            },
            _ => self.abort(FrameError::UnexpectedEvent),
        }
    }

    /// With the window's size: an empty extent is not asked for, and the
    /// tick is skipped.
    pub open spec fn step_measuring(self, event: Event) -> (SchedulerState, Action) {
        match event {
            Event::DrawableExtent(extent) => if extent.empty() {
                self.rest()
            } else {
                (
                    SchedulerState { phase: Phase::Recreating { extent }, ..self },
                    Action::Recreate(self.swapchain.create_info.with_extent(extent)),
                )
            },
            _ => self.abort(FrameError::UnexpectedEvent),
        }
    }

    /// With the answer to the recreation at `extent`: a new swapchain
    /// replaces the old one and the tick goes on; an unsupported extent
    /// skips the tick and changes nothing; any other refusal is fatal.
    pub open spec fn step_recreating(self, extent: Extent, event: Event) -> (
        SchedulerState,
        Action,
    ) {
        match event {
            Event::Recreated(reply) => match self.swapchain.recreated(extent, reply) {
                Ok((swapchain, image_count)) => (
                    SchedulerState {
                        phase: Phase::Acquiring,
                        recreate_swapchain: false,
                        swapchain,
                        image_count,
                        ..self
                    },
                    Action::Acquire { swapchain: swapchain.id },
                ),
                Err(error) => if error.recoverable() {
                    self.rest()
                } else {
                    self.abort(FrameError::Recreate(error))
                },
            },
            _ => self.abort(FrameError::UnexpectedEvent),
        }
    }

    /// With the outcome of the acquisition: an image is drawn to, and a
    /// suboptimal one marks the swapchain stale; an out-of-date swapchain
    /// is marked stale and the tick ends; any other failure is fatal.
    pub open spec fn step_acquiring(self, event: Event) -> (SchedulerState, Action) {
        match event {
            Event::Acquired(Ok(acquired)) => if acquired.image_index < self.image_count {
                (
                    SchedulerState {
                        phase: Phase::Recording { image_index: acquired.image_index },
                        recreate_swapchain: self.recreate_swapchain || acquired.suboptimal,
                        ..self
                    },
                    Action::Record {
                        attachment: self.attachment_of(acquired.image_index),
                        viewport: self.viewport(),
                        draw: self.draw(),
                    },
                )
            } else {
                self.abort(FrameError::ImageIndexOutOfRange)
            },
            Event::Acquired(Err(AcquireError::OutOfDate)) => SchedulerState {
                recreate_swapchain: true,
                ..self
            }.rest(),
            Event::Acquired(Err(AcquireError::Other)) => self.abort(FrameError::Acquire),
            _ => self.abort(FrameError::UnexpectedEvent),
        }
    }

    /// With the commands recorded: they are submitted behind the previous
    /// frame's signal.
    pub open spec fn step_recording(self, image_index: u32, event: Event) -> (
        SchedulerState,
        Action,
    ) {
        match event {
            Event::Recorded => (
                SchedulerState { phase: Phase::Submitted { image_index }, ..self },
                Action::Submit { after: self.previous_frame_end, image_index },
            ),
            _ => self.abort(FrameError::UnexpectedEvent),
        }
    }

    /// With the submission queued: the same image is presented.
    pub open spec fn step_submitted(self, image_index: u32, event: Event) -> (
        SchedulerState,
        Action,
    ) {
        match event {
            Event::Submitted => (
                SchedulerState { phase: Phase::Presenting { image_index }, ..self },
                Action::Present { swapchain: self.swapchain.id, image_index },
            ),
            _ => self.abort(FrameError::UnexpectedEvent),
        }
    }

    /// With the outcome of the presentation: the frame's signal is kept for
    /// the next tick; on failure the placeholder takes its place, and an
    /// out-of-date swapchain is marked stale as well.
    pub open spec fn step_presenting(self, event: Event) -> (SchedulerState, Action) {
        match event {
            Event::Presented(Ok(_)) => SchedulerState {
                previous_frame_end: FrameSignal::InFlight(self.next_serial),
                next_serial: next_serial(self.next_serial),
                ..self
            }.rest(),
            Event::Presented(Err(FlushError::OutOfDate)) => SchedulerState {
                recreate_swapchain: true,
                previous_frame_end: FrameSignal::Completed,
                ..self
            }.rest(),
            Event::Presented(Err(FlushError::Other)) => SchedulerState {
                previous_frame_end: FrameSignal::Completed,
                ..self
            }.rest(),
            _ => self.abort(FrameError::UnexpectedEvent),
        }
    }

    /// The state after `event`, and what to do next.
    pub open spec fn step(self, event: Event) -> (SchedulerState, Action) {
        match self.phase {
            Phase::Idle => self.step_idle(event),
            Phase::Cleaning => self.step_cleaning(event),
            Phase::Measuring => self.step_measuring(event),
            Phase::Recreating { extent } => self.step_recreating(extent, event),
            Phase::Acquiring => self.step_acquiring(event),
            Phase::Recording { image_index } => self.step_recording(image_index, event),
            Phase::Submitted { image_index } => self.step_submitted(image_index, event),
            Phase::Presenting { image_index } => self.step_presenting(event),
            Phase::Stopped => (self, Action::Exit),
        }
    }
}

/// Sets up what depends on the size of the swapchain's images: the viewport
/// takes the size of the first image, and each image gets a view.
pub fn window_size_dependent_setup(images: &[SwapchainImage], viewport: &mut Viewport) -> (views:
    Vec<ImageView>)
    requires
        images@.len() > 0,
    ensures
        final(viewport).dimensions == images@[0].extent,
        views@.len() == images@.len(),
        forall|i: int|
            0 <= i < images@.len() ==> #[trigger] views@[i] == (ImageView { image: images@[i] }),
{
    viewport.dimensions = images[0].extent;
    let mut views: Vec<ImageView> = Vec::new();
    let mut i: usize = 0;
    while i < images.len()
        invariant
            i <= images@.len(),
            views@.len() == i,
            forall|j: int| 0 <= j < i ==> #[trigger] views@[j] == (ImageView { image: images@[j] }),
        decreases images@.len() - i,
    {
        views.push(ImageView { image: images[i] });
        i += 1;
    }
    views
}

/// Schedules the frames of one window: it owns the swapchain in use, the
/// views of its images, the viewport, and the previous frame's signal.
#[derive(Clone, Debug)]
pub struct FrameScheduler {
    phase: Phase,
    recreate_swapchain: bool,
    previous_frame_end: FrameSignal,
    next_serial: u64,
    render_output: RenderOutput,
    attachment_image_views: Vec<ImageView>,
    viewport: Viewport,
    vertex_count: u32,
}

impl View for FrameScheduler {
    type V = SchedulerState;

    closed spec fn view(&self) -> SchedulerState {
        SchedulerState {
            phase: self.phase,
            recreate_swapchain: self.recreate_swapchain,
            previous_frame_end: self.previous_frame_end,
            next_serial: self.next_serial,
            swapchain: self.render_output.swapchain,
            image_count: self.render_output.images@.len() as u32,
            vertex_count: self.vertex_count,
        }
    }
}

impl FrameScheduler {
    /// The state is valid, the output holds the images of its swapchain,
    /// each image has its view, and the viewport covers the swapchain.
    pub closed spec fn wf(self) -> bool {
        &&& self@.valid()
        &&& self.render_output.wf()
        &&& self.attachment_image_views@.len() == self.render_output.images@.len()
        &&& forall|i: int|
            0 <= i < self.attachment_image_views@.len()
                ==> #[trigger] self.attachment_image_views@[i] == (ImageView {
                image: self.render_output.images@[i],
            })
        &&& self.viewport == self@.viewport()
    }

    /// The views that the scheduler holds: one of each image of the
    /// swapchain in use, in index order.
    pub closed spec fn views(self) -> Seq<ImageView> {
        self.attachment_image_views@
    }

    /// A well-formed scheduler holds a valid state, and no view of an image
    /// of any other swapchain than the one in use.
    pub proof fn lemma_views_belong_to_swapchain(self)
        requires
            self.wf(),
        ensures
            self@.valid(),
            self.views().len() == self@.image_count,
            forall|i: int|
                0 <= i < self@.image_count ==> #[trigger] self.views()[i] == self@.view_of(i as u32),
    {
    }

    /// A scheduler for `render_output` that draws a vertex buffer of
    /// `vertex_count` vertices: between ticks, with nothing stale and the
    /// placeholder for the previous frame's signal.
    pub fn new(render_output: RenderOutput, vertex_count: u32) -> (scheduler: FrameScheduler)
        requires
            render_output.wf(),
        ensures
            scheduler.wf(),
            scheduler@ == (SchedulerState {
                phase: Phase::Idle,
                recreate_swapchain: false,
                previous_frame_end: FrameSignal::Completed,
                next_serial: 0,
                swapchain: render_output.swapchain,
                image_count: render_output.images@.len() as u32,
                vertex_count,
            }),
    {
        let mut viewport = Viewport { dimensions: Extent { width: 0, height: 0 } };
        let attachment_image_views = window_size_dependent_setup(
            render_output.images.as_slice(),
            &mut viewport,
        );
        assert(render_output.images@[0] == image_of(render_output.swapchain, 0));
        FrameScheduler {
            phase: Phase::Idle,
            recreate_swapchain: false,
            previous_frame_end: FrameSignal::Completed,
            next_serial: 0,
            render_output,
            attachment_image_views,
            viewport,
            vertex_count,
        }
    }

    /// The state, as plain values.
    pub fn state(&self) -> (state: SchedulerState)
        requires
            self.wf(),
        ensures
            state == self@,
    {
        SchedulerState {
            phase: self.phase,
            recreate_swapchain: self.recreate_swapchain,
            previous_frame_end: self.previous_frame_end,
            next_serial: self.next_serial,
            swapchain: self.render_output.swapchain,
            image_count: self.render_output.images.len() as u32,
            vertex_count: self.vertex_count,
        }
    }

    /// The views of the images of the swapchain in use.
    pub fn attachment_image_views(&self) -> (views: &[ImageView])
        ensures
            views@ == self.views(),
    {
        self.attachment_image_views.as_slice()
    }

    /// Gives up with `error`.
    fn abort(&mut self, error: FrameError) -> (action: Action)
        requires
            old(self).wf(),
        ensures
            final(self).wf(),
            (final(self)@, action) == old(self)@.abort(error),
    {
        self.phase = Phase::Stopped;
        Action::Abort(error)
    }

    /// Ends the tick.
    fn rest(&mut self) -> (action: Action)
        requires
            old(self).wf(),
        ensures
            final(self).wf(),
            (final(self)@, action) == old(self)@.rest(),
    {
        self.phase = Phase::Idle;
        Action::Wait
    }

    /// Takes the answer to the recreation of the swapchain at `extent`.
    fn recreated(&mut self, extent: Extent, reply: Result<u32, SwapchainError>) -> (action: Action)
        requires
            old(self).wf(),
            old(self)@.phase == (Phase::Recreating { extent }),
        ensures
            final(self).wf(),
            (final(self)@, action) == old(self)@.step_recreating(extent, Event::Recreated(reply)),
    {
        match self.render_output.recreate(extent, reply) {
            Ok(render_output) => {
                let swapchain = render_output.swapchain.id;
                self.attachment_image_views = window_size_dependent_setup(
                    render_output.images.as_slice(),
                    &mut self.viewport,
                );
                assert(render_output.images@[0] == image_of(render_output.swapchain, 0));
                self.render_output = render_output;
                self.recreate_swapchain = false;
                self.phase = Phase::Acquiring;
                Action::Acquire { swapchain }
            },
            Err(error) => {
                if error.is_recoverable() {
                    self.rest()
                } else {
                    self.abort(FrameError::Recreate(error))
                }
            },
        }
    }

    /// Takes the outcome of the acquisition.
    fn acquired(&mut self, outcome: Result<AcquiredImage, AcquireError>) -> (action: Action)
        requires
            old(self).wf(),
            old(self)@.phase == Phase::Acquiring,
        ensures
            final(self).wf(),
            (final(self)@, action) == old(self)@.step_acquiring(Event::Acquired(outcome)),
    {
        match outcome {
            Ok(acquired) => {
                let index = acquired.image_index as usize;
                if index < self.attachment_image_views.len() {
                    if acquired.suboptimal {
                        self.recreate_swapchain = true;
                    }
                    self.phase = Phase::Recording { image_index: acquired.image_index };
                    Action::Record {
                        attachment: RenderingAttachment {
                            view: self.attachment_image_views[index],
                            load_op: LoadOp::Clear,
                            store_op: StoreOp::Store,
                        },
                        viewport: self.viewport,
                        draw: Draw {
                            vertex_count: self.vertex_count,
                            instance_count: 1,
                            first_vertex: 0,
                            first_instance: 0,
                        },
                    }
                } else {
                    self.abort(FrameError::ImageIndexOutOfRange)
                }
            },
            Err(AcquireError::OutOfDate) => {
                self.recreate_swapchain = true;
                self.rest()
            },
            Err(AcquireError::Other) => self.abort(FrameError::Acquire),
        }
    }

    /// Takes the outcome of the presentation.
    fn presented(&mut self, outcome: Result<(), FlushError>) -> (action: Action)
        requires
            old(self).wf(),
            old(self)@.phase is Presenting,
        ensures
            final(self).wf(),
            (final(self)@, action) == old(self)@.step_presenting(Event::Presented(outcome)),
    {
        match outcome {
            Ok(_) => {
                self.previous_frame_end = FrameSignal::InFlight(self.next_serial);
                self.next_serial = self.next_serial.wrapping_add(1);
            },
            Err(FlushError::OutOfDate) => {
                self.recreate_swapchain = true;
                self.previous_frame_end = FrameSignal::Completed;
            },
            Err(FlushError::Other) => {
                self.previous_frame_end = FrameSignal::Completed;
            },
        }
        self.rest()
    }

    /// Takes `event` and answers with what to do next.
    pub fn step(&mut self, event: Event) -> (action: Action)
        requires
            old(self).wf(),
        ensures
            final(self).wf(),
            (final(self)@, action) == old(self)@.step(event),
    {
        match (self.phase, event) {
            (Phase::Stopped, _) => Action::Exit,
            (Phase::Idle, Event::Resized) => {
                self.recreate_swapchain = true;
                Action::Wait
            },
            (Phase::Idle, Event::CloseRequested) => {
                self.phase = Phase::Stopped;
                Action::Exit
            },
            (Phase::Idle, Event::RedrawEventsCleared) => {
                self.phase = Phase::Cleaning;
                Action::Cleanup { signal: self.previous_frame_end }
            },
            (Phase::Cleaning, Event::CleanedUp) => {
                if self.recreate_swapchain {
                    self.phase = Phase::Measuring;
                    Action::QueryExtent
                } else {
                    self.phase = Phase::Acquiring;
                    Action::Acquire { swapchain: self.render_output.swapchain.id }
                }
            },
            (Phase::Measuring, Event::DrawableExtent(extent)) => {
                match self.render_output.recreate_info(extent) {
                    Ok(create_info) => {
                        self.phase = Phase::Recreating { extent };
                        Action::Recreate(create_info)
                    },
                    Err(_) => self.rest(),
                }
            },
            (Phase::Recreating { extent }, Event::Recreated(reply)) => self.recreated(extent, reply),
            (Phase::Acquiring, Event::Acquired(outcome)) => self.acquired(outcome),
            (Phase::Recording { image_index }, Event::Recorded) => {
                self.phase = Phase::Submitted { image_index };
                Action::Submit { after: self.previous_frame_end, image_index }
            },
            (Phase::Submitted { image_index }, Event::Submitted) => {
                self.phase = Phase::Presenting { image_index };
                Action::Present { swapchain: self.render_output.swapchain.id, image_index }
            },
            (Phase::Presenting { image_index: _ }, Event::Presented(outcome)) => self.presented(
                outcome,
            ),
            _ => self.abort(FrameError::UnexpectedEvent),
        }
    }
}

/// Every step of a valid state leads to a valid state.
pub proof fn lemma_step_keeps_validity(state: SchedulerState, event: Event)
    requires
        state.valid(),
    ensures
        state.step(event).0.valid(),
{
}

/// Commands are submitted only once they are recorded, and an image is
/// presented only once its commands are submitted: whatever the event, no
/// other phase answers with a submission or a presentation.
pub proof fn lemma_submission_follows_recording(state: SchedulerState, event: Event)
    ensures
        state.step(event).1 is Submit ==> state.phase is Recording && event == Event::Recorded,
        state.step(event).1 is Present ==> state.phase is Submitted && event == Event::Submitted,
{
}

/// When the presentation engine accepts the recreation, the new swapchain
/// has the requested extent and the image count that the engine reports,
/// keeps every other creation parameter, is another swapchain than the old
/// one, and is no longer stale; the tick goes on to acquire from it.
pub proof fn lemma_accepted_recreation_replaces_swapchain(
    state: SchedulerState,
    extent: Extent,
    image_count: u32,
)
    requires
        state.valid(),
        state.phase == (Phase::Recreating { extent }),
        image_count >= 1,
    ensures
        ({
            let (after, action) = state.step(Event::Recreated(Ok(image_count)));
            &&& after.swapchain.create_info == state.swapchain.create_info.with_extent(extent)
            &&& after.swapchain.create_info.image_extent == extent
            &&& after.swapchain.create_info.min_image_count
                == state.swapchain.create_info.min_image_count
            &&& after.swapchain.create_info.image_format
                == state.swapchain.create_info.image_format
            &&& after.swapchain.id != state.swapchain.id
            &&& after.image_count == image_count
            &&& after.viewport().dimensions == extent
            &&& !after.recreate_swapchain
            &&& after.phase == Phase::Acquiring
            &&& action == Action::Acquire { swapchain: after.swapchain.id }
        }),
{
}

/// When the surface does not support the extent, the tick ends with no more
/// work, and the swapchain, its image count, the stale mark and the previous
/// frame's signal are what they were: the next tick tries again.
pub proof fn lemma_unsupported_extent_changes_nothing(state: SchedulerState, extent: Extent)
    requires
        state.valid(),
        state.phase == (Phase::Recreating { extent }),
    ensures
        state.step(Event::Recreated(Err(SwapchainError::ImageExtentNotSupported))) == (
            SchedulerState { phase: Phase::Idle, ..state },
            Action::Wait,
        ),
{
}

/// A tick that finds the swapchain stale and the window without a pixel, or
/// at an extent that the surface does not support, asks for no image and
/// submits nothing; after it the scheduler is where it was before the tick.
pub proof fn lemma_unsupported_extent_skips_tick(state: SchedulerState, extent: Extent)
    requires
        state.valid(),
        state.phase == Phase::Idle,
        state.recreate_swapchain,
    ensures
        ({
            let (cleaning, first) = state.step(Event::RedrawEventsCleared);
            let (measuring, second) = cleaning.step(Event::CleanedUp);
            let (decided, third) = measuring.step(Event::DrawableExtent(extent));
            &&& first == Action::Cleanup { signal: state.previous_frame_end }
            &&& second == Action::QueryExtent
            &&& extent.empty() ==> decided == state && third == Action::Wait
            &&& !extent.empty() ==> {
                &&& third == Action::Recreate(state.swapchain.create_info.with_extent(extent))
                &&& decided.step(Event::Recreated(Err(SwapchainError::ImageExtentNotSupported)))
                    == (state, Action::Wait)
            }
        }),
{
}

/// When the acquisition finds the swapchain out of date, the tick ends
/// without recording or submitting anything, and the swapchain is marked
/// stale.
pub proof fn lemma_out_of_date_acquisition_ends_tick(state: SchedulerState)
    requires
        state.valid(),
        state.phase == Phase::Acquiring,
    ensures
        state.step(Event::Acquired(Err(AcquireError::OutOfDate))) == (
            SchedulerState { phase: Phase::Idle, recreate_swapchain: true, ..state },
            Action::Wait,
        ),
{
}

/// A frame whose image was acquired, suboptimal or not, is recorded as one
/// draw of the whole vertex buffer into the cleared view of that image, then
/// submitted once behind the previous frame's signal, then presented once;
/// after it the frame's own signal is held. A suboptimal acquisition leaves
/// the swapchain marked stale for the next tick.
pub proof fn lemma_acquired_frame_is_presented_once(state: SchedulerState, acquired: AcquiredImage)
    requires
        state.valid(),
        state.phase == Phase::Acquiring,
        acquired.image_index < state.image_count,
    ensures
        ({
            let (recording, first) = state.step(Event::Acquired(Ok(acquired)));
            let (submitted, second) = recording.step(Event::Recorded);
            let (presenting, third) = submitted.step(Event::Submitted);
            let (idle, fourth) = presenting.step(Event::Presented(Ok(())));
            &&& first == Action::Record {
                attachment: state.attachment_of(acquired.image_index),
                viewport: state.viewport(),
                draw: state.draw(),
            }
            &&& second == Action::Submit {
                after: state.previous_frame_end,
                image_index: acquired.image_index,
            }
            &&& third == Action::Present {
                swapchain: state.swapchain.id,
                image_index: acquired.image_index,
            }
            &&& fourth == Action::Wait
            &&& idle == SchedulerState {
                phase: Phase::Idle,
                recreate_swapchain: state.recreate_swapchain || acquired.suboptimal,
                previous_frame_end: FrameSignal::InFlight(state.next_serial),
                next_serial: next_serial(state.next_serial),
                ..state
            }
            &&& idle.previous_frame_end != state.previous_frame_end
        }),
{
}

/// After a presentation that failed because the swapchain is out of date,
/// the swapchain is marked stale and the placeholder is held: the cleanup of
/// the next tick polls a signal that is complete already.
pub proof fn lemma_out_of_date_presentation_resets_signal(state: SchedulerState)
    requires
        state.valid(),
        state.phase is Presenting,
    ensures
        ({
            let (idle, first) = state.step(Event::Presented(Err(FlushError::OutOfDate)));
            let (cleaning, second) = idle.step(Event::RedrawEventsCleared);
            &&& first == Action::Wait
            &&& idle == SchedulerState {
                phase: Phase::Idle,
                recreate_swapchain: true,
                previous_frame_end: FrameSignal::Completed,
                ..state
            }
            &&& second == Action::Cleanup { signal: FrameSignal::Completed }
        }),
{
}

/// Any other presentation failure also puts the placeholder in the place of
/// the frame's signal, and leaves the stale mark as it was.
pub proof fn lemma_failed_presentation_resets_signal(state: SchedulerState)
    requires
        state.valid(),
        state.phase is Presenting,
    ensures
        state.step(Event::Presented(Err(FlushError::Other))) == (
            SchedulerState {
                phase: Phase::Idle,
                previous_frame_end: FrameSignal::Completed,
                ..state
            },
            Action::Wait,
        ),
{
}

/// A tick that starts with nothing stale and meets no failure runs through
/// cleanup, acquisition, recording, submission and presentation, one of
/// each, and ends holding a signal that it did not hold before.
pub proof fn lemma_undisturbed_tick_presents_frame(state: SchedulerState, image_index: u32)
    requires
        state.valid(),
        state.phase == Phase::Idle,
        !state.recreate_swapchain,
        image_index < state.image_count,
    ensures
        ({
            let acquired = AcquiredImage { image_index, suboptimal: false };
            let (cleaning, first) = state.step(Event::RedrawEventsCleared);
            let (acquiring, second) = cleaning.step(Event::CleanedUp);
            let (recording, third) = acquiring.step(Event::Acquired(Ok(acquired)));
            let (submitted, fourth) = recording.step(Event::Recorded);
            let (presenting, fifth) = submitted.step(Event::Submitted);
            let (idle, sixth) = presenting.step(Event::Presented(Ok(())));
            &&& first == Action::Cleanup { signal: state.previous_frame_end }
            &&& second == Action::Acquire { swapchain: state.swapchain.id }
            &&& third is Record
            &&& fourth is Submit
            &&& fifth is Present
            &&& sixth == Action::Wait
            &&& idle == SchedulerState {
                previous_frame_end: FrameSignal::InFlight(state.next_serial),
                next_serial: next_serial(state.next_serial),
                ..state
            }
            &&& idle.previous_frame_end != state.previous_frame_end
        }),
{
}

} // verus!
