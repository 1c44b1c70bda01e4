//! The rendering state of one window: its configured surface, its pipeline,
//! and where it stands within a frame.

use vstd::prelude::*;
use crate::frame::{frame_commands, record_frame, Command, FrameAction, FrameEvent, FrameOutcome, Phase};
use crate::pipeline::{PipelineDescription, RenderPipeline};
use crate::size::Size;
use crate::surface::{PresentationSurface, SurfaceConfig};
use crate::vertex::VertexBuffer;

verus! {

/// What a `State` holds, as plain values.
pub struct StateView {
    pub config: SurfaceConfig,
    pub pipeline: PipelineDescription,
    pub vertex_count: u32,
    pub phase: Phase,
}

impl StateView {
    /// The size the surface is configured with.
    pub open spec fn size(self) -> Size {
        self.config.size()
    }

    /// Holds of every state: neither dimension of the surface is zero, and
    /// the pipeline is the fixed one for the format of the surface.
    pub open spec fn coherent(self) -> bool {
        &&& self.config.size().drawable()
        &&& self.pipeline == PipelineDescription::standard(self.config.format)
    }

    /// The state after the window took a new size: the surface is
    /// reconfigured unless a dimension is zero; pipeline and phase stay.
    pub open spec fn resized(self, size: Size) -> StateView {
        StateView { config: self.config.resized(size), ..self }
    }

    /// The state after an event of the frame: only the phase moves.
    pub open spec fn after(self, event: FrameEvent) -> StateView {
        StateView { phase: self.phase.next(event), ..self }
    }
}

/// The rendering state of one window.
pub struct State {
    surface: PresentationSurface,
    pipeline: RenderPipeline,
    phase: Phase,
}

impl View for State {
    type V = StateView;

    closed spec fn view(&self) -> StateView {
        StateView {
            config: self.surface@,
            pipeline: self.pipeline.description_spec(),
            vertex_count: self.pipeline.vertex_count_spec(),
            phase: self.phase,
        }
    }
}

impl State {
    #[verifier::type_invariant]
    spec fn pipeline_fits_surface(self) -> bool {
        self.pipeline.description_spec() == PipelineDescription::standard(self.surface@.format)
    }

    /// The state of a window whose surface is configured: the pipeline is
    /// built for the format of the surface and for the vertex buffer, and no
    /// frame is under way.
    pub fn new(surface: PresentationSurface, vertices: &VertexBuffer) -> (state: State)
        ensures
            state@ == (StateView {
                config: surface@,
                pipeline: PipelineDescription::standard(surface@.format),
                vertex_count: vertices.vertex_count(),
                phase: Phase::Idle,
            }),
            state@.coherent(),
    {
        proof {
            use_type_invariant(&surface);
        }
        let pipeline = RenderPipeline::build(surface.config().format, vertices);
        State { surface, pipeline, phase: Phase::Idle }
    }

    /// The window has a new size. With a zero dimension nothing changes and
    /// nothing is to be done (`None`). Otherwise the size is stored, and the
    /// configuration that comes back is to be applied to the surface, on the
    /// device that is there. Pipeline and phase are not touched.
    pub fn resize(&mut self, new_size: Size) -> (apply: Option<SurfaceConfig>)
        ensures
            final(self)@ == old(self)@.resized(new_size),
            new_size.drawable() <==> apply is Some,
            apply matches Some(config) ==> config == final(self)@.config,
            final(self)@.coherent(),
    {
        proof {
            use_type_invariant(&*self);
        }
        let mut surface = self.surface;
        let apply = surface.reconfigure(new_size);
        proof {
            use_type_invariant(&surface);
        }
        self.surface = surface;
        apply
    }

    /// Takes one event of a frame and says what is to be done next. Surface
    /// configuration and pipeline are the same after any event.
    pub fn render(&mut self, event: FrameEvent) -> (action: FrameAction)
        ensures
            final(self)@ == old(self)@.after(event),
            action == old(self)@.phase.action(event),
            final(self)@.coherent(),
    {
        proof {
            use_type_invariant(&*self);
            use_type_invariant(&self.surface);
        }
        let (phase, action) = self.phase.advance(event);
        self.phase = phase;
        action
    }

    /// The commands to record when `render` asks for it: one pass with one
    /// draw of all vertices.
    pub fn commands(&self) -> (commands: Vec<Command>)
        ensures
            commands@ == frame_commands(self@.vertex_count),
    {
        record_frame(self.pipeline.vertex_count())
    }

    /// The surface configuration in force. Neither dimension is zero.
    pub fn config(&self) -> (config: SurfaceConfig)
        ensures
            config == self@.config,
            config.size().drawable(),
    {
        self.surface.config()
    }

    /// The size the surface is configured with.
    pub fn size(&self) -> (size: Size)
        ensures
            size == self@.size(),
            size.drawable(),
    {
        let config = self.surface.config();
        Size { width: config.width, height: config.height }
    }

    /// What the pipeline was built from: the fixed configuration, for the
    /// format of the surface.
    pub fn pipeline(&self) -> (description: PipelineDescription)
        ensures
            description == self@.pipeline,
            description == PipelineDescription::standard(self@.config.format),
            description.fixed(),
    {
        proof {
            use_type_invariant(self);
        }
        self.pipeline.description()
    }

    /// How many vertices a frame draws.
    pub fn num_vertices(&self) -> (count: u32)
        ensures
            count == self@.vertex_count,
    {
        self.pipeline.vertex_count()
    }

    /// Where the renderer stands within a frame.
    pub fn phase(&self) -> (phase: Phase)
        ensures
            phase == self@.phase,
    {
        self.phase
    }
}

/// After a resize to a drawable size, that size is stored; and a frame in
/// which every step succeeds is then acquired, recorded, presented and ends
/// as presented, between frames again, with that size still stored.
pub proof fn resize_then_frame(state: StateView, size: Size)
    requires
        state.phase == Phase::Idle,
        size.drawable(),
    ensures
        state.resized(size).size() == size,
        ({
            let s0 = state.resized(size);
            let s1 = s0.after(FrameEvent::RedrawRequested);
            let s2 = s1.after(FrameEvent::Acquired);
            let s3 = s2.after(FrameEvent::Submitted);
            let s4 = s3.after(FrameEvent::Presented);
            &&& s0.phase.action(FrameEvent::RedrawRequested) == FrameAction::Acquire
            &&& s1.phase.action(FrameEvent::Acquired) == FrameAction::Record
            &&& s2.phase.action(FrameEvent::Submitted) == FrameAction::Present
            &&& s3.phase.action(FrameEvent::Presented) == FrameAction::Done(FrameOutcome::Presented)
            &&& s4 == s0
        }),
{
}

/// A resize with a zero dimension is no resize: the state is what it was,
/// and a frame drawn afterwards is drawn at the size stored before.
pub proof fn zero_resize_keeps_state(state: StateView, size: Size)
    requires
        size.width == 0 || size.height == 0,
    ensures
        state.resized(size) == state,
{
}

/// A resize never calls for another pipeline: whatever the new size, the
/// pipeline built at start-up still fits the surface.
pub proof fn resize_keeps_pipeline(state: StateView, size: Size)
    requires
        state.coherent(),
    ensures
        state.resized(size).coherent(),
        state.resized(size).pipeline == state.pipeline,
        state.resized(size).vertex_count == state.vertex_count,
        state.resized(size).phase == state.phase,
{
}

/// No event of a frame changes the surface configuration, the pipeline or
/// the number of vertices.
pub proof fn frame_keeps_configuration(state: StateView, event: FrameEvent)
    ensures
        state.after(event).config == state.config,
        state.after(event).pipeline == state.pipeline,
        state.after(event).vertex_count == state.vertex_count,
{
}

} // verus!
