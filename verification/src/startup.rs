//! Start-up: the order in which adapter, device, surface and pipeline are
//! obtained, and the error each failure ends in.
//!
//! Every step is work for the graphics API. The caller does the work and
//! reports how it went; `Startup` says what comes next.

use vstd::prelude::*;
use crate::context::{AdapterRequest, BuildTarget, DeviceRequest};
use crate::error::StartupError;
use crate::frame::Phase;
use crate::pipeline::PipelineDescription;
use crate::size::Size;
use crate::state::State;
use crate::surface::{Capabilities, PresentationSurface, SurfaceConfig};
use crate::vertex::{big_endian, little_endian, Vertex, VertexBuffer};

verus! {

/// The step that start-up waits on.
#[derive(Clone, Copy, Debug, PartialEq, Eq, Structural)]
pub enum StartupPhase {
    NotStarted,
    CreatingSurface,
    RequestingAdapter,
    RequestingDevice,
    QueryingCapabilities,
    ConfiguringSurface,
    CompilingShader,
    BuildingPipeline,
    UploadingVertices,
    Ready,
    Failed(StartupError),
}

/// What the caller reports.
pub enum StartupEvent {
    /// Start-up is to begin.
    Begin,
    /// The step asked for was done.
    Completed,
    /// The surface was asked what it supports, and answered.
    Capabilities(Capabilities),
    /// The step asked for could not be done.
    Failed,
}

/// What the caller is asked to do next.
#[derive(Clone, Copy, Debug, PartialEq, Eq)]
pub enum StartupAction {
    /// Create the surface of the window.
    CreateSurface,
    /// Ask for an adapter.
    RequestAdapter(AdapterRequest),
    /// Ask the adapter for a device and its queue.
    RequestDevice(DeviceRequest),
    /// Ask the surface what it supports on the adapter, and report it.
    QueryCapabilities,
    /// Configure the surface.
    ConfigureSurface(SurfaceConfig),
    /// Compile the shader source.
    CompileShader,
    /// Create the pipeline layout and the pipeline.
    BuildPipeline(PipelineDescription),
    /// Create the vertex buffer from the bytes of `Startup::vertex_bytes`.
    UploadVertices,
    /// Everything is there: take the state with `Startup::finish`.
    Finish,
    /// Start-up has failed for good.
    Fail(StartupError),
    /// The event does not belong to this phase; nothing is to be done.
    Ignored,
}

impl StartupPhase {
    /// Whether the phase waits for a step to be reported.
    pub open spec fn in_progress(self) -> bool {
        !(self is NotStarted || self is Ready || self is Failed)
    }

    /// The error that start-up ends in when the step of this phase fails.
    /// Only a phase in progress has a step that can fail.
    pub open spec fn failure(self) -> StartupError {
        match self {
            StartupPhase::RequestingAdapter => StartupError::NoAdapter,
            StartupPhase::RequestingDevice => StartupError::NoDevice,
            StartupPhase::CompilingShader => StartupError::ShaderCompileFailed,
            StartupPhase::BuildingPipeline | StartupPhase::UploadingVertices => StartupError::PipelineBuildFailed,
            _ => StartupError::SurfaceCreationFailed,
        }
    }

    /// Whether the surface has been given its configuration by this phase.
    pub open spec fn has_config(self) -> bool {
        self is ConfiguringSurface || self is CompilingShader || self is BuildingPipeline
            || self is UploadingVertices || self is Ready
    }
}

/// What a `Startup` holds, as plain values.
pub struct StartupView {
    pub target: BuildTarget,
    pub size: Size,
    pub vertex_count: u32,
    pub phase: StartupPhase,
    pub config: Option<SurfaceConfig>,
}

impl StartupView {
    /// Start-up that has not begun.
    pub open spec fn begin(target: BuildTarget, size: Size, vertex_count: u32) -> StartupView {
        StartupView { target, size, vertex_count, phase: StartupPhase::NotStarted, config: None }
    }

    /// The same view in another phase.
    pub open spec fn at(self, phase: StartupPhase) -> StartupView {
        StartupView { phase, ..self }
    }

    /// The view after `event`, and what is asked for in answer to it.
    ///
    /// The steps follow one another: surface, adapter, device, capabilities,
    /// configuration, shader, pipeline, vertices. The configuration is chosen
    /// when the capabilities are known; where there is none to choose, that
    /// is a failure of the surface. A failed step ends start-up in the error
    /// of its phase. An event that the phase does not wait for changes
    /// nothing.
    pub open spec fn step(self, event: StartupEvent) -> (StartupView, StartupAction) {
        match (self.phase, event) {
            (StartupPhase::NotStarted, StartupEvent::Begin) => (
                self.at(StartupPhase::CreatingSurface),
                StartupAction::CreateSurface,
            ),
            (StartupPhase::CreatingSurface, StartupEvent::Completed) => (
                self.at(StartupPhase::RequestingAdapter),
                StartupAction::RequestAdapter(AdapterRequest::standard()),
            ),
            (StartupPhase::RequestingAdapter, StartupEvent::Completed) => (
                self.at(StartupPhase::RequestingDevice),
                StartupAction::RequestDevice(DeviceRequest::for_target(self.target)),
            ),
            (StartupPhase::RequestingDevice, StartupEvent::Completed) => (
                self.at(StartupPhase::QueryingCapabilities),
                StartupAction::QueryCapabilities,
            ),
            (StartupPhase::QueryingCapabilities, StartupEvent::Capabilities(capabilities)) => {
                if capabilities.usable() && self.size.drawable() {
                    let config = SurfaceConfig::chosen(capabilities, self.size);
                    (
                        StartupView { phase: StartupPhase::ConfiguringSurface, config: Some(config), ..self },
                        StartupAction::ConfigureSurface(config),
                    )
                } else {
                    self.fail(StartupError::SurfaceCreationFailed)
                }
            },
            (StartupPhase::ConfiguringSurface, StartupEvent::Completed) => (
                self.at(StartupPhase::CompilingShader),
                StartupAction::CompileShader,
            ),
            (StartupPhase::CompilingShader, StartupEvent::Completed) => (
                self.at(StartupPhase::BuildingPipeline),
                StartupAction::BuildPipeline(PipelineDescription::standard(self.config->0.format)),
            ),
            (StartupPhase::BuildingPipeline, StartupEvent::Completed) => (
                self.at(StartupPhase::UploadingVertices),
                StartupAction::UploadVertices,
            ),
            (StartupPhase::UploadingVertices, StartupEvent::Completed) => (
                self.at(StartupPhase::Ready),
                StartupAction::Finish,
            ),
            (phase, StartupEvent::Failed) => if phase.in_progress() {
                self.fail(phase.failure())
            } else {
                (self, StartupAction::Ignored)
            },
            _ => (self, StartupAction::Ignored),
        }
    }

    /// Start-up ended in `error`; a configuration chosen before is given up.
    pub open spec fn fail(self, error: StartupError) -> (StartupView, StartupAction) {
        (
            StartupView { phase: StartupPhase::Failed(error), config: None, ..self },
            StartupAction::Fail(error),
        )
    }

    /// The view after `event`.
    pub open spec fn next(self, event: StartupEvent) -> StartupView {
        self.step(event).0
    }

    /// What is asked for in answer to `event`.
    pub open spec fn action(self, event: StartupEvent) -> StartupAction {
        self.step(event).1
    }

    /// A configuration is held from the moment it is chosen, and not before.
    pub open spec fn consistent(self) -> bool {
        &&& self.phase.has_config() <==> self.config is Some
        &&& self.config matches Some(config) ==> config.size().drawable()
    }
}

/// Start-up in progress.
pub struct Startup {
    target: BuildTarget,
    size: Size,
    vertices: VertexBuffer,
    phase: StartupPhase,
    surface: Option<PresentationSurface>,
}

impl View for Startup {
    type V = StartupView;

    closed spec fn view(&self) -> StartupView {
        StartupView {
            target: self.target,
            size: self.size,
            vertex_count: self.vertices.vertex_count(),
            phase: self.phase,
            config: match self.surface {
                Some(surface) if self.phase.has_config() => Some(surface@),
                _ => None,
            },
        }
    }
}

impl Startup {
    #[verifier::type_invariant]
    spec fn surface_when_configured(self) -> bool {
        self.phase.has_config() ==> self.surface is Some
    }

    /// The vertex buffer whose contents are uploaded.
    pub closed spec fn buffer(self) -> VertexBuffer {
        self.vertices
    }

    /// Start-up for a window of the given size, not yet begun.
    pub fn new(target: BuildTarget, size: Size, vertices: VertexBuffer) -> (startup: Startup)
        ensures
            startup@ == StartupView::begin(target, size, vertices.vertex_count()),
            startup.buffer() == vertices,
    {
        Startup { target, size, vertices, phase: StartupPhase::NotStarted, surface: None }
    }

    /// Takes the report of one step and says what is to be done next.
    pub fn advance(&mut self, event: StartupEvent) -> (action: StartupAction)
        ensures
            final(self)@ == old(self)@.next(event),
            action == old(self)@.action(event),
            final(self).buffer() == old(self).buffer(),
            final(self)@.consistent(),
    {
        proof {
            use_type_invariant(&*self);
        }
        let phase = self.phase;
        let (next, action) = match event {
            StartupEvent::Begin => match phase {
                StartupPhase::NotStarted => (StartupPhase::CreatingSurface, StartupAction::CreateSurface),
                _ => (phase, StartupAction::Ignored),
            },
            StartupEvent::Completed => match phase {
                StartupPhase::CreatingSurface => (
                    StartupPhase::RequestingAdapter,
                    StartupAction::RequestAdapter(AdapterRequest::new()),
                ),
                StartupPhase::RequestingAdapter => (
                    StartupPhase::RequestingDevice,
                    StartupAction::RequestDevice(DeviceRequest::new(self.target)),
                ),
                StartupPhase::RequestingDevice => (
                    StartupPhase::QueryingCapabilities,
                    StartupAction::QueryCapabilities,
                ),
                StartupPhase::ConfiguringSurface => (
                    StartupPhase::CompilingShader,
                    StartupAction::CompileShader,
                ),
                StartupPhase::CompilingShader => match &self.surface {
                    Some(surface) => (
                        StartupPhase::BuildingPipeline,
                        StartupAction::BuildPipeline(PipelineDescription::new(surface.config().format)),
                    ),
                    None => (phase, StartupAction::Ignored),
                },
                StartupPhase::BuildingPipeline => (
                    StartupPhase::UploadingVertices,
                    StartupAction::UploadVertices,
                ),
                StartupPhase::UploadingVertices => (StartupPhase::Ready, StartupAction::Finish),
                _ => (phase, StartupAction::Ignored),
            },
            StartupEvent::Capabilities(capabilities) => match phase {
                StartupPhase::QueryingCapabilities => match PresentationSurface::configure(
                    &capabilities,
                    self.size,
                ) {
                    Ok(surface) => {
                        let config = surface.config();
                        self.surface = Some(surface);
                        self.phase = StartupPhase::ConfiguringSurface;
                        return StartupAction::ConfigureSurface(config);
                    },
                    Err(error) => (StartupPhase::Failed(error), StartupAction::Fail(error)),
                },
                _ => (phase, StartupAction::Ignored),
            },
            StartupEvent::Failed => match phase {
                StartupPhase::NotStarted | StartupPhase::Ready | StartupPhase::Failed(_) => (
                    phase,
                    StartupAction::Ignored,
                ),
                StartupPhase::RequestingAdapter => fail(StartupError::NoAdapter),
                StartupPhase::RequestingDevice => fail(StartupError::NoDevice),
                StartupPhase::CompilingShader => fail(StartupError::ShaderCompileFailed),
                StartupPhase::BuildingPipeline | StartupPhase::UploadingVertices => fail(
                    StartupError::PipelineBuildFailed,
                ),
                _ => fail(StartupError::SurfaceCreationFailed),
            },
        };
        self.phase = next;
        proof {
            if let Some(surface) = &self.surface {
                use_type_invariant(surface);
            }
        }
        action
    }

    /// The step that start-up waits on.
    pub fn phase(&self) -> (phase: StartupPhase)
        ensures
            phase == self@.phase,
    {
        self.phase
    }

    /// The bytes of the vertex buffer, for the upload.
    pub fn vertex_bytes(&self) -> (bytes: &[u8])
        ensures
            bytes@.len() == self@.vertex_count * Vertex::layout_spec().stride,
            bytes@ == little_endian(self.buffer()@) || bytes@ == big_endian(self.buffer()@),
    {
        self.vertices.bytes()
    }

    /// The rendering state, once start-up is ready, and only then: the
    /// surface as configured, the pipeline for its format, between frames.
    pub fn finish(self) -> (state: Option<State>)
        ensures
            state is Some <==> self@.phase == StartupPhase::Ready,
            state matches Some(state) ==> {
                &&& Some(state@.config) == self@.config
                &&& state@.pipeline == PipelineDescription::standard(state@.config.format)
                &&& state@.vertex_count == self@.vertex_count
                &&& state@.phase == Phase::Idle
                &&& state@.coherent()
            },
    {
        proof {
            use_type_invariant(&self);
        }
        match self.phase {
            StartupPhase::Ready => match self.surface {
                Some(surface) => Some(State::new(surface, &self.vertices)),
                None => None,
            },
            _ => None,
        }
    }
}

/// The phase and the action of a failure.
fn fail(error: StartupError) -> (ended: (StartupPhase, StartupAction))
    ensures
        ended == (StartupPhase::Failed(error), StartupAction::Fail(error)),
{
    (StartupPhase::Failed(error), StartupAction::Fail(error))
}

impl StartupPhase {
    /// The place of a phase in the order of start-up.
    pub open spec fn rank(self) -> nat {
        match self {
            StartupPhase::NotStarted => 0,
            StartupPhase::CreatingSurface => 1,
            StartupPhase::RequestingAdapter => 2,
            StartupPhase::RequestingDevice => 3,
            StartupPhase::QueryingCapabilities => 4,
            StartupPhase::ConfiguringSurface => 5,
            StartupPhase::CompilingShader => 6,
            StartupPhase::BuildingPipeline => 7,
            StartupPhase::UploadingVertices => 8,
            StartupPhase::Ready => 9,
            StartupPhase::Failed(_) => 10,
        }
    }
}

impl StartupView {
    /// The view after a whole run of events, taken in order.
    pub open spec fn after_all(self, events: Seq<StartupEvent>) -> StartupView
        decreases events.len(),
    {
        if events.len() == 0 {
            self
        } else {
            self.after_all(events.drop_last()).next(events.last())
        }
    }

    /// The actions asked for in answer to a run of events, one for each.
    pub open spec fn actions(self, events: Seq<StartupEvent>) -> Seq<StartupAction>
        decreases events.len(),
    {
        if events.len() == 0 {
            Seq::empty()
        } else {
            self.actions(events.drop_last()).push(
                self.after_all(events.drop_last()).action(events.last()),
            )
        }
    }
}

/// No step is skipped: an event leaves the phase where it is, or moves it to
/// the one that follows, or ends start-up in failure. Size, target and number
/// of vertices are those that start-up began with.
pub proof fn steps_follow_in_order(view: StartupView, event: StartupEvent)
    ensures
        ({
            let next = view.next(event);
            &&& next.phase == view.phase || next.phase is Failed || next.phase.rank()
                == view.phase.rank() + 1
            &&& next.phase == view.phase <==> view.action(event) == StartupAction::Ignored
            &&& next.target == view.target
            &&& next.size == view.size
            &&& next.vertex_count == view.vertex_count
        }),
{
}

/// Each error comes from the failure of its own step, and from nothing else:
/// no adapter, no device, a rejected shader, a pipeline or vertex buffer that
/// could not be built; and for the surface, that it could not be created or
/// configured, or that there is nothing to configure it with.
pub proof fn errors_name_their_step(view: StartupView, event: StartupEvent, error: StartupError)
    ensures
        view.action(event) == StartupAction::Fail(error) <==> {
            ||| event is Failed && view.phase.in_progress() && error == view.phase.failure()
            ||| view.phase == StartupPhase::QueryingCapabilities && error
                == StartupError::SurfaceCreationFailed && (event matches StartupEvent::Capabilities(
                capabilities,
            ) && !(capabilities.usable() && view.size.drawable()))
        },
        view.action(event) == StartupAction::Fail(error) ==> view.next(event).phase
            == StartupPhase::Failed(error),
        StartupPhase::RequestingAdapter.failure() == StartupError::NoAdapter,
        StartupPhase::RequestingDevice.failure() == StartupError::NoDevice,
        StartupPhase::CompilingShader.failure() == StartupError::ShaderCompileFailed,
        StartupPhase::BuildingPipeline.failure() == StartupError::PipelineBuildFailed,
{
}

/// The pipeline is asked for only once the shader has compiled, which is
/// after the surface has its format; and the surface is configured only in
/// answer to its capabilities.
pub proof fn pipeline_follows_shader(view: StartupView, event: StartupEvent)
    ensures
        view.action(event) is BuildPipeline ==> view.phase == StartupPhase::CompilingShader
            && event is Completed,
        view.action(event) is ConfigureSurface ==> view.phase == StartupPhase::QueryingCapabilities
            && event is Capabilities,
        view.consistent() && view.action(event) is BuildPipeline ==> view.config is Some
            && view.action(event) == StartupAction::BuildPipeline(
            PipelineDescription::standard(view.config->0.format),
        ),
{
}

/// Once start-up has failed or is ready, it stays so whatever is reported,
/// and asks for nothing more. In particular no pipeline is asked for after a
/// shader was rejected.
pub proof fn ended_startup_stays_ended(view: StartupView, events: Seq<StartupEvent>, i: int)
    requires
        view.phase is Failed || view.phase is Ready,
        0 <= i < events.len(),
    ensures
        view.after_all(events) == view,
        view.actions(events)[i] == StartupAction::Ignored,
        view.actions(events).len() == events.len(),
    decreases events.len(),
{
    let shorter = events.drop_last();
    if shorter.len() > 0 {
        ended_startup_stays_ended(view, shorter, 0);
    }
    if i < shorter.len() {
        ended_startup_stays_ended(view, shorter, i);
    }
    assert(view.after_all(shorter) == view);
    assert(view.actions(shorter).len() == shorter.len()) by {
        actions_answer_each_event(view, shorter);
    }
}

/// One action is asked for in answer to each event.
pub proof fn actions_answer_each_event(view: StartupView, events: Seq<StartupEvent>)
    ensures
        view.actions(events).len() == events.len(),
    decreases events.len(),
{
    if events.len() > 0 {
        actions_answer_each_event(view, events.drop_last());
    }
}

/// Start-up in which every step succeeds, on a surface that supports
/// something and a window of drawable size: the steps are asked for in
/// order, the surface is configured as its capabilities and the size call
/// for, the pipeline is built for the format chosen, and start-up is ready.
pub proof fn undisturbed_startup(
    target: BuildTarget,
    size: Size,
    vertex_count: u32,
    capabilities: Capabilities,
)
    requires
        capabilities.usable(),
        size.drawable(),
    ensures
        ({
            let begin = StartupView::begin(target, size, vertex_count);
            let config = SurfaceConfig::chosen(capabilities, size);
            let events = seq![
                StartupEvent::Begin,
                StartupEvent::Completed,
                StartupEvent::Completed,
                StartupEvent::Completed,
                StartupEvent::Capabilities(capabilities),
                StartupEvent::Completed,
                StartupEvent::Completed,
                StartupEvent::Completed,
                StartupEvent::Completed,
            ];
            &&& begin.actions(events) == seq![
                StartupAction::CreateSurface,
                StartupAction::RequestAdapter(AdapterRequest::standard()),
                StartupAction::RequestDevice(DeviceRequest::for_target(target)),
                StartupAction::QueryCapabilities,
                StartupAction::ConfigureSurface(config),
                StartupAction::CompileShader,
                StartupAction::BuildPipeline(PipelineDescription::standard(config.format)),
                StartupAction::UploadVertices,
                StartupAction::Finish,
            ]
            &&& begin.after_all(events) == StartupView {
                phase: StartupPhase::Ready,
                config: Some(config),
                ..begin
            }
        }),
{
    let begin = StartupView::begin(target, size, vertex_count);
    let config = SurfaceConfig::chosen(capabilities, size);
    let e9 = seq![
        StartupEvent::Begin,
        StartupEvent::Completed,
        StartupEvent::Completed,
        StartupEvent::Completed,
        StartupEvent::Capabilities(capabilities),
        StartupEvent::Completed,
        StartupEvent::Completed,
        StartupEvent::Completed,
        StartupEvent::Completed,
    ];
    let e8 = e9.drop_last();
    let e7 = e8.drop_last();
    let e6 = e7.drop_last();
    let e5 = e6.drop_last();
    let e4 = e5.drop_last();
    let e3 = e4.drop_last();
    let e2 = e3.drop_last();
    let e1 = e2.drop_last();
    let e0 = e1.drop_last();
    let with = StartupView { config: Some(config), ..begin };
    assert(begin.after_all(e0) == begin);
    assert(begin.after_all(e1) == begin.at(StartupPhase::CreatingSurface));
    assert(begin.after_all(e2) == begin.at(StartupPhase::RequestingAdapter));
    assert(begin.after_all(e3) == begin.at(StartupPhase::RequestingDevice));
    assert(begin.after_all(e4) == begin.at(StartupPhase::QueryingCapabilities));
    assert(begin.after_all(e5) == with.at(StartupPhase::ConfiguringSurface));
    assert(begin.after_all(e6) == with.at(StartupPhase::CompilingShader));
    assert(begin.after_all(e7) == with.at(StartupPhase::BuildingPipeline));
    assert(begin.after_all(e8) == with.at(StartupPhase::UploadingVertices));
    assert(begin.after_all(e9) == with.at(StartupPhase::Ready));
    let a9 = seq![
        StartupAction::CreateSurface,
        StartupAction::RequestAdapter(AdapterRequest::standard()),
        StartupAction::RequestDevice(DeviceRequest::for_target(target)),
        StartupAction::QueryCapabilities,
        StartupAction::ConfigureSurface(config),
        StartupAction::CompileShader,
        StartupAction::BuildPipeline(PipelineDescription::standard(config.format)),
        StartupAction::UploadVertices,
        StartupAction::Finish,
    ];
    assert(begin.actions(e0) =~= a9.take(0));
    assert(begin.actions(e1) =~= a9.take(1));
    assert(begin.actions(e2) =~= a9.take(2));
    assert(begin.actions(e3) =~= a9.take(3));
    assert(begin.actions(e4) =~= a9.take(4));
    assert(begin.actions(e5) =~= a9.take(5));
    assert(begin.actions(e6) =~= a9.take(6));
    assert(begin.actions(e7) =~= a9.take(7));
    assert(begin.actions(e8) =~= a9.take(8));
    assert(begin.actions(e9) =~= a9.take(9));
    assert(a9.take(9) =~= a9);
}

} // verus!
