//! One frame: the order in which its steps are taken, what is done when a
//! step fails, and the commands that draw it.

use vstd::prelude::*;
use crate::error::{AcquireError, ErrorClass};

verus! {

/// A colour of four double-precision channels, each held as its IEEE-754 bit
/// pattern.
#[derive(Clone, Copy, Debug, PartialEq, Eq, Structural)]
pub struct ClearColor {
    pub r: u64,
    pub g: u64,
    pub b: u64,
    pub a: u64,
}

/// Red of the background: 0.8.
pub const BACKGROUND_R: u64 = 0x3FE9_9999_9999_999A;

/// Green of the background: 0.3.
pub const BACKGROUND_G: u64 = 0x3FD3_3333_3333_3333;

/// Blue of the background: 0.4.
pub const BACKGROUND_B: u64 = 0x3FD9_9999_9999_999A;

/// Alpha of the background: 0.9.
pub const BACKGROUND_A: u64 = 0x3FEC_CCCC_CCCC_CCCD;

impl ClearColor {
    /// The colour every frame is cleared to.
    pub open spec fn background() -> ClearColor {
        ClearColor { r: BACKGROUND_R, g: BACKGROUND_G, b: BACKGROUND_B, a: BACKGROUND_A }
    }

    pub fn new_background() -> (color: ClearColor)
        ensures
            color == ClearColor::background(),
    {
        ClearColor { r: BACKGROUND_R, g: BACKGROUND_G, b: BACKGROUND_B, a: BACKGROUND_A }
    }
}

/// The slot the vertex buffer is bound to.
pub const VERTEX_SLOT: u32 = 0;

/// One step in recording and handing in a frame's work.
#[derive(Clone, Copy, Debug, PartialEq, Eq, Structural)]
pub enum Command {
    /// Opens a render pass whose one colour attachment is the view of the
    /// acquired image, cleared to `clear` on load and stored afterwards.
    BeginPass { clear: ClearColor },
    /// Binds the render pipeline.
    SetPipeline,
    /// Binds the whole vertex buffer to a slot.
    SetVertexBuffer { slot: u32 },
    /// Draws the vertices from `first_vertex` up to but without `end_vertex`,
    /// for the instances from `first_instance` up to but without
    /// `end_instance`.
    Draw { first_vertex: u32, end_vertex: u32, first_instance: u32, end_instance: u32 },
    /// Closes the render pass and releases what it borrowed.
    EndPass,
    /// Closes the command sequence.
    Finish,
    /// Hands the closed command sequence to the queue, as one batch.
    Submit,
}

/// The commands of one frame that draws `vertex_count` vertices.
pub open spec fn frame_commands(vertex_count: u32) -> Seq<Command> {
    seq![
        Command::BeginPass { clear: ClearColor::background() },
        Command::SetPipeline,
        Command::SetVertexBuffer { slot: VERTEX_SLOT },
        Command::Draw { first_vertex: 0, end_vertex: vertex_count, first_instance: 0, end_instance: 1 },
        Command::EndPass,
        Command::Finish,
        Command::Submit,
    ]
}

/// How far a recording has come, as far as the order of commands goes.
pub struct Recording {
    pub pass_open: bool,
    pub pipeline_bound: bool,
    pub vertices_bound: bool,
    pub finished: bool,
    pub submitted: bool,
    pub draws: nat,
}

impl Recording {
    /// An open command sequence with nothing recorded.
    pub open spec fn start() -> Recording {
        Recording {
            pass_open: false,
            pipeline_bound: false,
            vertices_bound: false,
            finished: false,
            submitted: false,
            draws: 0,
        }
    }

    /// Whether the graphics API takes `command` at this point. A pass is
    /// opened only on an open command sequence and outside a pass; bindings
    /// and draws are made inside a pass, a draw with both pipeline and
    /// vertices bound; the sequence is closed only outside a pass; only a
    /// closed sequence is submitted, and once.
    pub open spec fn admits(self, command: Command) -> bool {
        match command {
            Command::BeginPass { .. } => !self.pass_open && !self.finished,
            Command::SetPipeline => self.pass_open,
            Command::SetVertexBuffer { slot } => self.pass_open,
            Command::Draw { .. } => self.pass_open && self.pipeline_bound && self.vertices_bound,
            Command::EndPass => self.pass_open,
            Command::Finish => !self.pass_open && !self.finished,
            Command::Submit => self.finished && !self.submitted,
        }
    }

    /// Where the recording stands once `command` is taken.
    pub open spec fn after(self, command: Command) -> Recording {
        match command {
            Command::BeginPass { .. } => Recording {
                pass_open: true,
                pipeline_bound: false,
                vertices_bound: false,
                ..self
            },
            Command::SetPipeline => Recording { pipeline_bound: true, ..self },
            Command::SetVertexBuffer { slot } => if slot == VERTEX_SLOT {
                Recording { vertices_bound: true, ..self }
            } else {
                self
            },
            Command::Draw { .. } => Recording { draws: self.draws + 1, ..self },
            Command::EndPass => Recording { pass_open: false, ..self },
            Command::Finish => Recording { finished: true, ..self },
            Command::Submit => Recording { submitted: true, ..self },
        }
    }

    /// Where the recording stands after `commands`, or `None` if one of them
    /// comes at a point where it is not taken.
    pub open spec fn replay(self, commands: Seq<Command>) -> Option<Recording>
        decreases commands.len(),
    {
        if commands.len() == 0 {
            Some(self)
        } else if self.admits(commands[0]) {
            self.after(commands[0]).replay(commands.drop_first())
        } else {
            None
        }
    }
}

/// Writes out the commands of one frame.
pub fn record_frame(vertex_count: u32) -> (commands: Vec<Command>)
    ensures
        commands@ == frame_commands(vertex_count),
{
    let mut commands: Vec<Command> = Vec::new();
    commands.push(Command::BeginPass { clear: ClearColor::new_background() });
    commands.push(Command::SetPipeline);
    commands.push(Command::SetVertexBuffer { slot: VERTEX_SLOT });
    commands.push(
        Command::Draw { first_vertex: 0, end_vertex: vertex_count, first_instance: 0, end_instance: 1 },
    );
    commands.push(Command::EndPass);
    commands.push(Command::Finish);
    commands.push(Command::Submit);
    assert(commands@ =~= frame_commands(vertex_count));
    commands
}

/// A frame's commands hold exactly one draw. It covers every vertex, from 0,
/// and the single instance 0.
pub proof fn frame_draws_once(vertex_count: u32, i: int)
    requires
        0 <= i < frame_commands(vertex_count).len(),
    ensures
        frame_commands(vertex_count)[i] is Draw <==> i == 3,
        frame_commands(vertex_count)[3] == (Command::Draw {
            first_vertex: 0,
            end_vertex: vertex_count,
            first_instance: 0,
            end_instance: 1,
        }),
{
}

/// A frame's commands come in an order the graphics API takes: the pass is
/// closed before the command sequence is, the sequence is closed before it is
/// submitted, and it is submitted once, with one draw recorded.
pub proof fn frame_commands_are_in_order(vertex_count: u32)
    ensures
        Recording::start().replay(frame_commands(vertex_count)) matches Some(end) && end.submitted
            && !end.pass_open && end.draws == 1,
{
    let commands = frame_commands(vertex_count);
    let r0 = Recording::start();
    let r1 = r0.after(commands[0]);
    let r2 = r1.after(commands[1]);
    let r3 = r2.after(commands[2]);
    let r4 = r3.after(commands[3]);
    let r5 = r4.after(commands[4]);
    let r6 = r5.after(commands[5]);
    let r7 = r6.after(commands[6]);
    let c1 = commands.drop_first();
    let c2 = c1.drop_first();
    let c3 = c2.drop_first();
    let c4 = c3.drop_first();
    let c5 = c4.drop_first();
    let c6 = c5.drop_first();
    let c7 = c6.drop_first();
    assert(r7.replay(c7) == Some(r7));
    assert(r6.replay(c6) == Some(r7));
    assert(r5.replay(c5) == Some(r7));
    assert(r4.replay(c4) == Some(r7));
    assert(r3.replay(c3) == Some(r7));
    assert(r2.replay(c2) == Some(r7));
    assert(r1.replay(c1) == Some(r7));
    assert(r0.replay(commands) == Some(r7));
}

/// Where the renderer stands within a frame.
#[derive(Clone, Copy, Debug, PartialEq, Eq, Structural)]
pub enum Phase {
    /// Between frames.
    Idle,
    /// An image has been asked of the surface.
    Acquiring,
    /// The commands are being recorded and submitted.
    Recording,
    /// The commands are with the queue; the image is being presented.
    Submitted,
}

/// What the outside reports to the renderer.
#[derive(Clone, Copy, Debug, PartialEq, Eq, Structural)]
pub enum FrameEvent {
    /// The window asks to be drawn.
    RedrawRequested,
    /// The surface handed out an image.
    Acquired,
    /// The surface handed out none.
    AcquireFailed(AcquireError),
    /// The commands were recorded and submitted.
    Submitted,
    /// The image was handed back for display.
    Presented,
    /// Recording, submitting or presenting failed.
    Failed,
}

/// How a frame ended.
#[derive(Clone, Copy, Debug, PartialEq, Eq, Structural)]
pub enum FrameOutcome {
    /// The frame was drawn and presented.
    Presented,
    /// No image could be had for now. The frame is skipped, and the surface
    /// is to be configured again, as stored, before the next.
    Dropped,
    /// The frame was lost after its image was acquired. The next frame starts
    /// afresh.
    Failed,
    /// No image can be had with this context any more.
    Fatal(AcquireError),
}

/// What the renderer asks of the outside next.
#[derive(Clone, Copy, Debug, PartialEq, Eq, Structural)]
pub enum FrameAction {
    /// Ask the surface for the next image.
    Acquire,
    /// Record the frame's commands on the acquired image and submit them.
    Record,
    /// Hand the image back for display.
    Present,
    /// The frame is over.
    Done(FrameOutcome),
    /// The event does not belong to this phase; nothing is to be done.
    Ignored,
}

impl Phase {
    /// The phase after `event`, and what is asked for in answer to it.
    ///
    /// A frame runs from a redraw request through acquiring, recording and
    /// presenting back to idle. A failure of any step ends the frame and
    /// leaves the renderer idle. An event that the phase does not wait for
    /// changes nothing.
    pub open spec fn step(self, event: FrameEvent) -> (Phase, FrameAction) {
        match (self, event) {
            (Phase::Idle, FrameEvent::RedrawRequested) => (Phase::Acquiring, FrameAction::Acquire),
            (Phase::Acquiring, FrameEvent::Acquired) => (Phase::Recording, FrameAction::Record),
            (Phase::Acquiring, FrameEvent::AcquireFailed(error)) => (
                Phase::Idle,
                FrameAction::Done(acquire_failure(error)),
            ),
            (Phase::Recording, FrameEvent::Submitted) => (Phase::Submitted, FrameAction::Present),
            (Phase::Submitted, FrameEvent::Presented) => (
                Phase::Idle,
                FrameAction::Done(FrameOutcome::Presented),
            ),
            (Phase::Recording, FrameEvent::Failed) | (Phase::Submitted, FrameEvent::Failed) => (
                Phase::Idle,
                FrameAction::Done(FrameOutcome::Failed),
            ),
            _ => (self, FrameAction::Ignored),
        }
    }

    /// The phase after `event`.
    pub open spec fn next(self, event: FrameEvent) -> Phase {
        self.step(event).0
    }

    /// What is asked for in answer to `event`.
    pub open spec fn action(self, event: FrameEvent) -> FrameAction {
        self.step(event).1
    }

    /// Takes one event.
    pub fn advance(self, event: FrameEvent) -> (taken: (Phase, FrameAction))
        ensures
            taken == self.step(event),
    {
        match self {
            Phase::Idle => match event {
                FrameEvent::RedrawRequested => (Phase::Acquiring, FrameAction::Acquire),
                _ => (self, FrameAction::Ignored),
            },
            Phase::Acquiring => match event {
                FrameEvent::Acquired => (Phase::Recording, FrameAction::Record),
                FrameEvent::AcquireFailed(error) => (Phase::Idle, FrameAction::Done(on_acquire_failure(error))),
                _ => (self, FrameAction::Ignored),
            },
            Phase::Recording => match event {
                FrameEvent::Submitted => (Phase::Submitted, FrameAction::Present),
                FrameEvent::Failed => (Phase::Idle, FrameAction::Done(FrameOutcome::Failed)),
                _ => (self, FrameAction::Ignored),
            },
            Phase::Submitted => match event {
                FrameEvent::Presented => (Phase::Idle, FrameAction::Done(FrameOutcome::Presented)),
                FrameEvent::Failed => (Phase::Idle, FrameAction::Done(FrameOutcome::Failed)),
                _ => (self, FrameAction::Ignored),
            },
        }
    }
}

/// How a frame ends when no image could be acquired: dropped where the error
/// is transient, fatal where it is not.
pub open spec fn acquire_failure(error: AcquireError) -> FrameOutcome {
    if error.is_transient() {
        FrameOutcome::Dropped
    } else {
        FrameOutcome::Fatal(error)
    }
}

/// Decides between dropping the frame and giving up, by the error's class.
pub fn on_acquire_failure(error: AcquireError) -> (outcome: FrameOutcome)
    ensures
        outcome == acquire_failure(error),
{
    match error.classify() {
        ErrorClass::Transient => FrameOutcome::Dropped,
        ErrorClass::Fatal => FrameOutcome::Fatal(error),
    }
}


impl Phase {
    /// The phase after a whole run of events, taken in order.
    pub open spec fn after_all(self, events: Seq<FrameEvent>) -> Phase
        decreases events.len(),
    {
        if events.len() == 0 {
            self
        } else {
            self.after_all(events.drop_last()).next(events.last())
        }
    }

    /// The actions asked for in answer to a run of events, one for each.
    pub open spec fn actions(self, events: Seq<FrameEvent>) -> Seq<FrameAction>
        decreases events.len(),
    {
        if events.len() == 0 {
            Seq::empty()
        } else {
            self.actions(events.drop_last()).push(
                self.after_all(events.drop_last()).action(events.last()),
            )
        }
    }

    /// Whether the commands of the frame are being recorded or are recorded.
    pub open spec fn has_recorded(self) -> bool {
        self is Recording || self is Submitted
    }
}

/// How many of `actions` satisfy `wanted`.
pub open spec fn count(actions: Seq<FrameAction>, wanted: spec_fn(FrameAction) -> bool) -> nat
    decreases actions.len(),
{
    if actions.len() == 0 {
        0
    } else {
        count(actions.drop_last(), wanted) + if wanted(actions.last()) {
            1nat
        } else {
            0nat
        }
    }
}

/// A frame in which every step succeeds: the image is acquired, the commands
/// are recorded once, the image is presented, and the renderer is idle again.
pub proof fn undisturbed_frame()
    ensures
        Phase::Idle.actions(
            seq![
                FrameEvent::RedrawRequested,
                FrameEvent::Acquired,
                FrameEvent::Submitted,
                FrameEvent::Presented,
            ],
        ) == seq![
            FrameAction::Acquire,
            FrameAction::Record,
            FrameAction::Present,
            FrameAction::Done(FrameOutcome::Presented),
        ],
        Phase::Idle.after_all(
            seq![
                FrameEvent::RedrawRequested,
                FrameEvent::Acquired,
                FrameEvent::Submitted,
                FrameEvent::Presented,
            ],
        ) == Phase::Idle,
{
    let e4 = seq![
        FrameEvent::RedrawRequested,
        FrameEvent::Acquired,
        FrameEvent::Submitted,
        FrameEvent::Presented,
    ];
    let e3 = e4.drop_last();
    let e2 = e3.drop_last();
    let e1 = e2.drop_last();
    let e0 = e1.drop_last();
    assert(Phase::Idle.after_all(e0) == Phase::Idle);
    assert(Phase::Idle.after_all(e1) == Phase::Acquiring);
    assert(Phase::Idle.after_all(e2) == Phase::Recording);
    assert(Phase::Idle.after_all(e3) == Phase::Submitted);
    assert(Phase::Idle.after_all(e4) == Phase::Idle);
    assert(Phase::Idle.actions(e0) =~= Seq::empty());
    assert(Phase::Idle.actions(e1) =~= seq![FrameAction::Acquire]);
    assert(Phase::Idle.actions(e2) =~= seq![FrameAction::Acquire, FrameAction::Record]);
    assert(Phase::Idle.actions(e3) =~= seq![
        FrameAction::Acquire,
        FrameAction::Record,
        FrameAction::Present,
    ]);
    assert(Phase::Idle.actions(e4) =~= seq![
        FrameAction::Acquire,
        FrameAction::Record,
        FrameAction::Present,
        FrameAction::Done(FrameOutcome::Presented),
    ]);
}

/// Whatever the outside reports, in whatever order: every frame that was
/// presented or that failed after its image was acquired had its commands
/// recorded exactly once, and so drew once; a frame still under way has
/// recorded at most once. No frame records without an image, and none is
/// presented without having recorded.
pub proof fn each_frame_records_once(start: Phase, events: Seq<FrameEvent>)
    ensures
        ({
            let actions = start.actions(events);
            let end = start.after_all(events);
            let records = count(actions, |a: FrameAction| a == FrameAction::Record);
            let presented = count(actions, |a: FrameAction| a == FrameAction::Done(FrameOutcome::Presented));
            let failed = count(actions, |a: FrameAction| a == FrameAction::Done(FrameOutcome::Failed));
            records + (if start.has_recorded() { 1nat } else { 0nat })
                == presented + failed + (if end.has_recorded() { 1nat } else { 0nat })
        }),
    decreases events.len(),
{
    if events.len() > 0 {
        each_frame_records_once(start, events.drop_last());
        assert(start.actions(events).drop_last() =~= start.actions(events.drop_last()));
    }
}

/// Whatever the outside reports: every image asked of the surface is either
/// recorded on, or ends its frame as dropped or fatal, or is still awaited.
pub proof fn each_acquire_is_answered(start: Phase, events: Seq<FrameEvent>)
    ensures
        ({
            let actions = start.actions(events);
            let end = start.after_all(events);
            let acquires = count(actions, |a: FrameAction| a == FrameAction::Acquire);
            let records = count(actions, |a: FrameAction| a == FrameAction::Record);
            let dropped = count(actions, |a: FrameAction| a == FrameAction::Done(FrameOutcome::Dropped));
            let fatal = count(actions, |a: FrameAction| a matches FrameAction::Done(FrameOutcome::Fatal(_)));
            acquires + (if start is Acquiring { 1nat } else { 0nat })
                == records + dropped + fatal + (if end is Acquiring { 1nat } else { 0nat })
        }),
    decreases events.len(),
{
    if events.len() > 0 {
        each_acquire_is_answered(start, events.drop_last());
        assert(start.actions(events).drop_last() =~= start.actions(events.drop_last()));
    }
}

/// A failure is never passed over and never ends the renderer: whichever
/// step fails, the frame is over, the renderer is idle, and a later redraw
/// request starts the next frame. A transient failure to acquire drops the
/// frame; a fatal one is handed on as it came.
pub proof fn failure_ends_the_frame(phase: Phase, error: AcquireError)
    ensures
        phase != Phase::Idle ==> phase.next(FrameEvent::Failed) == Phase::Idle || phase
            == Phase::Acquiring,
        phase.has_recorded() ==> phase.step(FrameEvent::Failed) == (
            Phase::Idle,
            FrameAction::Done(FrameOutcome::Failed),
        ),
        Phase::Acquiring.next(FrameEvent::AcquireFailed(error)) == Phase::Idle,
        error.class() == ErrorClass::Transient ==> Phase::Acquiring.action(
            FrameEvent::AcquireFailed(error),
        ) == FrameAction::Done(FrameOutcome::Dropped),
        error.class() == ErrorClass::Fatal ==> Phase::Acquiring.action(
            FrameEvent::AcquireFailed(error),
        ) == FrameAction::Done(FrameOutcome::Fatal(error)),
        Phase::Idle.step(FrameEvent::RedrawRequested) == (Phase::Acquiring, FrameAction::Acquire),
{
}

/// A frame ends exactly when the renderer falls back to idle.
pub proof fn done_means_idle_again(phase: Phase, event: FrameEvent)
    ensures
        phase.action(event) is Done <==> phase != Phase::Idle && phase.next(event) == Phase::Idle,
        phase.action(event) == FrameAction::Ignored <==> phase.next(event) == phase,
{
}

} // verus!
