//! The protocol of one frame: which backend operation follows which.
//!
//! The driver reports an event; the protocol answers with the next stage and
//! the operation that the driver performs next.

use vstd::prelude::*;
use crate::surface::FormatId;

verus! {

/// Why the surface could not hand out its current frame.
#[derive(Clone, Copy, Debug, PartialEq, Eq, Structural)]
pub enum SurfaceErrorKind {
    Timeout,
    Outdated,
    Lost,
    OutOfMemory,
}

/// What a caller does about a surface error.
#[derive(Clone, Copy, Debug, PartialEq, Eq, Structural)]
pub enum Recovery {
    /// Try again at the next scheduled frame.
    RetryNextFrame,
    /// Configure the surface again with its current size, then render.
    Reconfigure,
    /// Give up.
    Abort,
}

impl SurfaceErrorKind {
    pub open spec fn recovery_spec(self) -> Recovery {
        match self {
            SurfaceErrorKind::Timeout => Recovery::RetryNextFrame,
            SurfaceErrorKind::Outdated => Recovery::Reconfigure,
            SurfaceErrorKind::Lost => Recovery::Reconfigure,
            SurfaceErrorKind::OutOfMemory => Recovery::Abort,
        }
    }

    /// The reaction that the error calls for.
    pub fn recovery(self) -> (r: Recovery)
        ensures
            r == self.recovery_spec(),
    {
        match self {
            SurfaceErrorKind::Timeout => Recovery::RetryNextFrame,
            SurfaceErrorKind::Outdated => Recovery::Reconfigure,
            SurfaceErrorKind::Lost => Recovery::Reconfigure,
            SurfaceErrorKind::OutOfMemory => Recovery::Abort,
        }
    }
}

/// The colour a render pass clears its target to, eight bits per channel.
#[derive(Clone, Copy, Debug, PartialEq, Eq, Structural)]
pub struct ClearColor {
    pub red: u8,
    pub green: u8,
    pub blue: u8,
    pub alpha: u8,
}

pub open spec fn opaque_black() -> ClearColor {
    ClearColor { red: 0, green: 0, blue: 0, alpha: 255 }
}

impl ClearColor {
    /// Black, fully opaque.
    pub fn black() -> (r: Self)
        ensures
            r == opaque_black(),
    {
        ClearColor { red: 0, green: 0, blue: 0, alpha: 255 }
    }
}

/// The number of vertices of the one draw call: two triangles.
pub const VERTEX_COUNT: u32 = 6;

/// The number of instances of the one draw call.
pub const INSTANCE_COUNT: u32 = 1;

/// The five states of a frame cycle.
#[derive(Clone, Copy, Debug, PartialEq, Eq, Structural)]
pub enum FramePhase {
    Idle,
    Acquired,
    Recording,
    Submitted,
    Presented,
}

/// How far a frame cycle has come, operation by operation. Each stage but
/// `Idle` and `Presented` has one operation in flight.
#[derive(Clone, Copy, Debug, PartialEq, Eq, Structural)]
pub enum FrameStage {
    /// No cycle is running.
    Idle,
    /// The surface was asked for its current frame.
    Acquiring,
    /// The frame is in hand; its view is being created.
    Acquired,
    /// The view exists; the command encoder is being opened.
    ViewCreated,
    /// The encoder is open; the render pass is being begun.
    EncoderOpen,
    /// The pass is open; the pipeline is being bound.
    PassOpen,
    /// The pipeline is bound; the draw call is being issued.
    PipelineBound,
    /// The draw call is recorded; the pass is being ended.
    Drawn,
    /// The pass is closed; the encoder is being finished and submitted.
    PassEnded,
    /// The commands are with the queue; the frame is being presented.
    Submitted,
    /// The frame was presented and its handle is gone.
    Presented,
}

/// What the driver reports.
#[derive(Clone, Copy, Debug, PartialEq, Eq, Structural)]
pub enum FrameEvent {
    /// A frame is wanted.
    Begin,
    /// The operation asked for last has succeeded.
    Done,
    /// The surface did not hand out a frame.
    AcquireFailed(SurfaceErrorKind),
    /// The backend failed at an operation on the frame in hand.
    Failed,
}

/// What the driver does next.
#[derive(Clone, Copy, Debug, PartialEq, Eq, Structural)]
pub enum FrameAction {
    /// Ask the surface for its current frame.
    Acquire,
    /// Derive a view of the frame's texture, with this format stated.
    CreateView { format: FormatId },
    /// Open a command encoder on the device.
    OpenEncoder,
    /// Begin the one render pass: one colour attachment on the view, cleared
    /// to `clear` on load and stored; no depth or stencil, no queries.
    BeginPass { clear: ClearColor, store: bool },
    /// Bind the render pipeline to the pass.
    SetPipeline,
    /// Draw `vertex_count` vertices from `first_vertex` on, `instance_count`
    /// instances from `first_instance` on.
    Draw { first_vertex: u32, vertex_count: u32, first_instance: u32, instance_count: u32 },
    /// Close the pass.
    EndPass,
    /// Finish the encoder and submit its command buffer to the queue.
    Submit,
    /// Present the frame.
    Present,
    /// The cycle is complete: report success.
    Complete,
    /// The cycle has ended without a frame: report the error.
    Fail(SurfaceErrorKind),
    /// The cycle has broken down: release the pass, the encoder, the view
    /// and the frame, whichever are held, and report the frame as failed.
    Discard,
}

/// A step of the protocol: the stage reached and the operation to perform.
#[derive(Clone, Copy, Debug, PartialEq, Eq, Structural)]
pub struct FrameStep {
    pub next: FrameStage,
    pub action: FrameAction,
}

impl FrameStage {
    /// The state of the cycle that a stage belongs to.
    pub open spec fn phase_spec(self) -> FramePhase {
        match self {
            FrameStage::Idle | FrameStage::Acquiring => FramePhase::Idle,
            FrameStage::Acquired | FrameStage::ViewCreated => FramePhase::Acquired,
            FrameStage::EncoderOpen
            | FrameStage::PassOpen
            | FrameStage::PipelineBound
            | FrameStage::Drawn
            | FrameStage::PassEnded => FramePhase::Recording,
            FrameStage::Submitted => FramePhase::Submitted,
            FrameStage::Presented => FramePhase::Presented,
        }
    }

    /// The position of a stage in a cycle.
    pub open spec fn rank(self) -> nat {
        match self {
            FrameStage::Idle => 0,
            FrameStage::Acquiring => 1,
            FrameStage::Acquired => 2,
            FrameStage::ViewCreated => 3,
            FrameStage::EncoderOpen => 4,
            FrameStage::PassOpen => 5,
            FrameStage::PipelineBound => 6,
            FrameStage::Drawn => 7,
            FrameStage::PassEnded => 8,
            FrameStage::Submitted => 9,
            FrameStage::Presented => 10,
        }
    }

    /// A frame is in hand and not yet presented.
    pub open spec fn holds_frame(self) -> bool {
        2 <= self.rank() <= 9
    }

    /// No frame is held: none was acquired yet, or the last one was
    /// presented.
    pub open spec fn between_frames(self) -> bool {
        self == FrameStage::Idle || self == FrameStage::Presented
    }

    pub fn phase(self) -> (r: FramePhase)
        ensures
            r == self.phase_spec(),
    {
        match self {
            FrameStage::Idle | FrameStage::Acquiring => FramePhase::Idle,
            FrameStage::Acquired | FrameStage::ViewCreated => FramePhase::Acquired,
            FrameStage::EncoderOpen
            | FrameStage::PassOpen
            | FrameStage::PipelineBound
            | FrameStage::Drawn
            | FrameStage::PassEnded => FramePhase::Recording,
            FrameStage::Submitted => FramePhase::Submitted,
            FrameStage::Presented => FramePhase::Presented,
        }
    }

    /// Tells whether no frame is held.
    pub fn is_between_frames(self) -> (r: bool)
        ensures
            r == self.between_frames(),
    {
        match self {
            FrameStage::Idle | FrameStage::Presented => true,
            _ => false,
        }
    }
}

/// The draw call of every frame.
pub open spec fn the_draw() -> FrameAction {
    FrameAction::Draw {
        first_vertex: 0,
        vertex_count: VERTEX_COUNT,
        first_instance: 0,
        instance_count: INSTANCE_COUNT,
    }
}

/// The protocol. `None` where the event has no place at the stage: a cycle
/// begins only between frames, an acquisition fails only while it is asked
/// for, an operation fails only on a frame in hand, and nothing is done
/// after presentation but to begin again.
pub open spec fn frame_step(
    stage: FrameStage,
    event: FrameEvent,
    format: FormatId,
    clear: ClearColor,
) -> Option<FrameStep> {
    match (stage, event) {
        (FrameStage::Idle, FrameEvent::Begin) | (FrameStage::Presented, FrameEvent::Begin) => Some(
            FrameStep { next: FrameStage::Acquiring, action: FrameAction::Acquire },
        ),
        (FrameStage::Acquiring, FrameEvent::AcquireFailed(kind)) => Some(
            FrameStep { next: FrameStage::Idle, action: FrameAction::Fail(kind) },
        ),
        (FrameStage::Acquiring, FrameEvent::Done) => Some(
            FrameStep { next: FrameStage::Acquired, action: FrameAction::CreateView { format } },
        ),
        (FrameStage::Acquired, FrameEvent::Done) => Some(
            FrameStep { next: FrameStage::ViewCreated, action: FrameAction::OpenEncoder },
        ),
        (FrameStage::ViewCreated, FrameEvent::Done) => Some(
            FrameStep {
                next: FrameStage::EncoderOpen,
                action: FrameAction::BeginPass { clear, store: true },
            },
        ),
        (FrameStage::EncoderOpen, FrameEvent::Done) => Some(
            FrameStep { next: FrameStage::PassOpen, action: FrameAction::SetPipeline },
        ),
        (FrameStage::PassOpen, FrameEvent::Done) => Some(
            FrameStep { next: FrameStage::PipelineBound, action: the_draw() },
        ),
        (FrameStage::PipelineBound, FrameEvent::Done) => Some(
            FrameStep { next: FrameStage::Drawn, action: FrameAction::EndPass },
        ),
        (FrameStage::Drawn, FrameEvent::Done) => Some(
            FrameStep { next: FrameStage::PassEnded, action: FrameAction::Submit },
        ),
        (FrameStage::PassEnded, FrameEvent::Done) => Some(
            FrameStep { next: FrameStage::Submitted, action: FrameAction::Present },
        ),
        (FrameStage::Submitted, FrameEvent::Done) => Some(
            FrameStep { next: FrameStage::Presented, action: FrameAction::Complete },
        ),
        (_, FrameEvent::Failed) => if stage.holds_frame() {
            Some(FrameStep { next: FrameStage::Idle, action: FrameAction::Discard })
        } else {
            None
        },
        _ => None,
    }
}

/// One step of the protocol.
pub fn step(stage: FrameStage, event: FrameEvent, format: FormatId, clear: ClearColor) -> (r:
    Option<FrameStep>)
    ensures
        r == frame_step(stage, event, format, clear),
{
    match (stage, event) {
        (FrameStage::Idle, FrameEvent::Begin) | (FrameStage::Presented, FrameEvent::Begin) => Some(
            FrameStep { next: FrameStage::Acquiring, action: FrameAction::Acquire },
        ),
        (FrameStage::Acquiring, FrameEvent::AcquireFailed(kind)) => Some(
            FrameStep { next: FrameStage::Idle, action: FrameAction::Fail(kind) },
        ),
        (FrameStage::Acquiring, FrameEvent::Done) => Some(
            FrameStep { next: FrameStage::Acquired, action: FrameAction::CreateView { format } },
        ),
        (FrameStage::Acquired, FrameEvent::Done) => Some(
            FrameStep { next: FrameStage::ViewCreated, action: FrameAction::OpenEncoder },
        ),
        (FrameStage::ViewCreated, FrameEvent::Done) => Some(
            FrameStep {
                next: FrameStage::EncoderOpen,
                action: FrameAction::BeginPass { clear, store: true },
            },
        ),
        (FrameStage::EncoderOpen, FrameEvent::Done) => Some(
            FrameStep { next: FrameStage::PassOpen, action: FrameAction::SetPipeline },
        ),
        (FrameStage::PassOpen, FrameEvent::Done) => Some(
            FrameStep {
                next: FrameStage::PipelineBound,
                action: FrameAction::Draw {
                    first_vertex: 0,
                    vertex_count: VERTEX_COUNT,
                    first_instance: 0,
                    instance_count: INSTANCE_COUNT,
                },
            },
        ),
        (FrameStage::PipelineBound, FrameEvent::Done) => Some(
            FrameStep { next: FrameStage::Drawn, action: FrameAction::EndPass },
        ),
        (FrameStage::Drawn, FrameEvent::Done) => Some(
            FrameStep { next: FrameStage::PassEnded, action: FrameAction::Submit },
        ),
        (FrameStage::PassEnded, FrameEvent::Done) => Some(
            FrameStep { next: FrameStage::Submitted, action: FrameAction::Present },
        ),
        (FrameStage::Submitted, FrameEvent::Done) => Some(
            FrameStep { next: FrameStage::Presented, action: FrameAction::Complete },
        ),
        (FrameStage::Acquired, FrameEvent::Failed)
        | (FrameStage::ViewCreated, FrameEvent::Failed)
        | (FrameStage::EncoderOpen, FrameEvent::Failed)
        | (FrameStage::PassOpen, FrameEvent::Failed)
        | (FrameStage::PipelineBound, FrameEvent::Failed)
        | (FrameStage::Drawn, FrameEvent::Failed)
        | (FrameStage::PassEnded, FrameEvent::Failed)
        | (FrameStage::Submitted, FrameEvent::Failed) => Some(
            FrameStep { next: FrameStage::Idle, action: FrameAction::Discard },
        ),
        _ => None,
    }
}

/// The operations of a successful cycle, in the order in which the protocol
/// asks for them.
pub open spec fn frame_script(format: FormatId, clear: ClearColor) -> Seq<FrameAction> {
    seq![
        FrameAction::Acquire,
        FrameAction::CreateView { format },
        FrameAction::OpenEncoder,
        FrameAction::BeginPass { clear, store: true },
        FrameAction::SetPipeline,
        the_draw(),
        FrameAction::EndPass,
        FrameAction::Submit,
        FrameAction::Present,
        FrameAction::Complete,
    ]
}

/// Whether `stages` and `events` are a run of the protocol: each event is
/// accepted at its stage and leads to the stage that follows.
pub open spec fn is_run(
    stages: Seq<FrameStage>,
    events: Seq<FrameEvent>,
    format: FormatId,
    clear: ClearColor,
) -> bool {
    &&& stages.len() == events.len() + 1
    &&& forall|n: int|
        0 <= n < events.len() ==> (#[trigger] frame_step(stages[n], events[n], format, clear))
            is Some && frame_step(stages[n], events[n], format, clear).unwrap().next == stages[n
            + 1]
}

/// A step never skips: it either moves to the stage that comes next in the
/// cycle, on `Done` (or on `Begin` out of `Idle`), or begins a new cycle
/// after a presented frame, or ends a cycle that failed. The operation
/// asked for on entering a stage is the one at that place of the script.
pub proof fn lemma_step_in_order(
    stage: FrameStage,
    event: FrameEvent,
    format: FormatId,
    clear: ClearColor,
)
    ensures
        frame_step(stage, event, format, clear) matches Some(s) ==> {
            ||| s.next.rank() == stage.rank() + 1
            ||| stage == FrameStage::Presented && s.next == FrameStage::Acquiring
            ||| stage == FrameStage::Acquiring && s.next == FrameStage::Idle && event
                is AcquireFailed
            ||| stage.holds_frame() && s.next == FrameStage::Idle && event is Failed
        },
        frame_step(stage, event, format, clear) matches Some(s) ==> (s.next != FrameStage::Idle
            ==> s.action == frame_script(format, clear)[s.next.rank() - 1]),
        frame_step(stage, event, format, clear) matches Some(s) ==> (s.next == FrameStage::Idle
            ==> {
            ||| s.action is Fail && event == FrameEvent::AcquireFailed(s.action->Fail_0)
            ||| s.action is Discard && event is Failed
        }),
        frame_step(stage, event, format, clear) matches Some(s) ==> (s.next.rank() >= 2
            ==> event == FrameEvent::Done && s.next.rank() == stage.rank() + 1),
{
}

/// In a run that starts between frames, whatever stage is reached at a
/// later place `i` was reached through every earlier stage of the same
/// cycle, one after the other and directly before it: `j` places back
/// stands the stage `j` ranks lower, and it was entered on `Done` unless it
/// is the first of the cycle. So a presented frame was acquired, viewed,
/// recorded and submitted, in that order, with no step left out.
pub proof fn lemma_cycle_in_order(
    stages: Seq<FrameStage>,
    events: Seq<FrameEvent>,
    format: FormatId,
    clear: ClearColor,
    i: int,
    j: int,
)
    requires
        is_run(stages, events, format, clear),
        stages[0].between_frames(),
        1 <= i < stages.len(),
        0 <= j < stages[i].rank(),
    ensures
        j < i,
        stages[i - j].rank() == stages[i].rank() - j,
        stages[i - j].rank() >= 2 ==> events[i - j - 1] == FrameEvent::Done,
    decreases j,
{
    if j > 0 {
        lemma_cycle_in_order(stages, events, format, clear, i, j - 1);
    }
    let m = i - j;
    if j > 0 {
        let up = m + 1;
        lemma_step_in_order(stages[up - 1], events[up - 1], format, clear);
        assert(frame_step(stages[up - 1], events[up - 1], format, clear).unwrap().next
            == stages[up - 1 + 1]);
    }
    lemma_step_in_order(stages[m - 1], events[m - 1], format, clear);
    assert(frame_step(stages[m - 1], events[m - 1], format, clear).unwrap().next == stages[m - 1
        + 1]);
}

/// The stages of a cycle, from rest to the presented frame.
pub open spec fn cycle_stages() -> Seq<FrameStage> {
    seq![
        FrameStage::Idle,
        FrameStage::Acquiring,
        FrameStage::Acquired,
        FrameStage::ViewCreated,
        FrameStage::EncoderOpen,
        FrameStage::PassOpen,
        FrameStage::PipelineBound,
        FrameStage::Drawn,
        FrameStage::PassEnded,
        FrameStage::Submitted,
        FrameStage::Presented,
    ]
}

/// The events of a cycle in which every operation succeeds.
pub open spec fn cycle_events() -> Seq<FrameEvent> {
    seq![
        FrameEvent::Begin,
        FrameEvent::Done,
        FrameEvent::Done,
        FrameEvent::Done,
        FrameEvent::Done,
        FrameEvent::Done,
        FrameEvent::Done,
        FrameEvent::Done,
        FrameEvent::Done,
        FrameEvent::Done,
    ]
}

/// From rest, `Begin` and then `Done` for each operation is a run through
/// all stages that ends with the frame presented, and the operations asked
/// for on the way are exactly the script, in its order.
pub proof fn lemma_successful_cycle(format: FormatId, clear: ClearColor)
    ensures
        is_run(cycle_stages(), cycle_events(), format, clear),
        cycle_stages().last() == FrameStage::Presented,
        forall|k: int|
            0 <= k < 10 ==> #[trigger] frame_step(
                cycle_stages()[k],
                cycle_events()[k],
                format,
                clear,
            ) == Some(
                FrameStep { next: cycle_stages()[k + 1], action: frame_script(format, clear)[k] },
            ),
{
    let stages = cycle_stages();
    let events = cycle_events();
    let script = frame_script(format, clear);
    assert forall|k: int| 0 <= k < 10 implies #[trigger] frame_step(
        stages[k],
        events[k],
        format,
        clear,
    ) == Some(FrameStep { next: stages[k + 1], action: script[k] }) by {}
}

} // verus!
