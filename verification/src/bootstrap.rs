//! The protocol of start-up: instance, surface, adapter, device and queue,
//! surface configuration, shader, layout, pipeline, strictly in that order.

use vstd::prelude::*;
use crate::application::initial_model;
use crate::application::Application;
use crate::backend::advanced_debugging_flags;
use crate::backend::webgpu_features;
use crate::backend::ADVANCED_DEBUGGING;
use crate::backend::WEBGPU_FEATURES;
use crate::pipeline::standard_pipeline;
use crate::pipeline::PipelineDesc;
use crate::surface::clamp_dimension;
use crate::surface::clamped;
use crate::surface::FormatId;
use crate::surface::PresentMode;

verus! {

/// The families of backends an instance may use.
#[derive(Clone, Copy, Debug, PartialEq, Eq, Structural)]
pub enum BackendFamily {
    Primary,
    Secondary,
    All,
}

/// What an instance is created with.
#[derive(Clone, Copy, Debug, PartialEq, Eq, Structural)]
pub struct InstanceRequest {
    pub backends: BackendFamily,
    /// The bits of the instance's diagnostic flags.
    pub flags: u32,
}

/// The power profile wanted of an adapter.
#[derive(Clone, Copy, Debug, PartialEq, Eq, Structural)]
pub enum PowerProfile {
    Unspecified,
    LowPower,
    HighPerformance,
}

/// What an adapter is selected by.
#[derive(Clone, Copy, Debug, PartialEq, Eq, Structural)]
pub struct AdapterRequest {
    pub power: PowerProfile,
    /// Whether a software adapter is asked for.
    pub fallback: bool,
    /// Whether the adapter must be able to present to the surface.
    pub surface_compatible: bool,
}

/// The resource limits asked of a device.
#[derive(Clone, Copy, Debug, PartialEq, Eq, Structural)]
pub enum LimitSet {
    Default,
    Downlevel,
}

/// What a device is requested with.
#[derive(Clone, Copy, Debug, PartialEq, Eq, Structural)]
pub struct DeviceRequest {
    /// The bits of the features that the device must have.
    pub features: u64,
    pub limits: LimitSet,
}

/// Why start-up ended without a renderer.
#[derive(Clone, Copy, Debug, PartialEq, Eq, Structural)]
pub enum BootstrapError {
    SurfaceCreationFailed,
    NoAdapterFound,
    DeviceRequestFailed,
    ShaderCompilationFailed,
    PipelineLayoutFailed,
}

/// How far start-up has come: the operation in flight, or the end reached.
#[derive(Clone, Copy, Debug, PartialEq, Eq, Structural)]
pub enum BootStage {
    Start,
    CreatingInstance,
    CreatingSurface,
    RequestingAdapter,
    RequestingDevice,
    DerivingConfig,
    Configuring,
    CompilingShader,
    CreatingLayout,
    BuildingPipeline,
    Ready,
    Failed,
}

/// What the driver reports.
#[derive(Clone, Copy, Debug, PartialEq, Eq, Structural)]
pub enum BootEvent {
    /// Start-up is wanted.
    Begin,
    /// The operation asked for last has succeeded.
    Done,
    /// The operation asked for last was refused by the backend.
    Failed,
    /// No adapter meets the request.
    NoAdapter,
    /// The surface's default configuration for the adapter was derived.
    Offered { format: FormatId, present_mode: PresentMode },
}

/// What the driver does next.
#[derive(Clone, Copy, Debug, PartialEq, Eq, Structural)]
pub enum BootAction {
    CreateInstance(InstanceRequest),
    /// Create the surface on the window.
    CreateSurface,
    RequestAdapter(AdapterRequest),
    RequestDevice(DeviceRequest),
    /// Ask the surface for its default configuration at this size.
    DeriveConfig { width: u32, height: u32 },
    /// Configure the surface.
    Configure { format: FormatId, present_mode: PresentMode, width: u32, height: u32 },
    /// Compile the bundled shader source into a module.
    CompileShader,
    /// Create the pipeline layout, with nothing bound.
    CreateLayout,
    BuildPipeline(PipelineDesc),
    /// Start-up is complete: assemble the renderer.
    Assemble,
    /// Start-up has failed for good: report the error.
    Abort(BootstrapError),
}

/// What the surface offers for the selected adapter: its first format and
/// its first present mode.
#[derive(Clone, Copy, Debug, PartialEq, Eq, Structural)]
pub struct Offer {
    pub format: FormatId,
    pub present_mode: PresentMode,
}

/// The state of start-up: its stage, the size asked for, and what the
/// surface offered once that is known.
#[derive(Clone, Copy, Debug, PartialEq, Eq, Structural)]
pub struct BootState {
    pub stage: BootStage,
    pub width: u32,
    pub height: u32,
    pub offer: Option<Offer>,
}

/// A step of the protocol: the state reached and the operation to perform.
#[derive(Clone, Copy, Debug, PartialEq, Eq, Structural)]
pub struct BootStep {
    pub next: BootState,
    pub action: BootAction,
}

/// The primary backends, with advanced diagnostics.
pub open spec fn instance_request() -> InstanceRequest {
    InstanceRequest { backends: BackendFamily::Primary, flags: ADVANCED_DEBUGGING }
}

/// A high-performance adapter that can present to the surface; no software
/// adapter.
pub open spec fn adapter_request() -> AdapterRequest {
    AdapterRequest { power: PowerProfile::HighPerformance, fallback: false, surface_compatible: true }
}

/// All features of the web-compatible profile, default limits.
pub open spec fn device_request() -> DeviceRequest {
    DeviceRequest { features: WEBGPU_FEATURES, limits: LimitSet::Default }
}

impl BootStage {
    /// The position of a stage in start-up.
    pub open spec fn rank(self) -> nat {
        match self {
            BootStage::Start => 0,
            BootStage::CreatingInstance => 1,
            BootStage::CreatingSurface => 2,
            BootStage::RequestingAdapter => 3,
            BootStage::RequestingDevice => 4,
            BootStage::DerivingConfig => 5,
            BootStage::Configuring => 6,
            BootStage::CompilingShader => 7,
            BootStage::CreatingLayout => 8,
            BootStage::BuildingPipeline => 9,
            BootStage::Ready => 10,
            BootStage::Failed => 11,
        }
    }
}

impl BootstrapError {
    /// The stage at which an error arises.
    pub open spec fn stage_spec(self) -> BootStage {
        match self {
            BootstrapError::SurfaceCreationFailed => BootStage::CreatingSurface,
            BootstrapError::NoAdapterFound => BootStage::RequestingAdapter,
            BootstrapError::DeviceRequestFailed => BootStage::RequestingDevice,
            BootstrapError::ShaderCompilationFailed => BootStage::CompilingShader,
            BootstrapError::PipelineLayoutFailed => BootStage::CreatingLayout,
        }
    }

    /// The stage of start-up that the error names.
    pub fn stage(self) -> (r: BootStage)
        ensures
            r == self.stage_spec(),
    {
        match self {
            BootstrapError::SurfaceCreationFailed => BootStage::CreatingSurface,
            BootstrapError::NoAdapterFound => BootStage::RequestingAdapter,
            BootstrapError::DeviceRequestFailed => BootStage::RequestingDevice,
            BootstrapError::ShaderCompilationFailed => BootStage::CompilingShader,
            BootstrapError::PipelineLayoutFailed => BootStage::CreatingLayout,
        }
    }
}

/// The state in which start-up begins, for a requested size.
pub open spec fn boot_start(width: u32, height: u32) -> BootState {
    BootState { stage: BootStage::Start, width, height, offer: None }
}

/// The protocol. `None` where the event has no place at the stage. Once
/// start-up is ready or has failed, no event is accepted.
pub open spec fn boot_step(state: BootState, event: BootEvent) -> Option<BootStep> {
    match (state.stage, event) {
        (BootStage::Start, BootEvent::Begin) => Some(
            BootStep {
                next: BootState { stage: BootStage::CreatingInstance, ..state },
                action: BootAction::CreateInstance(instance_request()),
            },
        ),
        (BootStage::CreatingInstance, BootEvent::Done) => Some(
            BootStep {
                next: BootState { stage: BootStage::CreatingSurface, ..state },
                action: BootAction::CreateSurface,
            },
        ),
        (BootStage::CreatingSurface, BootEvent::Done) => Some(
            BootStep {
                next: BootState { stage: BootStage::RequestingAdapter, ..state },
                action: BootAction::RequestAdapter(adapter_request()),
            },
        ),
        (BootStage::CreatingSurface, BootEvent::Failed) => Some(
            failure(state, BootstrapError::SurfaceCreationFailed),
        ),
        (BootStage::RequestingAdapter, BootEvent::Done) => Some(
            BootStep {
                next: BootState { stage: BootStage::RequestingDevice, ..state },
                action: BootAction::RequestDevice(device_request()),
            },
        ),
        (BootStage::RequestingAdapter, BootEvent::NoAdapter) => Some(
            failure(state, BootstrapError::NoAdapterFound),
        ),
        (BootStage::RequestingDevice, BootEvent::Done) => Some(
            BootStep {
                next: BootState { stage: BootStage::DerivingConfig, ..state },
                action: BootAction::DeriveConfig {
                    width: clamped(state.width),
                    height: clamped(state.height),
                },
            },
        ),
        (BootStage::RequestingDevice, BootEvent::Failed) => Some(
            failure(state, BootstrapError::DeviceRequestFailed),
        ),
        (BootStage::DerivingConfig, BootEvent::Offered { format, present_mode }) => Some(
            BootStep {
                next: BootState {
                    stage: BootStage::Configuring,
                    offer: Some(Offer { format, present_mode }),
                    ..state
                },
                action: BootAction::Configure {
                    format,
                    present_mode,
                    width: clamped(state.width),
                    height: clamped(state.height),
                },
            },
        ),
        (BootStage::Configuring, BootEvent::Done) => Some(
            BootStep {
                next: BootState { stage: BootStage::CompilingShader, ..state },
                action: BootAction::CompileShader,
            },
        ),
        (BootStage::CompilingShader, BootEvent::Done) => Some(
            BootStep {
                next: BootState { stage: BootStage::CreatingLayout, ..state },
                action: BootAction::CreateLayout,
            },
        ),
        (BootStage::CompilingShader, BootEvent::Failed) => Some(
            failure(state, BootstrapError::ShaderCompilationFailed),
        ),
        (BootStage::CreatingLayout, BootEvent::Done) => match state.offer {
            Some(offer) => Some(
                BootStep {
                    next: BootState { stage: BootStage::BuildingPipeline, ..state },
                    action: BootAction::BuildPipeline(standard_pipeline(offer.format)),
                },
            ),
            None => None,
        },
        (BootStage::CreatingLayout, BootEvent::Failed) => Some(
            failure(state, BootstrapError::PipelineLayoutFailed),
        ),
        (BootStage::BuildingPipeline, BootEvent::Done) => Some(
            BootStep {
                next: BootState { stage: BootStage::Ready, ..state },
                action: BootAction::Assemble,
            },
        ),
        _ => None,
    }
}

/// The step that ends start-up with an error.
pub open spec fn failure(state: BootState, error: BootstrapError) -> BootStep {
    BootStep {
        next: BootState { stage: BootStage::Failed, ..state },
        action: BootAction::Abort(error),
    }
}

fn fail(state: BootState, error: BootstrapError) -> (r: BootStep)
    ensures
        r == failure(state, error),
{
    BootStep {
        next: BootState { stage: BootStage::Failed, ..state },
        action: BootAction::Abort(error),
    }
}

fn proceed(state: BootState, stage: BootStage, action: BootAction) -> (r: BootStep)
    ensures
        r == (BootStep { next: BootState { stage, ..state }, action }),
{
    BootStep { next: BootState { stage, ..state }, action }
}

impl BootState {
    /// Start-up at its beginning, for a requested size.
    pub fn begin(width: u32, height: u32) -> (r: Self)
        ensures
            r == boot_start(width, height),
    {
        BootState { stage: BootStage::Start, width, height, offer: None }
    }

    /// One step of the protocol.
    pub fn step(self, event: BootEvent) -> (r: Option<BootStep>)
        ensures
            r == boot_step(self, event),
    {
        match (self.stage, event) {
            (BootStage::Start, BootEvent::Begin) => Some(
                proceed(
                    self,
                    BootStage::CreatingInstance,
                    BootAction::CreateInstance(
                        InstanceRequest {
                            backends: BackendFamily::Primary,
                            flags: advanced_debugging_flags(),
                        },
                    ),
                ),
            ),
            (BootStage::CreatingInstance, BootEvent::Done) => Some(
                proceed(self, BootStage::CreatingSurface, BootAction::CreateSurface),
            ),
            (BootStage::CreatingSurface, BootEvent::Done) => Some(
                proceed(
                    self,
                    BootStage::RequestingAdapter,
                    BootAction::RequestAdapter(
                        AdapterRequest {
                            power: PowerProfile::HighPerformance,
                            fallback: false,
                            surface_compatible: true,
                        },
                    ),
                ),
            ),
            (BootStage::CreatingSurface, BootEvent::Failed) => Some(
                fail(self, BootstrapError::SurfaceCreationFailed),
            ),
            (BootStage::RequestingAdapter, BootEvent::Done) => Some(
                proceed(
                    self,
                    BootStage::RequestingDevice,
                    BootAction::RequestDevice(
                        DeviceRequest { features: webgpu_features(), limits: LimitSet::Default },
                    ),
                ),
            ),
            (BootStage::RequestingAdapter, BootEvent::NoAdapter) => Some(
                fail(self, BootstrapError::NoAdapterFound),
            ),
            (BootStage::RequestingDevice, BootEvent::Done) => Some(
                proceed(
                    self,
                    BootStage::DerivingConfig,
                    BootAction::DeriveConfig {
                        width: clamp_dimension(self.width),
                        height: clamp_dimension(self.height),
                    },
                ),
            ),
            (BootStage::RequestingDevice, BootEvent::Failed) => Some(
                fail(self, BootstrapError::DeviceRequestFailed),
            ),
            (BootStage::DerivingConfig, BootEvent::Offered { format, present_mode }) => Some(
                BootStep {
                    next: BootState {
                        stage: BootStage::Configuring,
                        offer: Some(Offer { format, present_mode }),
                        ..self
                    },
                    action: BootAction::Configure {
                        format,
                        present_mode,
                        width: clamp_dimension(self.width),
                        height: clamp_dimension(self.height),
                    },
                },
            ),
            (BootStage::Configuring, BootEvent::Done) => Some(
                proceed(self, BootStage::CompilingShader, BootAction::CompileShader),
            ),
            (BootStage::CompilingShader, BootEvent::Done) => Some(
                proceed(self, BootStage::CreatingLayout, BootAction::CreateLayout),
            ),
            (BootStage::CompilingShader, BootEvent::Failed) => Some(
                fail(self, BootstrapError::ShaderCompilationFailed),
            ),
            (BootStage::CreatingLayout, BootEvent::Done) => match self.offer {
                Some(offer) => Some(
                    proceed(
                        self,
                        BootStage::BuildingPipeline,
                        BootAction::BuildPipeline(PipelineDesc::for_format(offer.format)),
                    ),
                ),
                None => None,
            },
            (BootStage::CreatingLayout, BootEvent::Failed) => Some(
                fail(self, BootstrapError::PipelineLayoutFailed),
            ),
            (BootStage::BuildingPipeline, BootEvent::Done) => Some(
                proceed(self, BootStage::Ready, BootAction::Assemble),
            ),
            _ => None,
        }
    }

    /// The renderer that a completed start-up yields. There is one exactly
    /// when start-up is ready and the surface's offer is known.
    pub fn assemble(self) -> (r: Option<Application>)
        ensures
            r.is_some() <==> (self.stage == BootStage::Ready && self.offer.is_some()),
            r matches Some(app) ==> app.wf() && app@ == initial_model(
                self.offer.unwrap().format,
                self.offer.unwrap().present_mode,
                self.width,
                self.height,
            ),
    {
        match (self.stage, self.offer) {
            (BootStage::Ready, Some(offer)) => Some(
                Application::new(offer.format, offer.present_mode, self.width, self.height),
            ),
            _ => None,
        }
    }
}

/// Whether a state can arise in a run from `boot_start`: from the moment
/// the surface is being configured, its offer is known, and not before.
pub open spec fn boot_reachable(state: BootState) -> bool {
    state.stage != BootStage::Failed ==> (state.offer.is_some() <==> state.stage.rank() >= 6)
}

/// Start-up never skips and never goes back: an accepted event leads to the
/// stage that comes next, or to failure. The size asked for is kept, and a
/// state that can arise leads only to states that can arise, so that a
/// ready start-up always yields a renderer.
pub proof fn lemma_boot_in_order(state: BootState, event: BootEvent)
    ensures
        boot_step(state, event) matches Some(s) ==> {
            &&& s.next.stage.rank() == state.stage.rank() + 1 || s.next.stage == BootStage::Failed
            &&& s.next.width == state.width
            &&& s.next.height == state.height
            &&& (s.next.stage == BootStage::Failed <==> s.action is Abort)
            &&& (s.action matches BootAction::Abort(e) ==> e.stage_spec() == state.stage)
            &&& (boot_reachable(state) ==> boot_reachable(s.next))
        },
        state.stage == BootStage::Ready || state.stage == BootStage::Failed ==> boot_step(
            state,
            event,
        ) is None,
        boot_reachable(boot_start(state.width, state.height)),
        boot_reachable(state) && state.stage == BootStage::Ready ==> state.offer.is_some(),
{
}

/// The surface is configured with the size asked for, each dimension
/// raised to at least one, and the pipeline is built for the format that
/// the surface was configured with.
pub proof fn lemma_boot_configures_clamped_size(state: BootState, event: BootEvent)
    ensures
        boot_step(state, event) matches Some(s) ==> {
            &&& (s.action matches BootAction::Configure { format, present_mode, width, height }
                ==> width >= 1 && height >= 1 && width == clamped(state.width) && height
                == clamped(state.height) && s.next.offer == Some(Offer { format, present_mode }))
            &&& (s.action matches BootAction::DeriveConfig { width, height } ==> width >= 1
                && height >= 1)
            &&& (s.action matches BootAction::BuildPipeline(p) ==> state.offer.is_some()
                && p.target.format == state.offer.unwrap().format)
        },
{
}

/// Whether `states` and `events` are a run of start-up: each event is
/// accepted at its state and leads to the state that follows.
pub open spec fn is_boot_run(states: Seq<BootState>, events: Seq<BootEvent>) -> bool {
    &&& states.len() == events.len() + 1
    &&& forall|n: int|
        0 <= n < events.len() ==> (#[trigger] boot_step(states[n], events[n])) == Some(
            BootStep { next: states[n + 1], action: boot_step(states[n], events[n]).unwrap().action },
        )
}

/// In a run of start-up from its beginning, the state at place `i` is at
/// the stage of rank `i`, unless start-up has failed, which only the last
/// state of a run can have. So the instance comes before the surface, the
/// surface before the adapter, the adapter before the device, and so on to
/// the pipeline, with nothing left out, repeated or interleaved; and a run
/// has at most ten events.
pub proof fn lemma_boot_run_in_order(states: Seq<BootState>, events: Seq<BootEvent>, i: int)
    requires
        is_boot_run(states, events),
        states[0].stage == BootStage::Start,
        0 <= i < states.len(),
    ensures
        states[i].stage.rank() == i || (states[i].stage == BootStage::Failed && i == states.len()
            - 1),
        i <= 10,
        states[i].width == states[0].width,
        states[i].height == states[0].height,
    decreases i,
{
    if i > 0 {
        lemma_boot_run_in_order(states, events, i - 1);
        lemma_boot_in_order(states[i - 1], events[i - 1]);
        assert(boot_step(states[i - 1], events[i - 1]).unwrap().next == states[i - 1 + 1]);
        if i + 1 < states.len() {
            lemma_boot_in_order(states[i], events[i]);
            assert(boot_step(states[i], events[i]) is Some);
        }
    }
}

} // verus!
