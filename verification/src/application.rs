//! The renderer's state: the surface configuration, the pipeline built for
//! it, and the stage of the frame in progress.

use vstd::prelude::*;
use crate::frame::frame_step;
use crate::frame::opaque_black;
use crate::frame::step;
use crate::frame::ClearColor;
use crate::frame::FrameAction;
use crate::frame::FrameEvent;
use crate::frame::FramePhase;
use crate::frame::FrameStage;
use crate::frame::SurfaceErrorKind;
use crate::pipeline::standard_pipeline;
use crate::pipeline::PipelineDesc;
use crate::surface::configured;
use crate::surface::resized;
use crate::surface::FormatId;
use crate::surface::PresentMode;
use crate::surface::SurfaceConfig;
use crate::surface::SurfaceConfigModel;

verus! {

/// A window-system event, as far as the renderer is told of it.
#[derive(Clone, Copy, Debug, PartialEq, Eq, Structural)]
pub enum WindowEvent {
    Resized { width: u32, height: u32 },
    RedrawRequested,
    CloseRequested,
    Focused(bool),
    Other,
}

/// What the renderer's state is.
pub struct ApplicationModel {
    pub config: SurfaceConfigModel,
    pub pipeline: PipelineDesc,
    pub clear: ClearColor,
    pub stage: FrameStage,
}

/// The state in which a renderer starts: the surface configured with the
/// offered format and present mode at the requested size, the pipeline
/// built for that format, a black background, no frame in progress.
pub open spec fn initial_model(
    format: FormatId,
    present_mode: PresentMode,
    width: u32,
    height: u32,
) -> ApplicationModel {
    ApplicationModel {
        config: configured(format, present_mode, width, height),
        pipeline: standard_pipeline(format),
        clear: opaque_black(),
        stage: FrameStage::Idle,
    }
}

impl ApplicationModel {
    /// The surface has a size of at least one pixel each way, and the
    /// pipeline is the one built for the surface's format.
    pub open spec fn valid(self) -> bool {
        &&& self.config.valid()
        &&& self.pipeline == standard_pipeline(self.config.format)
    }

    /// The state after a resize request: only the surface's size changes.
    pub open spec fn after_resize(self, width: u32, height: u32) -> ApplicationModel {
        ApplicationModel { config: resized(self.config, width, height), ..self }
    }

    /// The state after an event of the frame protocol: the stage moves on
    /// where the event is accepted, and nothing changes where it is not.
    pub open spec fn after_event(self, event: FrameEvent) -> ApplicationModel {
        match frame_step(self.stage, event, self.config.format, self.clear) {
            Some(s) => ApplicationModel { stage: s.next, ..self },
            None => self,
        }
    }

    /// The operation asked for in answer to an event, if it is accepted.
    pub open spec fn asked(self, event: FrameEvent) -> Option<FrameAction> {
        match frame_step(self.stage, event, self.config.format, self.clear) {
            Some(s) => Some(s.action),
            None => None,
        }
    }
}

/// The renderer.
#[derive(Clone, Copy, Debug, PartialEq, Eq)]
pub struct Application {
    surface_config: SurfaceConfig,
    render_pipeline: PipelineDesc,
    clear: ClearColor,
    stage: FrameStage,
}

impl View for Application {
    type V = ApplicationModel;

    closed spec fn view(&self) -> ApplicationModel {
        ApplicationModel {
            config: self.surface_config@,
            pipeline: self.render_pipeline,
            clear: self.clear,
            stage: self.stage,
        }
    }
}

impl Application {
    /// The state is valid. This holds of every renderer.
    pub open spec fn wf(&self) -> bool {
        self@.valid()
    }

    #[verifier::type_invariant]
    closed spec fn inv(&self) -> bool {
        self@.valid()
    }

    /// The renderer for a surface that offers `format` and `present_mode`,
    /// at the requested size.
    pub fn new(format: FormatId, present_mode: PresentMode, width: u32, height: u32) -> (r: Self)
        ensures
            r@ == initial_model(format, present_mode, width, height),
            r.wf(),
    {
        Application {
            surface_config: SurfaceConfig::new(format, present_mode, width, height),
            render_pipeline: PipelineDesc::for_format(format),
            clear: ClearColor::black(),
            stage: FrameStage::Idle,
        }
    }

    /// Takes a new size for the surface, each dimension raised to at least
    /// one, and hands out the configuration that the caller now configures
    /// the surface with. No frame may be held: the surface cannot be
    /// configured under one.
    pub fn resize(&mut self, width: u32, height: u32) -> (r: SurfaceConfig)
        requires
            old(self)@.stage.between_frames(),
        ensures
            final(self)@ == old(self)@.after_resize(width, height),
            r@ == final(self)@.config,
            r.wf(),
            final(self).wf(),
    {
        proof {
            use_type_invariant(&*self);
        }
        let mut config = self.surface_config;
        config.resize(width, height);
        self.surface_config = config;
        config
    }

    /// Offers a window event to the renderer. None is consumed.
    pub fn handle_event(&mut self, event: &WindowEvent) -> (consumed: bool)
        ensures
            !consumed,
            *final(self) == *old(self),
    {
        false
    }

    /// Advances the frame in progress by one event and says what to do
    /// next. An event that has no place at the current stage is refused,
    /// and nothing changes.
    pub fn render(&mut self, event: FrameEvent) -> (r: Option<FrameAction>)
        ensures
            r == old(self)@.asked(event),
            final(self)@ == old(self)@.after_event(event),
            final(self).wf(),
    {
        proof {
            use_type_invariant(&*self);
        }
        match step(self.stage, event, self.surface_config.format(), self.clear) {
            Some(s) => {
                self.stage = s.next;
                Some(s.action)
            },
            None => None,
        }
    }

    /// Sets the colour that the next render passes clear to.
    pub fn set_clear_color(&mut self, clear: ClearColor)
        ensures
            final(self)@ == (ApplicationModel { clear, ..old(self)@ }),
            final(self).wf(),
    {
        proof {
            use_type_invariant(&*self);
        }
        self.clear = clear;
    }

    pub fn surface_config(&self) -> (r: SurfaceConfig)
        ensures
            r@ == self@.config,
            self.wf(),
    {
        proof {
            use_type_invariant(self);
        }
        self.surface_config
    }

    pub fn pipeline(&self) -> (r: PipelineDesc)
        ensures
            r == self@.pipeline,
            r == standard_pipeline(self@.config.format),
    {
        proof {
            use_type_invariant(self);
        }
        self.render_pipeline
    }

    pub fn clear_color(&self) -> (r: ClearColor)
        ensures
            r == self@.clear,
    {
        self.clear
    }

    pub fn stage(&self) -> (r: FrameStage)
        ensures
            r == self@.stage,
    {
        self.stage
    }

    pub fn phase(&self) -> (r: FramePhase)
        ensures
            r == self@.stage.phase_spec(),
    {
        self.stage.phase()
    }
}

/// A new renderer is valid, and a resize or a frame event leaves a valid
/// renderer valid: the surface never has a zero dimension, and the
/// pipeline's colour target always has the surface's format.
pub proof fn lemma_validity_is_kept(
    m: ApplicationModel,
    format: FormatId,
    present_mode: PresentMode,
    width: u32,
    height: u32,
    event: FrameEvent,
)
    ensures
        initial_model(format, present_mode, width, height).valid(),
        m.valid() ==> m.after_resize(width, height).valid(),
        m.valid() ==> m.after_event(event).valid(),
        m.valid() ==> m.pipeline.target.format == m.config.format,
{
}

/// A resize changes the surface's size and nothing else, and a second
/// resize to the same size changes nothing at all.
pub proof fn lemma_resize_twice(m: ApplicationModel, width: u32, height: u32)
    ensures
        m.after_resize(width, height).after_resize(width, height) == m.after_resize(width, height),
        m.after_resize(width, height).pipeline == m.pipeline,
        m.after_resize(width, height).clear == m.clear,
        m.after_resize(width, height).stage == m.stage,
        m.after_resize(width, height).config.format == m.config.format,
        m.after_resize(width, height).config.present_mode == m.config.present_mode,
{
}

/// When the surface hands out no frame, the renderer is at rest again with
/// its configuration untouched: a resize is permitted, one to the size the
/// surface has changes nothing, and the next frame may begin.
pub proof fn lemma_failed_acquire_leaves_renderer_ready(
    m: ApplicationModel,
    kind: SurfaceErrorKind,
    width: u32,
    height: u32,
)
    requires
        m.valid(),
        m.stage == FrameStage::Acquiring,
        width == m.config.width,
        height == m.config.height,
    ensures
        m.asked(FrameEvent::AcquireFailed(kind)) == Some(FrameAction::Fail(kind)),
        m.after_event(FrameEvent::AcquireFailed(kind)) == (ApplicationModel {
            stage: FrameStage::Idle,
            ..m
        }),
        m.after_event(FrameEvent::AcquireFailed(kind)).stage.between_frames(),
        m.after_event(FrameEvent::AcquireFailed(kind)).after_resize(width, height) == m.after_event(
            FrameEvent::AcquireFailed(kind),
        ),
        m.after_event(FrameEvent::AcquireFailed(kind)).asked(FrameEvent::Begin) == Some(
            FrameAction::Acquire,
        ),
{
}

} // verus!
