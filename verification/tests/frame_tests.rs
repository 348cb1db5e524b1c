use render_core::application::{Application, WindowEvent};
use render_core::frame::{
    step, ClearColor, FrameAction, FrameEvent, FramePhase, FrameStage, FrameStep, Recovery,
    SurfaceErrorKind, INSTANCE_COUNT, VERTEX_COUNT,
};
use render_core::pipeline::PipelineDesc;
use render_core::surface::{FormatId, PresentMode};

const FORMAT: FormatId = FormatId { index: 2 };

fn black() -> ClearColor {
    ClearColor { red: 0, green: 0, blue: 0, alpha: 255 }
}

fn script(format: FormatId, clear: ClearColor) -> Vec<FrameAction> {
    vec![
        FrameAction::Acquire,
        FrameAction::CreateView { format },
        FrameAction::OpenEncoder,
        FrameAction::BeginPass { clear, store: true },
        FrameAction::SetPipeline,
        FrameAction::Draw { first_vertex: 0, vertex_count: 6, first_instance: 0, instance_count: 1 },
        FrameAction::EndPass,
        FrameAction::Submit,
        FrameAction::Present,
        FrameAction::Complete,
    ]
}

/// Runs one frame against a backend that hands out a frame, or fails to
/// with `acquire`, and performs everything else. Returns what was asked for
/// and how the frame ended.
fn run_frame(
    app: &mut Application,
    acquire: Result<(), SurfaceErrorKind>,
) -> (Vec<FrameAction>, Result<(), SurfaceErrorKind>) {
    let mut asked = Vec::new();
    let mut event = FrameEvent::Begin;
    loop {
        let action = app.render(event).expect("the event is accepted");
        asked.push(action);
        match action {
            FrameAction::Complete => return (asked, Ok(())),
            FrameAction::Fail(kind) => return (asked, Err(kind)),
            FrameAction::Discard => panic!("no operation was reported as failed"),
            FrameAction::Acquire => {
                event = match acquire {
                    Ok(()) => FrameEvent::Done,
                    Err(kind) => FrameEvent::AcquireFailed(kind),
                };
            }
            _ => event = FrameEvent::Done,
        }
    }
}

#[test]
fn new_application_starts_idle_with_matching_pipeline() {
    let app = Application::new(FORMAT, PresentMode::Fifo, 800, 600);
    assert_eq!(app.surface_config().width(), 800);
    assert_eq!(app.surface_config().height(), 600);
    assert_eq!(app.surface_config().format(), FORMAT);
    assert_eq!(app.surface_config().present_mode(), PresentMode::Fifo);
    assert_eq!(app.pipeline(), PipelineDesc::for_format(FORMAT));
    assert_eq!(app.pipeline().target.format, app.surface_config().format());
    assert!(app.pipeline().matches_surface(&app.surface_config()));
    assert_eq!(app.clear_color(), black());
    assert_eq!(ClearColor::black(), black());
    assert_eq!(app.stage(), FrameStage::Idle);
    assert_eq!(app.phase(), FramePhase::Idle);
}

#[test]
fn new_application_with_zero_size_is_one_by_one() {
    let app = Application::new(FORMAT, PresentMode::Fifo, 0, 0);
    assert_eq!(app.surface_config().width(), 1);
    assert_eq!(app.surface_config().height(), 1);
}

#[test]
fn render_800_by_600_returns_ok() {
    let mut app = Application::new(FORMAT, PresentMode::Fifo, 800, 600);
    let (asked, result) = run_frame(&mut app, Ok(()));
    assert_eq!(result, Ok(()));
    assert_eq!(asked, script(FORMAT, black()));
    assert_eq!(app.stage(), FrameStage::Presented);
    assert_eq!(app.phase(), FramePhase::Presented);
}

#[test]
fn render_passes_through_every_phase_in_order() {
    let mut app = Application::new(FORMAT, PresentMode::Fifo, 800, 600);
    let mut stages = vec![app.stage()];
    let mut phases = vec![app.phase()];
    let mut event = FrameEvent::Begin;
    for _ in 0..10 {
        app.render(event).expect("accepted");
        event = FrameEvent::Done;
        stages.push(app.stage());
        if *phases.last().unwrap() != app.phase() {
            phases.push(app.phase());
        }
    }
    assert_eq!(
        stages,
        vec![
            FrameStage::Idle,
            FrameStage::Acquiring,
            FrameStage::Acquired,
            FrameStage::ViewCreated,
            FrameStage::EncoderOpen,
            FrameStage::PassOpen,
            FrameStage::PipelineBound,
            FrameStage::Drawn,
            FrameStage::PassEnded,
            FrameStage::Submitted,
            FrameStage::Presented,
        ]
    );
    assert_eq!(
        phases,
        vec![
            FramePhase::Idle,
            FramePhase::Acquired,
            FramePhase::Recording,
            FramePhase::Submitted,
            FramePhase::Presented,
        ]
    );
}

#[test]
fn resize_to_zero_then_render_returns_ok() {
    let mut app = Application::new(FORMAT, PresentMode::Fifo, 800, 600);
    let configured = app.resize(0, 0);
    assert_eq!((configured.width(), configured.height()), (1, 1));
    assert_eq!(configured, app.surface_config());
    assert_eq!(app.surface_config().width(), 1);
    assert_eq!(app.surface_config().height(), 1);
    let (_, result) = run_frame(&mut app, Ok(()));
    assert_eq!(result, Ok(()));
}

#[test]
fn two_renders_each_draw_six_vertices_and_present() {
    let mut app = Application::new(FORMAT, PresentMode::Fifo, 800, 600);
    for _ in 0..2 {
        let (asked, result) = run_frame(&mut app, Ok(()));
        assert_eq!(result, Ok(()));
        let draws: Vec<&FrameAction> =
            asked.iter().filter(|a| matches!(a, FrameAction::Draw { .. })).collect();
        assert_eq!(
            draws,
            vec![&FrameAction::Draw {
                first_vertex: 0,
                vertex_count: 6,
                first_instance: 0,
                instance_count: 1
            }]
        );
        assert_eq!(app.stage(), FrameStage::Presented);
    }
    assert_eq!(VERTEX_COUNT, 6);
    assert_eq!(INSTANCE_COUNT, 1);
}

#[test]
fn resize_twice_leaves_application_as_resize_once() {
    let mut once = Application::new(FORMAT, PresentMode::Fifo, 800, 600);
    once.resize(300, 200);
    let mut twice = Application::new(FORMAT, PresentMode::Fifo, 800, 600);
    twice.resize(300, 200);
    twice.resize(300, 200);
    assert_eq!(once, twice);
    assert_eq!(twice.surface_config().width(), 300);
    assert_eq!(twice.surface_config().height(), 200);
    assert_eq!(twice.pipeline(), PipelineDesc::for_format(FORMAT));
    assert_eq!(twice.stage(), FrameStage::Idle);
}

#[test]
fn resize_after_a_presented_frame_keeps_the_pipeline_format() {
    let mut app = Application::new(FORMAT, PresentMode::Fifo, 800, 600);
    run_frame(&mut app, Ok(())).1.unwrap();
    app.resize(1920, 1080);
    assert_eq!(app.surface_config().width(), 1920);
    assert_eq!(app.surface_config().height(), 1080);
    assert!(app.pipeline().matches_surface(&app.surface_config()));
    assert_eq!(app.stage(), FrameStage::Presented);
}

#[test]
fn outdated_surface_recovers_after_resize() {
    let mut app = Application::new(FORMAT, PresentMode::Fifo, 800, 600);
    let before = app;
    let (asked, result) = run_frame(&mut app, Err(SurfaceErrorKind::Outdated));
    assert_eq!(asked, vec![FrameAction::Acquire, FrameAction::Fail(SurfaceErrorKind::Outdated)]);
    assert_eq!(result, Err(SurfaceErrorKind::Outdated));
    assert_eq!(app, before);
    assert_eq!(SurfaceErrorKind::Outdated.recovery(), Recovery::Reconfigure);
    let (w, h) = (app.surface_config().width(), app.surface_config().height());
    app.resize(w, h);
    assert_eq!(app, before);
    let (asked, result) = run_frame(&mut app, Ok(()));
    assert_eq!(result, Ok(()));
    assert_eq!(asked, script(FORMAT, black()));
}

#[test]
fn lost_surface_recovers_after_resize() {
    let mut app = Application::new(FORMAT, PresentMode::Fifo, 640, 480);
    let (_, result) = run_frame(&mut app, Err(SurfaceErrorKind::Lost));
    assert_eq!(result, Err(SurfaceErrorKind::Lost));
    assert_eq!(SurfaceErrorKind::Lost.recovery(), Recovery::Reconfigure);
    assert_eq!(app.stage(), FrameStage::Idle);
    app.resize(640, 480);
    let (_, result) = run_frame(&mut app, Ok(()));
    assert_eq!(result, Ok(()));
    assert_eq!(app.stage(), FrameStage::Presented);
}

#[test]
fn timeout_and_out_of_memory_are_reported() {
    let mut app = Application::new(FORMAT, PresentMode::Fifo, 640, 480);
    let (_, result) = run_frame(&mut app, Err(SurfaceErrorKind::Timeout));
    assert_eq!(result, Err(SurfaceErrorKind::Timeout));
    let (_, result) = run_frame(&mut app, Err(SurfaceErrorKind::OutOfMemory));
    assert_eq!(result, Err(SurfaceErrorKind::OutOfMemory));
    assert_eq!(SurfaceErrorKind::Timeout.recovery(), Recovery::RetryNextFrame);
    assert_eq!(SurfaceErrorKind::OutOfMemory.recovery(), Recovery::Abort);
}

#[test]
fn a_cycle_cannot_begin_inside_a_cycle() {
    let mut app = Application::new(FORMAT, PresentMode::Fifo, 640, 480);
    assert_eq!(app.render(FrameEvent::Begin), Some(FrameAction::Acquire));
    let held = app;
    assert_eq!(app.render(FrameEvent::Begin), None);
    assert_eq!(app, held);
    assert_eq!(app.render(FrameEvent::Done), Some(FrameAction::CreateView { format: FORMAT }));
    assert_eq!(app.render(FrameEvent::Begin), None);
    assert_eq!(app.render(FrameEvent::AcquireFailed(SurfaceErrorKind::Lost)), None);
    assert_eq!(app.stage(), FrameStage::Acquired);
}

#[test]
fn events_without_a_cycle_are_refused() {
    let mut app = Application::new(FORMAT, PresentMode::Fifo, 640, 480);
    assert_eq!(app.render(FrameEvent::Done), None);
    assert_eq!(app.render(FrameEvent::AcquireFailed(SurfaceErrorKind::Timeout)), None);
    assert_eq!(app.stage(), FrameStage::Idle);
    run_frame(&mut app, Ok(())).1.unwrap();
    assert_eq!(app.render(FrameEvent::Done), None);
    assert_eq!(app.stage(), FrameStage::Presented);
}

#[test]
fn step_is_the_transition_table() {
    let c = black();
    assert_eq!(
        step(FrameStage::Idle, FrameEvent::Begin, FORMAT, c),
        Some(FrameStep { next: FrameStage::Acquiring, action: FrameAction::Acquire })
    );
    assert_eq!(
        step(FrameStage::Presented, FrameEvent::Begin, FORMAT, c),
        Some(FrameStep { next: FrameStage::Acquiring, action: FrameAction::Acquire })
    );
    assert_eq!(
        step(FrameStage::Acquiring, FrameEvent::AcquireFailed(SurfaceErrorKind::Lost), FORMAT, c),
        Some(FrameStep {
            next: FrameStage::Idle,
            action: FrameAction::Fail(SurfaceErrorKind::Lost)
        })
    );
    assert_eq!(
        step(FrameStage::Submitted, FrameEvent::Done, FORMAT, c),
        Some(FrameStep { next: FrameStage::Presented, action: FrameAction::Complete })
    );
    assert_eq!(step(FrameStage::Drawn, FrameEvent::Begin, FORMAT, c), None);
    assert_eq!(step(FrameStage::Presented, FrameEvent::Done, FORMAT, c), None);
}

#[test]
fn stages_between_frames() {
    assert!(FrameStage::Idle.is_between_frames());
    assert!(FrameStage::Presented.is_between_frames());
    assert!(!FrameStage::Acquiring.is_between_frames());
    assert!(!FrameStage::Acquired.is_between_frames());
    assert!(!FrameStage::PassOpen.is_between_frames());
    assert!(!FrameStage::Submitted.is_between_frames());
}

#[test]
fn phases_of_the_stages() {
    assert_eq!(FrameStage::Idle.phase(), FramePhase::Idle);
    assert_eq!(FrameStage::Acquiring.phase(), FramePhase::Idle);
    assert_eq!(FrameStage::Acquired.phase(), FramePhase::Acquired);
    assert_eq!(FrameStage::ViewCreated.phase(), FramePhase::Acquired);
    assert_eq!(FrameStage::EncoderOpen.phase(), FramePhase::Recording);
    assert_eq!(FrameStage::PassOpen.phase(), FramePhase::Recording);
    assert_eq!(FrameStage::PipelineBound.phase(), FramePhase::Recording);
    assert_eq!(FrameStage::Drawn.phase(), FramePhase::Recording);
    assert_eq!(FrameStage::PassEnded.phase(), FramePhase::Recording);
    assert_eq!(FrameStage::Submitted.phase(), FramePhase::Submitted);
    assert_eq!(FrameStage::Presented.phase(), FramePhase::Presented);
}

#[test]
fn clear_color_is_carried_into_the_pass() {
    let mut app = Application::new(FORMAT, PresentMode::Fifo, 640, 480);
    let grey = ClearColor { red: 10, green: 20, blue: 30, alpha: 255 };
    app.set_clear_color(grey);
    assert_eq!(app.clear_color(), grey);
    let (asked, result) = run_frame(&mut app, Ok(()));
    assert_eq!(result, Ok(()));
    assert_eq!(asked, script(FORMAT, grey));
}

#[test]
fn handle_event_consumes_nothing() {
    let mut app = Application::new(FORMAT, PresentMode::Fifo, 640, 480);
    let before = app;
    let events = [
        WindowEvent::Resized { width: 5, height: 0 },
        WindowEvent::RedrawRequested,
        WindowEvent::CloseRequested,
        WindowEvent::Focused(true),
        WindowEvent::Other,
    ];
    for e in events.iter() {
        assert!(!app.handle_event(e));
        assert_eq!(app, before);
    }
}

#[test]
fn failure_on_a_held_frame_discards_it() {
    let mut app = Application::new(FORMAT, PresentMode::Fifo, 640, 480);
    let config = app.surface_config();
    assert_eq!(app.render(FrameEvent::Begin), Some(FrameAction::Acquire));
    assert_eq!(app.render(FrameEvent::Done), Some(FrameAction::CreateView { format: FORMAT }));
    assert_eq!(app.render(FrameEvent::Done), Some(FrameAction::OpenEncoder));
    assert_eq!(
        app.render(FrameEvent::Done),
        Some(FrameAction::BeginPass { clear: black(), store: true })
    );
    assert_eq!(app.stage(), FrameStage::EncoderOpen);
    assert_eq!(app.render(FrameEvent::Failed), Some(FrameAction::Discard));
    assert_eq!(app.stage(), FrameStage::Idle);
    assert_eq!(app.surface_config(), config);
    let (asked, result) = run_frame(&mut app, Ok(()));
    assert_eq!(result, Ok(()));
    assert_eq!(asked, script(FORMAT, black()));
}

#[test]
fn failure_is_accepted_exactly_while_a_frame_is_held() {
    let stages = [
        (FrameStage::Idle, false),
        (FrameStage::Acquiring, false),
        (FrameStage::Acquired, true),
        (FrameStage::ViewCreated, true),
        (FrameStage::EncoderOpen, true),
        (FrameStage::PassOpen, true),
        (FrameStage::PipelineBound, true),
        (FrameStage::Drawn, true),
        (FrameStage::PassEnded, true),
        (FrameStage::Submitted, true),
        (FrameStage::Presented, false),
    ];
    for (stage, held) in stages.iter() {
        let expected = if *held {
            Some(FrameStep { next: FrameStage::Idle, action: FrameAction::Discard })
        } else {
            None
        };
        assert_eq!(step(*stage, FrameEvent::Failed, FORMAT, black()), expected);
    }
}
