use render_core::backend::COLOR_WRITES_ALL;
use render_core::pipeline::{
    BlendMode, ColorTarget, CullMode, EntryPoint, FrontFace, PipelineDesc, Topology,
};
use render_core::surface::{clamp_dimension, FormatId, PresentMode, SurfaceConfig};

const BGRA: FormatId = FormatId { index: 0 };
const RGBA: FormatId = FormatId { index: 1 };

#[test]
fn clamp_dimension_raises_zero_to_one() {
    assert_eq!(clamp_dimension(0), 1);
}

#[test]
fn clamp_dimension_keeps_positive_values() {
    assert_eq!(clamp_dimension(1), 1);
    assert_eq!(clamp_dimension(2), 2);
    assert_eq!(clamp_dimension(800), 800);
    assert_eq!(clamp_dimension(u32::MAX), u32::MAX);
}

#[test]
fn new_config_keeps_requested_size() {
    let c = SurfaceConfig::new(BGRA, PresentMode::Fifo, 800, 600);
    assert_eq!(c.width(), 800);
    assert_eq!(c.height(), 600);
    assert_eq!(c.format(), BGRA);
    assert_eq!(c.present_mode(), PresentMode::Fifo);
}

#[test]
fn new_config_with_zero_size_is_one_by_one() {
    let c = SurfaceConfig::new(BGRA, PresentMode::Mailbox, 0, 0);
    assert_eq!((c.width(), c.height()), (1, 1));
}

#[test]
fn new_config_clamps_each_dimension_alone() {
    let c = SurfaceConfig::new(BGRA, PresentMode::Fifo, 0, 480);
    assert_eq!((c.width(), c.height()), (1, 480));
    let c = SurfaceConfig::new(BGRA, PresentMode::Fifo, 640, 0);
    assert_eq!((c.width(), c.height()), (640, 1));
}

#[test]
fn resize_changes_only_the_size() {
    let mut c = SurfaceConfig::new(RGBA, PresentMode::Immediate, 800, 600);
    c.resize(1024, 768);
    assert_eq!((c.width(), c.height()), (1024, 768));
    assert_eq!(c.format(), RGBA);
    assert_eq!(c.present_mode(), PresentMode::Immediate);
}

#[test]
fn resize_to_zero_gives_one_by_one() {
    let mut c = SurfaceConfig::new(BGRA, PresentMode::Fifo, 800, 600);
    c.resize(0, 0);
    assert_eq!((c.width(), c.height()), (1, 1));
    c.resize(0, 33);
    assert_eq!((c.width(), c.height()), (1, 33));
    c.resize(44, 0);
    assert_eq!((c.width(), c.height()), (44, 1));
}

#[test]
fn resize_twice_to_one_size_is_resize_once() {
    let mut once = SurfaceConfig::new(BGRA, PresentMode::Fifo, 800, 600);
    once.resize(320, 0);
    let mut twice = SurfaceConfig::new(BGRA, PresentMode::Fifo, 800, 600);
    twice.resize(320, 0);
    twice.resize(320, 0);
    assert_eq!(once, twice);
}

#[test]
fn pipeline_for_a_format_is_the_standard_one() {
    let p = PipelineDesc::for_format(RGBA);
    let expected = PipelineDesc {
        vertex_entry: EntryPoint::Auto,
        vertex_buffers: 0,
        fragment_entry: EntryPoint::Auto,
        target: ColorTarget {
            format: RGBA,
            blend: BlendMode::AlphaBlending,
            write_mask: 15,
        },
        topology: Topology::TriangleList,
        front_face: FrontFace::Ccw,
        cull_mode: CullMode::Nothing,
        depth_stencil: false,
        sample_count: 1,
        multiview: false,
    };
    assert_eq!(p, expected);
    assert_eq!(COLOR_WRITES_ALL, 15);
}

#[test]
fn pipeline_writes_the_channels_the_backend_writes_by_default() {
    let p = PipelineDesc::for_format(BGRA);
    assert_eq!(p.target.write_mask, wgpu::ColorWrites::default().bits());
    assert_eq!(p.target.write_mask, wgpu::ColorWrites::ALL.bits());
    assert_eq!(p.target.write_mask, 0b1111);
}

#[test]
fn pipeline_matches_surface_of_its_format_only() {
    let p = PipelineDesc::for_format(BGRA);
    let same = SurfaceConfig::new(BGRA, PresentMode::Fifo, 10, 10);
    let other = SurfaceConfig::new(RGBA, PresentMode::Fifo, 10, 10);
    assert!(p.matches_surface(&same));
    assert!(!p.matches_surface(&other));
}
