use glyphic::pass::{Color, Command, DrawCall};
use glyphic::pipeline::{BlendMode, ColorWrites, PipelineDesc};
use glyphic::surface::SurfaceConfig;
use glyphic::Renderer;

fn config(format: wgpu::TextureFormat, width: u32, height: u32) -> SurfaceConfig {
    SurfaceConfig::for_surface(
        &vec![format, wgpu::TextureFormat::Rgba8Unorm],
        &vec![wgpu::CompositeAlphaMode::Opaque],
        width,
        height,
    )
    .unwrap()
}

#[test]
fn pipeline_is_described_for_the_given_format() {
    let desc = PipelineDesc::build(wgpu::TextureFormat::Rgba8UnormSrgb);
    assert_eq!(
        desc,
        PipelineDesc {
            vertex_entry: "vs_main",
            fragment_entry: "fs_main",
            target_format: wgpu::TextureFormat::Rgba8UnormSrgb,
            blend: BlendMode::AlphaBlending,
            write_mask: ColorWrites { red: true, green: true, blue: true, alpha: true },
            sample_count: 1,
        }
    );
}

#[test]
fn pipelines_differ_in_the_format_only() {
    let a = PipelineDesc::build(wgpu::TextureFormat::Bgra8Unorm);
    let b = PipelineDesc::build(wgpu::TextureFormat::Rgba16Float);
    assert_ne!(a, b);
    assert_eq!(PipelineDesc { target_format: wgpu::TextureFormat::Rgba16Float, ..a }, b);
}

#[test]
fn new_renderer_keeps_the_configuration_and_describes_its_pipeline() {
    let config = config(wgpu::TextureFormat::Bgra8UnormSrgb, 1280, 720);
    let renderer = Renderer::new(&config);
    assert_eq!(renderer.config, config);
    assert_eq!(renderer.pipeline, PipelineDesc::build(wgpu::TextureFormat::Bgra8UnormSrgb));
}

#[test]
fn resize_changes_the_size_and_not_the_pipeline() {
    let config = config(wgpu::TextureFormat::Bgra8UnormSrgb, 1280, 720);
    let mut renderer = Renderer::new(&config);
    let pipeline = renderer.pipeline;
    renderer.resize(640, 480);
    assert_eq!(renderer.pipeline, pipeline);
    assert_eq!(renderer.config, SurfaceConfig { width: 640, height: 480, ..config });
}

#[test]
fn resize_twice_is_resize_once() {
    let mut once = Renderer::new(&config(wgpu::TextureFormat::Bgra8Unorm, 1280, 720));
    once.resize(300, 200);
    let mut twice = once;
    twice.resize(300, 200);
    assert_eq!(twice, once);
}

#[test]
fn resize_to_the_size_it_has_changes_nothing() {
    let mut renderer = Renderer::new(&config(wgpu::TextureFormat::Bgra8Unorm, 1280, 720));
    let before = renderer;
    renderer.resize(1280, 720);
    assert_eq!(renderer, before);
}

#[test]
fn render_describes_one_triangle_on_black() {
    let mut renderer = Renderer::new(&config(wgpu::TextureFormat::Bgra8UnormSrgb, 1280, 720));
    let before = renderer;
    let pass = renderer.render();
    assert_eq!(pass.clear_color, Color { r: 0, g: 0, b: 0, a: 255 });
    assert!(pass.store);
    assert_eq!(
        pass.commands,
        vec![
            Command::SetPipeline,
            Command::Draw(DrawCall {
                first_vertex: 0,
                end_vertex: 3,
                first_instance: 0,
                end_instance: 1,
            }),
        ]
    );
    assert_eq!(renderer, before);
}

#[test]
fn render_does_not_depend_on_the_size() {
    let mut small = Renderer::new(&config(wgpu::TextureFormat::Bgra8Unorm, 1, 1));
    let mut large = Renderer::new(&config(wgpu::TextureFormat::Bgra8Unorm, 3840, 2160));
    assert_eq!(small.render(), large.render());
    large.resize(0, 0);
    assert_eq!(small.render(), large.render());
}
