use glyphic::startup::{adapter_options, window_options, PowerPreference};
use glyphic::surface::{PresentMode, SurfaceConfig, TextureUsages};

#[test]
fn surface_without_formats_gets_no_configuration() {
    let none = SurfaceConfig::for_surface(&vec![], &vec![wgpu::CompositeAlphaMode::Auto], 1280, 720);
    assert_eq!(none, None);
}

#[test]
fn surface_without_alpha_modes_gets_no_configuration() {
    let none = SurfaceConfig::for_surface(&vec![wgpu::TextureFormat::Rgba8Unorm], &vec![], 1280, 720);
    assert_eq!(none, None);
}

#[test]
fn surface_without_anything_gets_no_configuration() {
    assert_eq!(SurfaceConfig::for_surface(&vec![], &vec![], 0, 0), None);
}

#[test]
fn configuration_is_made_of_the_first_of_each_list() {
    let config = SurfaceConfig::for_surface(
        &vec![
            wgpu::TextureFormat::Rgba16Float,
            wgpu::TextureFormat::Bgra8Unorm,
            wgpu::TextureFormat::Bgra8UnormSrgb,
        ],
        &vec![wgpu::CompositeAlphaMode::PreMultiplied, wgpu::CompositeAlphaMode::Opaque],
        800,
        600,
    );
    assert_eq!(
        config,
        Some(SurfaceConfig {
            usage: TextureUsages {
                copy_src: false,
                copy_dst: false,
                texture_binding: false,
                storage_binding: false,
                render_attachment: true,
            },
            format: wgpu::TextureFormat::Rgba16Float,
            width: 800,
            height: 600,
            present_mode: PresentMode::Mailbox,
            alpha_mode: wgpu::CompositeAlphaMode::PreMultiplied,
        })
    );
}

#[test]
fn configuration_takes_a_size_without_area_as_it_is() {
    let config = SurfaceConfig::for_surface(
        &vec![wgpu::TextureFormat::Bgra8Unorm],
        &vec![wgpu::CompositeAlphaMode::Auto],
        0,
        u32::MAX,
    )
    .unwrap();
    assert_eq!((config.width, config.height), (0, u32::MAX));
}

#[test]
fn set_size_changes_the_size_only() {
    let before = SurfaceConfig::for_surface(
        &vec![wgpu::TextureFormat::Bgra8Unorm],
        &vec![wgpu::CompositeAlphaMode::Inherit],
        1280,
        720,
    )
    .unwrap();
    let mut after = before;
    after.set_size(640, 480);
    assert_eq!(after, SurfaceConfig { width: 640, height: 480, ..before });
    assert_ne!(after, before);
}

#[test]
fn set_size_twice_is_set_size_once() {
    let mut once = SurfaceConfig::for_surface(
        &vec![wgpu::TextureFormat::Bgra8Unorm],
        &vec![wgpu::CompositeAlphaMode::Inherit],
        1280,
        720,
    )
    .unwrap();
    once.set_size(1, 2);
    let mut twice = once;
    twice.set_size(1, 2);
    assert_eq!(twice, once);
}

#[test]
fn program_opens_a_hidden_window_of_1280_by_720() {
    let window = window_options();
    assert_eq!(window.title, "Glyphic Animation Studio");
    assert_eq!((window.width, window.height), (1280, 720));
    assert!(!window.visible);
}

#[test]
fn program_asks_for_the_fastest_adapter_that_can_present() {
    let adapter = adapter_options();
    assert_eq!(adapter.power_preference, PowerPreference::HighPerformance);
    assert!(adapter.compatible_with_surface);
    assert!(!adapter.force_fallback_adapter);
}
