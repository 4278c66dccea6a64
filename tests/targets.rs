use bloom_frame::frame_buffers::{FrameBuffers, BLOOM_BLUR_LEVELS, COLOR_FORMAT, DEPTH_FORMAT};
use bloom_frame::pass::TextureId;
use bloom_frame::render_targets::{RenderTarget, RenderTargets, BLUR_PYRAMID_LEVELS};
use bloom_frame::surface::{configure_surface, create_depth_texture_view, PresentMode, Surface};
use bloom_frame::texture::{
    Texture, TextureAspect, TextureDescriptor, TextureDimension, TextureFormat, TextureUsages,
};
use bloom_frame::window::{resize_accepted, Size};

#[test]
fn usages_union_and_contains() {
    let u = TextureUsages::texture_binding().union(TextureUsages::render_attachment());
    assert_eq!(u.bits, 20);
    assert!(u.contains(TextureUsages::render_attachment()));
    assert!(u.contains(TextureUsages::texture_binding()));
    assert!(!u.contains(TextureUsages::copy_dst()));
    assert!(u.contains(TextureUsages::from_bits(0)));
}

#[test]
fn depth_formats_are_recognised() {
    assert!(TextureFormat::Depth32Float.is_depth());
    assert!(TextureFormat::Depth24PlusStencil8.is_depth());
    assert!(!TextureFormat::Rgba16Float.is_depth());
    assert!(!TextureFormat::Bgra8UnormSrgb.is_depth());
}

#[test]
fn texture_records_its_descriptor() {
    let desc = TextureDescriptor::plain_2d(
        "t",
        64,
        32,
        TextureFormat::Rgba16Float,
        TextureUsages::copy_dst(),
    );
    let t = Texture::from_descriptor(7u8, &desc);
    assert_eq!(*t.wgpu_texture(), 7);
    assert_eq!(t.width(), 64);
    assert_eq!(t.height(), 32);
    assert_eq!(t.depth_or_array_layers(), 1);
    assert_eq!(t.mip_level_count(), 1);
    assert_eq!(t.sample_count(), 1);
    assert_eq!(t.dimension(), TextureDimension::D2);
    assert_eq!(t.format(), TextureFormat::Rgba16Float);
    assert_eq!(t.usage().bits, 2);
}

#[test]
fn resize_filter_ignores_growth() {
    let current = Size::new(640, 360);
    assert!(resize_accepted(current, Size::new(640, 360)));
    assert!(resize_accepted(current, Size::new(320, 200)));
    assert!(!resize_accepted(current, Size::new(641, 360)));
    assert!(!resize_accepted(current, Size::new(640, 361)));
}

#[test]
fn surface_configuration_is_fifo_render_attachment() {
    let c = configure_surface(TextureFormat::Bgra8UnormSrgb, 800, 600);
    assert_eq!(c.usage.bits, 16);
    assert_eq!(c.format, TextureFormat::Bgra8UnormSrgb);
    assert_eq!((c.width, c.height), (800, 600));
    assert_eq!(c.present_mode, PresentMode::Fifo);
    let s = Surface::new((), TextureFormat::Rgba8UnormSrgb);
    let c2 = s.configure(10, 20);
    assert_eq!(c2.format, TextureFormat::Rgba8UnormSrgb);
    assert_eq!((c2.width, c2.height), (10, 20));
}

#[test]
fn window_depth_target_is_depth_only() {
    let (t, v) = create_depth_texture_view(TextureFormat::Depth32Float, 300, 200);
    assert_eq!(t.label, "Depth texture");
    assert_eq!((t.size.width, t.size.height, t.size.depth_or_array_layers), (300, 200, 1));
    assert_eq!(t.format, TextureFormat::Depth32Float);
    assert_eq!(t.usage.bits, 16);
    assert_eq!(v.aspect, TextureAspect::DepthOnly);
}

#[test]
fn frame_buffers_quarter_resolution_bloom() {
    let fb = FrameBuffers::new(1280, 720);
    assert_eq!((fb.color_texture.size.width, fb.color_texture.size.height), (1280, 720));
    assert_eq!(fb.color_texture.format, COLOR_FORMAT);
    assert_eq!(fb.color_texture.usage.bits, 20);
    assert_eq!(fb.depth_texture.format, DEPTH_FORMAT);
    assert_eq!(fb.depth_texture.usage.bits, 16);
    assert_eq!(fb.depth_texture_view.aspect, TextureAspect::DepthOnly);
    assert_eq!(fb.color_texture_view.aspect, TextureAspect::All);
    assert_eq!((fb.bright_texture.size.width, fb.bright_texture.size.height), (320, 180));
    assert_eq!(fb.bloom_blur_buffers.len(), BLOOM_BLUR_LEVELS);
    for pair in &fb.bloom_blur_buffers {
        for b in [&pair.primary, &pair.secondary] {
            assert_eq!((b.texture.size.width, b.texture.size.height), (320, 180));
            assert_eq!(b.format, TextureFormat::Rgba16Float);
            assert_eq!(b.texture.label, "HDR Color Texture");
        }
    }
}

#[test]
fn frame_buffers_resize_rebuilds_everything() {
    let mut fb = FrameBuffers::new(1280, 720);
    fb.resize(641, 363);
    assert_eq!((fb.color_texture.size.width, fb.color_texture.size.height), (641, 363));
    assert_eq!((fb.depth_texture.size.width, fb.depth_texture.size.height), (641, 363));
    assert_eq!((fb.bright_texture.size.width, fb.bright_texture.size.height), (160, 90));
    let v = fb.blur_view(2, 1);
    assert_eq!(v.texture, TextureId::BlurBuffer { level: 2, slot: 1 });
    assert_eq!((v.width, v.height), (160, 90));
}

#[test]
fn frame_buffers_of_a_tiny_window() {
    let fb = FrameBuffers::new(3, 3);
    assert_eq!((fb.bright_texture.size.width, fb.bright_texture.size.height), (0, 0));
    assert_eq!(fb.bloom_blur_buffers.len(), 3);
}

#[test]
fn render_target_uses_its_extent_and_format() {
    let t = RenderTarget::new(
        TextureId::Color,
        "Color Texture",
        TextureFormat::Rgba16Float,
        Size::new(100, 50),
    );
    assert_eq!(t.texture.label, "Color Texture");
    assert_eq!((t.texture.size.width, t.texture.size.height), (100, 50));
    assert_eq!(t.texture.usage.bits, 20);
    let v = t.view();
    assert_eq!(v.texture, TextureId::Color);
    assert_eq!((v.width, v.height, v.format), (100, 50, TextureFormat::Rgba16Float));
}

#[test]
fn blur_pyramid_extents() {
    let t = RenderTargets::new(1280, 720);
    assert_eq!(t.bloom_blur_downsample.len(), BLUR_PYRAMID_LEVELS);
    assert_eq!(t.bloom_blur_upsample.len(), BLUR_PYRAMID_LEVELS);
    let down: Vec<(u32, u32)> = t
        .bloom_blur_downsample
        .iter()
        .map(|r| (r.texture.size.width, r.texture.size.height))
        .collect();
    assert_eq!(down, vec![(320, 180), (160, 90), (80, 45), (40, 22)]);
    let up: Vec<(u32, u32)> = t
        .bloom_blur_upsample
        .iter()
        .map(|r| (r.texture.size.width, r.texture.size.height))
        .collect();
    assert_eq!(up, vec![(80, 45), (160, 90), (320, 180), (640, 360)]);
    assert_eq!(t.depth.format, TextureFormat::Depth32Float);
    assert_eq!(t.bright_pass.id, TextureId::Bright);
    assert_eq!(t.bloom_blur_upsample[3].id, TextureId::Upsample(3));
    assert_eq!(t.bloom_blur_downsample[0].id, TextureId::Downsample(0));
}
