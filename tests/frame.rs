use bloom_frame::frame::PostProcessPasses;
use bloom_frame::input::{InputAction, InputState, Key};
use bloom_frame::pass::{BindingResource, TextureId, ViewRef};
use bloom_frame::render_targets::RenderTargets;
use bloom_frame::texture::TextureFormat;
use bloom_frame::uniforms::{
    bright_pass_uniform_words, bright_uniform_words, composite_uniform_words, uniform_bytes, Bloom,
    PostProcessing,
};

fn surface(width: u32, height: u32) -> ViewRef {
    ViewRef { texture: TextureId::Surface, width, height, format: TextureFormat::Bgra8UnormSrgb }
}

#[test]
fn frame_passes_form_a_chain() {
    let targets = RenderTargets::new(1280, 720);
    let pp = PostProcessPasses::new(&targets, TextureFormat::Bgra8UnormSrgb);
    let passes = pp.render(&targets, surface(1280, 720));
    assert_eq!(passes.len(), 10);
    let labels: Vec<&str> = passes.iter().map(|p| p.label).collect();
    assert_eq!(labels[0], "Bright Pass Render Pass");
    assert_eq!(labels[1], "Bloom Blur Downsample Render Pass");
    assert_eq!(labels[5], "Bloom Blur Upsample Render Pass");
    assert_eq!(labels[9], "Compose Render Pass");
    for k in 0..passes.len() - 1 {
        let written = passes[k].target;
        let read = passes[k + 1]
            .bind_groups
            .iter()
            .flatten()
            .any(|e| e.resource == BindingResource::TextureView(written));
        assert!(read, "pass {} does not read what pass {} wrote", k + 1, k);
    }
    let targets_written: Vec<TextureId> = passes.iter().map(|p| p.target.texture).collect();
    assert_eq!(
        targets_written,
        vec![
            TextureId::Bright,
            TextureId::Downsample(0),
            TextureId::Downsample(1),
            TextureId::Downsample(2),
            TextureId::Downsample(3),
            TextureId::Upsample(0),
            TextureId::Upsample(1),
            TextureId::Upsample(2),
            TextureId::Upsample(3),
            TextureId::Surface,
        ]
    );
    assert_eq!(
        (passes[4].target.width, passes[4].target.height),
        (40, 22)
    );
    assert_eq!(
        pp.compose_render_pass.render_pipeline.color_target,
        TextureFormat::Bgra8UnormSrgb
    );
}

#[test]
fn resample_passes_record_their_target_resolution() {
    let targets = RenderTargets::new(1280, 720);
    let pp = PostProcessPasses::new(&targets, TextureFormat::Bgra8UnormSrgb);
    let d = &pp.bloom_blur_downsample_render_passes[1];
    assert_eq!((d.resolution.width, d.resolution.height), (160, 90));
    assert_eq!(d.source.texture, TextureId::Downsample(0));
    let u = &pp.bloom_blur_upsample_render_passes[0];
    assert_eq!(u.source.texture, TextureId::Downsample(3));
    assert_eq!((u.resolution.width, u.resolution.height), (80, 45));
    assert_eq!(u.uniform_buffer.size, 8);
}

#[test]
fn uniform_words_and_bytes() {
    let bloom = Bloom { intensity: 1.5f32.to_bits(), threshold: 0.75f32.to_bits() };
    let pp = PostProcessing { bloom };
    let words = bright_uniform_words(&pp.bloom);
    assert_eq!(words, vec![1.5f32.to_bits(), 0.75f32.to_bits()]);
    assert_eq!(bright_pass_uniform_words(&bloom), vec![0.75f32.to_bits(), 1.5f32.to_bits()]);
    let bytes = uniform_bytes(&words);
    assert_eq!(bytes.len(), 8);
    let mut expected = 1.5f32.to_ne_bytes().to_vec();
    expected.extend_from_slice(&0.75f32.to_ne_bytes());
    assert_eq!(bytes, expected);
    let exposure = composite_uniform_words(2.0f32.to_bits());
    assert_eq!(uniform_bytes(&exposure), 2.0f32.to_ne_bytes().to_vec());
    assert_eq!(uniform_bytes(&Vec::new()), Vec::<u8>::new());
}

#[test]
fn cursor_capture_and_exposure_keys() {
    let mut input = InputState::new();
    assert!(!input.steers_camera());
    assert_eq!(input.on_key_up(Key::K), InputAction::IncreaseExposure);
    assert!(!input.steers_camera());
    assert_eq!(input.on_mouse_up(), InputAction::GrabCursor);
    assert!(input.steers_camera());
    assert_eq!(input.on_key_up(Key::J), InputAction::DecreaseExposure);
    assert_eq!(input.on_key_up(Key::Other), InputAction::Ignore);
    assert!(input.steers_camera());
    assert_eq!(input.on_key_up(Key::Escape), InputAction::ReleaseCursor);
    assert!(!input.steers_camera());
}

#[test]
fn uniform_bytes_of_equal_words_are_equal() {
    let w = 0x0102_0304u32;
    let bytes = uniform_bytes(&vec![w, 7, w]);
    assert_eq!(bytes.len(), 12);
    assert_eq!(bytes[0..4], bytes[8..12]);
    assert_ne!(bytes[0..4], bytes[4..8]);
}
