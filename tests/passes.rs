use bloom_frame::bloom::{BloomRenderer, BlurPass, BrightPass, DownScale};
use bloom_frame::composite::CompositeRenderer;
use bloom_frame::frame_buffers::FrameBuffers;
use bloom_frame::pass::{
    BindGroupEntry, BindingResource, BindingType, ClearColor, RenderPassRecord, TextureId,
    ViewRef,
};
use bloom_frame::post_passes::{
    BlurRenderer, BrightPassRenderPass, BrightPassRenderer, ComposeRenderPass, CopyRenderPass,
    Pipeline, TextureCopy,
};
use bloom_frame::samplers::{FilterMode, Samplers};
use bloom_frame::surface::Surface;
use bloom_frame::texture::TextureFormat;
use bloom_frame::window::Size;

fn view(texture: TextureId, width: u32, height: u32) -> ViewRef {
    ViewRef { texture, width, height, format: TextureFormat::Rgba16Float }
}

fn views_of(group: &[BindGroupEntry]) -> Vec<TextureId> {
    group
        .iter()
        .filter_map(|e| match e.resource {
            BindingResource::TextureView(v) => Some(v.texture),
            _ => None,
        })
        .collect()
}

fn reads(pass: &RenderPassRecord) -> Vec<TextureId> {
    pass.bind_groups.iter().flat_map(|g| views_of(g)).collect()
}

#[test]
fn samplers_are_bilinear() {
    let s = Samplers::new();
    assert_eq!(s.bilinear.label, "Bilinear Sampler");
    assert_eq!(s.bilinear.mag_filter, FilterMode::Linear);
    assert_eq!(s.bilinear.min_filter, FilterMode::Linear);
    assert_eq!(s.bilinear.as_ref().label, "Bilinear Sampler");
}

#[test]
fn bright_pass_binds_uniforms_color_and_sampler() {
    let fb = FrameBuffers::new(800, 600);
    let s = Samplers::new();
    let bp = BrightPass::new(&fb, &s);
    assert_eq!(bp.uniform_buffer.size, 8);
    assert_eq!(bp.bind_group.len(), 3);
    assert!(matches!(bp.bind_group[0].resource, BindingResource::Buffer(b) if b.size == 8));
    assert_eq!(bp.bind_group[1].resource, BindingResource::TextureView(fb.color_view()));
    assert_eq!(
        bp.bind_group_layout[0].ty,
        BindingType::UniformBuffer { min_binding_size: 8 }
    );
    assert_eq!(bp.render_pipeline.color_target, TextureFormat::Rgba16Float);
    let pass = bp.draw(&fb);
    assert_eq!(pass.label, "Bloom Bright Render Pass");
    assert_eq!(pass.target, fb.bright_view());
    assert_eq!((pass.target.width, pass.target.height), (200, 150));
    assert_eq!(pass.clear, ClearColor::Black);
    assert_eq!((pass.vertex_count, pass.instance_count), (3, 1));
    assert_eq!(reads(&pass), vec![TextureId::Color]);
}

#[test]
fn bright_pass_rebinds_after_resize() {
    let mut fb = FrameBuffers::new(800, 600);
    let s = Samplers::new();
    let mut bp = BrightPass::new(&fb, &s);
    fb.resize(400, 300);
    assert_ne!(bp.bind_group[1].resource, BindingResource::TextureView(fb.color_view()));
    bp.recreate_bind_group(&fb, &s);
    assert_eq!(bp.bind_group[1].resource, BindingResource::TextureView(fb.color_view()));
}

#[test]
fn down_scale_reads_color_into_bright() {
    let fb = FrameBuffers::new(64, 64);
    let s = Samplers::new();
    let mut d = DownScale::new(&fb, &s);
    let pass = d.draw(&fb);
    assert_eq!(pass.label, "Bloom Scale Down Render Pass");
    assert_eq!(pass.target.texture, TextureId::Bright);
    assert_eq!(reads(&pass), vec![TextureId::Color]);
    let fb2 = FrameBuffers::new(32, 32);
    d.recreate_bind_group(&fb2, &s);
    assert_eq!(d.bind_group[0].resource, BindingResource::TextureView(fb2.color_view()));
}

#[test]
fn blur_ping_pongs_each_level() {
    let fb = FrameBuffers::new(1280, 720);
    let s = Samplers::new();
    let blur = BlurPass::new(&fb, &s);
    assert_eq!(blur.blur_render_pipeline.color_target, TextureFormat::Rgba16Float);
    assert_eq!(blur.blur_render_pipeline.label, "Bloom Blur Render Pipeline");
    let passes = blur.draw(&fb);
    assert_eq!(passes.len(), 6);
    for level in 0..3usize {
        let first = &passes[2 * level];
        let second = &passes[2 * level + 1];
        let source = if level == 0 {
            TextureId::Bright
        } else {
            TextureId::BlurBuffer { level: level - 1, slot: 0 }
        };
        assert_eq!(first.target.texture, TextureId::BlurBuffer { level, slot: 1 });
        assert_eq!(reads(first), vec![source]);
        assert_eq!(second.target.texture, TextureId::BlurBuffer { level, slot: 0 });
        assert_eq!(reads(second), vec![TextureId::BlurBuffer { level, slot: 1 }]);
        assert_eq!(first.label, "Bloom Blur Render Pass");
    }
}

#[test]
fn blur_draws_only_levels_that_exist() {
    let fb = FrameBuffers::new(1280, 720);
    let s = Samplers::new();
    let mut blur = BlurPass::new(&fb, &s);
    blur.blur_bind_groups.truncate(1);
    assert_eq!(blur.draw(&fb).len(), 2);
    blur.recreate_bind_group(&fb, &s);
    assert_eq!(blur.draw(&fb).len(), 6);
}

#[test]
fn bloom_renderer_frame() {
    let fb = FrameBuffers::new(1280, 720);
    let s = Samplers::new();
    let mut bloom = BloomRenderer::new(&fb, &s);
    let passes = bloom.draw(&fb);
    assert_eq!(passes.len(), 7);
    assert_eq!(passes[0].target.texture, TextureId::Bright);
    for p in &passes {
        assert!(!reads(p).contains(&p.target.texture));
    }
    for k in 0..passes.len() - 1 {
        let written = passes[k].target;
        assert!(passes[k + 1].bind_groups[0]
            .iter()
            .any(|e| e.resource == BindingResource::TextureView(written)));
    }
    let mut fb2 = FrameBuffers::new(1280, 720);
    fb2.resize(100, 100);
    bloom.recreate_bind_group(&fb2, &s);
    let passes = bloom.draw(&fb2);
    assert_eq!((passes[1].target.width, passes[1].target.height), (25, 25));
    assert_eq!(passes[0].bind_groups[0][1].resource, BindingResource::TextureView(fb2.color_view()));
}

#[test]
fn composite_reads_color_and_last_blur_level() {
    let fb = FrameBuffers::new(1280, 720);
    let s = Samplers::new();
    let surface = Surface::new((), TextureFormat::Bgra8UnormSrgb);
    let mut c = CompositeRenderer::new(&s, &fb, &surface);
    assert_eq!(c.render_pipeline.color_target, TextureFormat::Bgra8UnormSrgb);
    assert_eq!(c.uniform_buffer.size, 4);
    assert_eq!(c.bind_group_layout[1].ty, BindingType::Texture { filterable: false });
    let target = ViewRef {
        texture: TextureId::Surface,
        width: 1280,
        height: 720,
        format: TextureFormat::Bgra8UnormSrgb,
    };
    let pass = c.draw(target);
    assert_eq!(pass.label, "Composite Render Pass");
    assert_eq!(pass.target, target);
    assert_eq!(
        reads(&pass),
        vec![TextureId::Color, TextureId::BlurBuffer { level: 2, slot: 0 }]
    );
    let fb2 = FrameBuffers::new(200, 200);
    c.recreate_bind_group(&fb2, &s);
    assert_eq!(c.bind_group[2].resource, BindingResource::TextureView(fb2.blur_view(2, 0)));
}

#[test]
fn bright_pass_render_pass_reads_its_source() {
    let src = view(TextureId::Color, 640, 360);
    let p = BrightPassRenderPass::new(src, TextureFormat::Rgba16Float);
    assert_eq!(p.uniform_buffer.size, 8);
    assert_eq!(p.bind_group[2].resource, BindingResource::TextureView(src));
    let pass = p.draw(view(TextureId::Bright, 640, 360));
    assert_eq!(pass.label, "Bright Pass Render Pass");
    assert_eq!(pass.clear, ClearColor::Transparent);
    assert_eq!(reads(&pass), vec![TextureId::Color]);
}

#[test]
fn copy_pass_reads_its_source() {
    let src = view(TextureId::Upsample(3), 640, 360);
    let p = CopyRenderPass::new(src, TextureFormat::Bgra8Unorm);
    assert_eq!(p.render_pipeline.color_target, TextureFormat::Bgra8Unorm);
    let pass = p.draw(view(TextureId::Surface, 1280, 720));
    assert_eq!(pass.label, "Copy Render Pass");
    assert_eq!(reads(&pass), vec![TextureId::Upsample(3)]);
}

#[test]
fn blur_renderer_swaps_its_source() {
    let mut b = BlurRenderer::new(view(TextureId::Bright, 10, 10), TextureFormat::Rgba16Float);
    assert_eq!(b.render_pipeline.bind_group_layouts.len(), 2);
    let pass = b.draw(view(TextureId::Downsample(0), 5, 5));
    assert_eq!(pass.bind_groups.len(), 2);
    assert_eq!(reads(&pass), vec![TextureId::Bright]);
    b.use_src_texture_view(view(TextureId::Downsample(0), 5, 5));
    let pass = b.draw(view(TextureId::Downsample(1), 2, 2));
    assert_eq!(reads(&pass), vec![TextureId::Downsample(0)]);
    assert_eq!(pass.label, "Blur Render Pass");
}

#[test]
fn compose_pass_reads_color_and_bloom() {
    let color = view(TextureId::Color, 1280, 720);
    let bloom = view(TextureId::Upsample(3), 640, 360);
    let p = ComposeRenderPass::new(color, bloom, TextureFormat::Bgra8UnormSrgb);
    assert_eq!(p.uniform_buffer.size, 4);
    let pass = p.draw(ViewRef {
        texture: TextureId::Surface,
        width: 1280,
        height: 720,
        format: TextureFormat::Bgra8UnormSrgb,
    });
    assert_eq!(pass.label, "Compose Render Pass");
    assert_eq!(reads(&pass), vec![TextureId::Color, TextureId::Upsample(3)]);
}

#[test]
fn bright_pass_renderer_copies_then_draws() {
    let r = BrightPassRenderer::new(
        Size::new(320, 240),
        TextureFormat::Rgba16Float,
        TextureFormat::Rgba16Float,
    );
    assert_eq!(r.src_texture.usage.bits, 2 | 4);
    assert_eq!(r.src_texture.label, "Bright Pass Source Texture");
    let (copy, pass) = r.render(TextureId::Color, view(TextureId::Bright, 320, 240));
    assert_eq!(
        copy,
        TextureCopy {
            source: TextureId::Color,
            destination: TextureId::PassSource,
            size: Size::new(320, 240),
        }
    );
    assert_eq!(reads(&pass), vec![TextureId::PassSource]);
    assert_eq!(pass.target.texture, TextureId::Bright);
}

#[test]
fn pipelines_render_into_the_given_target() {
    let target = view(TextureId::Downsample(1), 8, 8);
    let copy = CopyRenderPass::new(view(TextureId::Downsample(0), 16, 16), TextureFormat::Rgba16Float);
    let blur = BlurRenderer::new(view(TextureId::Downsample(0), 16, 16), TextureFormat::Rgba16Float);
    let pipelines: Vec<&dyn Pipeline> = vec![&copy, &blur];
    for p in pipelines {
        let pass = p.render(target);
        assert_eq!(pass.target, target);
        assert_eq!((pass.vertex_count, pass.instance_count), (3, 1));
        assert_eq!(reads(&pass), vec![TextureId::Downsample(0)]);
    }
}

#[test]
fn blur_draws_in_the_format_of_its_buffers() {
    let mut fb = FrameBuffers::new(64, 64);
    for pair in fb.bloom_blur_buffers.iter_mut() {
        pair.primary.format = TextureFormat::Rgba8Unorm;
    }
    let blur = BlurPass::new(&fb, &Samplers::new());
    assert_eq!(blur.blur_render_pipeline.color_target, TextureFormat::Rgba8Unorm);
}

#[test]
fn pipelines_carry_the_labels_their_shaders_are_chosen_by() {
    let fb = FrameBuffers::new(64, 64);
    let s = Samplers::new();
    assert_eq!(BrightPass::new(&fb, &s).render_pipeline.label, "Bloom Bright Render Pipeline");
    assert_eq!(DownScale::new(&fb, &s).render_pipeline.label, "Bloom Scale Down Render Pipeline");
    let v = view(TextureId::Color, 64, 64);
    assert_eq!(
        ComposeRenderPass::new(v, v, TextureFormat::Bgra8Unorm).render_pipeline.label,
        "Post Process Compose Render Pipeline"
    );
    assert_eq!(CopyRenderPass::new(v, TextureFormat::Bgra8Unorm).render_pipeline.label, "Copy Render Pipeline");
    assert_eq!(BrightPassRenderPass::new(v, TextureFormat::Rgba16Float).render_pipeline.label, "Bright Pass Render Pipeline");
}

#[test]
fn bloom_rebind_keeps_pipelines() {
    let fb = FrameBuffers::new(128, 128);
    let s = Samplers::new();
    let mut bloom = BloomRenderer::new(&fb, &s);
    let before = (bloom.bright_pass.render_pipeline.clone(), bloom.blur_pass.blur_render_pipeline.clone());
    let fb2 = FrameBuffers::new(64, 64);
    bloom.recreate_bind_group(&fb2, &s);
    assert_eq!(bloom.bright_pass.render_pipeline, before.0);
    assert_eq!(bloom.blur_pass.blur_render_pipeline, before.1);
    assert_eq!(
        bloom.blur_pass.blur_bind_groups[0].read_source[0].resource,
        BindingResource::TextureView(fb2.bright_view())
    );
}
