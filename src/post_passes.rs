use vstd::prelude::*;

use crate::bloom::{copy_group, spec_fullscreen};
use crate::pass::{
    entry_views, fullscreen_pass, group_samples, pass_sound, sampler_slot,
    texture_slot, uniform_slot, view_of, view_ref, BindGroupEntry, BindGroupLayoutEntry,
    BindingResource, BindingType, BufferRef, ClearColor, RenderPassRecord,
    RenderPipelineDescriptor, SamplerRef, TextureId, ViewRef, FULLSCREEN_VERTICES,
};
use crate::render_targets::RenderTarget;
use crate::samplers::SamplerDescriptor;
use crate::texture::{
    TextureDescriptor, TextureFormat, TextureUsages, COPY_DST_BIT, TEXTURE_BINDING_BIT,
};
use crate::uniforms::{BRIGHT_UNIFORMS_SIZE, COMPOSITE_UNIFORMS_SIZE};
use crate::window::Size;

verus! {

/// Size in bytes of the resampling uniforms: the target's resolution.
pub const RESOLUTION_UNIFORMS_SIZE: u64 = 8;

/// Slots of the bright pass: its uniforms, a sampler, the source texture.
pub open spec fn bright_pass_layout() -> Seq<BindGroupLayoutEntry> {
    seq![uniform_slot(0, BRIGHT_UNIFORMS_SIZE), sampler_slot(1), texture_slot(2, true)]
}

pub open spec fn bright_pass_group(buffer: BufferRef, sampler: SamplerRef, source: ViewRef) -> Seq<
    BindGroupEntry,
> {
    seq![
        BindGroupEntry { binding: 0, resource: BindingResource::Buffer(buffer) },
        BindGroupEntry { binding: 1, resource: BindingResource::Sampler(sampler) },
        BindGroupEntry { binding: 2, resource: BindingResource::TextureView(source) },
    ]
}

/// Slots of a resampling pass: a sampler, the source texture, the target's resolution.
pub open spec fn resample_layout() -> Seq<BindGroupLayoutEntry> {
    seq![sampler_slot(0), texture_slot(1, true), uniform_slot(2, RESOLUTION_UNIFORMS_SIZE)]
}

pub open spec fn resample_group(sampler: SamplerRef, source: ViewRef, buffer: BufferRef) -> Seq<
    BindGroupEntry,
> {
    seq![
        BindGroupEntry { binding: 0, resource: BindingResource::Sampler(sampler) },
        BindGroupEntry { binding: 1, resource: BindingResource::TextureView(source) },
        BindGroupEntry { binding: 2, resource: BindingResource::Buffer(buffer) },
    ]
}

/// Slots of the compose pass: its uniforms, a sampler, the scene color, the bloom.
pub open spec fn compose_layout() -> Seq<BindGroupLayoutEntry> {
    seq![
        uniform_slot(0, COMPOSITE_UNIFORMS_SIZE),
        sampler_slot(1),
        texture_slot(2, true),
        texture_slot(3, true),
    ]
}

pub open spec fn compose_group(buffer: BufferRef, sampler: SamplerRef, color: ViewRef, bloom: ViewRef) -> Seq<
    BindGroupEntry,
> {
    seq![
        BindGroupEntry { binding: 0, resource: BindingResource::Buffer(buffer) },
        BindGroupEntry { binding: 1, resource: BindingResource::Sampler(sampler) },
        BindGroupEntry { binding: 2, resource: BindingResource::TextureView(color) },
        BindGroupEntry { binding: 3, resource: BindingResource::TextureView(bloom) },
    ]
}

/// Slots of the copy pass: a sampler, the source texture.
pub open spec fn copy_layout() -> Seq<BindGroupLayoutEntry> {
    seq![sampler_slot(0), texture_slot(1, true)]
}

pub open spec fn copy_group_of(sampler: SamplerRef, source: ViewRef) -> Seq<BindGroupEntry> {
    seq![
        BindGroupEntry { binding: 0, resource: BindingResource::Sampler(sampler) },
        BindGroupEntry { binding: 1, resource: BindingResource::TextureView(source) },
    ]
}

/// A group of one sampler, one buffer and views of `a` and `b` samples only those.
pub proof fn lemma_group_samples_views(group: Seq<BindGroupEntry>, a: ViewRef, b: ViewRef, t: TextureId)
    requires
        forall|i: int|
            0 <= i < group.len() ==> (#[trigger] group[i]).resource is TextureView ==> (
            group[i].resource == BindingResource::TextureView(a) || group[i].resource
                == BindingResource::TextureView(b)),
        t != a.texture,
        t != b.texture,
    ensures
        !group_samples(group, t),
{
    if group_samples(group, t) {
        let i = choose|i: int| 0 <= i < group.len() && entry_views(#[trigger] group[i], t);
        assert(group[i].resource is TextureView);
    }
}

fn layout_entry(binding: u32, ty: BindingType) -> (r: BindGroupLayoutEntry)
    ensures
        r == (BindGroupLayoutEntry { binding, ty }),
{
    BindGroupLayoutEntry { binding, ty }
}

fn bright_pass_layout_entries() -> (r: Vec<BindGroupLayoutEntry>)
    ensures
        r@ == bright_pass_layout(),
{
    let mut v: Vec<BindGroupLayoutEntry> = Vec::new();
    v.push(layout_entry(0, BindingType::UniformBuffer { min_binding_size: BRIGHT_UNIFORMS_SIZE }));
    v.push(layout_entry(1, BindingType::Sampler));
    v.push(layout_entry(2, BindingType::Texture { filterable: true }));
    assert(v@ =~= bright_pass_layout());
    v
}

fn resample_layout_entries() -> (r: Vec<BindGroupLayoutEntry>)
    ensures
        r@ == resample_layout(),
{
    let mut v: Vec<BindGroupLayoutEntry> = Vec::new();
    v.push(layout_entry(0, BindingType::Sampler));
    v.push(layout_entry(1, BindingType::Texture { filterable: true }));
    v.push(layout_entry(2, BindingType::UniformBuffer { min_binding_size: RESOLUTION_UNIFORMS_SIZE }));
    assert(v@ =~= resample_layout());
    v
}

fn compose_layout_entries() -> (r: Vec<BindGroupLayoutEntry>)
    ensures
        r@ == compose_layout(),
{
    let mut v: Vec<BindGroupLayoutEntry> = Vec::new();
    v.push(layout_entry(0, BindingType::UniformBuffer { min_binding_size: COMPOSITE_UNIFORMS_SIZE }));
    v.push(layout_entry(1, BindingType::Sampler));
    v.push(layout_entry(2, BindingType::Texture { filterable: true }));
    v.push(layout_entry(3, BindingType::Texture { filterable: true }));
    assert(v@ =~= compose_layout());
    v
}

fn copy_layout_entries() -> (r: Vec<BindGroupLayoutEntry>)
    ensures
        r@ == copy_layout(),
{
    let mut v: Vec<BindGroupLayoutEntry> = Vec::new();
    v.push(layout_entry(0, BindingType::Sampler));
    v.push(layout_entry(1, BindingType::Texture { filterable: true }));
    assert(v@ =~= copy_layout());
    v
}

fn single_layout_pipeline(label: &'static str, layout: Vec<BindGroupLayoutEntry>, color_target: TextureFormat) -> (r:
    RenderPipelineDescriptor)
    ensures
        r.label == label,
        r.color_target == color_target,
        r.bind_group_layouts@ == seq![layout],
{
    let mut layouts: Vec<Vec<BindGroupLayoutEntry>> = Vec::new();
    layouts.push(layout);
    assert(layouts@ =~= seq![layout]);
    RenderPipelineDescriptor { label, bind_group_layouts: layouts, color_target }
}

fn entry(binding: u32, resource: BindingResource) -> (r: BindGroupEntry)
    ensures
        r == (BindGroupEntry { binding, resource }),
{
    BindGroupEntry { binding, resource }
}

/// Extracts the bright parts of a source texture into the target it is drawn into.
pub struct BrightPassRenderPass {
    pub uniform_buffer: BufferRef,
    pub sampler: SamplerDescriptor,
    pub source: ViewRef,
    pub bind_group: Vec<BindGroupEntry>,
    pub render_pipeline: RenderPipelineDescriptor,
}

impl BrightPassRenderPass {
    pub open spec fn spec_well_formed(&self) -> bool {
        &&& self.uniform_buffer.size == BRIGHT_UNIFORMS_SIZE
        &&& self.bind_group@ == bright_pass_group(
            self.uniform_buffer,
            self.sampler.spec_ref(),
            self.source,
        )
        &&& self.render_pipeline.bind_group_layouts@.len() == 1
        &&& self.render_pipeline.bind_group_layouts@[0]@ == bright_pass_layout()
    }

    pub fn new(src_texture_view: ViewRef, color_target_format: TextureFormat) -> (r:
        BrightPassRenderPass)
        ensures
            r.spec_well_formed(),
            r.render_pipeline.label == "Bright Pass Render Pipeline",
            r.source == src_texture_view,
            r.sampler.spec_is_bilinear(),
            r.render_pipeline.color_target == color_target_format,
    {
        let sampler = SamplerDescriptor::bilinear("Bright Pass Bilinear Sampler");
        let uniform_buffer = BufferRef { label: "Bright Pass Uniform Buffer", size: BRIGHT_UNIFORMS_SIZE };
        let mut bind_group: Vec<BindGroupEntry> = Vec::new();
        bind_group.push(entry(0, BindingResource::Buffer(uniform_buffer)));
        bind_group.push(entry(1, BindingResource::Sampler(sampler.as_ref())));
        bind_group.push(entry(2, BindingResource::TextureView(src_texture_view)));
        assert(bind_group@ =~= bright_pass_group(uniform_buffer, sampler.spec_ref(), src_texture_view));
        let render_pipeline = single_layout_pipeline(
            "Bright Pass Render Pipeline",
            bright_pass_layout_entries(),
            color_target_format,
        );
        BrightPassRenderPass {
            uniform_buffer,
            sampler,
            source: src_texture_view,
            bind_group,
            render_pipeline,
        }
    }

    /// The pass that draws the bright parts of the source into `target`.
    pub fn draw(&self, target: ViewRef) -> (r: RenderPassRecord)
        ensures
            r.label == "Bright Pass Render Pass",
            spec_fullscreen(r, target, ClearColor::Transparent, self.bind_group@),
            self.spec_well_formed() && target.texture != self.source.texture ==> pass_sound(r),
    {
        let r = fullscreen_pass(
            "Bright Pass Render Pass",
            target,
            ClearColor::Transparent,
            copy_group(&self.bind_group),
        );
        proof {
            if self.spec_well_formed() && target.texture != self.source.texture {
                lemma_group_samples_views(self.bind_group@, self.source, self.source, target.texture);
            }
        }
        r
    }
}

/// Halves a blur pyramid level into the next one down.
pub struct BlurDownsampleRenderPass {
    pub source: ViewRef,
    pub target: ViewRef,
    pub resolution: Size,
    pub uniform_buffer: BufferRef,
    pub sampler: SamplerDescriptor,
    pub bind_group: Vec<BindGroupEntry>,
    pub render_pipeline: RenderPipelineDescriptor,
}

/// Doubles a blur pyramid level into the next one up.
pub struct BlurUpsampleRenderPass {
    pub source: ViewRef,
    pub target: ViewRef,
    pub resolution: Size,
    pub uniform_buffer: BufferRef,
    pub sampler: SamplerDescriptor,
    pub bind_group: Vec<BindGroupEntry>,
    pub render_pipeline: RenderPipelineDescriptor,
}

/// The parts of a resampling pass from `src` into `dst`.
fn resample_parts(
    src: &RenderTarget,
    dst: &RenderTarget,
    sampler_label: &'static str,
    buffer_label: &'static str,
    pipeline_label: &'static str,
) -> (r: (ViewRef, ViewRef, Size, BufferRef, SamplerDescriptor, Vec<BindGroupEntry>, RenderPipelineDescriptor))
    ensures
        r.0 == src.spec_view(),
        r.1 == dst.spec_view(),
        r.2 == (Size { width: dst.texture.size.width, height: dst.texture.size.height }),
        r.3 == (BufferRef { label: buffer_label, size: RESOLUTION_UNIFORMS_SIZE }),
        r.4.spec_is_bilinear(),
        r.4.label == sampler_label,
        r.5@ == resample_group(r.4.spec_ref(), r.0, r.3),
        r.6.color_target == r.1.format,
        r.6.label == pipeline_label,
        r.6.bind_group_layouts@.len() == 1,
        r.6.bind_group_layouts@[0]@ == resample_layout(),
{
    let source = src.view();
    let target = dst.view();
    let resolution = Size { width: dst.texture.size.width, height: dst.texture.size.height };
    let uniform_buffer = BufferRef { label: buffer_label, size: RESOLUTION_UNIFORMS_SIZE };
    let sampler = SamplerDescriptor::bilinear(sampler_label);
    let mut bind_group: Vec<BindGroupEntry> = Vec::new();
    bind_group.push(entry(0, BindingResource::Sampler(sampler.as_ref())));
    bind_group.push(entry(1, BindingResource::TextureView(source)));
    bind_group.push(entry(2, BindingResource::Buffer(uniform_buffer)));
    assert(bind_group@ =~= resample_group(sampler.spec_ref(), source, uniform_buffer));
    let render_pipeline = single_layout_pipeline(pipeline_label, resample_layout_entries(), target.format);
    (source, target, resolution, uniform_buffer, sampler, bind_group, render_pipeline)
}

impl BlurDownsampleRenderPass {
    pub open spec fn spec_well_formed(&self) -> bool {
        &&& self.bind_group@ == resample_group(self.sampler.spec_ref(), self.source, self.uniform_buffer)
        &&& self.uniform_buffer.size == RESOLUTION_UNIFORMS_SIZE
        &&& self.render_pipeline.color_target == self.target.format
        &&& self.render_pipeline.bind_group_layouts@.len() == 1
        &&& self.render_pipeline.bind_group_layouts@[0]@ == resample_layout()
    }

    pub fn new(src: &RenderTarget, dst: &RenderTarget) -> (r: BlurDownsampleRenderPass)
        ensures
            r.spec_well_formed(),
            r.render_pipeline.label == "Blur Downsample Render Pipeline",
            r.source == src.spec_view(),
            r.target == dst.spec_view(),
            r.resolution == (Size { width: dst.texture.size.width, height: dst.texture.size.height }),
            r.sampler.spec_is_bilinear(),
    {
        let (source, target, resolution, uniform_buffer, sampler, bind_group, render_pipeline) =
            resample_parts(
            src,
            dst,
            "Blur Downsample Bilinear Sampler",
            "Blur Downsample Uniform Buffer",
            "Blur Downsample Render Pipeline",
        );
        BlurDownsampleRenderPass {
            source,
            target,
            resolution,
            uniform_buffer,
            sampler,
            bind_group,
            render_pipeline,
        }
    }

    pub fn draw(&self) -> (r: RenderPassRecord)
        ensures
            r.label == "Bloom Blur Downsample Render Pass",
            spec_fullscreen(r, self.target, ClearColor::Transparent, self.bind_group@),
            self.spec_well_formed() && self.target.texture != self.source.texture ==> pass_sound(r),
    {
        let r = fullscreen_pass(
            "Bloom Blur Downsample Render Pass",
            self.target,
            ClearColor::Transparent,
            copy_group(&self.bind_group),
        );
        proof {
            if self.spec_well_formed() && self.target.texture != self.source.texture {
                lemma_group_samples_views(self.bind_group@, self.source, self.source, self.target.texture);
            }
        }
        r
    }
}

impl BlurUpsampleRenderPass {
    pub open spec fn spec_well_formed(&self) -> bool {
        &&& self.bind_group@ == resample_group(self.sampler.spec_ref(), self.source, self.uniform_buffer)
        &&& self.uniform_buffer.size == RESOLUTION_UNIFORMS_SIZE
        &&& self.render_pipeline.color_target == self.target.format
        &&& self.render_pipeline.bind_group_layouts@.len() == 1
        &&& self.render_pipeline.bind_group_layouts@[0]@ == resample_layout()
    }

    pub fn new(src: &RenderTarget, dst: &RenderTarget) -> (r: BlurUpsampleRenderPass)
        ensures
            r.spec_well_formed(),
            r.render_pipeline.label == "Blur Upsample Render Pipeline",
            r.source == src.spec_view(),
            r.target == dst.spec_view(),
            r.resolution == (Size { width: dst.texture.size.width, height: dst.texture.size.height }),
            r.sampler.spec_is_bilinear(),
    {
        let (source, target, resolution, uniform_buffer, sampler, bind_group, render_pipeline) =
            resample_parts(
            src,
            dst,
            "Blur Upsample Bilinear Sampler",
            "Blur Upsample Uniform Buffer",
            "Blur Upsample Render Pipeline",
        );
        BlurUpsampleRenderPass {
            source,
            target,
            resolution,
            uniform_buffer,
            sampler,
            bind_group,
            render_pipeline,
        }
    }

    pub fn draw(&self) -> (r: RenderPassRecord)
        ensures
            r.label == "Bloom Blur Upsample Render Pass",
            spec_fullscreen(r, self.target, ClearColor::Transparent, self.bind_group@),
            self.spec_well_formed() && self.target.texture != self.source.texture ==> pass_sound(r),
    {
        let r = fullscreen_pass(
            "Bloom Blur Upsample Render Pass",
            self.target,
            ClearColor::Transparent,
            copy_group(&self.bind_group),
        );
        proof {
            if self.spec_well_formed() && self.target.texture != self.source.texture {
                lemma_group_samples_views(self.bind_group@, self.source, self.source, self.target.texture);
            }
        }
        r
    }
}

/// Adds the bloom to the scene color and writes the result to the presented target.
pub struct ComposeRenderPass {
    pub uniform_buffer: BufferRef,
    pub sampler: SamplerDescriptor,
    pub color: ViewRef,
    pub bloom: ViewRef,
    pub bind_group: Vec<BindGroupEntry>,
    pub render_pipeline: RenderPipelineDescriptor,
}

impl ComposeRenderPass {
    pub open spec fn spec_well_formed(&self) -> bool {
        &&& self.uniform_buffer.size == COMPOSITE_UNIFORMS_SIZE
        &&& self.bind_group@ == compose_group(
            self.uniform_buffer,
            self.sampler.spec_ref(),
            self.color,
            self.bloom,
        )
        &&& self.render_pipeline.bind_group_layouts@.len() == 1
        &&& self.render_pipeline.bind_group_layouts@[0]@ == compose_layout()
    }

    pub fn new(color_texture: ViewRef, bloom_texture: ViewRef, render_target_format: TextureFormat) -> (r:
        ComposeRenderPass)
        ensures
            r.spec_well_formed(),
            r.render_pipeline.label == "Post Process Compose Render Pipeline",
            r.color == color_texture,
            r.bloom == bloom_texture,
            r.sampler.spec_is_bilinear(),
            r.render_pipeline.color_target == render_target_format,
    {
        let sampler = SamplerDescriptor::bilinear("Compose Render Pass Bilinear Sampler");
        let uniform_buffer = BufferRef { label: "Compose Uniform Buffer", size: COMPOSITE_UNIFORMS_SIZE };
        let mut bind_group: Vec<BindGroupEntry> = Vec::new();
        bind_group.push(entry(0, BindingResource::Buffer(uniform_buffer)));
        bind_group.push(entry(1, BindingResource::Sampler(sampler.as_ref())));
        bind_group.push(entry(2, BindingResource::TextureView(color_texture)));
        bind_group.push(entry(3, BindingResource::TextureView(bloom_texture)));
        assert(bind_group@ =~= compose_group(
            uniform_buffer,
            sampler.spec_ref(),
            color_texture,
            bloom_texture,
        ));
        let render_pipeline = single_layout_pipeline(
            "Post Process Compose Render Pipeline",
            compose_layout_entries(),
            render_target_format,
        );
        ComposeRenderPass {
            uniform_buffer,
            sampler,
            color: color_texture,
            bloom: bloom_texture,
            bind_group,
            render_pipeline,
        }
    }

    /// The pass that composes the frame into `target`.
    pub fn draw(&self, target: ViewRef) -> (r: RenderPassRecord)
        ensures
            r.label == "Compose Render Pass",
            spec_fullscreen(r, target, ClearColor::Transparent, self.bind_group@),
            self.spec_well_formed() && target.texture != self.color.texture && target.texture
                != self.bloom.texture ==> pass_sound(r),
    {
        let r = fullscreen_pass(
            "Compose Render Pass",
            target,
            ClearColor::Transparent,
            copy_group(&self.bind_group),
        );
        proof {
            if self.spec_well_formed() && target.texture != self.color.texture && target.texture
                != self.bloom.texture {
                lemma_group_samples_views(self.bind_group@, self.color, self.bloom, target.texture);
            }
        }
        r
    }
}

/// Copies a source texture into the target it is drawn into.
pub struct CopyRenderPass {
    pub sampler: SamplerDescriptor,
    pub source: ViewRef,
    pub bind_group: Vec<BindGroupEntry>,
    pub render_pipeline: RenderPipelineDescriptor,
}

impl CopyRenderPass {
    pub open spec fn spec_well_formed(&self) -> bool {
        &&& self.bind_group@ == copy_group_of(self.sampler.spec_ref(), self.source)
        &&& self.render_pipeline.bind_group_layouts@.len() == 1
        &&& self.render_pipeline.bind_group_layouts@[0]@ == copy_layout()
    }

    pub fn new(src_texture_view: ViewRef, render_target_format: TextureFormat) -> (r: CopyRenderPass)
        ensures
            r.spec_well_formed(),
            r.render_pipeline.label == "Copy Render Pipeline",
            r.source == src_texture_view,
            r.sampler.spec_is_bilinear(),
            r.render_pipeline.color_target == render_target_format,
    {
        let sampler = SamplerDescriptor::bilinear("Copy Render Pass Bilinear Sampler");
        let mut bind_group: Vec<BindGroupEntry> = Vec::new();
        bind_group.push(entry(0, BindingResource::Sampler(sampler.as_ref())));
        bind_group.push(entry(1, BindingResource::TextureView(src_texture_view)));
        assert(bind_group@ =~= copy_group_of(sampler.spec_ref(), src_texture_view));
        let render_pipeline = single_layout_pipeline(
            "Copy Render Pipeline",
            copy_layout_entries(),
            render_target_format,
        );
        CopyRenderPass { sampler, source: src_texture_view, bind_group, render_pipeline }
    }

    pub fn draw(&self, target: ViewRef) -> (r: RenderPassRecord)
        ensures
            r.label == "Copy Render Pass",
            spec_fullscreen(r, target, ClearColor::Transparent, self.bind_group@),
            self.spec_well_formed() && target.texture != self.source.texture ==> pass_sound(r),
    {
        let r = fullscreen_pass("Copy Render Pass", target, ClearColor::Transparent, copy_group(&self.bind_group));
        proof {
            if self.spec_well_formed() && target.texture != self.source.texture {
                lemma_group_samples_views(self.bind_group@, self.source, self.source, target.texture);
            }
        }
        r
    }
}

/// Blurs a source texture, bound separately from its sampler so that the
/// source can be swapped.
pub struct BlurRenderer {
    pub sampler: SamplerDescriptor,
    pub source: ViewRef,
    pub bind_group0: Vec<BindGroupEntry>,
    pub bind_group1: Vec<BindGroupEntry>,
    pub render_pipeline: RenderPipelineDescriptor,
}

pub open spec fn sampler_only_group(sampler: SamplerRef) -> Seq<BindGroupEntry> {
    seq![BindGroupEntry { binding: 0, resource: BindingResource::Sampler(sampler) }]
}

pub open spec fn view_only_group(view: ViewRef) -> Seq<BindGroupEntry> {
    seq![BindGroupEntry { binding: 0, resource: BindingResource::TextureView(view) }]
}

impl BlurRenderer {
    pub open spec fn spec_well_formed(&self) -> bool {
        &&& self.bind_group0@ == sampler_only_group(self.sampler.spec_ref())
        &&& self.bind_group1@ == view_only_group(self.source)
        &&& self.render_pipeline.bind_group_layouts@.len() == 2
        &&& self.render_pipeline.bind_group_layouts@[0]@ == seq![sampler_slot(0)]
        &&& self.render_pipeline.bind_group_layouts@[1]@ == seq![texture_slot(0, true)]
    }

    pub fn new(src_texture_view: ViewRef, render_target_format: TextureFormat) -> (r: BlurRenderer)
        ensures
            r.spec_well_formed(),
            r.render_pipeline.label == "Blur Render Pipeline",
            r.source == src_texture_view,
            r.sampler.spec_is_bilinear(),
            r.render_pipeline.color_target == render_target_format,
    {
        let sampler = SamplerDescriptor::bilinear("Blur Bilinear Sampler");
        let mut layout0: Vec<BindGroupLayoutEntry> = Vec::new();
        layout0.push(layout_entry(0, BindingType::Sampler));
        let mut layout1: Vec<BindGroupLayoutEntry> = Vec::new();
        layout1.push(layout_entry(0, BindingType::Texture { filterable: true }));
        let mut layouts: Vec<Vec<BindGroupLayoutEntry>> = Vec::new();
        layouts.push(layout0);
        layouts.push(layout1);
        assert(layouts@[0]@ =~= seq![sampler_slot(0)]);
        assert(layouts@[1]@ =~= seq![texture_slot(0, true)]);
        let render_pipeline = RenderPipelineDescriptor {
            label: "Blur Render Pipeline",
            bind_group_layouts: layouts,
            color_target: render_target_format,
        };
        let mut bind_group0: Vec<BindGroupEntry> = Vec::new();
        bind_group0.push(entry(0, BindingResource::Sampler(sampler.as_ref())));
        assert(bind_group0@ =~= sampler_only_group(sampler.spec_ref()));
        BlurRenderer {
            sampler,
            source: src_texture_view,
            bind_group0,
            bind_group1: Self::create_bind_group1(src_texture_view),
            render_pipeline,
        }
    }

    fn create_bind_group1(src_texture_view: ViewRef) -> (r: Vec<BindGroupEntry>)
        ensures
            r@ == view_only_group(src_texture_view),
    {
        let mut group: Vec<BindGroupEntry> = Vec::new();
        group.push(entry(0, BindingResource::TextureView(src_texture_view)));
        assert(group@ =~= view_only_group(src_texture_view));
        group
    }

    /// Makes the pass blur `src_texture_view` from now on.
    pub fn use_src_texture_view(&mut self, src_texture_view: ViewRef)
        ensures
            final(self).source == src_texture_view,
            final(self).bind_group1@ == view_only_group(src_texture_view),
            final(self).sampler == old(self).sampler,
            final(self).bind_group0 == old(self).bind_group0,
            final(self).render_pipeline == old(self).render_pipeline,
            old(self).spec_well_formed() ==> final(self).spec_well_formed(),
    {
        self.source = src_texture_view;
        self.bind_group1 = Self::create_bind_group1(src_texture_view);
    }

    /// The pass that blurs the source into `target`.
    pub fn draw(&self, target: ViewRef) -> (r: RenderPassRecord)
        ensures
            r.label == "Blur Render Pass",
            r.target == target,
            r.clear == ClearColor::Transparent,
            r.bind_groups@.len() == 2,
            r.bind_groups@[0]@ == self.bind_group0@,
            r.bind_groups@[1]@ == self.bind_group1@,
            r.vertex_count == FULLSCREEN_VERTICES,
            r.instance_count == 1,
            self.spec_well_formed() && target.texture != self.source.texture ==> pass_sound(r),
    {
        let mut bind_groups: Vec<Vec<BindGroupEntry>> = Vec::new();
        bind_groups.push(copy_group(&self.bind_group0));
        bind_groups.push(copy_group(&self.bind_group1));
        let r = RenderPassRecord {
            label: "Blur Render Pass",
            target,
            clear: ClearColor::Transparent,
            bind_groups,
            vertex_count: FULLSCREEN_VERTICES,
            instance_count: 1,
        };
        proof {
            if self.spec_well_formed() && target.texture != self.source.texture {
                lemma_group_samples_views(self.bind_group0@, self.source, self.source, target.texture);
                lemma_group_samples_views(self.bind_group1@, self.source, self.source, target.texture);
            }
        }
        r
    }
}

/// A copy of a whole texture into another of the same extent.
#[derive(Debug, Clone, Copy, PartialEq, Eq, Structural)]
pub struct TextureCopy {
    pub source: TextureId,
    pub destination: TextureId,
    pub size: Size,
}

/// A bright pass that first copies its source into a texture of its own.
pub struct BrightPassRenderer {
    pub src_texture_size: Size,
    pub src_texture: TextureDescriptor,
    pub uniform_buffer: BufferRef,
    pub sampler: SamplerDescriptor,
    pub bind_group: Vec<BindGroupEntry>,
    pub render_pipeline: RenderPipelineDescriptor,
}

impl BrightPassRenderer {
    pub open spec fn spec_well_formed(&self) -> bool {
        &&& self.uniform_buffer.size == BRIGHT_UNIFORMS_SIZE
        &&& self.bind_group@ == bright_pass_group(
            self.uniform_buffer,
            self.sampler.spec_ref(),
            view_of(self.src_texture, TextureId::PassSource),
        )
        &&& self.render_pipeline.bind_group_layouts@.len() == 1
        &&& self.render_pipeline.bind_group_layouts@[0]@ == bright_pass_layout()
    }

    pub fn new(
        src_texture_size: Size,
        src_texture_format: TextureFormat,
        color_target_format: TextureFormat,
    ) -> (r: BrightPassRenderer)
        ensures
            r.spec_well_formed(),
            r.render_pipeline.label == "Bright Pass Render Pipeline",
            r.src_texture_size == src_texture_size,
            r.src_texture.spec_is_plain_2d(src_texture_size.width, src_texture_size.height),
            r.src_texture.format == src_texture_format,
            r.src_texture.usage.bits == COPY_DST_BIT | TEXTURE_BINDING_BIT,
            r.sampler.spec_is_bilinear(),
            r.render_pipeline.color_target == color_target_format,
    {
        let sampler = SamplerDescriptor::bilinear("Bright Pass Bilinear Sampler");
        let src_texture = TextureDescriptor::plain_2d(
            "Bright Pass Source Texture",
            src_texture_size.width,
            src_texture_size.height,
            src_texture_format,
            TextureUsages::copy_dst().union(TextureUsages::texture_binding()),
        );
        let uniform_buffer = BufferRef { label: "Bright Pass Uniform Buffer", size: BRIGHT_UNIFORMS_SIZE };
        let source = view_ref(&src_texture, TextureId::PassSource);
        let mut bind_group: Vec<BindGroupEntry> = Vec::new();
        bind_group.push(entry(0, BindingResource::Buffer(uniform_buffer)));
        bind_group.push(entry(1, BindingResource::Sampler(sampler.as_ref())));
        bind_group.push(entry(2, BindingResource::TextureView(source)));
        assert(bind_group@ =~= bright_pass_group(uniform_buffer, sampler.spec_ref(), source));
        let render_pipeline = single_layout_pipeline(
            "Bright Pass Render Pipeline",
            bright_pass_layout_entries(),
            color_target_format,
        );
        BrightPassRenderer {
            src_texture_size,
            src_texture,
            uniform_buffer,
            sampler,
            bind_group,
            render_pipeline,
        }
    }

    /// Copies `src_texture` into the pass's own source, then records the pass
    /// that draws its bright parts into `color_attachment_view`.
    pub fn render(&self, src_texture: TextureId, color_attachment_view: ViewRef) -> (r: (
        TextureCopy,
        RenderPassRecord,
    ))
        ensures
            r.0 == (TextureCopy {
                source: src_texture,
                destination: TextureId::PassSource,
                size: self.src_texture_size,
            }),
            r.1.label == "Bright Pass Render Pass",
            spec_fullscreen(r.1, color_attachment_view, ClearColor::Transparent, self.bind_group@),
            self.spec_well_formed() && color_attachment_view.texture != TextureId::PassSource
                ==> pass_sound(r.1),
    {
        let copy = TextureCopy {
            source: src_texture,
            destination: TextureId::PassSource,
            size: self.src_texture_size,
        };
        (copy, self.draw(color_attachment_view))
    }

    fn draw(&self, target: ViewRef) -> (r: RenderPassRecord)
        ensures
            r.label == "Bright Pass Render Pass",
            spec_fullscreen(r, target, ClearColor::Transparent, self.bind_group@),
            self.spec_well_formed() && target.texture != TextureId::PassSource ==> pass_sound(r),
    {
        let r = fullscreen_pass(
            "Bright Pass Render Pass",
            target,
            ClearColor::Transparent,
            copy_group(&self.bind_group),
        );
        proof {
            if self.spec_well_formed() && target.texture != TextureId::PassSource {
                let v = view_of(self.src_texture, TextureId::PassSource);
                lemma_group_samples_views(self.bind_group@, v, v, target.texture);
            }
        }
        r
    }
}

/// A full-screen pass that can be drawn into any target.
pub trait Pipeline {
    /// The pass that draws this pipeline into `target`.
    fn render(&self, target: ViewRef) -> (r: RenderPassRecord)
        ensures
            r.target == target,
            r.vertex_count == FULLSCREEN_VERTICES,
            r.instance_count == 1,
    ;
}

impl Pipeline for BrightPassRenderPass {
    fn render(&self, target: ViewRef) -> (r: RenderPassRecord) {
        self.draw(target)
    }
}

impl Pipeline for ComposeRenderPass {
    fn render(&self, target: ViewRef) -> (r: RenderPassRecord) {
        self.draw(target)
    }
}

impl Pipeline for CopyRenderPass {
    fn render(&self, target: ViewRef) -> (r: RenderPassRecord) {
        self.draw(target)
    }
}

impl Pipeline for BlurRenderer {
    fn render(&self, target: ViewRef) -> (r: RenderPassRecord) {
        self.draw(target)
    }
}

} // verus!
