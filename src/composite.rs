use vstd::prelude::*;

use crate::bloom::{copy_group, spec_fullscreen};
use crate::frame_buffers::FrameBuffers;
use crate::pass::{
    entry_views, fullscreen_pass, group_samples, pass_sound, sampler_slot, texture_slot,
    uniform_slot, BindGroupEntry, BindGroupLayoutEntry, BindingResource, BindingType, BufferRef,
    ClearColor, RenderPassRecord, RenderPipelineDescriptor, SamplerRef, TextureId, ViewRef,
};
use crate::samplers::Samplers;
use crate::surface::Surface;
use crate::uniforms::COMPOSITE_UNIFORMS_SIZE;

verus! {

/// Slots of the composite pass: its uniforms, the scene color, the blurred bloom, a sampler.
pub open spec fn composite_layout() -> Seq<BindGroupLayoutEntry> {
    seq![
        uniform_slot(0, COMPOSITE_UNIFORMS_SIZE),
        texture_slot(1, false),
        texture_slot(2, true),
        sampler_slot(3),
    ]
}

/// The view of the last blur level's primary buffer, where the blur ends.
pub open spec fn spec_bloom_view(fb: FrameBuffers) -> ViewRef {
    fb.spec_blur_view((fb.bloom_blur_buffers@.len() - 1) as usize, 0)
}

/// What the composite pass binds.
pub open spec fn composite_group(buffer: BufferRef, fb: FrameBuffers, sampler: SamplerRef) -> Seq<
    BindGroupEntry,
> {
    seq![
        BindGroupEntry { binding: 0, resource: BindingResource::Buffer(buffer) },
        BindGroupEntry { binding: 1, resource: BindingResource::TextureView(fb.spec_color_view()) },
        BindGroupEntry { binding: 2, resource: BindingResource::TextureView(spec_bloom_view(fb)) },
        BindGroupEntry { binding: 3, resource: BindingResource::Sampler(sampler) },
    ]
}

/// The composite pass reads the scene color and the last blur level, nothing else.
pub proof fn lemma_composite_group_samples(
    buffer: BufferRef,
    fb: FrameBuffers,
    sampler: SamplerRef,
    t: TextureId,
)
    ensures
        group_samples(composite_group(buffer, fb, sampler), t) <==> (t == TextureId::Color || t
            == spec_bloom_view(fb).texture),
{
    let g = composite_group(buffer, fb, sampler);
    if t == TextureId::Color {
        assert(entry_views(g[1], t));
    }
    if t == spec_bloom_view(fb).texture {
        assert(entry_views(g[2], t));
    }
    if group_samples(g, t) {
        let i = choose|i: int| 0 <= i < g.len() && entry_views(#[trigger] g[i], t);
        assert(i == 0 || i == 1 || i == 2 || i == 3);
    }
}

/// Tone-maps the scene color with the bloom added into the surface.
pub struct CompositeRenderer {
    pub uniform_buffer: BufferRef,
    pub bind_group_layout: Vec<BindGroupLayoutEntry>,
    pub bind_group: Vec<BindGroupEntry>,
    pub render_pipeline: RenderPipelineDescriptor,
}

impl CompositeRenderer {
    pub open spec fn spec_well_formed(&self) -> bool {
        &&& self.uniform_buffer.size == COMPOSITE_UNIFORMS_SIZE
        &&& self.bind_group_layout@ == composite_layout()
        &&& self.render_pipeline.bind_group_layouts@.len() == 1
        &&& self.render_pipeline.bind_group_layouts@[0]@ == composite_layout()
    }

    pub open spec fn spec_bound_to(&self, fb: FrameBuffers, sampler: SamplerRef) -> bool {
        &&& fb.bloom_blur_buffers@.len() > 0
        &&& self.bind_group@ == composite_group(self.uniform_buffer, fb, sampler)
    }

    pub fn new<S>(samplers: &Samplers, frame_buffers: &FrameBuffers, surface: &Surface<S>) -> (r:
        CompositeRenderer)
        requires
            frame_buffers.bloom_blur_buffers@.len() > 0,
        ensures
            r.spec_well_formed(),
            r.render_pipeline.color_target == surface.texture_format,
            r.render_pipeline.label == "Composite Render Pipeline",
            r.spec_bound_to(*frame_buffers, samplers.bilinear.spec_ref()),
    {
        let uniform_buffer = BufferRef {
            label: "Composite pass uniform buffer",
            size: COMPOSITE_UNIFORMS_SIZE,
        };
        let mut layouts: Vec<Vec<BindGroupLayoutEntry>> = Vec::new();
        layouts.push(Self::layout_entries());
        let render_pipeline = RenderPipelineDescriptor {
            label: "Composite Render Pipeline",
            bind_group_layouts: layouts,
            color_target: surface.texture_format,
        };
        let bind_group = Self::create_bind_group(uniform_buffer, frame_buffers, samplers);
        CompositeRenderer {
            uniform_buffer,
            bind_group_layout: Self::layout_entries(),
            bind_group,
            render_pipeline,
        }
    }

    fn layout_entries() -> (r: Vec<BindGroupLayoutEntry>)
        ensures
            r@ == composite_layout(),
    {
        let mut entries: Vec<BindGroupLayoutEntry> = Vec::new();
        entries.push(
            BindGroupLayoutEntry {
                binding: 0,
                ty: BindingType::UniformBuffer { min_binding_size: COMPOSITE_UNIFORMS_SIZE },
            },
        );
        entries.push(BindGroupLayoutEntry { binding: 1, ty: BindingType::Texture { filterable: false } });
        entries.push(BindGroupLayoutEntry { binding: 2, ty: BindingType::Texture { filterable: true } });
        entries.push(BindGroupLayoutEntry { binding: 3, ty: BindingType::Sampler });
        assert(entries@ =~= composite_layout());
        entries
    }

    fn create_bind_group(uniform_buffer: BufferRef, frame_buffers: &FrameBuffers, samplers: &Samplers) -> (r:
        Vec<BindGroupEntry>)
        requires
            frame_buffers.bloom_blur_buffers@.len() > 0,
        ensures
            r@ == composite_group(uniform_buffer, *frame_buffers, samplers.bilinear.spec_ref()),
    {
        let last = frame_buffers.bloom_blur_buffers.len() - 1;
        let bloom_view = frame_buffers.blur_view(last, 0);
        let mut entries: Vec<BindGroupEntry> = Vec::new();
        entries.push(BindGroupEntry { binding: 0, resource: BindingResource::Buffer(uniform_buffer) });
        entries.push(
            BindGroupEntry {
                binding: 1,
                resource: BindingResource::TextureView(frame_buffers.color_view()),
            },
        );
        entries.push(BindGroupEntry { binding: 2, resource: BindingResource::TextureView(bloom_view) });
        entries.push(
            BindGroupEntry {
                binding: 3,
                resource: BindingResource::Sampler(samplers.bilinear.as_ref()),
            },
        );
        assert(entries@ =~= composite_group(
            uniform_buffer,
            *frame_buffers,
            samplers.bilinear.spec_ref(),
        ));
        entries
    }

    /// Rebinds the pass to the current views of `frame_buffers`.
    pub fn recreate_bind_group(&mut self, frame_buffers: &FrameBuffers, samplers: &Samplers)
        requires
            frame_buffers.bloom_blur_buffers@.len() > 0,
        ensures
            final(self).uniform_buffer == old(self).uniform_buffer,
            final(self).bind_group_layout == old(self).bind_group_layout,
            final(self).render_pipeline == old(self).render_pipeline,
            final(self).spec_bound_to(*frame_buffers, samplers.bilinear.spec_ref()),
    {
        self.bind_group = Self::create_bind_group(self.uniform_buffer, frame_buffers, samplers);
    }

    /// The pass that composes the frame into `surface_texture_view`.
    pub fn draw(&self, surface_texture_view: ViewRef) -> (r: RenderPassRecord)
        ensures
            r.label == "Composite Render Pass",
            spec_fullscreen(r, surface_texture_view, ClearColor::Black, self.bind_group@),
            surface_texture_view.texture == TextureId::Surface && (exists|
                fb: FrameBuffers,
                s: SamplerRef,
            | self.spec_bound_to(fb, s)) ==> pass_sound(r),
    {
        let r = fullscreen_pass(
            "Composite Render Pass",
            surface_texture_view,
            ClearColor::Black,
            copy_group(&self.bind_group),
        );
        proof {
            if exists|fb: FrameBuffers, s: SamplerRef| self.spec_bound_to(fb, s) {
                let (fb, s) = choose|fb: FrameBuffers, s: SamplerRef| self.spec_bound_to(fb, s);
                lemma_composite_group_samples(self.uniform_buffer, fb, s, TextureId::Surface);
            }
        }
        r
    }
}

} // verus!
