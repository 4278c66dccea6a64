use vstd::prelude::*;

use crate::frame_buffers::{FrameBuffers, BLOOM_FORMAT};
use crate::pass::{
    entry_views, feeds, fullscreen_pass, pass_reads_view, group_samples, pass_sound, passes_sound, sampler_slot, texture_slot,
    uniform_slot, BindGroupEntry, BindGroupLayoutEntry, BindingResource, BindingType, BufferRef,
    ClearColor, RenderPassRecord, RenderPipelineDescriptor, SamplerRef, TextureId, ViewRef,
    FULLSCREEN_VERTICES,
};
use crate::samplers::Samplers;
use crate::texture::TextureFormat;
use crate::uniforms::BRIGHT_UNIFORMS_SIZE;

verus! {

/// Slots of the bright pass: its uniforms, the scene color, a sampler.
pub open spec fn bright_layout() -> Seq<BindGroupLayoutEntry> {
    seq![uniform_slot(0, BRIGHT_UNIFORMS_SIZE), texture_slot(1, true), sampler_slot(2)]
}

/// Slots of a pass that filters one texture: the texture, a sampler.
pub open spec fn texture_sampler_layout() -> Seq<BindGroupLayoutEntry> {
    seq![texture_slot(0, true), sampler_slot(1)]
}

/// What the bright pass binds: its uniforms, the scene color of `fb`, `sampler`.
pub open spec fn bright_group(buffer: BufferRef, fb: FrameBuffers, sampler: SamplerRef) -> Seq<
    BindGroupEntry,
> {
    seq![
        BindGroupEntry { binding: 0, resource: BindingResource::Buffer(buffer) },
        BindGroupEntry { binding: 1, resource: BindingResource::TextureView(fb.spec_color_view()) },
        BindGroupEntry { binding: 2, resource: BindingResource::Sampler(sampler) },
    ]
}

/// What a pass that filters `view` binds.
pub open spec fn texture_sampler_group(view: ViewRef, sampler: SamplerRef) -> Seq<BindGroupEntry> {
    seq![
        BindGroupEntry { binding: 0, resource: BindingResource::TextureView(view) },
        BindGroupEntry { binding: 1, resource: BindingResource::Sampler(sampler) },
    ]
}

/// `pass` draws the full-screen triangle into `target` with the single bind group `group`.
pub open spec fn spec_fullscreen(
    pass: RenderPassRecord,
    target: ViewRef,
    clear: ClearColor,
    group: Seq<BindGroupEntry>,
) -> bool {
    &&& pass.target == target
    &&& pass.clear == clear
    &&& pass.bind_groups@.len() == 1
    &&& pass.bind_groups@[0]@ == group
    &&& pass.vertex_count == FULLSCREEN_VERTICES
    &&& pass.instance_count == 1
}

/// A bind group whose only view is `view` samples no other texture.
pub proof fn lemma_texture_sampler_group_samples(view: ViewRef, sampler: SamplerRef, t: TextureId)
    ensures
        group_samples(texture_sampler_group(view, sampler), t) <==> t == view.texture,
{
    let g = texture_sampler_group(view, sampler);
    if t == view.texture {
        assert(entry_views(g[0], t));
    }
    if group_samples(g, t) {
        let i = choose|i: int| 0 <= i < g.len() && entry_views(#[trigger] g[i], t);
        assert(i == 0 || i == 1);
    }
}

/// The bright pass binds no texture but the scene color.
pub proof fn lemma_bright_group_samples(buffer: BufferRef, fb: FrameBuffers, sampler: SamplerRef, t: TextureId)
    ensures
        group_samples(bright_group(buffer, fb, sampler), t) <==> t == TextureId::Color,
{
    let g = bright_group(buffer, fb, sampler);
    if t == TextureId::Color {
        assert(entry_views(g[1], t));
    }
    if group_samples(g, t) {
        let i = choose|i: int| 0 <= i < g.len() && entry_views(#[trigger] g[i], t);
        assert(i == 0 || i == 1 || i == 2);
    }
}

fn texture_sampler_layout_entries() -> (r: Vec<BindGroupLayoutEntry>)
    ensures
        r@ == texture_sampler_layout(),
{
    let mut entries: Vec<BindGroupLayoutEntry> = Vec::new();
    entries.push(BindGroupLayoutEntry { binding: 0, ty: BindingType::Texture { filterable: true } });
    entries.push(BindGroupLayoutEntry { binding: 1, ty: BindingType::Sampler });
    assert(entries@ =~= texture_sampler_layout());
    entries
}

fn bright_layout_entries() -> (r: Vec<BindGroupLayoutEntry>)
    ensures
        r@ == bright_layout(),
{
    let mut entries: Vec<BindGroupLayoutEntry> = Vec::new();
    entries.push(
        BindGroupLayoutEntry {
            binding: 0,
            ty: BindingType::UniformBuffer { min_binding_size: BRIGHT_UNIFORMS_SIZE },
        },
    );
    entries.push(BindGroupLayoutEntry { binding: 1, ty: BindingType::Texture { filterable: true } });
    entries.push(BindGroupLayoutEntry { binding: 2, ty: BindingType::Sampler });
    assert(entries@ =~= bright_layout());
    entries
}

/// The binding of `view` and `sampler` for a pass that filters one texture.
pub fn create_texture_sampler_group(view: ViewRef, sampler: SamplerRef) -> (r: Vec<BindGroupEntry>)
    ensures
        r@ == texture_sampler_group(view, sampler),
{
    let mut entries: Vec<BindGroupEntry> = Vec::new();
    entries.push(BindGroupEntry { binding: 0, resource: BindingResource::TextureView(view) });
    entries.push(BindGroupEntry { binding: 1, resource: BindingResource::Sampler(sampler) });
    assert(entries@ =~= texture_sampler_group(view, sampler));
    entries
}

/// A pipeline with one bind group layout of a texture and a sampler.
fn texture_sampler_pipeline(label: &'static str, color_target: TextureFormat) -> (r:
    RenderPipelineDescriptor)
    ensures
        r.label == label,
        r.color_target == color_target,
        r.bind_group_layouts@.len() == 1,
        r.bind_group_layouts@[0]@ == texture_sampler_layout(),
{
    let mut layouts: Vec<Vec<BindGroupLayoutEntry>> = Vec::new();
    layouts.push(texture_sampler_layout_entries());
    RenderPipelineDescriptor { label, bind_group_layouts: layouts, color_target }
}

/// Extracts the bright parts of the scene color into the bright texture.
pub struct BrightPass {
    pub uniform_buffer: BufferRef,
    pub bind_group_layout: Vec<BindGroupLayoutEntry>,
    pub bind_group: Vec<BindGroupEntry>,
    pub render_pipeline: RenderPipelineDescriptor,
}

impl BrightPass {
    pub open spec fn spec_well_formed(&self) -> bool {
        &&& self.uniform_buffer.size == BRIGHT_UNIFORMS_SIZE
        &&& self.bind_group_layout@ == bright_layout()
        &&& self.render_pipeline.color_target == BLOOM_FORMAT
        &&& self.render_pipeline.bind_group_layouts@.len() == 1
        &&& self.render_pipeline.bind_group_layouts@[0]@ == bright_layout()
    }

    /// The bind group refers to the current views of `fb` and to `sampler`.
    pub open spec fn spec_bound_to(&self, fb: FrameBuffers, sampler: SamplerRef) -> bool {
        self.bind_group@ == bright_group(self.uniform_buffer, fb, sampler)
    }

    pub open spec fn spec_is_draw(&self, fb: FrameBuffers, pass: RenderPassRecord) -> bool {
        spec_fullscreen(pass, fb.spec_bright_view(), ClearColor::Black, self.bind_group@)
    }

    pub fn new(frame_buffers: &FrameBuffers, samplers: &Samplers) -> (r: BrightPass)
        ensures
            r.spec_well_formed(),
            r.uniform_buffer.label == "Bloom Uniform Buffer",
            r.render_pipeline.label == "Bloom Bright Render Pipeline",
            r.spec_bound_to(*frame_buffers, samplers.bilinear.spec_ref()),
    {
        let uniform_buffer = BufferRef { label: "Bloom Uniform Buffer", size: BRIGHT_UNIFORMS_SIZE };
        let bind_group = Self::create_bright_bind_group(
            uniform_buffer,
            frame_buffers.color_view(),
            samplers.bilinear.as_ref(),
        );
        let mut layouts: Vec<Vec<BindGroupLayoutEntry>> = Vec::new();
        layouts.push(bright_layout_entries());
        let render_pipeline = RenderPipelineDescriptor {
            label: "Bloom Bright Render Pipeline",
            bind_group_layouts: layouts,
            color_target: BLOOM_FORMAT,
        };
        BrightPass {
            uniform_buffer,
            bind_group_layout: bright_layout_entries(),
            bind_group,
            render_pipeline,
        }
    }

    fn create_bright_bind_group(uniform_buffer: BufferRef, color_view: ViewRef, sampler: SamplerRef) -> (r:
        Vec<BindGroupEntry>)
        ensures
            r@ == seq![
                BindGroupEntry { binding: 0, resource: BindingResource::Buffer(uniform_buffer) },
                BindGroupEntry { binding: 1, resource: BindingResource::TextureView(color_view) },
                BindGroupEntry { binding: 2, resource: BindingResource::Sampler(sampler) },
            ],
    {
        let mut entries: Vec<BindGroupEntry> = Vec::new();
        entries.push(BindGroupEntry { binding: 0, resource: BindingResource::Buffer(uniform_buffer) });
        entries.push(BindGroupEntry { binding: 1, resource: BindingResource::TextureView(color_view) });
        entries.push(BindGroupEntry { binding: 2, resource: BindingResource::Sampler(sampler) });
        assert(entries@ =~= seq![
            BindGroupEntry { binding: 0, resource: BindingResource::Buffer(uniform_buffer) },
            BindGroupEntry { binding: 1, resource: BindingResource::TextureView(color_view) },
            BindGroupEntry { binding: 2, resource: BindingResource::Sampler(sampler) },
        ]);
        entries
    }

    /// Rebinds the pass to the current views of `frame_buffers`, after they were resized.
    pub fn recreate_bind_group(&mut self, frame_buffers: &FrameBuffers, samplers: &Samplers)
        ensures
            final(self).uniform_buffer == old(self).uniform_buffer,
            final(self).bind_group_layout == old(self).bind_group_layout,
            final(self).render_pipeline == old(self).render_pipeline,
            final(self).spec_bound_to(*frame_buffers, samplers.bilinear.spec_ref()),
    {
        self.bind_group = Self::create_bright_bind_group(
            self.uniform_buffer,
            frame_buffers.color_view(),
            samplers.bilinear.as_ref(),
        );
    }

    /// The pass that renders the bright parts of the scene into the bright texture.
    pub fn draw(&self, frame_buffers: &FrameBuffers) -> (r: RenderPassRecord)
        ensures
            r.label == "Bloom Bright Render Pass",
            self.spec_is_draw(*frame_buffers, r),
    {
        let r = fullscreen_pass(
            "Bloom Bright Render Pass",
            frame_buffers.bright_view(),
            ClearColor::Black,
            copy_group(&self.bind_group),
        );
        r
    }
}

/// A copy of a bind group's entries.
pub fn copy_group(group: &Vec<BindGroupEntry>) -> (r: Vec<BindGroupEntry>)
    ensures
        r@ == group@,
{
    let mut entries: Vec<BindGroupEntry> = Vec::new();
    let mut i: usize = 0;
    while i < group.len()
        invariant
            i <= group@.len(),
            entries@ == group@.subrange(0, i as int),
        decreases group@.len() - i,
    {
        entries.push(group[i]);
        i = i + 1;
        assert(entries@ =~= group@.subrange(0, i as int));
    }
    assert(entries@ =~= group@);
    entries
}

/// Filters the scene color down into the bright texture.
pub struct DownScale {
    pub bind_group: Vec<BindGroupEntry>,
    pub bind_group_layout: Vec<BindGroupLayoutEntry>,
    pub render_pipeline: RenderPipelineDescriptor,
}

impl DownScale {
    pub open spec fn spec_well_formed(&self) -> bool {
        &&& self.bind_group_layout@ == texture_sampler_layout()
        &&& self.render_pipeline.color_target == BLOOM_FORMAT
        &&& self.render_pipeline.bind_group_layouts@.len() == 1
        &&& self.render_pipeline.bind_group_layouts@[0]@ == texture_sampler_layout()
    }

    pub open spec fn spec_bound_to(&self, fb: FrameBuffers, sampler: SamplerRef) -> bool {
        self.bind_group@ == texture_sampler_group(fb.spec_color_view(), sampler)
    }

    pub open spec fn spec_is_draw(&self, fb: FrameBuffers, pass: RenderPassRecord) -> bool {
        spec_fullscreen(pass, fb.spec_bright_view(), ClearColor::Black, self.bind_group@)
    }

    pub fn new(frame_buffers: &FrameBuffers, samplers: &Samplers) -> (r: DownScale)
        ensures
            r.spec_well_formed(),
            r.render_pipeline.label == "Bloom Scale Down Render Pipeline",
            r.spec_bound_to(*frame_buffers, samplers.bilinear.spec_ref()),
    {
        DownScale {
            bind_group: Self::create_bind_group(frame_buffers.color_view(), samplers.bilinear.as_ref()),
            bind_group_layout: texture_sampler_layout_entries(),
            render_pipeline: texture_sampler_pipeline("Bloom Scale Down Render Pipeline", BLOOM_FORMAT),
        }
    }

    fn create_bind_group(texture_view: ViewRef, sampler: SamplerRef) -> (r: Vec<BindGroupEntry>)
        ensures
            r@ == texture_sampler_group(texture_view, sampler),
    {
        create_texture_sampler_group(texture_view, sampler)
    }

    pub fn recreate_bind_group(&mut self, frame_buffers: &FrameBuffers, samplers: &Samplers)
        ensures
            final(self).bind_group_layout == old(self).bind_group_layout,
            final(self).render_pipeline == old(self).render_pipeline,
            final(self).spec_bound_to(*frame_buffers, samplers.bilinear.spec_ref()),
    {
        self.bind_group = Self::create_bind_group(frame_buffers.color_view(), samplers.bilinear.as_ref());
    }

    /// The pass that filters the scene color into the bright texture.
    pub fn draw(&self, frame_buffers: &FrameBuffers) -> (r: RenderPassRecord)
        ensures
            r.label == "Bloom Scale Down Render Pass",
            self.spec_is_draw(*frame_buffers, r),
            (exists|s: SamplerRef| self.spec_bound_to(*frame_buffers, s)) ==> pass_sound(r),
    {
        let r = fullscreen_pass(
            "Bloom Scale Down Render Pass",
            frame_buffers.bright_view(),
            ClearColor::Black,
            copy_group(&self.bind_group),
        );
        proof {
            if exists|s: SamplerRef| self.spec_bound_to(*frame_buffers, s) {
                let s = choose|s: SamplerRef| self.spec_bound_to(*frame_buffers, s);
                lemma_texture_sampler_group_samples(frame_buffers.spec_color_view(), s, TextureId::Bright);
            }
        }
        r
    }
}

/// What the first pass of blur level `l` reads: the bright-pass output for the
/// first level, the blurred result of the level before for the others.
pub open spec fn blur_source(fb: FrameBuffers, l: int) -> ViewRef {
    if l == 0 {
        fb.spec_bright_view()
    } else {
        fb.spec_blur_view((l - 1) as usize, 0)
    }
}

/// The two bind groups of one blur level: the first reads the level's source,
/// the second the level's secondary buffer.
pub struct BlurBindGroups {
    pub read_source: Vec<BindGroupEntry>,
    pub read_secondary: Vec<BindGroupEntry>,
}

/// Blurs each level by ping-pong: its source into the secondary buffer, then
/// the secondary buffer into the primary one.
pub struct BlurPass {
    pub blur_bind_group_layout: Vec<BindGroupLayoutEntry>,
    pub blur_bind_groups: Vec<BlurBindGroups>,
    pub blur_render_pipeline: RenderPipelineDescriptor,
}

/// Number of blur levels that are both bound and allocated.
pub open spec fn spec_blur_level_count(blur: BlurPass, fb: FrameBuffers) -> int {
    if blur.blur_bind_groups@.len() <= fb.bloom_blur_buffers@.len() {
        blur.blur_bind_groups@.len() as int
    } else {
        fb.bloom_blur_buffers@.len() as int
    }
}

impl BlurPass {
    pub open spec fn spec_well_formed(&self) -> bool {
        &&& self.blur_bind_group_layout@ == texture_sampler_layout()
        &&& self.blur_render_pipeline.label == "Bloom Blur Render Pipeline"
        &&& self.blur_render_pipeline.bind_group_layouts@.len() == 1
        &&& self.blur_render_pipeline.bind_group_layouts@[0]@ == texture_sampler_layout()
    }

    /// Level `l`'s groups read its source and its secondary buffer in `fb`.
    pub open spec fn spec_bound_to(&self, fb: FrameBuffers, sampler: SamplerRef) -> bool {
        &&& self.blur_bind_groups@.len() == fb.bloom_blur_buffers@.len()
        &&& forall|l: int|
            0 <= l < self.blur_bind_groups@.len() ==> {
                &&& (#[trigger] self.blur_bind_groups@[l]).read_source@ == texture_sampler_group(
                    blur_source(fb, l),
                    sampler,
                )
                &&& self.blur_bind_groups@[l].read_secondary@ == texture_sampler_group(
                    fb.spec_blur_view(l as usize, 1),
                    sampler,
                )
            }
    }

    /// For each level, a pass into the secondary buffer reading the level's
    /// source, then a pass into the primary reading the secondary.
    pub open spec fn spec_is_draw(&self, fb: FrameBuffers, passes: Seq<RenderPassRecord>) -> bool {
        self.spec_draws_levels(fb, passes, spec_blur_level_count(*self, fb))
    }

    /// `passes` are the blur passes of the first `n` levels.
    pub open spec fn spec_draws_levels(&self, fb: FrameBuffers, passes: Seq<RenderPassRecord>, n: int) -> bool {
        &&& passes.len() == 2 * n
        &&& forall|l: int|
            0 <= l < n ==> {
                &&& spec_fullscreen(
                    #[trigger] passes[2 * l],
                    fb.spec_blur_view(l as usize, 1),
                    ClearColor::Black,
                    self.blur_bind_groups@[l].read_source@,
                )
                &&& spec_fullscreen(
                    passes[2 * l + 1],
                    fb.spec_blur_view(l as usize, 0),
                    ClearColor::Black,
                    self.blur_bind_groups@[l].read_secondary@,
                )
            }
    }

    /// The blur of `frame_buffers`, drawing in the format of its first blur buffer.
    pub fn new(frame_buffers: &FrameBuffers, samplers: &Samplers) -> (r: BlurPass)
        requires
            frame_buffers.bloom_blur_buffers@.len() > 0,
        ensures
            r.spec_well_formed(),
            r.blur_render_pipeline.color_target == frame_buffers.bloom_blur_buffers@[0].primary.format,
            r.spec_bound_to(*frame_buffers, samplers.bilinear.spec_ref()),
    {
        let format = frame_buffers.bloom_blur_buffers[0].primary.format;
        BlurPass {
            blur_bind_group_layout: texture_sampler_layout_entries(),
            blur_bind_groups: Self::create_blur_bind_groups(frame_buffers, samplers.bilinear.as_ref()),
            blur_render_pipeline: texture_sampler_pipeline("Bloom Blur Render Pipeline", format),
        }
    }

    fn create_blur_bind_group(texture_view: ViewRef, sampler: SamplerRef) -> (r: Vec<BindGroupEntry>)
        ensures
            r@ == texture_sampler_group(texture_view, sampler),
    {
        create_texture_sampler_group(texture_view, sampler)
    }

    fn create_blur_bind_groups(frame_buffers: &FrameBuffers, sampler: SamplerRef) -> (r: Vec<BlurBindGroups>)
        ensures
            r@.len() == frame_buffers.bloom_blur_buffers@.len(),
            forall|l: int|
                0 <= l < r@.len() ==> {
                    &&& (#[trigger] r@[l]).read_source@ == texture_sampler_group(
                        blur_source(*frame_buffers, l),
                        sampler,
                    )
                    &&& r@[l].read_secondary@ == texture_sampler_group(
                        frame_buffers.spec_blur_view(l as usize, 1),
                        sampler,
                    )
                },
    {
        let mut groups: Vec<BlurBindGroups> = Vec::new();
        let mut level: usize = 0;
        while level < frame_buffers.bloom_blur_buffers.len()
            invariant
                level <= frame_buffers.bloom_blur_buffers@.len(),
                groups@.len() == level,
                forall|l: int|
                    0 <= l < level ==> {
                        &&& (#[trigger] groups@[l]).read_source@ == texture_sampler_group(
                            blur_source(*frame_buffers, l),
                            sampler,
                        )
                        &&& groups@[l].read_secondary@ == texture_sampler_group(
                            frame_buffers.spec_blur_view(l as usize, 1),
                            sampler,
                        )
                    },
            decreases frame_buffers.bloom_blur_buffers@.len() - level,
        {
            let source = if level == 0 {
                frame_buffers.bright_view()
            } else {
                frame_buffers.blur_view(level - 1, 0)
            };
            let pair = BlurBindGroups {
                read_source: Self::create_blur_bind_group(source, sampler),
                read_secondary: Self::create_blur_bind_group(frame_buffers.blur_view(level, 1), sampler),
            };
            groups.push(pair);
            level = level + 1;
        }
        groups
    }

    pub fn recreate_bind_group(&mut self, frame_buffers: &FrameBuffers, samplers: &Samplers)
        ensures
            final(self).blur_bind_group_layout == old(self).blur_bind_group_layout,
            final(self).blur_render_pipeline == old(self).blur_render_pipeline,
            final(self).spec_bound_to(*frame_buffers, samplers.bilinear.spec_ref()),
    {
        self.blur_bind_groups = Self::create_blur_bind_groups(frame_buffers, samplers.bilinear.as_ref());
    }

    /// The blur passes of every level, in order.
    pub fn draw(&self, frame_buffers: &FrameBuffers) -> (r: Vec<RenderPassRecord>)
        ensures
            self.spec_is_draw(*frame_buffers, r@),
            forall|k: int| 0 <= k < r@.len() ==> (#[trigger] r@[k]).label == "Bloom Blur Render Pass",
    {
        let n: usize = if self.blur_bind_groups.len() <= frame_buffers.bloom_blur_buffers.len() {
            self.blur_bind_groups.len()
        } else {
            frame_buffers.bloom_blur_buffers.len()
        };
        let mut passes: Vec<RenderPassRecord> = Vec::new();
        let mut level: usize = 0;
        while level < n
            invariant
                n == spec_blur_level_count(*self, *frame_buffers),
                level <= n,
                self.spec_draws_levels(*frame_buffers, passes@, level as int),
                forall|k: int| 0 <= k < passes@.len() ==> (#[trigger] passes@[k]).label == "Bloom Blur Render Pass",
            decreases n - level,
        {
            let groups = &self.blur_bind_groups[level];
            let first = fullscreen_pass(
                "Bloom Blur Render Pass",
                frame_buffers.blur_view(level, 1),
                ClearColor::Black,
                copy_group(&groups.read_source),
            );
            let second = fullscreen_pass(
                "Bloom Blur Render Pass",
                frame_buffers.blur_view(level, 0),
                ClearColor::Black,
                copy_group(&groups.read_secondary),
            );
            passes.push(first);
            passes.push(second);
            level = level + 1;
        }
        passes
    }
}

/// The bloom effect: the bright pass followed by the blur of every level.
pub struct BloomRenderer {
    pub bright_pass: BrightPass,
    pub blur_pass: BlurPass,
}

impl BloomRenderer {
    pub open spec fn spec_well_formed(&self) -> bool {
        self.bright_pass.spec_well_formed() && self.blur_pass.spec_well_formed()
    }

    pub open spec fn spec_bound_to(&self, fb: FrameBuffers, sampler: SamplerRef) -> bool {
        self.bright_pass.spec_bound_to(fb, sampler) && self.blur_pass.spec_bound_to(fb, sampler)
    }

    /// The bright pass, then the blur passes.
    pub open spec fn spec_is_draw(&self, fb: FrameBuffers, passes: Seq<RenderPassRecord>) -> bool {
        &&& passes.len() >= 1
        &&& self.bright_pass.spec_is_draw(fb, passes[0])
        &&& self.blur_pass.spec_is_draw(fb, passes.skip(1))
    }

    pub fn new(frame_buffers: &FrameBuffers, samplers: &Samplers) -> (r: BloomRenderer)
        requires
            frame_buffers.bloom_blur_buffers@.len() > 0,
        ensures
            r.spec_well_formed(),
            r.blur_pass.blur_render_pipeline.color_target
                == frame_buffers.bloom_blur_buffers@[0].primary.format,
            r.spec_bound_to(*frame_buffers, samplers.bilinear.spec_ref()),
    {
        let bright_pass = BrightPass::new(frame_buffers, samplers);
        let blur_pass = BlurPass::new(frame_buffers, samplers);
        BloomRenderer { bright_pass, blur_pass }
    }

    /// Rebinds both passes to the current views of `frame_buffers`; the
    /// pipelines, layouts and uniform buffer stay as they were.
    pub fn recreate_bind_group(&mut self, frame_buffers: &FrameBuffers, samplers: &Samplers)
        ensures
            final(self).bright_pass.uniform_buffer == old(self).bright_pass.uniform_buffer,
            final(self).bright_pass.bind_group_layout == old(self).bright_pass.bind_group_layout,
            final(self).bright_pass.render_pipeline == old(self).bright_pass.render_pipeline,
            final(self).blur_pass.blur_bind_group_layout == old(self).blur_pass.blur_bind_group_layout,
            final(self).blur_pass.blur_render_pipeline == old(self).blur_pass.blur_render_pipeline,
            final(self).spec_bound_to(*frame_buffers, samplers.bilinear.spec_ref()),
    {
        self.bright_pass.recreate_bind_group(frame_buffers, samplers);
        self.blur_pass.recreate_bind_group(frame_buffers, samplers);
    }

    /// The passes of the bloom effect, in the order they are encoded.
    pub fn draw(&self, frame_buffers: &FrameBuffers) -> (r: Vec<RenderPassRecord>)
        ensures
            self.spec_is_draw(*frame_buffers, r@),
    {
        let mut passes: Vec<RenderPassRecord> = Vec::new();
        passes.push(self.bright_pass.draw(frame_buffers));
        let mut blur = self.blur_pass.draw(frame_buffers);
        let ghost blur_passes = blur@;
        passes.append(&mut blur);
        assert(passes@.skip(1) =~= blur_passes);
        passes
    }
}

/// In a frame of a bloom renderer bound to `fb`: no pass reads the texture it
/// renders into, and every pass reads exactly the view the pass before it
/// wrote, from the bright pass through every blur level.
pub proof fn lemma_bloom_frame_sound(
    renderer: BloomRenderer,
    fb: FrameBuffers,
    sampler: SamplerRef,
    passes: Seq<RenderPassRecord>,
)
    requires
        renderer.spec_bound_to(fb, sampler),
        renderer.spec_is_draw(fb, passes),
    ensures
        passes_sound(passes),
        passes.len() == 1 + 2 * fb.bloom_blur_buffers@.len(),
        forall|k: int| 0 <= k < passes.len() - 1 ==> #[trigger] feeds(passes[k], passes[k + 1]),
{
    let blur = renderer.blur_pass;
    let rest = passes.skip(1);
    assert forall|k: int| 0 <= k < passes.len() implies pass_sound(#[trigger] passes[k]) by {
        if k == 0 {
            lemma_bright_group_samples(renderer.bright_pass.uniform_buffer, fb, sampler, TextureId::Bright);
        } else {
            let l = (k - 1) / 2;
            assert(rest[2 * l] == passes[1 + 2 * l]);
            assert(rest[2 * l + 1] == passes[2 + 2 * l]);
            if k == 1 + 2 * l {
                lemma_texture_sampler_group_samples(
                    blur_source(fb, l),
                    sampler,
                    TextureId::BlurBuffer { level: l as usize, slot: 1 },
                );
            } else {
                lemma_texture_sampler_group_samples(
                    fb.spec_blur_view(l as usize, 1),
                    sampler,
                    TextureId::BlurBuffer { level: l as usize, slot: 0 },
                );
            }
        }
    }
    assert forall|k: int| 0 <= k < passes.len() - 1 implies #[trigger] feeds(passes[k], passes[k + 1]) by {
        let l = k / 2;
        let next = passes[k + 1];
        if k == 2 * l {
            // `next` is the first pass of level `l`; it reads the level's source,
            // which the pass before it wrote.
            assert(rest[2 * l] == next);
            assert(blur.blur_bind_groups@[l].read_source@ == texture_sampler_group(
                blur_source(fb, l),
                sampler,
            ));
            if l > 0 {
                assert(rest[2 * (l - 1)] == passes[k - 1]);
                assert(rest[2 * (l - 1) + 1] == passes[k]);
            }
            assert(passes[k].target == blur_source(fb, l));
        } else {
            // `next` is the second pass of level `l`; it reads the first one's target.
            assert(rest[2 * l] == passes[k]);
            assert(rest[2 * l + 1] == next);
            assert(blur.blur_bind_groups@[l].read_secondary@ == texture_sampler_group(
                fb.spec_blur_view(l as usize, 1),
                sampler,
            ));
            assert(passes[k].target == fb.spec_blur_view(l as usize, 1));
        }
        assert(next.bind_groups@[0]@[0].resource == BindingResource::TextureView(passes[k].target));
        assert(pass_reads_view(next, passes[k].target));
    }
}

} // verus!
