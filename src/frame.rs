use vstd::prelude::*;

use crate::bloom::spec_fullscreen;
use crate::pass::{
    feeds, pass_reads_view, pass_sound, passes_sound, BindingResource, ClearColor,
    RenderPassRecord, TextureId, ViewRef,
};
use crate::post_passes::{
    lemma_group_samples_views, BlurDownsampleRenderPass, BlurUpsampleRenderPass,
    BrightPassRenderPass, ComposeRenderPass,
};
use crate::render_targets::{RenderTarget, RenderTargets};
use crate::texture::TextureFormat;

verus! {

/// The view a downsample pass reads: the bright-pass target for the first
/// level, the level above for the others.
pub open spec fn downsample_source(targets: RenderTargets, i: int) -> ViewRef {
    if i == 0 {
        targets.bright_pass.spec_view()
    } else {
        targets.bloom_blur_downsample@[i - 1].spec_view()
    }
}

/// The view an upsample pass reads: the smallest downsample level for the
/// first level, the level below for the others.
pub open spec fn upsample_source(targets: RenderTargets, j: int) -> ViewRef {
    if j == 0 {
        targets.bloom_blur_downsample@.last().spec_view()
    } else {
        targets.bloom_blur_upsample@[j - 1].spec_view()
    }
}

/// The post-processing passes of a frame: bright pass, the blur pyramid down
/// and back up, and the composition into the surface.
pub struct PostProcessPasses {
    pub bright_pass_render_pass: BrightPassRenderPass,
    pub bloom_blur_downsample_render_passes: Vec<BlurDownsampleRenderPass>,
    pub bloom_blur_upsample_render_passes: Vec<BlurUpsampleRenderPass>,
    pub compose_render_pass: ComposeRenderPass,
}

impl PostProcessPasses {
    /// Every pass reads and writes the views of `targets` that the chain calls for.
    pub open spec fn spec_wired_to(&self, targets: RenderTargets, surface_format: TextureFormat) -> bool {
        let down = self.bloom_blur_downsample_render_passes@;
        let up = self.bloom_blur_upsample_render_passes@;
        &&& targets.bloom_blur_downsample@.len() > 0
        &&& targets.bloom_blur_upsample@.len() > 0
        &&& self.bright_pass_render_pass.spec_well_formed()
        &&& self.bright_pass_render_pass.source == targets.color.spec_view()
        &&& self.bright_pass_render_pass.render_pipeline.color_target == targets.bright_pass.format
        &&& down.len() == targets.bloom_blur_downsample@.len()
        &&& forall|i: int|
            0 <= i < down.len() ==> {
                &&& (#[trigger] down[i]).spec_well_formed()
                &&& down[i].source == downsample_source(targets, i)
                &&& down[i].target == targets.bloom_blur_downsample@[i].spec_view()
            }
        &&& up.len() == targets.bloom_blur_upsample@.len()
        &&& forall|j: int|
            0 <= j < up.len() ==> {
                &&& (#[trigger] up[j]).spec_well_formed()
                &&& up[j].source == upsample_source(targets, j)
                &&& up[j].target == targets.bloom_blur_upsample@[j].spec_view()
            }
        &&& self.compose_render_pass.spec_well_formed()
        &&& self.compose_render_pass.color == targets.color.spec_view()
        &&& self.compose_render_pass.bloom == targets.bloom_blur_upsample@.last().spec_view()
        &&& self.compose_render_pass.render_pipeline.color_target == surface_format
    }

    /// `passes` are, in order: the bright pass into the bright-pass target, each
    /// downsample pass, each upsample pass, and the composition into `surface`.
    pub open spec fn spec_is_frame(
        &self,
        targets: RenderTargets,
        surface: ViewRef,
        passes: Seq<RenderPassRecord>,
    ) -> bool {
        let down = self.bloom_blur_downsample_render_passes@;
        let up = self.bloom_blur_upsample_render_passes@;
        &&& passes.len() == 2 + down.len() + up.len()
        &&& spec_fullscreen(
            passes[0],
            targets.bright_pass.spec_view(),
            ClearColor::Transparent,
            self.bright_pass_render_pass.bind_group@,
        )
        &&& forall|i: int|
            0 <= i < down.len() ==> spec_fullscreen(
                #[trigger] passes[1 + i],
                down[i].target,
                ClearColor::Transparent,
                down[i].bind_group@,
            )
        &&& forall|j: int|
            0 <= j < up.len() ==> spec_fullscreen(
                #[trigger] passes[1 + down.len() + j],
                up[j].target,
                ClearColor::Transparent,
                up[j].bind_group@,
            )
        &&& spec_fullscreen(
            passes[1 + down.len() + up.len() as int],
            surface,
            ClearColor::Transparent,
            self.compose_render_pass.bind_group@,
        )
    }

    /// Builds the passes for `targets`, composing into a surface in `surface_format`.
    pub fn new(targets: &RenderTargets, surface_format: TextureFormat) -> (r: PostProcessPasses)
        requires
            targets.bloom_blur_downsample@.len() > 0,
            targets.bloom_blur_upsample@.len() > 0,
        ensures
            r.spec_wired_to(*targets, surface_format),
    {
        let bright_pass_render_pass = BrightPassRenderPass::new(
            targets.color.view(),
            targets.bright_pass.format,
        );
        let n_down = targets.bloom_blur_downsample.len();
        let mut down: Vec<BlurDownsampleRenderPass> = Vec::new();
        let mut i: usize = 0;
        while i < n_down
            invariant
                n_down == targets.bloom_blur_downsample@.len(),
                i <= n_down,
                down@.len() == i,
                forall|k: int|
                    0 <= k < i ==> {
                        &&& (#[trigger] down@[k]).spec_well_formed()
                        &&& down@[k].source == downsample_source(*targets, k)
                        &&& down@[k].target == targets.bloom_blur_downsample@[k].spec_view()
                    },
            decreases n_down - i,
        {
            let src: &RenderTarget = if i == 0 {
                &targets.bright_pass
            } else {
                &targets.bloom_blur_downsample[i - 1]
            };
            down.push(BlurDownsampleRenderPass::new(src, &targets.bloom_blur_downsample[i]));
            i = i + 1;
        }
        let n_up = targets.bloom_blur_upsample.len();
        let mut up: Vec<BlurUpsampleRenderPass> = Vec::new();
        let mut j: usize = 0;
        while j < n_up
            invariant
                n_down == targets.bloom_blur_downsample@.len(),
                n_down > 0,
                n_up == targets.bloom_blur_upsample@.len(),
                j <= n_up,
                up@.len() == j,
                forall|k: int|
                    0 <= k < j ==> {
                        &&& (#[trigger] up@[k]).spec_well_formed()
                        &&& up@[k].source == upsample_source(*targets, k)
                        &&& up@[k].target == targets.bloom_blur_upsample@[k].spec_view()
                    },
            decreases n_up - j,
        {
            let src: &RenderTarget = if j == 0 {
                &targets.bloom_blur_downsample[n_down - 1]
            } else {
                &targets.bloom_blur_upsample[j - 1]
            };
            up.push(BlurUpsampleRenderPass::new(src, &targets.bloom_blur_upsample[j]));
            j = j + 1;
        }
        let compose_render_pass = ComposeRenderPass::new(
            targets.color.view(),
            targets.bloom_blur_upsample[n_up - 1].view(),
            surface_format,
        );
        PostProcessPasses {
            bright_pass_render_pass,
            bloom_blur_downsample_render_passes: down,
            bloom_blur_upsample_render_passes: up,
            compose_render_pass,
        }
    }

    /// The passes of a frame, in the order they are encoded, composing into `surface`.
    pub fn render(&self, targets: &RenderTargets, surface: ViewRef) -> (r: Vec<RenderPassRecord>)
        ensures
            self.spec_is_frame(*targets, surface, r@),
    {
        let ghost down = self.bloom_blur_downsample_render_passes@;
        let ghost up = self.bloom_blur_upsample_render_passes@;
        let mut passes: Vec<RenderPassRecord> = Vec::new();
        passes.push(self.bright_pass_render_pass.draw(targets.bright_pass.view()));
        let mut i: usize = 0;
        while i < self.bloom_blur_downsample_render_passes.len()
            invariant
                down == self.bloom_blur_downsample_render_passes@,
                i <= down.len(),
                passes@.len() == 1 + i,
                spec_fullscreen(
                    passes@[0],
                    targets.bright_pass.spec_view(),
                    ClearColor::Transparent,
                    self.bright_pass_render_pass.bind_group@,
                ),
                forall|k: int|
                    0 <= k < i ==> spec_fullscreen(
                        #[trigger] passes@[1 + k],
                        down[k].target,
                        ClearColor::Transparent,
                        down[k].bind_group@,
                    ),
            decreases down.len() - i,
        {
            passes.push(self.bloom_blur_downsample_render_passes[i].draw());
            i = i + 1;
        }
        let mut j: usize = 0;
        while j < self.bloom_blur_upsample_render_passes.len()
            invariant
                down == self.bloom_blur_downsample_render_passes@,
                up == self.bloom_blur_upsample_render_passes@,
                j <= up.len(),
                passes@.len() == 1 + down.len() + j,
                spec_fullscreen(
                    passes@[0],
                    targets.bright_pass.spec_view(),
                    ClearColor::Transparent,
                    self.bright_pass_render_pass.bind_group@,
                ),
                forall|k: int|
                    0 <= k < down.len() ==> spec_fullscreen(
                        #[trigger] passes@[1 + k],
                        down[k].target,
                        ClearColor::Transparent,
                        down[k].bind_group@,
                    ),
                forall|k: int|
                    0 <= k < j ==> spec_fullscreen(
                        #[trigger] passes@[1 + down.len() + k],
                        up[k].target,
                        ClearColor::Transparent,
                        up[k].bind_group@,
                    ),
            decreases up.len() - j,
        {
            passes.push(self.bloom_blur_upsample_render_passes[j].draw());
            j = j + 1;
        }
        passes.push(self.compose_render_pass.draw(surface));
        passes
    }
}

/// In a frame drawn by passes wired to the targets of a `width` by `height`
/// frame, composing into the surface: no pass reads the texture it renders
/// into; each pass reads exactly the view (texture, extent and format) that the
/// pass before it wrote; and the composition reads the scene color as well.
pub proof fn lemma_frame_chained(
    pp: PostProcessPasses,
    targets: RenderTargets,
    width: u32,
    height: u32,
    surface_format: TextureFormat,
    surface: ViewRef,
    passes: Seq<RenderPassRecord>,
)
    requires
        targets.spec_sized_for(width, height),
        pp.spec_wired_to(targets, surface_format),
        surface.texture == TextureId::Surface,
        pp.spec_is_frame(targets, surface, passes),
    ensures
        passes_sound(passes),
        forall|k: int| 0 <= k < passes.len() - 1 ==> #[trigger] feeds(passes[k], passes[k + 1]),
        pass_reads_view(passes.last(), targets.color.spec_view()),
{
    let down = pp.bloom_blur_downsample_render_passes@;
    let up = pp.bloom_blur_upsample_render_passes@;
    let nd = down.len() as int;
    let nu = up.len() as int;
    assert forall|k: int| 0 <= k < passes.len() implies pass_sound(#[trigger] passes[k]) by {
        if k == 0 {
            let bp = pp.bright_pass_render_pass;
            lemma_group_samples_views(bp.bind_group@, bp.source, bp.source, TextureId::Bright);
        } else if k <= nd {
            let i = k - 1;
            assert(passes[1 + i] == passes[k]);
            let d = down[i];
            assert(d.source.texture != d.target.texture);
            lemma_group_samples_views(d.bind_group@, d.source, d.source, d.target.texture);
        } else if k <= nd + nu {
            let j = k - 1 - nd;
            assert(passes[1 + nd + j] == passes[k]);
            let u = up[j];
            if j > 0 {
                assert(u.source.texture == TextureId::Upsample((j - 1) as usize));
            }
            assert(u.source.texture != u.target.texture);
            lemma_group_samples_views(u.bind_group@, u.source, u.source, u.target.texture);
        } else {
            let c = pp.compose_render_pass;
            lemma_group_samples_views(c.bind_group@, c.color, c.bloom, TextureId::Surface);
        }
    }
    assert forall|k: int| 0 <= k < passes.len() - 1 implies #[trigger] feeds(passes[k], passes[k + 1]) by {
        if k < nd {
            let d = down[k];
            assert(passes[1 + k] == passes[k + 1]);
            if k > 0 {
                assert(passes[1 + (k - 1)] == passes[k]);
            }
            assert(passes[k + 1].bind_groups@[0]@[1].resource == BindingResource::TextureView(
                passes[k].target,
            ));
        } else if k < nd + nu {
            let j = k - nd;
            assert(passes[1 + nd + j] == passes[k + 1]);
            if j > 0 {
                assert(passes[1 + nd + (j - 1)] == passes[k]);
            } else {
                assert(passes[1 + (nd - 1)] == passes[k]);
            }
            assert(passes[k + 1].bind_groups@[0]@[1].resource == BindingResource::TextureView(
                passes[k].target,
            ));
        } else {
            assert(passes[1 + nd + (nu - 1)] == passes[k]);
            assert(passes[k + 1].bind_groups@[0]@[3].resource == BindingResource::TextureView(
                passes[k].target,
            ));
        }
    }
    assert(passes.last().bind_groups@[0]@[2].resource == BindingResource::TextureView(
        targets.color.spec_view(),
    ));
}

} // verus!
