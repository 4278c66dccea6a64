use vstd::prelude::*;

use crate::frame_buffers::spec_sampled_target;
use crate::pass::{view_of, view_ref, TextureId, ViewRef};
use crate::texture::{
    TextureAspect, TextureDescriptor, TextureFormat, TextureUsages, TextureViewDescriptor,
    RENDER_ATTACHMENT_BIT, TEXTURE_BINDING_BIT,
};
use crate::window::Size;

verus! {

pub const HDR_TEXTURE_FORMAT: TextureFormat = TextureFormat::Rgba16Float;

pub const DEPTH_TEXTURE_FORMAT: TextureFormat = TextureFormat::Depth32Float;

/// Number of levels on each half of the blur pyramid.
pub const BLUR_PYRAMID_LEVELS: usize = 4;

/// `2` to the power `i`.
pub open spec fn level_scale(i: nat) -> nat
    decreases i,
{
    if i == 0 {
        1
    } else {
        2 * level_scale((i - 1) as nat)
    }
}

pub proof fn lemma_level_scale_values()
    ensures
        level_scale(0) == 1,
        level_scale(1) == 2,
        level_scale(2) == 4,
        level_scale(3) == 8,
        level_scale(4) == 16,
{
    assert(level_scale(0) == 1);
    assert(level_scale(1) == 2);
    assert(level_scale(2) == 4);
    assert(level_scale(3) == 8);
    assert(level_scale(4) == 16);
}

/// Downsample level `i` is `4 * 2^i` times smaller than the frame on each axis.
pub open spec fn downsample_divisor(i: int) -> nat {
    4 * level_scale(i as nat)
}

/// Upsample level `j` is `2 * 2^(levels - 1 - j)` times smaller than the frame:
/// the levels grow back from the smallest downsample level's double up to half
/// the frame.
pub open spec fn upsample_divisor(j: int) -> nat {
    2 * level_scale((BLUR_PYRAMID_LEVELS - 1 - j) as nat)
}

/// A texture the passes render into and sample, and the view they use.
#[derive(Debug, Clone, Copy, PartialEq, Eq)]
pub struct RenderTarget {
    pub id: TextureId,
    pub format: TextureFormat,
    pub texture: TextureDescriptor,
    pub texture_view: TextureViewDescriptor,
}

impl RenderTarget {
    /// A `width` by `height` target in `format`, known as `id`.
    pub open spec fn spec_is(self, id: TextureId, width: u32, height: u32, format: TextureFormat) -> bool {
        &&& self.id == id
        &&& self.format == format
        &&& spec_sampled_target(self.texture, width, height, format)
        &&& self.texture_view.aspect == TextureAspect::All
    }

    pub open spec fn spec_view(self) -> ViewRef {
        view_of(self.texture, self.id)
    }

    pub fn new(id: TextureId, label: &'static str, format: TextureFormat, size: Size) -> (r: RenderTarget)
        ensures
            r.spec_is(id, size.width, size.height, format),
            r.texture.label == label,
    {
        let usage = TextureUsages::render_attachment().union(TextureUsages::texture_binding());
        proof {
            let (a, b) = (RENDER_ATTACHMENT_BIT, TEXTURE_BINDING_BIT);
            assert(a | b == b | a) by (bit_vector);
        }
        let texture = TextureDescriptor::plain_2d(label, size.width, size.height, format, usage);
        RenderTarget {
            id,
            format,
            texture,
            texture_view: TextureViewDescriptor { aspect: TextureAspect::All },
        }
    }

    pub fn view(&self) -> (r: ViewRef)
        ensures
            r == self.spec_view(),
    {
        view_ref(&self.texture, self.id)
    }
}

/// The render targets of a frame: scene color and depth, the bright pass, and
/// the two halves of the blur pyramid.
pub struct RenderTargets {
    pub color: RenderTarget,
    pub depth: RenderTarget,
    pub bright_pass: RenderTarget,
    pub bloom_blur_downsample: Vec<RenderTarget>,
    pub bloom_blur_upsample: Vec<RenderTarget>,
}

impl RenderTargets {
    /// The targets are those of a `width` by `height` frame.
    pub open spec fn spec_sized_for(&self, width: u32, height: u32) -> bool {
        &&& self.color.spec_is(TextureId::Color, width, height, HDR_TEXTURE_FORMAT)
        &&& self.depth.spec_is(TextureId::Depth, width, height, DEPTH_TEXTURE_FORMAT)
        &&& self.bright_pass.spec_is(TextureId::Bright, width, height, HDR_TEXTURE_FORMAT)
        &&& self.bloom_blur_downsample@.len() == BLUR_PYRAMID_LEVELS
        &&& self.bloom_blur_upsample@.len() == BLUR_PYRAMID_LEVELS
        &&& forall|i: int|
            0 <= i < BLUR_PYRAMID_LEVELS ==> (#[trigger] self.bloom_blur_downsample@[i]).spec_is(
                TextureId::Downsample(i as usize),
                (width as nat / downsample_divisor(i)) as u32,
                (height as nat / downsample_divisor(i)) as u32,
                HDR_TEXTURE_FORMAT,
            )
        &&& forall|j: int|
            0 <= j < BLUR_PYRAMID_LEVELS ==> (#[trigger] self.bloom_blur_upsample@[j]).spec_is(
                TextureId::Upsample(j as usize),
                (width as nat / upsample_divisor(j)) as u32,
                (height as nat / upsample_divisor(j)) as u32,
                HDR_TEXTURE_FORMAT,
            )
    }

    pub fn new(width: u32, height: u32) -> (r: RenderTargets)
        ensures
            r.spec_sized_for(width, height),
    {
        let color = RenderTarget::new(
            TextureId::Color,
            "Color Texture",
            HDR_TEXTURE_FORMAT,
            Size { width, height },
        );
        let depth = RenderTarget::new(
            TextureId::Depth,
            "Depth Texture",
            DEPTH_TEXTURE_FORMAT,
            Size { width, height },
        );
        let bright_pass = RenderTarget::new(
            TextureId::Bright,
            "Bright Pass Texture",
            HDR_TEXTURE_FORMAT,
            Size { width, height },
        );
        let mut bloom_blur_downsample: Vec<RenderTarget> = Vec::new();
        let mut i: usize = 0;
        let mut divisor: u32 = 4;
        while i < BLUR_PYRAMID_LEVELS
            invariant
                i <= BLUR_PYRAMID_LEVELS,
                divisor == downsample_divisor(i as int),
                bloom_blur_downsample@.len() == i,
                forall|k: int|
                    0 <= k < i ==> (#[trigger] bloom_blur_downsample@[k]).spec_is(
                        TextureId::Downsample(k as usize),
                        (width as nat / downsample_divisor(k)) as u32,
                        (height as nat / downsample_divisor(k)) as u32,
                        HDR_TEXTURE_FORMAT,
                    ),
            decreases BLUR_PYRAMID_LEVELS - i,
        {
            proof {
                lemma_level_scale_values();
                assert(level_scale((i + 1) as nat) == 2 * level_scale(i as nat));
            }
            let target = RenderTarget::new(
                TextureId::Downsample(i),
                "Bloom Blur Downsample Texture",
                HDR_TEXTURE_FORMAT,
                Size { width: width / divisor, height: height / divisor },
            );
            bloom_blur_downsample.push(target);
            i = i + 1;
            divisor = divisor * 2;
        }
        let mut bloom_blur_upsample: Vec<RenderTarget> = Vec::new();
        let mut j: usize = 0;
        let mut divisor: u32 = 16;
        proof {
            lemma_level_scale_values();
        }
        while j < BLUR_PYRAMID_LEVELS
            invariant
                j <= BLUR_PYRAMID_LEVELS,
                j < BLUR_PYRAMID_LEVELS ==> divisor == upsample_divisor(j as int),
                bloom_blur_upsample@.len() == j,
                forall|k: int|
                    0 <= k < j ==> (#[trigger] bloom_blur_upsample@[k]).spec_is(
                        TextureId::Upsample(k as usize),
                        (width as nat / upsample_divisor(k)) as u32,
                        (height as nat / upsample_divisor(k)) as u32,
                        HDR_TEXTURE_FORMAT,
                    ),
            decreases BLUR_PYRAMID_LEVELS - j,
        {
            proof {
                lemma_level_scale_values();
            }
            let target = RenderTarget::new(
                TextureId::Upsample(j),
                "Bloom Blur Upsample Texture",
                HDR_TEXTURE_FORMAT,
                Size { width: width / divisor, height: height / divisor },
            );
            bloom_blur_upsample.push(target);
            proof {
                let e = (BLUR_PYRAMID_LEVELS - 1 - j) as nat;
                if j + 1 < BLUR_PYRAMID_LEVELS {
                    assert(level_scale(e) == 2 * level_scale((e - 1) as nat));
                }
            }
            j = j + 1;
            divisor = divisor / 2;
        }
        RenderTargets { color, depth, bright_pass, bloom_blur_downsample, bloom_blur_upsample }
    }
}

/// The blur pyramid of a `width` by `height` frame: every downsample level is
/// the level above it halved, rounded down, and every upsample level but the
/// last has the extent of the downsample level it mirrors.
pub proof fn lemma_pyramid_extents(targets: RenderTargets, width: u32, height: u32)
    requires
        targets.spec_sized_for(width, height),
    ensures
        forall|i: int|
            0 < i < BLUR_PYRAMID_LEVELS ==> {
                &&& (#[trigger] targets.bloom_blur_downsample@[i]).texture.size.width
                    == targets.bloom_blur_downsample@[i - 1].texture.size.width / 2
                &&& targets.bloom_blur_downsample@[i].texture.size.height
                    == targets.bloom_blur_downsample@[i - 1].texture.size.height / 2
            },
        forall|j: int|
            0 <= j < BLUR_PYRAMID_LEVELS - 1 ==> (#[trigger] targets.bloom_blur_upsample@[j]).texture.size
                == targets.bloom_blur_downsample@[BLUR_PYRAMID_LEVELS - 2 - j].texture.size,
{
    lemma_level_scale_values();
    assert forall|i: int| 0 < i < BLUR_PYRAMID_LEVELS implies {
        &&& (#[trigger] targets.bloom_blur_downsample@[i]).texture.size.width
            == targets.bloom_blur_downsample@[i - 1].texture.size.width / 2
        &&& targets.bloom_blur_downsample@[i].texture.size.height
            == targets.bloom_blur_downsample@[i - 1].texture.size.height / 2
    } by {
        let d = downsample_divisor(i - 1) as int;
        assert(downsample_divisor(i) == d * 2);
        vstd::arithmetic::div_mod::lemma_div_denominator(width as int, d, 2);
        vstd::arithmetic::div_mod::lemma_div_denominator(height as int, d, 2);
    }
    assert forall|j: int| 0 <= j < BLUR_PYRAMID_LEVELS - 1 implies (#[trigger] targets.bloom_blur_upsample@[j]).texture.size
        == targets.bloom_blur_downsample@[BLUR_PYRAMID_LEVELS - 2 - j].texture.size by {
        assert(upsample_divisor(j) == downsample_divisor(BLUR_PYRAMID_LEVELS - 2 - j));
    }
}

} // verus!
