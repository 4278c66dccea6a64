use vstd::prelude::*;

use crate::pass::{view_of, view_ref, TextureId, ViewRef};
use crate::texture::{
    TextureAspect, TextureDescriptor, TextureFormat, TextureUsages, TextureViewDescriptor,
    RENDER_ATTACHMENT_BIT, TEXTURE_BINDING_BIT,
};

verus! {

/// Number of blur levels, each a pair of ping-pong buffers.
pub const BLOOM_BLUR_LEVELS: usize = 3;

/// The bright and blur buffers are this many times smaller than the frame on each axis.
pub const BLOOM_DIVISOR: u32 = 4;

/// A color texture that is both rendered into and sampled.
pub open spec fn spec_sampled_target(desc: TextureDescriptor, width: u32, height: u32, format: TextureFormat) -> bool {
    &&& desc.spec_is_plain_2d(width, height)
    &&& desc.format == format
    &&& desc.usage.bits == TEXTURE_BINDING_BIT | RENDER_ATTACHMENT_BIT
}

fn sampled_target_usage() -> (r: TextureUsages)
    ensures
        r.bits == TEXTURE_BINDING_BIT | RENDER_ATTACHMENT_BIT,
{
    TextureUsages::texture_binding().union(TextureUsages::render_attachment())
}

fn whole_view() -> (r: TextureViewDescriptor)
    ensures
        r.aspect == TextureAspect::All,
{
    TextureViewDescriptor { aspect: TextureAspect::All }
}

/// An HDR color buffer: its texture, the view passes use, and its format.
#[derive(Debug, Clone, Copy, PartialEq, Eq)]
pub struct FrameBuffer {
    pub texture: TextureDescriptor,
    pub texture_view: TextureViewDescriptor,
    pub format: TextureFormat,
}

impl FrameBuffer {
    pub open spec fn spec_is_hdr_color(self, width: u32, height: u32) -> bool {
        &&& spec_sampled_target(self.texture, width, height, TextureFormat::Rgba16Float)
        &&& self.texture_view.aspect == TextureAspect::All
        &&& self.format == TextureFormat::Rgba16Float
    }

    fn new_hdr_color(width: u32, height: u32) -> (r: FrameBuffer)
        ensures
            r.spec_is_hdr_color(width, height),
    {
        let format = TextureFormat::Rgba16Float;
        let texture = TextureDescriptor::plain_2d(
            "HDR Color Texture",
            width,
            height,
            format,
            sampled_target_usage(),
        );
        FrameBuffer { texture, texture_view: whole_view(), format }
    }
}

/// The two ping-pong buffers of one blur level.
#[derive(Debug, Clone, Copy, PartialEq, Eq)]
pub struct BlurBufferPair {
    pub primary: FrameBuffer,
    pub secondary: FrameBuffer,
}

impl BlurBufferPair {
    pub open spec fn spec_buffer(self, slot: usize) -> FrameBuffer {
        if slot == 0 {
            self.primary
        } else {
            self.secondary
        }
    }
}

/// The offscreen targets of a frame: scene color and depth, the bright-pass
/// target and the blur levels, the last three at a quarter of the frame's extent.
pub struct FrameBuffers {
    pub color_texture: TextureDescriptor,
    pub color_texture_view: TextureViewDescriptor,
    pub depth_texture: TextureDescriptor,
    pub depth_texture_view: TextureViewDescriptor,
    pub bright_texture: TextureDescriptor,
    pub bright_texture_view: TextureViewDescriptor,
    pub bloom_blur_buffers: Vec<BlurBufferPair>,
}

pub const COLOR_FORMAT: TextureFormat = TextureFormat::Rgba16Float;

pub const DEPTH_FORMAT: TextureFormat = TextureFormat::Depth24PlusStencil8;

pub const BLOOM_FORMAT: TextureFormat = TextureFormat::Rgba16Float;

impl FrameBuffers {
    /// The buffers are those of a `width` by `height` frame.
    pub open spec fn spec_sized_for(self, width: u32, height: u32) -> bool {
        let (bw, bh) = ((width / BLOOM_DIVISOR) as u32, (height / BLOOM_DIVISOR) as u32);
        &&& spec_sampled_target(self.color_texture, width, height, COLOR_FORMAT)
        &&& self.color_texture_view.aspect == TextureAspect::All
        &&& self.depth_texture.spec_is_plain_2d(width, height)
        &&& self.depth_texture.format == DEPTH_FORMAT
        &&& self.depth_texture.usage.bits == RENDER_ATTACHMENT_BIT
        &&& self.depth_texture_view.aspect == TextureAspect::DepthOnly
        &&& spec_sampled_target(self.bright_texture, bw, bh, BLOOM_FORMAT)
        &&& self.bright_texture_view.aspect == TextureAspect::All
        &&& self.bloom_blur_buffers@.len() == BLOOM_BLUR_LEVELS
        &&& forall|l: int|
            0 <= l < BLOOM_BLUR_LEVELS ==> {
                &&& (#[trigger] self.bloom_blur_buffers@[l]).primary.spec_is_hdr_color(bw, bh)
                &&& self.bloom_blur_buffers@[l].secondary.spec_is_hdr_color(bw, bh)
            }
    }

    pub open spec fn spec_color_view(self) -> ViewRef {
        view_of(self.color_texture, TextureId::Color)
    }

    pub open spec fn spec_bright_view(self) -> ViewRef {
        view_of(self.bright_texture, TextureId::Bright)
    }

    pub open spec fn spec_blur_view(self, level: usize, slot: usize) -> ViewRef {
        view_of(
            self.bloom_blur_buffers@[level as int].spec_buffer(slot).texture,
            TextureId::BlurBuffer { level, slot },
        )
    }

    pub fn new(width: u32, height: u32) -> (r: FrameBuffers)
        ensures
            r.spec_sized_for(width, height),
    {
        let color_texture = Self::create_color_texture(width, height);
        let color_texture_view = Self::create_color_texture_view();
        let depth_texture = Self::create_depth_texture(width, height);
        let depth_texture_view = Self::create_depth_texture_view();
        let bright_texture = Self::create_bright_texture(width, height);
        let bright_texture_view = Self::create_bright_texture_view();
        let bloom_blur_buffers = Self::create_bloom_blur_buffers(width, height);
        FrameBuffers {
            color_texture,
            color_texture_view,
            depth_texture,
            depth_texture_view,
            bright_texture,
            bright_texture_view,
            bloom_blur_buffers,
        }
    }

    fn create_color_texture(width: u32, height: u32) -> (r: TextureDescriptor)
        ensures
            spec_sampled_target(r, width, height, COLOR_FORMAT),
    {
        TextureDescriptor::plain_2d(
            "Offscreen Color Texture",
            width,
            height,
            COLOR_FORMAT,
            sampled_target_usage(),
        )
    }

    fn create_color_texture_view() -> (r: TextureViewDescriptor)
        ensures
            r.aspect == TextureAspect::All,
    {
        whole_view()
    }

    fn create_depth_texture(width: u32, height: u32) -> (r: TextureDescriptor)
        ensures
            r.spec_is_plain_2d(width, height),
            r.format == DEPTH_FORMAT,
            r.usage.bits == RENDER_ATTACHMENT_BIT,
    {
        TextureDescriptor::plain_2d(
            "Depth Texture",
            width,
            height,
            DEPTH_FORMAT,
            TextureUsages::render_attachment(),
        )
    }

    fn create_depth_texture_view() -> (r: TextureViewDescriptor)
        ensures
            r.aspect == TextureAspect::DepthOnly,
    {
        TextureViewDescriptor { aspect: TextureAspect::DepthOnly }
    }

    fn create_bright_texture(width: u32, height: u32) -> (r: TextureDescriptor)
        ensures
            spec_sampled_target(
                r,
                (width / BLOOM_DIVISOR) as u32,
                (height / BLOOM_DIVISOR) as u32,
                BLOOM_FORMAT,
            ),
    {
        TextureDescriptor::plain_2d(
            "Bloom Bright Texture",
            width / BLOOM_DIVISOR,
            height / BLOOM_DIVISOR,
            BLOOM_FORMAT,
            sampled_target_usage(),
        )
    }

    fn create_bright_texture_view() -> (r: TextureViewDescriptor)
        ensures
            r.aspect == TextureAspect::All,
    {
        whole_view()
    }

    fn create_bloom_blur_buffers(base_width: u32, base_height: u32) -> (r: Vec<BlurBufferPair>)
        ensures
            r@.len() == BLOOM_BLUR_LEVELS,
            forall|l: int|
                0 <= l < BLOOM_BLUR_LEVELS ==> {
                    &&& (#[trigger] r@[l]).primary.spec_is_hdr_color(
                        (base_width / BLOOM_DIVISOR) as u32,
                        (base_height / BLOOM_DIVISOR) as u32,
                    )
                    &&& r@[l].secondary.spec_is_hdr_color(
                        (base_width / BLOOM_DIVISOR) as u32,
                        (base_height / BLOOM_DIVISOR) as u32,
                    )
                },
    {
        let width = base_width / BLOOM_DIVISOR;
        let height = base_height / BLOOM_DIVISOR;
        let mut buffers: Vec<BlurBufferPair> = Vec::new();
        let mut i: usize = 0;
        while i < BLOOM_BLUR_LEVELS
            invariant
                i <= BLOOM_BLUR_LEVELS,
                buffers@.len() == i,
                width == base_width / BLOOM_DIVISOR,
                height == base_height / BLOOM_DIVISOR,
                forall|l: int|
                    0 <= l < i ==> {
                        &&& (#[trigger] buffers@[l]).primary.spec_is_hdr_color(width, height)
                        &&& buffers@[l].secondary.spec_is_hdr_color(width, height)
                    },
            decreases BLOOM_BLUR_LEVELS - i,
        {
            let pair = BlurBufferPair {
                primary: FrameBuffer::new_hdr_color(width, height),
                secondary: FrameBuffer::new_hdr_color(width, height),
            };
            buffers.push(pair);
            i = i + 1;
        }
        buffers
    }

    /// Rebuilds every buffer for a `width` by `height` frame.
    pub fn resize(&mut self, width: u32, height: u32)
        ensures
            final(self).spec_sized_for(width, height),
    {
        self.color_texture = Self::create_color_texture(width, height);
        self.color_texture_view = Self::create_color_texture_view();
        self.depth_texture = Self::create_depth_texture(width, height);
        self.depth_texture_view = Self::create_depth_texture_view();
        self.bright_texture = Self::create_bright_texture(width, height);
        self.bright_texture_view = Self::create_bright_texture_view();
        self.bloom_blur_buffers = Self::create_bloom_blur_buffers(width, height);
    }

    pub fn color_view(&self) -> (r: ViewRef)
        ensures
            r == self.spec_color_view(),
    {
        view_ref(&self.color_texture, TextureId::Color)
    }

    pub fn bright_view(&self) -> (r: ViewRef)
        ensures
            r == self.spec_bright_view(),
    {
        view_ref(&self.bright_texture, TextureId::Bright)
    }

    pub fn blur_view(&self, level: usize, slot: usize) -> (r: ViewRef)
        requires
            level < self.bloom_blur_buffers@.len(),
        ensures
            r == self.spec_blur_view(level, slot),
    {
        let pair = &self.bloom_blur_buffers[level];
        if slot == 0 {
            view_ref(&pair.primary.texture, TextureId::BlurBuffer { level, slot })
        } else {
            view_ref(&pair.secondary.texture, TextureId::BlurBuffer { level, slot })
        }
    }
}

} // verus!
