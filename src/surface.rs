use vstd::prelude::*;

use crate::texture::{
    TextureAspect, TextureDescriptor, TextureFormat, TextureUsages, TextureViewDescriptor,
    RENDER_ATTACHMENT_BIT,
};

verus! {

/// How finished frames are handed to the display.
#[derive(Debug, Clone, Copy, PartialEq, Eq, Structural)]
pub enum PresentMode {
    Immediate,
    Mailbox,
    Fifo,
}

/// The settings a surface is (re)configured with.
#[derive(Debug, Clone, Copy, PartialEq, Eq, Structural)]
pub struct SurfaceConfiguration {
    pub usage: TextureUsages,
    pub format: TextureFormat,
    pub width: u32,
    pub height: u32,
    pub present_mode: PresentMode,
}

/// The configuration of a `width` by `height` surface in `format`, rendered
/// into and presented in vsync order.
pub open spec fn spec_surface_configuration(format: TextureFormat, width: u32, height: u32) -> SurfaceConfiguration {
    SurfaceConfiguration {
        usage: TextureUsages { bits: RENDER_ATTACHMENT_BIT },
        format,
        width,
        height,
        present_mode: PresentMode::Fifo,
    }
}

pub fn configure_surface(format: TextureFormat, width: u32, height: u32) -> (r: SurfaceConfiguration)
    ensures
        r == spec_surface_configuration(format, width, height),
{
    SurfaceConfiguration {
        usage: TextureUsages::render_attachment(),
        format,
        width,
        height,
        present_mode: PresentMode::Fifo,
    }
}

/// The depth target of a `width` by `height` window and the depth-only view of it.
pub fn create_depth_texture_view(format: TextureFormat, width: u32, height: u32) -> (r: (
    TextureDescriptor,
    TextureViewDescriptor,
))
    ensures
        r.0.spec_is_plain_2d(width, height),
        r.0.format == format,
        r.0.usage.bits == RENDER_ATTACHMENT_BIT,
        r.1.aspect == TextureAspect::DepthOnly,
{
    let texture = TextureDescriptor::plain_2d(
        "Depth texture",
        width,
        height,
        format,
        TextureUsages::render_attachment(),
    );
    (texture, TextureViewDescriptor { aspect: TextureAspect::DepthOnly })
}

/// A presentable surface and the format it was chosen to use.
///
/// `S` is the platform's own surface object.
pub struct Surface<S> {
    pub wgpu_surface: S,
    pub texture_format: TextureFormat,
}

impl<S> Surface<S> {
    pub fn new(wgpu_surface: S, texture_format: TextureFormat) -> (r: Surface<S>)
        ensures
            r.wgpu_surface == wgpu_surface,
            r.texture_format == texture_format,
    {
        Surface { wgpu_surface, texture_format }
    }

    /// The configuration that sizes this surface to `width` by `height`.
    pub fn configure(&self, width: u32, height: u32) -> (r: SurfaceConfiguration)
        ensures
            r == spec_surface_configuration(self.texture_format, width, height),
    {
        configure_surface(self.texture_format, width, height)
    }
}

} // verus!
