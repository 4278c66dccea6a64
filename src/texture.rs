use vstd::prelude::*;

verus! {

/// Pixel formats used by the render targets and the presentable surface.
#[derive(Debug, Clone, Copy, PartialEq, Eq, Structural)]
pub enum TextureFormat {
    Rgba8Unorm,
    Rgba8UnormSrgb,
    Bgra8Unorm,
    Bgra8UnormSrgb,
    Rgba16Float,
    Depth32Float,
    Depth24PlusStencil8,
}

impl TextureFormat {
    pub open spec fn spec_is_depth(self) -> bool {
        self is Depth32Float || self is Depth24PlusStencil8
    }

    /// Whether the format holds depth (and possibly stencil) rather than color.
    pub fn is_depth(&self) -> (r: bool)
        ensures
            r == self.spec_is_depth(),
    {
        match self {
            TextureFormat::Depth32Float | TextureFormat::Depth24PlusStencil8 => true,
            _ => false,
        }
    }
}

#[derive(Debug, Clone, Copy, PartialEq, Eq, Structural)]
pub enum TextureDimension {
    D1,
    D2,
    D3,
}

/// Which aspect of a texture a view exposes.
#[derive(Debug, Clone, Copy, PartialEq, Eq, Structural)]
pub enum TextureAspect {
    All,
    StencilOnly,
    DepthOnly,
}

pub const COPY_SRC_BIT: u32 = 1;

pub const COPY_DST_BIT: u32 = 2;

pub const TEXTURE_BINDING_BIT: u32 = 4;

pub const STORAGE_BINDING_BIT: u32 = 8;

pub const RENDER_ATTACHMENT_BIT: u32 = 16;

/// A set of texture usages, one bit per usage.
#[derive(Debug, Clone, Copy, PartialEq, Eq, Structural)]
pub struct TextureUsages {
    pub bits: u32,
}

impl TextureUsages {
    pub fn from_bits(bits: u32) -> (r: TextureUsages)
        ensures
            r.bits == bits,
    {
        TextureUsages { bits }
    }

    pub fn copy_dst() -> (r: TextureUsages)
        ensures
            r.bits == COPY_DST_BIT,
    {
        TextureUsages { bits: COPY_DST_BIT }
    }

    pub fn texture_binding() -> (r: TextureUsages)
        ensures
            r.bits == TEXTURE_BINDING_BIT,
    {
        TextureUsages { bits: TEXTURE_BINDING_BIT }
    }

    pub fn render_attachment() -> (r: TextureUsages)
        ensures
            r.bits == RENDER_ATTACHMENT_BIT,
    {
        TextureUsages { bits: RENDER_ATTACHMENT_BIT }
    }

    pub open spec fn spec_contains(self, other: TextureUsages) -> bool {
        self.bits & other.bits == other.bits
    }

    /// The usages of both sets.
    pub fn union(self, other: TextureUsages) -> (r: TextureUsages)
        ensures
            r.bits == self.bits | other.bits,
            r.spec_contains(self),
            r.spec_contains(other),
    {
        let r = TextureUsages { bits: self.bits | other.bits };
        let (a, b) = (self.bits, other.bits);
        assert((a | b) & a == a) by (bit_vector);
        assert((a | b) & b == b) by (bit_vector);
        r
    }

    /// Whether every usage of `other` is in this set.
    pub fn contains(self, other: TextureUsages) -> (r: bool)
        ensures
            r == self.spec_contains(other),
    {
        self.bits & other.bits == other.bits
    }
}

/// Width, height and depth (or layer count) of a texture.
#[derive(Debug, Clone, Copy, PartialEq, Eq, Structural)]
pub struct Extent3d {
    pub width: u32,
    pub height: u32,
    pub depth_or_array_layers: u32,
}

/// Everything needed to create a texture on the device.
#[derive(Debug, Clone, Copy, PartialEq, Eq)]
pub struct TextureDescriptor {
    pub label: &'static str,
    pub size: Extent3d,
    pub mip_level_count: u32,
    pub sample_count: u32,
    pub dimension: TextureDimension,
    pub format: TextureFormat,
    pub usage: TextureUsages,
}

impl TextureDescriptor {
    /// A single-sampled, single-level 2D texture of the given extent.
    pub open spec fn spec_is_plain_2d(self, width: u32, height: u32) -> bool {
        &&& self.size == Extent3d { width, height, depth_or_array_layers: 1 }
        &&& self.mip_level_count == 1
        &&& self.sample_count == 1
        &&& self.dimension == TextureDimension::D2
    }

    /// The descriptor of a single-sampled, single-level 2D texture.
    pub fn plain_2d(
        label: &'static str,
        width: u32,
        height: u32,
        format: TextureFormat,
        usage: TextureUsages,
    ) -> (r: TextureDescriptor)
        ensures
            r.spec_is_plain_2d(width, height),
            r.label == label,
            r.format == format,
            r.usage == usage,
    {
        TextureDescriptor {
            label,
            size: Extent3d { width, height, depth_or_array_layers: 1 },
            mip_level_count: 1,
            sample_count: 1,
            dimension: TextureDimension::D2,
            format,
            usage,
        }
    }
}

/// How a view of a texture is made.
#[derive(Debug, Clone, Copy, PartialEq, Eq, Structural)]
pub struct TextureViewDescriptor {
    pub aspect: TextureAspect,
}

/// A created texture together with the descriptor values it was made from.
///
/// `H` is the device's own handle of the texture.
pub struct Texture<H> {
    wgpu_texture: H,
    width: u32,
    height: u32,
    depth_or_array_layers: u32,
    mip_level_count: u32,
    sample_count: u32,
    dimension: TextureDimension,
    format: TextureFormat,
    usage: TextureUsages,
}

impl<H> Texture<H> {
    pub closed spec fn spec_handle(&self) -> H {
        self.wgpu_texture
    }

    /// The descriptor values recorded for this texture (its label is not kept).
    pub closed spec fn spec_matches(&self, desc: TextureDescriptor) -> bool {
        &&& self.width == desc.size.width
        &&& self.height == desc.size.height
        &&& self.depth_or_array_layers == desc.size.depth_or_array_layers
        &&& self.mip_level_count == desc.mip_level_count
        &&& self.sample_count == desc.sample_count
        &&& self.dimension == desc.dimension
        &&& self.format == desc.format
        &&& self.usage == desc.usage
    }

    /// Pairs a texture handle with the descriptor it was created from.
    pub fn from_descriptor(wgpu_texture: H, desc: &TextureDescriptor) -> (r: Texture<H>)
        ensures
            r.spec_handle() == wgpu_texture,
            r.spec_matches(*desc),
    {
        Texture {
            wgpu_texture,
            width: desc.size.width,
            height: desc.size.height,
            depth_or_array_layers: desc.size.depth_or_array_layers,
            mip_level_count: desc.mip_level_count,
            sample_count: desc.sample_count,
            dimension: desc.dimension,
            format: desc.format,
            usage: desc.usage,
        }
    }

    pub fn wgpu_texture(&self) -> (r: &H)
        ensures
            *r == self.spec_handle(),
    {
        &self.wgpu_texture
    }

    pub fn width(&self) -> (r: u32)
        ensures
            forall|d: TextureDescriptor| self.spec_matches(d) ==> r == d.size.width,
    {
        self.width
    }

    pub fn height(&self) -> (r: u32)
        ensures
            forall|d: TextureDescriptor| self.spec_matches(d) ==> r == d.size.height,
    {
        self.height
    }

    pub fn depth_or_array_layers(&self) -> (r: u32)
        ensures
            forall|d: TextureDescriptor|
                self.spec_matches(d) ==> r == d.size.depth_or_array_layers,
    {
        self.depth_or_array_layers
    }

    pub fn mip_level_count(&self) -> (r: u32)
        ensures
            forall|d: TextureDescriptor| self.spec_matches(d) ==> r == d.mip_level_count,
    {
        self.mip_level_count
    }

    pub fn sample_count(&self) -> (r: u32)
        ensures
            forall|d: TextureDescriptor| self.spec_matches(d) ==> r == d.sample_count,
    {
        self.sample_count
    }

    pub fn dimension(&self) -> (r: TextureDimension)
        ensures
            forall|d: TextureDescriptor| self.spec_matches(d) ==> r == d.dimension,
    {
        self.dimension
    }

    pub fn format(&self) -> (r: TextureFormat)
        ensures
            forall|d: TextureDescriptor| self.spec_matches(d) ==> r == d.format,
    {
        self.format
    }

    pub fn usage(&self) -> (r: TextureUsages)
        ensures
            forall|d: TextureDescriptor| self.spec_matches(d) ==> r == d.usage,
    {
        self.usage
    }
}

/// A device that creates textures and records what they were made from.
pub trait DeviceExt<H> {
    fn create_texture_ext(&self, desc: &TextureDescriptor) -> Texture<H>;
}

} // verus!
