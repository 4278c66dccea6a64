use vstd::prelude::*;

use crate::pass::{
    group_fits, BindGroupEntry, BindGroupLayoutEntry, BindingResource, BindingType, BufferRef,
    ClearColor, ViewRef,
};
use crate::texture::TextureFormat;

verus! {

/// Size in bytes of one particle as the vertex shader reads it: a position and
/// a color, four floats each.
pub const PARTICLE_INSTANCE_SIZE: u64 = 32;

/// Size in bytes of the particle uniforms: two 4x4 float matrices, the particle
/// size and padding to a 16-byte boundary.
pub const PARTICLE_UNIFORMS_SIZE: u64 = 144;

/// Number of indices of the two triangles of a particle's quad.
pub const QUAD_INDEX_COUNT: u32 = 6;

/// The quad's corners are numbered bottom-left, top-left, bottom-right,
/// top-right; its two triangles share the diagonal from corner 1 to corner 2.
pub open spec fn spec_quad_indices() -> Seq<u16> {
    seq![0u16, 2, 1, 1, 2, 3]
}

pub fn quad_indices() -> (r: Vec<u16>)
    ensures
        r@ == spec_quad_indices(),
{
    let mut v: Vec<u16> = Vec::new();
    v.push(0);
    v.push(2);
    v.push(1);
    v.push(1);
    v.push(2);
    v.push(3);
    assert(v@ =~= spec_quad_indices());
    v
}

/// How a fragment's depth is compared with the stored one.
#[derive(Debug, Clone, Copy, PartialEq, Eq, Structural)]
pub enum CompareFunction {
    Never,
    Less,
    LessEqual,
    Always,
}

#[derive(Debug, Clone, Copy, PartialEq, Eq, Structural)]
pub struct DepthState {
    pub format: TextureFormat,
    pub depth_write_enabled: bool,
    pub depth_compare: CompareFunction,
}

/// Slots of the particle pipeline: the particles, read-only, then the uniforms.
pub open spec fn particle_layout() -> Seq<BindGroupLayoutEntry> {
    seq![
        BindGroupLayoutEntry {
            binding: 0,
            ty: BindingType::StorageBuffer { read_only: true, min_binding_size: PARTICLE_INSTANCE_SIZE },
        },
        BindGroupLayoutEntry {
            binding: 1,
            ty: BindingType::UniformBuffer { min_binding_size: PARTICLE_UNIFORMS_SIZE },
        },
    ]
}

/// An indexed, instanced draw.
#[derive(Debug, Clone, Copy, PartialEq, Eq, Structural)]
pub struct IndexedDraw {
    pub index_count: u32,
    pub base_vertex: i32,
    pub instance_count: u32,
}

/// The render pass the particles are drawn in: it clears the scene color and
/// the depth target, keeps the color and discards the depth afterwards.
#[derive(Debug, Clone, Copy, PartialEq, Eq)]
pub struct ParticlePass {
    pub label: &'static str,
    pub color: ViewRef,
    pub color_clear: ClearColor,
    pub color_store: bool,
    pub depth: ViewRef,
    /// The depth target is cleared to the far plane.
    pub depth_clear_to_far: bool,
    pub depth_store: bool,
    pub draw: IndexedDraw,
}

/// Draws every particle as a camera-facing quad.
pub struct ParticleRenderer {
    pub color_target: TextureFormat,
    pub depth: DepthState,
    pub instance_buffer: BufferRef,
    pub uniform_buffer: BufferRef,
    pub bind_group_layout: Vec<BindGroupLayoutEntry>,
    pub bind_group: Vec<BindGroupEntry>,
    pub indices: Vec<u16>,
    pub instance_count: u32,
}

impl ParticleRenderer {
    pub open spec fn spec_well_formed(&self) -> bool {
        &&& self.instance_buffer.size == self.instance_count * PARTICLE_INSTANCE_SIZE
        &&& self.uniform_buffer.size == PARTICLE_UNIFORMS_SIZE
        &&& self.bind_group_layout@ == particle_layout()
        &&& self.bind_group@ == seq![
            BindGroupEntry { binding: 0, resource: BindingResource::Buffer(self.instance_buffer) },
            BindGroupEntry { binding: 1, resource: BindingResource::Buffer(self.uniform_buffer) },
        ]
        &&& self.indices@ == spec_quad_indices()
    }

    /// The pass that draws one quad per particle into `color`, depth-tested
    /// against `depth`.
    pub fn draw(&self, color: ViewRef, depth: ViewRef) -> (r: ParticlePass)
        requires
            self.indices@.len() <= u32::MAX,
        ensures
            r.label == "Particle Render Pass",
            r.color == color,
            r.color_clear == ClearColor::Transparent,
            r.color_store,
            r.depth == depth,
            r.depth_clear_to_far,
            !r.depth_store,
            r.draw == (IndexedDraw {
                index_count: self.indices@.len() as u32,
                base_vertex: 0,
                instance_count: self.instance_count,
            }),
            self.spec_well_formed() ==> r.draw.index_count == QUAD_INDEX_COUNT,
    {
        ParticlePass {
            label: "Particle Render Pass",
            color,
            color_clear: ClearColor::Transparent,
            color_store: true,
            depth,
            depth_clear_to_far: true,
            depth_store: false,
            draw: IndexedDraw {
                index_count: self.indices.len() as u32,
                base_vertex: 0,
                instance_count: self.instance_count,
            },
        }
    }
}

/// Collects the formats a particle renderer draws into.
#[derive(Debug, Clone, Copy, PartialEq, Eq, Structural)]
pub struct ParticleRendererBuilder {
    pub instance_count: u32,
    pub color_format: Option<TextureFormat>,
    pub depth_format: Option<TextureFormat>,
}

impl ParticleRendererBuilder {
    /// A builder for `instance_count` particles, with no format chosen yet.
    pub fn new(instance_count: u32) -> (r: ParticleRendererBuilder)
        ensures
            r.instance_count == instance_count,
            r.color_format is None,
            r.depth_format is None,
    {
        ParticleRendererBuilder { instance_count, color_format: None, depth_format: None }
    }

    pub fn color_target_format(self, format: TextureFormat) -> (r: ParticleRendererBuilder)
        ensures
            r == (ParticleRendererBuilder { color_format: Some(format), ..self }),
    {
        ParticleRendererBuilder { color_format: Some(format), ..self }
    }

    pub fn depth_format(self, format: TextureFormat) -> (r: ParticleRendererBuilder)
        ensures
            r == (ParticleRendererBuilder { depth_format: Some(format), ..self }),
    {
        ParticleRendererBuilder { depth_format: Some(format), ..self }
    }

    /// The renderer, drawing into the chosen formats with a less-or-equal depth
    /// test that writes depth.
    pub fn build(self) -> (r: ParticleRenderer)
        requires
            self.color_format is Some,
            self.depth_format is Some,
        ensures
            r.spec_well_formed(),
            self.instance_count > 0 ==> group_fits(r.bind_group_layout@, r.bind_group@),
            r.color_target == self.color_format->Some_0,
            r.depth == (DepthState {
                format: self.depth_format->Some_0,
                depth_write_enabled: true,
                depth_compare: CompareFunction::LessEqual,
            }),
            r.instance_count == self.instance_count,
    {
        let color_target = match self.color_format {
            Some(f) => f,
            None => TextureFormat::Rgba16Float,
        };
        let depth_format = match self.depth_format {
            Some(f) => f,
            None => TextureFormat::Depth32Float,
        };
        let instance_buffer = BufferRef {
            label: "Particle Instance Buffer",
            size: self.instance_count as u64 * PARTICLE_INSTANCE_SIZE,
        };
        let uniform_buffer = BufferRef { label: "Particle Uniform Buffer", size: PARTICLE_UNIFORMS_SIZE };
        let mut bind_group_layout: Vec<BindGroupLayoutEntry> = Vec::new();
        bind_group_layout.push(
            BindGroupLayoutEntry {
                binding: 0,
                ty: BindingType::StorageBuffer {
                    read_only: true,
                    min_binding_size: PARTICLE_INSTANCE_SIZE,
                },
            },
        );
        bind_group_layout.push(
            BindGroupLayoutEntry {
                binding: 1,
                ty: BindingType::UniformBuffer { min_binding_size: PARTICLE_UNIFORMS_SIZE },
            },
        );
        let mut bind_group: Vec<BindGroupEntry> = Vec::new();
        bind_group.push(BindGroupEntry { binding: 0, resource: BindingResource::Buffer(instance_buffer) });
        bind_group.push(BindGroupEntry { binding: 1, resource: BindingResource::Buffer(uniform_buffer) });
        assert(bind_group_layout@ =~= particle_layout());
        assert(bind_group@ =~= seq![
            BindGroupEntry { binding: 0, resource: BindingResource::Buffer(instance_buffer) },
            BindGroupEntry { binding: 1, resource: BindingResource::Buffer(uniform_buffer) },
        ]);
        let r = ParticleRenderer {
            color_target,
            depth: DepthState {
                format: depth_format,
                depth_write_enabled: true,
                depth_compare: CompareFunction::LessEqual,
            },
            instance_buffer,
            uniform_buffer,
            bind_group_layout,
            bind_group,
            indices: quad_indices(),
            instance_count: self.instance_count,
        };
        r
    }
}

} // verus!
