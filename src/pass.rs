use vstd::prelude::*;

use crate::texture::{TextureDescriptor, TextureFormat};

verus! {

/// The textures that the passes of a frame read and write.
#[derive(Debug, Clone, Copy, PartialEq, Eq, Structural)]
pub enum TextureId {
    /// The offscreen HDR color target the scene is drawn into.
    Color,
    /// The depth target of the scene.
    Depth,
    /// The target of the bright pass.
    Bright,
    /// One of the two ping-pong buffers of a blur level.
    BlurBuffer { level: usize, slot: usize },
    /// A level of the downsampling half of the blur pyramid.
    Downsample(usize),
    /// A level of the upsampling half of the blur pyramid.
    Upsample(usize),
    /// A texture that a pass owns and fills by copying into it.
    PassSource,
    /// The presentable surface texture of the current frame.
    Surface,
}

/// A view of a texture as a pass binds or renders into it.
#[derive(Debug, Clone, Copy, PartialEq, Eq, Structural)]
pub struct ViewRef {
    pub texture: TextureId,
    pub width: u32,
    pub height: u32,
    pub format: TextureFormat,
}

/// The view of the texture that `desc` describes, known as `texture`.
pub open spec fn view_of(desc: TextureDescriptor, texture: TextureId) -> ViewRef {
    ViewRef { texture, width: desc.size.width, height: desc.size.height, format: desc.format }
}

/// Refers to the whole of the texture that `desc` describes.
pub fn view_ref(desc: &TextureDescriptor, texture: TextureId) -> (r: ViewRef)
    ensures
        r == view_of(*desc, texture),
{
    ViewRef { texture, width: desc.size.width, height: desc.size.height, format: desc.format }
}

/// A uniform buffer, named by its label.
#[derive(Debug, Clone, Copy, PartialEq, Eq)]
pub struct BufferRef {
    pub label: &'static str,
    pub size: u64,
}

/// A sampler, named by its label.
#[derive(Debug, Clone, Copy, PartialEq, Eq)]
pub struct SamplerRef {
    pub label: &'static str,
}

/// What a bind group layout slot accepts.
#[derive(Debug, Clone, Copy, PartialEq, Eq, Structural)]
pub enum BindingType {
    UniformBuffer { min_binding_size: u64 },
    StorageBuffer { read_only: bool, min_binding_size: u64 },
    Texture { filterable: bool },
    Sampler,
}

#[derive(Debug, Clone, Copy, PartialEq, Eq, Structural)]
pub struct BindGroupLayoutEntry {
    pub binding: u32,
    pub ty: BindingType,
}

/// What a bind group slot holds.
#[derive(Debug, Clone, Copy, PartialEq, Eq)]
pub enum BindingResource {
    Buffer(BufferRef),
    TextureView(ViewRef),
    Sampler(SamplerRef),
}

#[derive(Debug, Clone, Copy, PartialEq, Eq)]
pub struct BindGroupEntry {
    pub binding: u32,
    pub resource: BindingResource,
}

/// The color the target of a pass is cleared to before drawing.
#[derive(Debug, Clone, Copy, PartialEq, Eq, Structural)]
pub enum ClearColor {
    Black,
    Transparent,
}

/// The fixed state of a full-screen post-processing pipeline.
#[derive(Debug, Clone, PartialEq, Eq)]
pub struct RenderPipelineDescriptor {
    pub label: &'static str,
    pub bind_group_layouts: Vec<Vec<BindGroupLayoutEntry>>,
    pub color_target: TextureFormat,
}

/// One render pass of a frame: a full-screen triangle drawn into `target`.
#[derive(Debug, Clone, PartialEq, Eq)]
pub struct RenderPassRecord {
    pub label: &'static str,
    pub target: ViewRef,
    pub clear: ClearColor,
    pub bind_groups: Vec<Vec<BindGroupEntry>>,
    pub vertex_count: u32,
    pub instance_count: u32,
}

/// Number of vertices of the full-screen triangle every pass draws.
pub const FULLSCREEN_VERTICES: u32 = 3;

pub open spec fn uniform_slot(binding: u32, size: u64) -> BindGroupLayoutEntry {
    BindGroupLayoutEntry { binding, ty: BindingType::UniformBuffer { min_binding_size: size } }
}

pub open spec fn texture_slot(binding: u32, filterable: bool) -> BindGroupLayoutEntry {
    BindGroupLayoutEntry { binding, ty: BindingType::Texture { filterable } }
}

pub open spec fn sampler_slot(binding: u32) -> BindGroupLayoutEntry {
    BindGroupLayoutEntry { binding, ty: BindingType::Sampler }
}

/// A resource fits a layout slot when its kind is the kind the slot accepts.
pub open spec fn resource_fits(ty: BindingType, resource: BindingResource) -> bool {
    match ty {
        BindingType::UniformBuffer { min_binding_size } => match resource {
            BindingResource::Buffer(b) => b.size >= min_binding_size,
            _ => false,
        },
        BindingType::StorageBuffer { min_binding_size, .. } => match resource {
            BindingResource::Buffer(b) => b.size >= min_binding_size,
            _ => false,
        },
        BindingType::Texture { .. } => resource is TextureView,
        BindingType::Sampler => resource is Sampler,
    }
}

/// A bind group matches its layout slot by slot.
pub open spec fn group_fits(layout: Seq<BindGroupLayoutEntry>, group: Seq<BindGroupEntry>) -> bool {
    &&& layout.len() == group.len()
    &&& forall|i: int|
        0 <= i < group.len() ==> {
            &&& group[i].binding == layout[i].binding
            &&& resource_fits(layout[i].ty, group[i].resource)
        }
}

/// The entry holds a view of `texture`.
pub open spec fn entry_views(entry: BindGroupEntry, texture: TextureId) -> bool {
    match entry.resource {
        BindingResource::TextureView(v) => v.texture == texture,
        _ => false,
    }
}

/// The bind group holds a view of `texture`.
pub open spec fn group_samples(group: Seq<BindGroupEntry>, texture: TextureId) -> bool {
    exists|i: int| 0 <= i < group.len() && entry_views(#[trigger] group[i], texture)
}

/// The pass binds a view of `texture` for reading.
pub open spec fn pass_samples(pass: RenderPassRecord, texture: TextureId) -> bool {
    exists|g: int|
        0 <= g < pass.bind_groups.len() && group_samples(#[trigger] pass.bind_groups[g]@, texture)
}

/// A pass is sound when it draws the full-screen triangle once and never reads the
/// texture it renders into.
pub open spec fn pass_sound(pass: RenderPassRecord) -> bool {
    &&& pass.vertex_count == FULLSCREEN_VERTICES
    &&& pass.instance_count == 1
    &&& !pass_samples(pass, pass.target.texture)
}

/// The pass reads a view of `texture` whose extent and format are those of `view`.
pub open spec fn pass_reads_view(pass: RenderPassRecord, view: ViewRef) -> bool {
    exists|g: int, i: int|
        0 <= g < pass.bind_groups.len() && 0 <= i < pass.bind_groups[g]@.len()
            && (#[trigger] pass.bind_groups[g]@[i]).resource == BindingResource::TextureView(view)
}

/// Whether `pass` reads what `prev` wrote.
pub open spec fn feeds(prev: RenderPassRecord, pass: RenderPassRecord) -> bool {
    pass_reads_view(pass, prev.target)
}

/// Every pass of the sequence is sound.
pub open spec fn passes_sound(passes: Seq<RenderPassRecord>) -> bool {
    forall|k: int| 0 <= k < passes.len() ==> pass_sound(#[trigger] passes[k])
}

/// Records a full-screen pass that draws with one bind group.
pub fn fullscreen_pass(
    label: &'static str,
    target: ViewRef,
    clear: ClearColor,
    group: Vec<BindGroupEntry>,
) -> (r: RenderPassRecord)
    ensures
        r.label == label,
        r.target == target,
        r.clear == clear,
        r.bind_groups@.len() == 1,
        r.bind_groups@[0] == group,
        r.vertex_count == FULLSCREEN_VERTICES,
        r.instance_count == 1,
{
    let mut bind_groups: Vec<Vec<BindGroupEntry>> = Vec::new();
    bind_groups.push(group);
    RenderPassRecord {
        label,
        target,
        clear,
        bind_groups,
        vertex_count: FULLSCREEN_VERTICES,
        instance_count: 1,
    }
}

} // verus!
