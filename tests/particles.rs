use bloom_frame::particle::{
    quad_indices, CompareFunction, ParticleRendererBuilder, PARTICLE_INSTANCE_SIZE,
    PARTICLE_UNIFORMS_SIZE,
};
use bloom_frame::pass::{BindingResource, BindingType, ClearColor, TextureId, ViewRef};
use bloom_frame::texture::TextureFormat;

#[test]
fn quad_is_two_triangles_on_a_shared_diagonal() {
    let indices = quad_indices();
    assert_eq!(indices, vec![0, 2, 1, 1, 2, 3]);
    assert!(indices.iter().all(|&i| i < 4));
}

#[test]
fn builder_records_formats() {
    let b = ParticleRendererBuilder::new(1000);
    assert_eq!(b.color_format, None);
    assert_eq!(b.depth_format, None);
    let b = b
        .color_target_format(TextureFormat::Rgba16Float)
        .depth_format(TextureFormat::Depth32Float);
    assert_eq!(b.color_format, Some(TextureFormat::Rgba16Float));
    assert_eq!(b.depth_format, Some(TextureFormat::Depth32Float));
    assert_eq!(b.instance_count, 1000);
}

#[test]
fn built_renderer_binds_particles_and_uniforms() {
    let r = ParticleRendererBuilder::new(1000)
        .depth_format(TextureFormat::Depth24PlusStencil8)
        .color_target_format(TextureFormat::Rgba16Float)
        .build();
    assert_eq!(r.color_target, TextureFormat::Rgba16Float);
    assert_eq!(r.depth.format, TextureFormat::Depth24PlusStencil8);
    assert!(r.depth.depth_write_enabled);
    assert_eq!(r.depth.depth_compare, CompareFunction::LessEqual);
    assert_eq!(r.instance_buffer.size, 32_000);
    assert_eq!(r.uniform_buffer.size, PARTICLE_UNIFORMS_SIZE);
    assert_eq!(
        r.bind_group_layout[0].ty,
        BindingType::StorageBuffer { read_only: true, min_binding_size: PARTICLE_INSTANCE_SIZE }
    );
    assert_eq!(r.bind_group[1].resource, BindingResource::Buffer(r.uniform_buffer));
    let color = ViewRef { texture: TextureId::Color, width: 8, height: 8, format: TextureFormat::Rgba16Float };
    let depth = ViewRef { texture: TextureId::Depth, width: 8, height: 8, format: TextureFormat::Depth24PlusStencil8 };
    let pass = r.draw(color, depth);
    assert_eq!(pass.label, "Particle Render Pass");
    assert_eq!((pass.color, pass.depth), (color, depth));
    assert_eq!(pass.color_clear, ClearColor::Transparent);
    assert!(pass.color_store && pass.depth_clear_to_far && !pass.depth_store);
    let draw = pass.draw;
    assert_eq!((draw.index_count, draw.base_vertex, draw.instance_count), (6, 0, 1000));
}

#[test]
fn renderer_without_particles_draws_nothing() {
    let r = ParticleRendererBuilder::new(0)
        .color_target_format(TextureFormat::Rgba16Float)
        .depth_format(TextureFormat::Depth32Float)
        .build();
    assert_eq!(r.instance_buffer.size, 0);
    let v = ViewRef { texture: TextureId::Color, width: 1, height: 1, format: TextureFormat::Rgba16Float };
    assert_eq!(r.draw(v, v).draw.instance_count, 0);
}
