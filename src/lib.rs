//! The render graph of a small HDR renderer with bloom, as plain descriptors.
//!
//! The library decides which textures a frame needs and at what size, how
//! every post-processing pass binds its resources, and in which order the
//! passes read and write the targets: bright pass, a blur pyramid down and
//! back up, and the composition into the presented surface. A GPU layer
//! creates the objects these descriptors describe and encodes the recorded
//! passes.

pub mod bloom;
pub mod composite;
pub mod frame;
pub mod frame_buffers;
pub mod input;
pub mod particle;
pub mod pass;
pub mod post_passes;
pub mod render_targets;
pub mod samplers;
pub mod surface;
pub mod texture;
pub mod uniforms;
pub mod window;
