//! The core of a CPU triangle rasterizer: textures, a frame buffer with its
//! depth test, the assembly and the commit of a draw call's triangles, and
//! line drawing, each with a proved contract.
//!
//! Numbers in single precision are held by their bit patterns. The library
//! stores and compares them; the arithmetic on them is its caller's.
pub mod barycentric_test_result;
pub mod binary32;
pub mod color;
pub mod depth_cmp;
pub mod error;
pub mod frame_buffer;
pub mod graphics_pipeline;
pub mod line;
pub mod ndc;
mod outside;
pub mod raster;
pub mod renderer;
pub mod shader;
pub mod surface_laws;
pub mod texture;
