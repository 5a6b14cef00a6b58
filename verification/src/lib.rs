//! Batching core of a 2D/3D scene renderer: turns a frame's quads and glyph
//! instances into an ordered list of draw steps, and keeps the index data that
//! every quad based batch shares.

pub mod atlas_sdf;
pub mod draw;
pub mod glyph_param;
pub mod index_buffer;
pub mod pipeline;
pub mod quads;
pub mod render_graph;
pub mod renderer;
pub mod shapes;
pub mod shell;
