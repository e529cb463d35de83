pub mod ratio;
pub mod ndc;
pub mod gl;
pub mod geometry;
pub mod shader;
pub mod state;
pub mod window;
