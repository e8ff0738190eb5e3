//! A quad renderer's verified core: the mesh and uniform data it uploads,
//! the texture it rewrites every frame, and the decisions the render loop
//! takes on resize, input and surface errors.
pub mod mesh;
pub mod texture;
pub mod uniform;
pub mod state;
