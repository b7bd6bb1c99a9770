//! What a renderer needs to know about a simulation: meshes, per-instance
//! records, draw calls, and the scene that keeps the records in step with the
//! bodies.

pub mod layout;
pub mod mesh;
pub mod object;
pub mod pipeline;
pub mod renderer;
pub mod scene;
pub mod shader;
pub mod uniform;
pub mod window;
