//! Verified core of the CAD-3E engine: the window's size bookkeeping, the
//! name-keyed resource store, the plans of GPU calls that meshes, shaders and
//! the engine's set-up issue, and the engine's reaction to window events.

pub mod engine;
pub mod gl;
pub mod laws;
pub mod registry;
pub mod resources;
pub mod window;

pub use crate::engine::{EngineAction, EngineFlags, EngineState, ExitReason, InputEvent, KeyName, KEY_COUNT};
pub use crate::gl::{Capability, GlCommand, GlObject, PolygonMode, Primitive};
pub use crate::registry::Registry;
pub use crate::resources::{
    Material, Mesh, MeshDrawCall, MissingResource, Resources, Shader, ShaderBuild, ShaderBuildPhase, ShaderBuildStep,
    ShaderStage, Texture2D,
};
pub use crate::window::{best_config, Window};
