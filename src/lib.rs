//! Orchestration layer of a two-stage shader compiler: GLSL source is lowered
//! to a SPIR-V module by a front end, and the module is cross-compiled to
//! Metal source by a back end. The library owns the reusable, grow-only
//! buffers between the stages, validates what crosses the boundary, and
//! sequences the stages.

pub mod buffer;
pub mod collaborators;
pub mod context;
pub mod error;
pub mod interface;
pub mod shader_compiler;

pub use context::DivisionShaderCompilerContext;
pub use error::{CompileError, CompileErrorKind};
pub use interface::{GlslFrontEnd, MetalBackEnd, ShaderType};
pub use shader_compiler::ShaderCompiler;
