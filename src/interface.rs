//! What the library needs from the two compilers it drives. Each is a narrow
//! interface of one operation: a native toolchain reached through its C entry
//! points satisfies it, and so does a test double.
use vstd::prelude::*;

verus! {

/// The pipeline stage a shader is written for. It selects stage-specific
/// rules in both compilers and must be the same for both stages of one shader.
#[derive(Clone, Copy, Debug, PartialEq, Eq, Structural)]
pub enum ShaderType {
    Vertex,
    Fragment,
}

/// The front end: parses, validates and lowers GLSL source to a SPIR-V module.
pub trait GlslFrontEnd {
    /// Compiles the first `source_size` bytes of `source` for `shader_type`,
    /// rooted at the function `entry_point`. `None` reports a failure.
    fn compile_glsl_to_spirv(
        &mut self,
        source: &[u8],
        source_size: usize,
        shader_type: ShaderType,
        entry_point: &str,
    ) -> Option<Vec<u8>>
        requires
            source_size <= source@.len(),
    ;
}

/// The back end: cross-compiles a SPIR-V module to Metal source text.
pub trait MetalBackEnd {
    /// Translates the module held in the first `spirv_byte_count` bytes of
    /// `spirv`, naming its entry `entry_point`. Returns the text without a
    /// terminator; `None` reports a failure.
    fn compile_spirv_to_metal(
        &mut self,
        spirv: &[u8],
        spirv_byte_count: usize,
        shader_type: ShaderType,
        entry_point: &str,
    ) -> Option<Vec<u8>>
        requires
            spirv_byte_count <= spirv@.len(),
    ;
}

/// Which collaborator a call went to.
#[derive(Clone, Copy, Debug, PartialEq, Eq, Structural)]
pub enum Collaborator {
    FrontEnd,
    BackEnd,
}

/// One call of a collaborator as the library made it: the bytes it handed
/// over (the source, or the module span), the stage tag, the entry-point
/// name, and what came back.
pub struct CollaboratorCall {
    pub collaborator: Collaborator,
    pub input: Seq<u8>,
    pub shader_type: ShaderType,
    pub entry_point: Seq<u8>,
    pub produced: Option<Seq<u8>>,
}

/// The bytes a collaborator returned, if any.
pub open spec fn bytes_of(produced: Option<Vec<u8>>) -> Option<Seq<u8>> {
    match produced {
        Some(v) => Some(v@),
        None => None,
    }
}

/// `c` is a call of `collaborator` with the given input, stage tag and
/// entry-point name.
pub open spec fn is_call(
    c: CollaboratorCall,
    collaborator: Collaborator,
    input: Seq<u8>,
    shader_type: ShaderType,
    entry_point: Seq<u8>,
) -> bool {
    &&& c.collaborator == collaborator
    &&& c.input == input
    &&& c.shader_type == shader_type
    &&& c.entry_point == entry_point
}

} // verus!
