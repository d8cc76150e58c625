//! The compiler: a context and the two collaborators, driven stage by stage
//! or through the GLSL-to-Metal pipeline.
use vstd::prelude::*;
use vstd::utf8::{encode_utf8, encode_utf8_decode_utf8, valid_utf8};
use vstd::string::StringSliceAdditionalSpecFns;
use crate::collaborators::Collaborators;
use crate::buffer::{overwrite, free_of_nul, contains_nul, lemma_written_span_reads_back};
use crate::context::{
    ContextView,
    DivisionShaderCompilerContext,
    failure,
    intermediate_outcome,
    text_usable,
    text_outcome,
    string_outcome,
};
use crate::error::{CompileError, CompileErrorKind};
use crate::interface::{
    Collaborator,
    CollaboratorCall,
    GlslFrontEnd,
    MetalBackEnd,
    ShaderType,
    is_call,
};

verus! {

/// The largest source, in bytes, whose length the front end's 32-bit size
/// parameter can carry.
pub const MAX_SOURCE_SIZE: usize = 2147483647;

/// A source can be handed to the front end: its length fits the size
/// parameter. The source is passed with its length and never scanned for a
/// terminator, so it may hold any bytes, zero included.
pub open spec fn source_valid(source: Seq<u8>) -> bool {
    source.len() <= MAX_SOURCE_SIZE
}

/// An entry-point name can be handed on as a terminated string: it is not
/// empty and holds no zero byte.
pub open spec fn entry_point_valid(entry_point: Seq<u8>) -> bool {
    entry_point.len() > 0 && free_of_nul(entry_point)
}

/// What a string-returning compilation gives depends only on what the back
/// end returned for the module it was handed. Two compilations whose back
/// end returned the same thing give the same result, whatever their output
/// regions held before (bytes left behind by an earlier, longer text never
/// reach the result), and whether the module was handed over in place in
/// the SPIR-V region or as a caller's own copy. Such a compilation succeeds
/// exactly when the back end returned UTF-8 text free of zero bytes.
pub proof fn lemma_result_depends_only_on_back_end_answer(
    before1: Seq<u8>,
    after1: Seq<u8>,
    r1: Result<String, CompileError>,
    before2: Seq<u8>,
    after2: Seq<u8>,
    r2: Result<String, CompileError>,
    produced: Option<Seq<u8>>,
)
    requires
        string_outcome(before1, after1, produced, r1),
        string_outcome(before2, after2, produced, r2),
    ensures
        r1 is Ok <==> text_usable(produced) && valid_utf8(produced->Some_0),
        r1 is Ok == r2 is Ok,
        r1 is Ok ==> r1->Ok_0@ == r2->Ok_0@ && encode_utf8(r1->Ok_0@) == produced->Some_0,
        r1 is Err ==> r1 == r2,
{
    if r1 is Ok {
        encode_utf8_decode_utf8(r1->Ok_0@);
        encode_utf8_decode_utf8(r2->Ok_0@);
    }
}

/// Tells whether `source` can be handed to the front end.
pub fn is_valid_source(source: &[u8]) -> (r: bool)
    ensures
        r == source_valid(source@),
{
    source.len() <= MAX_SOURCE_SIZE
}

/// Tells whether `entry_point` can be handed on as a terminated string.
pub fn is_valid_entry_point(entry_point: &str) -> (r: bool)
    ensures
        r == entry_point_valid(entry_point.spec_bytes()),
{
    let bytes = entry_point.as_bytes();
    bytes.len() > 0 && !contains_nul(bytes)
}

/// A compilation context together with the front end and back end that fill
/// it. Exclusive access for each call keeps one compilation at a time in
/// flight on the context. A ghost log records every collaborator call the
/// compiler makes, with what it handed over and what came back, so that
/// contracts can say how each outcome follows from the collaborators'
/// answers.
pub struct ShaderCompiler<F, B> {
    ctx: DivisionShaderCompilerContext,
    collaborators: Collaborators<F, B>,
}

impl<F, B> View for ShaderCompiler<F, B> {
    type V = ContextView;

    closed spec fn view(&self) -> ContextView {
        self.ctx@
    }
}

impl<F: GlslFrontEnd, B: MetalBackEnd> ShaderCompiler<F, B> {
    pub closed spec fn spec_front_end(&self) -> F {
        self.collaborators.spec_front_end()
    }

    pub closed spec fn spec_back_end(&self) -> B {
        self.collaborators.spec_back_end()
    }

    /// Every collaborator call made so far, oldest first.
    pub closed spec fn spec_calls(&self) -> Seq<CollaboratorCall> {
        self.collaborators.spec_calls()
    }

    /// The log of `self` is that of `before` followed by exactly `k` calls.
    pub open spec fn calls_added(&self, before: Self, k: int) -> bool {
        &&& self.spec_calls().len() == before.spec_calls().len() + k
        &&& self.spec_calls().subrange(0, before.spec_calls().len() as int) == before.spec_calls()
    }

    /// The `i`-th call made since `before`, counting from zero.
    pub open spec fn call_since(&self, before: Self, i: int) -> CollaboratorCall {
        self.spec_calls()[before.spec_calls().len() + i]
    }

    /// A compiler with an empty context that has made no call yet.
    pub fn new(front_end: F, back_end: B) -> (r: ShaderCompiler<F, B>)
        ensures
            r@.spirv.len() == 0,
            r@.output.len() == 0,
            r.spec_front_end() == front_end,
            r.spec_back_end() == back_end,
            r.spec_calls().len() == 0,
    {
        ShaderCompiler {
            ctx: DivisionShaderCompilerContext::new(),
            collaborators: Collaborators::new(front_end, back_end),
        }
    }

    pub fn context(&self) -> (r: &DivisionShaderCompilerContext)
        ensures
            r@ == self@,
    {
        &self.ctx
    }

    pub fn front_end(&self) -> (r: &F)
        ensures
            *r == self.spec_front_end(),
    {
        self.collaborators.front_end()
    }

    pub fn back_end(&self) -> (r: &B)
        ensures
            *r == self.spec_back_end(),
    {
        self.collaborators.back_end()
    }

    /// First stage: compiles `source` with the front end into the SPIR-V
    /// region and returns the module's byte count. Input that cannot cross
    /// the boundary is refused before the front end is asked. Otherwise the
    /// front end is called once, and what it returned decides the rest as
    /// `intermediate_outcome` says. The back end and the output region are
    /// never touched.
    pub fn glsl_to_spirv_save_to_ctx_get_size(
        &mut self,
        source: &str,
        output_spirv_entry_point: &str,
        shader_type: ShaderType,
    ) -> (r: Result<usize, CompileError>)
        ensures
            final(self).spec_back_end() == old(self).spec_back_end(),
            !(source_valid(source.spec_bytes()) && entry_point_valid(output_spirv_entry_point.spec_bytes()))
                ==> r == Err::<usize, CompileError>(failure(CompileErrorKind::InvalidInput))
                && *final(self) == *old(self),
            source_valid(source.spec_bytes()) && entry_point_valid(output_spirv_entry_point.spec_bytes())
                ==> final(self).calls_added(*old(self), 1) && is_call(
                final(self).call_since(*old(self), 0),
                Collaborator::FrontEnd,
                source.spec_bytes(),
                shader_type,
                output_spirv_entry_point.spec_bytes(),
            ) && intermediate_outcome(
                old(self)@,
                final(self)@,
                final(self).call_since(*old(self), 0).produced,
                r,
            ),
    {
        let src = source.as_bytes();
        if !is_valid_source(src) || !is_valid_entry_point(output_spirv_entry_point) {
            return Err(CompileError::new(CompileErrorKind::InvalidInput));
        }
        let produced = self.collaborators.compile_glsl_to_spirv(
            src,
            src.len(),
            shader_type,
            output_spirv_entry_point,
        );
        proof {
            assert(src@.subrange(0, src@.len() as int) =~= src@);
            assert(self.spec_calls().subrange(0, old(self).spec_calls().len() as int) =~= old(self).spec_calls());
        }
        self.ctx.store_intermediate(produced)
    }

    /// Second stage on a module the caller holds: hands the first
    /// `spirv_byte_count` bytes of `spirv` to the back end, once, and stores
    /// what it returned as `text_outcome` says, returning the text's byte
    /// count. The front end and the SPIR-V region are never touched.
    pub fn spirv_to_metal_save_to_ctx_get_size(
        &mut self,
        spirv: &[u8],
        spirv_byte_count: usize,
        entry_point: &str,
        shader_type: ShaderType,
    ) -> (r: Result<usize, CompileError>)
        requires
            spirv_byte_count <= spirv@.len(),
        ensures
            final(self).spec_front_end() == old(self).spec_front_end(),
            !entry_point_valid(entry_point.spec_bytes()) ==> r == Err::<usize, CompileError>(
                failure(CompileErrorKind::InvalidInput),
            ) && *final(self) == *old(self),
            entry_point_valid(entry_point.spec_bytes()) ==> final(self).calls_added(*old(self), 1)
                && is_call(
                final(self).call_since(*old(self), 0),
                Collaborator::BackEnd,
                spirv@.subrange(0, spirv_byte_count as int),
                shader_type,
                entry_point.spec_bytes(),
            ) && text_outcome(
                old(self)@,
                final(self)@,
                final(self).call_since(*old(self), 0).produced,
                r,
            ),
    {
        if !is_valid_entry_point(entry_point) {
            return Err(CompileError::new(CompileErrorKind::InvalidInput));
        }
        let produced = self.collaborators.compile_spirv_to_metal(
            spirv,
            spirv_byte_count,
            shader_type,
            entry_point,
        );
        proof {
            assert(self.spec_calls().subrange(0, old(self).spec_calls().len() as int) =~= old(self).spec_calls());
        }
        self.ctx.store_text(produced)
    }

    /// Compiles GLSL source to Metal source: the first stage into the SPIR-V
    /// region, then the second stage on that region in place, then an owned
    /// copy of the text, which later compilations on this context leave
    /// alone. When the front end returns no module its failure is returned
    /// and the back end is not called. Otherwise the back end is handed
    /// exactly that module, the SPIR-V region keeps it whatever the back end
    /// answers, and the answer decides the rest as `string_outcome` says.
    pub fn compile_glsl_to_metal(
        &mut self,
        source: &str,
        msl_entry_point: &str,
        shader_type: ShaderType,
    ) -> (r: Result<String, CompileError>)
        ensures
            !(source_valid(source.spec_bytes()) && entry_point_valid(msl_entry_point.spec_bytes()))
                ==> r == Err::<String, CompileError>(failure(CompileErrorKind::InvalidInput))
                && *final(self) == *old(self),
            source_valid(source.spec_bytes()) && entry_point_valid(msl_entry_point.spec_bytes())
                ==> is_call(
                final(self).call_since(*old(self), 0),
                Collaborator::FrontEnd,
                source.spec_bytes(),
                shader_type,
                msl_entry_point.spec_bytes(),
            ),
            source_valid(source.spec_bytes()) && entry_point_valid(msl_entry_point.spec_bytes())
                && final(self).call_since(*old(self), 0).produced is None ==> final(self).calls_added(
                *old(self),
                1,
            ) && r == Err::<String, CompileError>(failure(CompileErrorKind::FrontEnd)) && final(self)@
                == old(self)@ && final(self).spec_back_end() == old(self).spec_back_end(),
            source_valid(source.spec_bytes()) && entry_point_valid(msl_entry_point.spec_bytes())
                && final(self).call_since(*old(self), 0).produced is Some ==> final(self).calls_added(
                *old(self),
                2,
            ) && is_call(
                final(self).call_since(*old(self), 1),
                Collaborator::BackEnd,
                final(self).call_since(*old(self), 0).produced->Some_0,
                shader_type,
                msl_entry_point.spec_bytes(),
            ) && final(self)@.spirv == overwrite(
                old(self)@.spirv,
                final(self).call_since(*old(self), 0).produced->Some_0,
            ) && string_outcome(
                old(self)@.output,
                final(self)@.output,
                final(self).call_since(*old(self), 1).produced,
                r,
            ),
    {
        let spirv_size = match self.glsl_to_spirv_save_to_ctx_get_size(
            source,
            msl_entry_point,
            shader_type,
        ) {
            Ok(n) => n,
            Err(e) => {
                return Err(e);
            },
        };
        let ghost first = *self;
        let ghost module = self.spec_calls().last().produced->Some_0;
        proof {
            lemma_written_span_reads_back(old(self)@.spirv, module);
        }
        let produced = self.collaborators.compile_spirv_to_metal(
            self.ctx.spirv_buffer(),
            spirv_size,
            shader_type,
            msl_entry_point,
        );
        proof {
            assert(self.spec_calls().subrange(0, old(self).spec_calls().len() as int) =~= old(self).spec_calls());
            assert(self.spec_calls()[old(self).spec_calls().len() as int] == first.spec_calls().last());
        }
        self.ctx.take_text(produced)
    }

    /// Compiles GLSL source with the front end and returns an owned copy of
    /// the SPIR-V module, for a caller that keeps or moves it before the
    /// second stage. The front end is called once, and the result is exactly
    /// the module it returned.
    pub fn compile_glsl_to_spirv_source(
        &mut self,
        source: &str,
        output_spirv_entry_point: &str,
        shader_type: ShaderType,
    ) -> (r: Result<Vec<u8>, CompileError>)
        ensures
            final(self).spec_back_end() == old(self).spec_back_end(),
            final(self)@.output == old(self)@.output,
            !(source_valid(source.spec_bytes()) && entry_point_valid(output_spirv_entry_point.spec_bytes()))
                ==> r == Err::<Vec<u8>, CompileError>(failure(CompileErrorKind::InvalidInput))
                && *final(self) == *old(self),
            source_valid(source.spec_bytes()) && entry_point_valid(output_spirv_entry_point.spec_bytes())
                ==> final(self).calls_added(*old(self), 1) && is_call(
                final(self).call_since(*old(self), 0),
                Collaborator::FrontEnd,
                source.spec_bytes(),
                shader_type,
                output_spirv_entry_point.spec_bytes(),
            ) && match final(self).call_since(*old(self), 0).produced {
                None => r == Err::<Vec<u8>, CompileError>(failure(CompileErrorKind::FrontEnd))
                    && final(self)@ == old(self)@,
                Some(m) => r is Ok && r->Ok_0@ == m && final(self)@.spirv == overwrite(
                    old(self)@.spirv,
                    m,
                ),
            },
    {
        let spirv_size = match self.glsl_to_spirv_save_to_ctx_get_size(
            source,
            output_spirv_entry_point,
            shader_type,
        ) {
            Ok(n) => n,
            Err(e) => {
                return Err(e);
            },
        };
        proof {
            lemma_written_span_reads_back(old(self)@.spirv, self.spec_calls().last().produced->Some_0);
        }
        Ok(self.ctx.intermediate_copy(spirv_size))
    }

    /// Cross-compiles a SPIR-V module the caller holds to Metal source and
    /// returns an owned copy of the text. The back end is handed exactly
    /// that module, once, and its answer decides the result as
    /// `string_outcome` says. The SPIR-V region is not touched.
    pub fn compile_spirv_to_metal(
        &mut self,
        spirv_source: Vec<u8>,
        entry_point: &str,
        shader_type: ShaderType,
    ) -> (r: Result<String, CompileError>)
        ensures
            final(self).spec_front_end() == old(self).spec_front_end(),
            final(self)@.spirv == old(self)@.spirv,
            !entry_point_valid(entry_point.spec_bytes()) ==> r == Err::<String, CompileError>(
                failure(CompileErrorKind::InvalidInput),
            ) && *final(self) == *old(self),
            entry_point_valid(entry_point.spec_bytes()) ==> final(self).calls_added(*old(self), 1)
                && is_call(
                final(self).call_since(*old(self), 0),
                Collaborator::BackEnd,
                spirv_source@,
                shader_type,
                entry_point.spec_bytes(),
            ) && string_outcome(
                old(self)@.output,
                final(self)@.output,
                final(self).call_since(*old(self), 0).produced,
                r,
            ),
    {
        if !is_valid_entry_point(entry_point) {
            return Err(CompileError::new(CompileErrorKind::InvalidInput));
        }
        let produced = self.collaborators.compile_spirv_to_metal(
            spirv_source.as_slice(),
            spirv_source.len(),
            shader_type,
            entry_point,
        );
        proof {
            assert(self.spec_calls().subrange(0, old(self).spec_calls().len() as int) =~= old(self).spec_calls());
            assert(spirv_source@.subrange(0, spirv_source@.len() as int) =~= spirv_source@);
        }
        self.ctx.take_text(produced)
    }
}

} // verus!
