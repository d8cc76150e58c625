//! The two collaborators and the ghost log of every call made to them. The
//! log is private to this module and only the two methods that make the
//! calls extend it, each from the arguments it passed and the answer it got,
//! so no other code can record a call it did not make.
use vstd::prelude::*;
use vstd::string::StringSliceAdditionalSpecFns;
use crate::interface::{Collaborator, CollaboratorCall, GlslFrontEnd, MetalBackEnd, ShaderType, bytes_of};

verus! {

/// A front end and a back end, with the log of the calls made to them.
pub struct Collaborators<F, B> {
    front_end: F,
    back_end: B,
    calls: Ghost<Seq<CollaboratorCall>>,
}

impl<F: GlslFrontEnd, B: MetalBackEnd> Collaborators<F, B> {
    pub closed spec fn spec_front_end(&self) -> F {
        self.front_end
    }

    pub closed spec fn spec_back_end(&self) -> B {
        self.back_end
    }

    /// Every call made so far, oldest first.
    pub closed spec fn spec_calls(&self) -> Seq<CollaboratorCall> {
        self.calls@
    }

    /// The two collaborators, with no call made yet.
    pub fn new(front_end: F, back_end: B) -> (r: Collaborators<F, B>)
        ensures
            r.spec_front_end() == front_end,
            r.spec_back_end() == back_end,
            r.spec_calls().len() == 0,
    {
        Collaborators { front_end, back_end, calls: Ghost(Seq::empty()) }
    }

    pub fn front_end(&self) -> (r: &F)
        ensures
            *r == self.spec_front_end(),
    {
        &self.front_end
    }

    pub fn back_end(&self) -> (r: &B)
        ensures
            *r == self.spec_back_end(),
    {
        &self.back_end
    }

    /// Calls the front end on the first `source_size` bytes of `source` and
    /// logs the call with its answer.
    pub fn compile_glsl_to_spirv(
        &mut self,
        source: &[u8],
        source_size: usize,
        shader_type: ShaderType,
        entry_point: &str,
    ) -> (r: Option<Vec<u8>>)
        requires
            source_size <= source@.len(),
        ensures
            final(self).spec_back_end() == old(self).spec_back_end(),
            final(self).spec_calls() == old(self).spec_calls().push(
                CollaboratorCall {
                    collaborator: Collaborator::FrontEnd,
                    input: source@.subrange(0, source_size as int),
                    shader_type,
                    entry_point: entry_point.spec_bytes(),
                    produced: bytes_of(r),
                },
            ),
    {
        let r = self.front_end.compile_glsl_to_spirv(source, source_size, shader_type, entry_point);
        self.calls = Ghost(
            self.calls@.push(
                CollaboratorCall {
                    collaborator: Collaborator::FrontEnd,
                    input: source@.subrange(0, source_size as int),
                    shader_type,
                    entry_point: entry_point.spec_bytes(),
                    produced: bytes_of(r),
                },
            ),
        );
        r
    }

    /// Calls the back end on the first `spirv_byte_count` bytes of `spirv`
    /// and logs the call with its answer.
    pub fn compile_spirv_to_metal(
        &mut self,
        spirv: &[u8],
        spirv_byte_count: usize,
        shader_type: ShaderType,
        entry_point: &str,
    ) -> (r: Option<Vec<u8>>)
        requires
            spirv_byte_count <= spirv@.len(),
        ensures
            final(self).spec_front_end() == old(self).spec_front_end(),
            final(self).spec_calls() == old(self).spec_calls().push(
                CollaboratorCall {
                    collaborator: Collaborator::BackEnd,
                    input: spirv@.subrange(0, spirv_byte_count as int),
                    shader_type,
                    entry_point: entry_point.spec_bytes(),
                    produced: bytes_of(r),
                },
            ),
    {
        let r = self.back_end.compile_spirv_to_metal(spirv, spirv_byte_count, shader_type, entry_point);
        self.calls = Ghost(
            self.calls@.push(
                CollaboratorCall {
                    collaborator: Collaborator::BackEnd,
                    input: spirv@.subrange(0, spirv_byte_count as int),
                    shader_type,
                    entry_point: entry_point.spec_bytes(),
                    produced: bytes_of(r),
                },
            ),
        );
        r
    }
}

} // verus!
