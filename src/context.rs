//! The compilation context: the two buffers that the stages share and reuse.
use vstd::prelude::*;
use vstd::utf8::encode_utf8;
use vstd::utf8::valid_utf8;
use vstd::string::StringSliceAdditionalSpecFns;
use vstd::slice::slice_subrange;
use vstd::slice::slice_to_vec;
use crate::buffer::{lemma_written_span_reads_back, overwrite, free_of_nul, write_prefix, write_terminated, contains_nul};
use crate::error::{CompileError, CompileErrorKind};
use crate::interface::bytes_of;

verus! {

/// The error value of the given kind.
pub open spec fn failure(kind: CompileErrorKind) -> CompileError {
    CompileError { kind }
}

/// The back end gave text that a terminator can delimit.
pub open spec fn text_usable(produced: Option<Seq<u8>>) -> bool {
    produced matches Some(t) && free_of_nul(t)
}

/// How the context and the result follow from what the front end produced:
/// a module is written to the SPIR-V region and its byte count returned; no
/// module is a front-end failure that changes nothing. The output region is
/// never touched.
pub open spec fn intermediate_outcome(
    before: ContextView,
    after: ContextView,
    produced: Option<Seq<u8>>,
    r: Result<usize, CompileError>,
) -> bool {
    &&& after.output == before.output
    &&& match produced {
        None => r == Err::<usize, CompileError>(failure(CompileErrorKind::FrontEnd)) && after == before,
        Some(m) => r is Ok && r->Ok_0 == m.len() && after.spirv == overwrite(before.spirv, m),
    }
}

/// How the context and the byte count follow from what the back end
/// produced: usable text is written with a terminator and its length
/// returned; anything else is a back-end failure that changes nothing. The
/// SPIR-V region is never touched.
pub open spec fn text_outcome(
    before: ContextView,
    after: ContextView,
    produced: Option<Seq<u8>>,
    r: Result<usize, CompileError>,
) -> bool {
    &&& after.spirv == before.spirv
    &&& if text_usable(produced) {
        &&& r is Ok
        &&& r->Ok_0 == produced->Some_0.len()
        &&& after.output == overwrite(before.output, produced->Some_0.push(0u8))
    } else {
        r == Err::<usize, CompileError>(failure(CompileErrorKind::BackEnd)) && after == before
    }
}

/// How the output region and the returned string follow from what the back
/// end produced: usable text is written with a terminator and returned when
/// it is UTF-8; anything else is a back-end failure. Only back-end failures
/// are reported.
pub open spec fn string_outcome(
    before: Seq<u8>,
    after: Seq<u8>,
    produced: Option<Seq<u8>>,
    r: Result<String, CompileError>,
) -> bool {
    &&& r is Err ==> r == Err::<String, CompileError>(failure(CompileErrorKind::BackEnd))
    &&& if text_usable(produced) {
        &&& after == overwrite(before, produced->Some_0.push(0u8))
        &&& (r is Ok == valid_utf8(produced->Some_0))
        &&& r is Ok ==> encode_utf8(r->Ok_0@) == produced->Some_0
    } else {
        r is Err && after == before
    }
}

/// What a context holds: the SPIR-V region the front end's modules are
/// written to and the region the back end's terminated text is written to.
/// The length of each region is its capacity.
pub struct ContextView {
    pub spirv: Seq<u8>,
    pub output: Seq<u8>,
}

/// Owns the SPIR-V buffer and the output text buffer. Both start empty,
/// grow only when a payload does not fit, and are released with the context.
pub struct DivisionShaderCompilerContext {
    spirv_buffer: Vec<u8>,
    output_src_buffer: Vec<u8>,
}

impl View for DivisionShaderCompilerContext {
    type V = ContextView;

    closed spec fn view(&self) -> ContextView {
        ContextView { spirv: self.spirv_buffer@, output: self.output_src_buffer@ }
    }
}

/// Relies on std::str::from_utf8: it accepts exactly the well-formed UTF-8
/// byte strings and then views the same bytes as text.
#[verifier::external_body]
fn utf8_text(bytes: &[u8]) -> (r: Option<&str>)
    ensures
        r.is_some() == valid_utf8(bytes@),
        r matches Some(s) ==> s.spec_bytes() == bytes@,
{
    std::str::from_utf8(bytes).ok()
}

impl DivisionShaderCompilerContext {
    /// A context whose buffers have no capacity yet.
    pub fn new() -> (r: DivisionShaderCompilerContext)
        ensures
            r@.spirv.len() == 0,
            r@.output.len() == 0,
    {
        DivisionShaderCompilerContext { spirv_buffer: Vec::new(), output_src_buffer: Vec::new() }
    }

    /// The whole SPIR-V region.
    pub fn spirv_buffer(&self) -> (r: &[u8])
        ensures
            r@ == self@.spirv,
    {
        self.spirv_buffer.as_slice()
    }

    /// The whole output text region.
    pub fn output_src_buffer(&self) -> (r: &[u8])
        ensures
            r@ == self@.output,
    {
        self.output_src_buffer.as_slice()
    }

    /// Capacity of the SPIR-V region.
    pub fn spirv_buffer_size(&self) -> (r: usize)
        ensures
            r == self@.spirv.len(),
    {
        self.spirv_buffer.len()
    }

    /// Capacity of the output text region.
    pub fn src_buffer_size(&self) -> (r: usize)
        ensures
            r == self@.output.len(),
    {
        self.output_src_buffer.len()
    }

    /// Takes what the front end produced. A module is written at the start
    /// of the SPIR-V region and its byte count returned; a failure leaves
    /// the context as it was. The output region is never touched.
    pub fn store_intermediate(&mut self, produced: Option<Vec<u8>>) -> (r: Result<usize, CompileError>)
        ensures
            intermediate_outcome(old(self)@, final(self)@, bytes_of(produced), r),
    {
        match produced {
            None => Err(CompileError::new(CompileErrorKind::FrontEnd)),
            Some(m) => {
                write_prefix(&mut self.spirv_buffer, m.as_slice());
                Ok(m.len())
            },
        }
    }

    /// Takes what the back end produced. Text free of zero bytes is written
    /// at the start of the output region followed by a terminator, and its
    /// byte count (terminator excluded) returned; a failure, or text that a
    /// terminator cannot delimit, leaves the context as it was. The SPIR-V
    /// region is never touched.
    pub fn store_text(&mut self, produced: Option<Vec<u8>>) -> (r: Result<usize, CompileError>)
        ensures
            text_outcome(old(self)@, final(self)@, bytes_of(produced), r),
    {
        match produced {
            None => Err(CompileError::new(CompileErrorKind::BackEnd)),
            Some(t) => {
                if contains_nul(t.as_slice()) {
                    Err(CompileError::new(CompileErrorKind::BackEnd))
                } else {
                    write_terminated(&mut self.output_src_buffer, t.as_slice());
                    Ok(t.len())
                }
            },
        }
    }

    /// An owned copy of the first `byte_count` bytes of the SPIR-V region.
    pub fn intermediate_copy(&self, byte_count: usize) -> (r: Vec<u8>)
        requires
            byte_count <= self@.spirv.len(),
        ensures
            r@ == self@.spirv.subrange(0, byte_count as int),
    {
        slice_to_vec(slice_subrange(self.spirv_buffer.as_slice(), 0, byte_count))
    }

    /// An owned copy of the first `byte_count` bytes of the output region as
    /// a string; bytes that are not UTF-8 are a back-end failure.
    pub fn text_copy(&self, byte_count: usize) -> (r: Result<String, CompileError>)
        requires
            byte_count <= self@.output.len(),
        ensures
            r is Ok == valid_utf8(self@.output.subrange(0, byte_count as int)),
            r matches Ok(s) ==> encode_utf8(s@) == self@.output.subrange(0, byte_count as int),
            r matches Err(e) ==> e == failure(CompileErrorKind::BackEnd),
    {
        let bytes = slice_subrange(self.output_src_buffer.as_slice(), 0, byte_count);
        match utf8_text(bytes) {
            Some(s) => Ok(s.to_owned()),
            None => Err(CompileError::new(CompileErrorKind::BackEnd)),
        }
    }
    /// Takes what the back end produced as `store_text` does and, when it
    /// was stored, returns an owned copy of the text as a string; text that
    /// is not UTF-8 is a back-end failure, with the text left stored.
    pub fn take_text(&mut self, produced: Option<Vec<u8>>) -> (r: Result<String, CompileError>)
        ensures
            final(self)@.spirv == old(self)@.spirv,
            string_outcome(old(self)@.output, final(self)@.output, bytes_of(produced), r),
    {
        let ghost text = produced;
        let n = match self.store_text(produced) {
            Ok(n) => n,
            Err(e) => {
                return Err(e);
            },
        };
        proof {
            let t = text->Some_0@;
            lemma_written_span_reads_back(old(self)@.output, t.push(0u8));
            assert(t.push(0u8).subrange(0, n as int) =~= t);
            assert(self@.output.subrange(0, n as int) =~= t);
        }
        self.text_copy(n)
    }
}

} // verus!
