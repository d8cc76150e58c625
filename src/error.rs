//! The failure a compilation reports.
use vstd::prelude::*;

verus! {

/// Where a compilation failed.
#[derive(Clone, Copy, Debug, PartialEq, Eq, Structural)]
pub enum CompileErrorKind {
    /// The entry-point name or the source cannot cross the boundary to the
    /// compilers; no compiler was asked.
    InvalidInput,
    /// The front end rejected the source.
    FrontEnd,
    /// The back end rejected the module, or gave text that is not a
    /// terminable UTF-8 string.
    BackEnd,
}

/// The text that describes a failure of the given kind.
pub open spec fn message_of(kind: CompileErrorKind) -> Seq<char> {
    match kind {
        CompileErrorKind::InvalidInput => "invalid input: the source or the entry-point name cannot be passed to the compiler"@,
        CompileErrorKind::FrontEnd => "the GLSL front end rejected the source"@,
        CompileErrorKind::BackEnd => "the Metal back end rejected the module or produced unusable text"@,
    }
}

/// A failed compilation. No diagnostic text crosses the boundary, only the
/// stage that failed.
#[derive(Clone, Copy, Debug, PartialEq, Eq, Structural)]
pub struct CompileError {
    pub kind: CompileErrorKind,
}

impl CompileError {
    pub fn new(kind: CompileErrorKind) -> (r: CompileError)
        ensures
            r.kind == kind,
    {
        CompileError { kind }
    }

    /// A description of the failure, for people.
    pub fn message(&self) -> (r: String)
        ensures
            r@ == message_of(self.kind),
    {
        match self.kind {
            CompileErrorKind::InvalidInput => "invalid input: the source or the entry-point name cannot be passed to the compiler".to_owned(),
            CompileErrorKind::FrontEnd => "the GLSL front end rejected the source".to_owned(),
            CompileErrorKind::BackEnd => "the Metal back end rejected the module or produced unusable text".to_owned(),
        }
    }

    pub fn kind(&self) -> (r: CompileErrorKind)
        ensures
            r == self.kind,
    {
        self.kind
    }
}

} // verus!
