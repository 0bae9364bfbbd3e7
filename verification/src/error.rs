//! What can go wrong when a program, a form or a shape is constructed.

use vstd::prelude::*;

verus! {

/// The two stages of a shader program.
#[derive(Clone, Copy, Debug, PartialEq, Eq, Structural)]
pub enum ShaderStage {
    Vertex,
    Fragment,
}

/// Every construction is all or nothing: on an error no object is returned.
#[derive(Clone, Debug, PartialEq, Eq)]
pub enum Error {
    /// A stage could not be created or did not compile.
    ShaderCompileError { stage: ShaderStage, diagnostic: String },
    /// The program could not be created or did not link.
    LinkError { diagnostic: String },
    /// The program has no attribute or uniform of this name.
    LocationNotFound { name: String },
    /// The backend gave no buffer.
    BufferAllocError,
    /// An argument is outside of what the operation is defined for.
    InvalidParameter,
    /// A measurement was asked of no vertices.
    EmptyInput,
}

/// An error with its texts as sequences of characters.
pub enum ErrorView {
    ShaderCompileError { stage: ShaderStage, diagnostic: Seq<char> },
    LinkError { diagnostic: Seq<char> },
    LocationNotFound { name: Seq<char> },
    BufferAllocError,
    InvalidParameter,
    EmptyInput,
}

impl View for Error {
    type V = ErrorView;

    open spec fn view(&self) -> ErrorView {
        match *self {
            Error::ShaderCompileError { stage, diagnostic } => ErrorView::ShaderCompileError {
                stage,
                diagnostic: diagnostic@,
            },
            Error::LinkError { diagnostic } => ErrorView::LinkError { diagnostic: diagnostic@ },
            Error::LocationNotFound { name } => ErrorView::LocationNotFound { name: name@ },
            Error::BufferAllocError => ErrorView::BufferAllocError,
            Error::InvalidParameter => ErrorView::InvalidParameter,
            Error::EmptyInput => ErrorView::EmptyInput,
        }
    }
}

} // verus!
