use vstd::prelude::*;

verus! {

/// The error kinds a file operation can produce, at the specification
/// level: each variant carries the offending path (or, for `Io`, the
/// message of an operating-system failure) as a sequence of characters.
pub enum ErrorView {
    NotFound(Seq<char>),
    InvalidInput(Seq<char>),
    AlreadyExists(Seq<char>),
    Io(Seq<char>),
}

/// All errors that a file-management operation can produce.
///
/// Every layer of the copy pipeline reports failure through this closed
/// set; each variant carries the offending path as context.
#[derive(Debug)]
pub enum FmanError {
    /// The source path does not exist.
    NotFound(String),
    /// The source is not a regular file, or its path has no file-name
    /// component usable for resolving a directory destination.
    InvalidInput(String),
    /// The resolved destination already exists and overwriting is not
    /// allowed.
    AlreadyExists(String),
    /// An underlying operating-system failure, kept as its message. The
    /// unverified shell around this library is the only producer: the
    /// decisions in this crate never perform I/O themselves.
    Io(String),
}

impl View for FmanError {
    type V = ErrorView;

    open spec fn view(&self) -> ErrorView {
        match self {
            FmanError::NotFound(p) => ErrorView::NotFound(p@),
            FmanError::InvalidInput(p) => ErrorView::InvalidInput(p@),
            FmanError::AlreadyExists(p) => ErrorView::AlreadyExists(p@),
            FmanError::Io(m) => ErrorView::Io(m@),
        }
    }
}

} // verus!
