use vstd::prelude::*;

verus! {

/// The failures that the file-system commands report to their caller.
#[derive(Debug)]
pub enum AppError {
    /// An operating-system I/O failure, with its message.
    Io(String),
    /// The path could not be resolved, with the reason.
    PathValidation(String),
    /// The resolved path still holds a parent-directory component.
    PathTraversal,
    /// A directory-only operation was given something else.
    NotADirectory(String),
    /// A read was refused before loading, to bound memory use.
    FileTooLarge { size: u64, max: u64 },
    /// The input-source service failed, with the reason.
    Ime(String),
}

/// The mathematical value of an [`AppError`]: its kind and its text as characters.
pub enum ErrorView {
    Io(Seq<char>),
    PathValidation(Seq<char>),
    PathTraversal,
    NotADirectory(Seq<char>),
    FileTooLarge { size: u64, max: u64 },
    Ime(Seq<char>),
}

impl View for AppError {
    type V = ErrorView;

    open spec fn view(&self) -> ErrorView {
        match self {
            AppError::Io(m) => ErrorView::Io(m@),
            AppError::PathValidation(m) => ErrorView::PathValidation(m@),
            AppError::PathTraversal => ErrorView::PathTraversal,
            AppError::NotADirectory(p) => ErrorView::NotADirectory(p@),
            AppError::FileTooLarge { size, max } => ErrorView::FileTooLarge { size: *size, max: *max },
            AppError::Ime(m) => ErrorView::Ime(m@),
        }
    }
}

} // verus!
