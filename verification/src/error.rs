//! The ways in which generating a package can fail.

use vstd::prelude::*;

verus! {

/// Why a generation run stopped before it was complete.
#[derive(Debug, Clone, PartialEq, Eq)]
pub enum Error {
    /// A directory could not be created or a file could not be written.
    /// Holds what the file system reported.
    IoError(String),
    /// No output directory was configured and the named environment
    /// variable, from which the default is derived, is not set.
    ConfigError(String),
    /// The template renderer rejected the fields it was given. Holds what
    /// the renderer reported.
    TemplateError(String),
}

/// What an [`Error`] is, with its text as a sequence of characters.
pub enum ErrorView {
    IoError(Seq<char>),
    ConfigError(Seq<char>),
    TemplateError(Seq<char>),
}

impl View for Error {
    type V = ErrorView;

    open spec fn view(&self) -> ErrorView {
        match self {
            Error::IoError(m) => ErrorView::IoError(m@),
            Error::ConfigError(m) => ErrorView::ConfigError(m@),
            Error::TemplateError(m) => ErrorView::TemplateError(m@),
        }
    }
}

impl Error {
    /// The text that the error carries: the file system's or the renderer's
    /// report, or the name of the missing variable.
    pub fn message(&self) -> (r: String)
        ensures
            r@ == match self@ {
                ErrorView::IoError(m) => m,
                ErrorView::ConfigError(m) => m,
                ErrorView::TemplateError(m) => m,
            },
    {
        match self {
            Error::IoError(m) => m.clone(),
            Error::ConfigError(m) => m.clone(),
            Error::TemplateError(m) => m.clone(),
        }
    }
}

} // verus!
