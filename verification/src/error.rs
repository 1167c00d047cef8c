//! The failure causes that scrubbing can report.

use vstd::prelude::*;

verus! {

/// `std::io::Error`, carried through opaquely: nothing is known of its contents.
#[verifier::external_type_specification]
#[verifier::external_body]
pub struct ExIoError(std::io::Error);

/// Why an operation on a file failed.
#[derive(Debug)]
pub enum ScrubError {
    /// The signature matched no known format, or the file failed the
    /// structural validation that construction performs.
    UnsupportedFileType(String),
    /// A decoder or encoder failed on a file of a recognised format.
    ParsingError(String),
    /// A failure of the layer that reads and writes files. The engines
    /// themselves never raise it.
    IoError(std::io::Error),
    /// A failure of no known cause.
    Unknown,
}

/// The mathematical value of a [`ScrubError`].
pub enum ScrubErrorView {
    UnsupportedFileType(Seq<char>),
    ParsingError(Seq<char>),
    IoError,
    Unknown,
}

impl View for ScrubError {
    type V = ScrubErrorView;

    open spec fn view(&self) -> ScrubErrorView {
        match *self {
            ScrubError::UnsupportedFileType(msg) => ScrubErrorView::UnsupportedFileType(msg@),
            ScrubError::ParsingError(msg) => ScrubErrorView::ParsingError(msg@),
            ScrubError::IoError(_) => ScrubErrorView::IoError,
            ScrubError::Unknown => ScrubErrorView::Unknown,
        }
    }
}

impl From<std::io::Error> for ScrubError {
    fn from(err: std::io::Error) -> (r: ScrubError)
        ensures
            r == ScrubError::IoError(err),
    {
        ScrubError::IoError(err)
    }
}

impl vstd::std_specs::convert::FromSpecImpl<std::io::Error> for ScrubError {
    open spec fn obeys_from_spec() -> bool {
        true
    }

    open spec fn from_spec(err: std::io::Error) -> ScrubError {
        ScrubError::IoError(err)
    }
}

} // verus!
