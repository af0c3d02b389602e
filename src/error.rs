//! The library's error kinds.
use vstd::prelude::*;
use vstd::string::StringExecFns;

verus! {

/// What can go wrong while reading a TLE or propagating it.
#[derive(Debug)]
pub enum Error {
    /// The text is not a valid TLE: wrong length, wrong number of lines, or
    /// refused by the propagator's ingestion; the text says why.
    MalformedTwoLineElement(String),
    /// The propagator could not produce a state vector for the requested time.
    PropagationError,
    /// A failure of no other kind.
    UnknownError(String),
}

/// The mathematical value of an [`Error`]: its kind and its text.
pub enum ErrorView {
    MalformedTwoLineElement(Seq<char>),
    PropagationError,
    UnknownError(Seq<char>),
}

impl View for Error {
    type V = ErrorView;

    open spec fn view(&self) -> ErrorView {
        match self {
            Error::MalformedTwoLineElement(d) => ErrorView::MalformedTwoLineElement(d@),
            Error::PropagationError => ErrorView::PropagationError,
            Error::UnknownError(d) => ErrorView::UnknownError(d@),
        }
    }
}

/// The human-readable text of an error.
pub open spec fn error_text(e: ErrorView) -> Seq<char> {
    match e {
        ErrorView::MalformedTwoLineElement(d) => "TLE was malformed: "@ + d,
        ErrorView::PropagationError => "Error in SGP4 propagator"@,
        ErrorView::UnknownError(d) => d,
    }
}

impl Error {
    /// The human-readable text of this error.
    pub fn message(&self) -> (r: String)
        ensures
            r@ == error_text(self@),
    {
        match self {
            Error::MalformedTwoLineElement(d) => {
                let mut m = String::from_str("TLE was malformed: ");
                m.append(d.as_str());
                m
            },
            Error::PropagationError => String::from_str("Error in SGP4 propagator"),
            Error::UnknownError(d) => String::from_str(d.as_str()),
        }
    }
}

} // verus!
