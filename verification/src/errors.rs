//! The ways in which one translation call can fail.

use vstd::prelude::*;
use vstd::string::StringExecFns;

verus! {

/// The outcome of a call that produced no translation.
#[derive(Clone, Debug, PartialEq, Eq)]
pub enum TranslatorErrors {
    /// The service answered with a status outside 200..=299.
    InvalidResponse,
    /// The body did not have the shape that the variant in use expects.
    FailedParsing,
    /// The exchange did not complete; the text is the transport's own account.
    Transport(String),
}

/// A failure as a mathematical value.
pub enum Failure {
    InvalidResponse,
    FailedParsing,
    Transport(Seq<char>),
}

impl View for TranslatorErrors {
    type V = Failure;

    open spec fn view(&self) -> Failure {
        match self {
            TranslatorErrors::InvalidResponse => Failure::InvalidResponse,
            TranslatorErrors::FailedParsing => Failure::FailedParsing,
            TranslatorErrors::Transport(cause) => Failure::Transport(cause@),
        }
    }
}

/// What a call came to, as a mathematical value: the translated text or the
/// failure.
pub open spec fn outcome(r: Result<String, TranslatorErrors>) -> Result<Seq<char>, Failure> {
    match r {
        Ok(text) => Ok(text@),
        Err(e) => Err(e@),
    }
}

/// The sentence that stands for a failure.
pub open spec fn description(failure: Failure) -> Seq<char> {
    match failure {
        Failure::InvalidResponse => "got invalid response"@,
        Failure::FailedParsing => "failed parsing"@,
        Failure::Transport(cause) => cause,
    }
}

impl TranslatorErrors {
    /// The failure in words; a transport failure speaks for itself.
    pub fn message(&self) -> (r: String)
        ensures
            r@ == description(self@),
    {
        match self {
            TranslatorErrors::InvalidResponse => String::from_str("got invalid response"),
            TranslatorErrors::FailedParsing => String::from_str("failed parsing"),
            TranslatorErrors::Transport(cause) => cause.clone(),
        }
    }
}

} // verus!
