//! The two shapes in which the service is asked and answers.

use vstd::prelude::*;

verus! {

/// Endpoint of the compact shape: the answer is a JSON array.
pub const API_URL: &'static str = "https://translate.google.com/translate_a/t";

/// Endpoint of the classic shape: the answer carries the text between quotes.
pub const CLASSIC_API_URL: &'static str = "https://translate.google.com/translate_a/single";

/// The client tag that goes with the compact endpoint.
pub const COMPACT_CLIENT: &'static str = "p";

/// The client tag that goes with the classic endpoint.
pub const CLASSIC_CLIENT: &'static str = "gtx";

/// Which endpoint a call goes to, and with it which grammar reads the answer.
#[derive(Clone, Copy, Debug, PartialEq, Eq, Structural)]
pub enum Variant {
    Classic,
    Compact,
}

/// The endpoint that belongs to a variant.
pub open spec fn endpoint_of(variant: Variant) -> Seq<char> {
    match variant {
        Variant::Classic => CLASSIC_API_URL@,
        Variant::Compact => API_URL@,
    }
}

/// The client tag that belongs to a variant.
pub open spec fn client_of(variant: Variant) -> Seq<char> {
    match variant {
        Variant::Classic => CLASSIC_CLIENT@,
        Variant::Compact => COMPACT_CLIENT@,
    }
}

impl Variant {
    /// The base address that requests of this variant go to.
    pub fn endpoint(self) -> (r: &'static str)
        ensures
            r@ == endpoint_of(self),
    {
        match self {
            Variant::Classic => CLASSIC_API_URL,
            Variant::Compact => API_URL,
        }
    }

    /// The client tag that this variant's endpoint expects.
    pub fn client_tag(self) -> (r: &'static str)
        ensures
            r@ == client_of(self),
    {
        match self {
            Variant::Classic => CLASSIC_CLIENT,
            Variant::Compact => COMPACT_CLIENT,
        }
    }
}

} // verus!
