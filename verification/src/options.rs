//! What one translation call asks for.

use vstd::prelude::*;
use crate::variant::{client_of, Variant};

verus! {

/// The only destination target that the service knows.
pub const DST_TARGET: &'static str = "t";

/// A request as a mathematical value: the text of each field.
pub struct RequestView {
    pub client: Seq<char>,
    pub source_lang: Seq<char>,
    pub target_lang: Seq<char>,
    pub dst_target: Seq<char>,
    pub query: Seq<char>,
}

/// The fields of one request. Nothing is validated here: a field that the
/// service cannot use shows only in its answer.
#[derive(Clone, Copy, Debug, PartialEq, Eq)]
pub struct TranslateOptions<'a> {
    /// Selects the service's behaviour, `"p"` or `"gtx"`.
    pub client: &'a str,
    /// Language of the query, or `"auto"`.
    pub source_lang: &'a str,
    /// Language to translate into.
    pub target_lang: &'a str,
    /// Destination target, `"t"`.
    pub dst_target: &'a str,
    /// The text to translate.
    pub query: &'a str,
}

impl<'a> View for TranslateOptions<'a> {
    type V = RequestView;

    open spec fn view(&self) -> RequestView {
        RequestView {
            client: self.client@,
            source_lang: self.source_lang@,
            target_lang: self.target_lang@,
            dst_target: self.dst_target@,
            query: self.query@,
        }
    }
}

/// The request that a variant starts from: its own client tag, the fixed
/// destination target, and every other field empty.
pub open spec fn initial_request(variant: Variant) -> RequestView {
    RequestView {
        client: client_of(variant),
        source_lang: Seq::empty(),
        target_lang: Seq::empty(),
        dst_target: DST_TARGET@,
        query: Seq::empty(),
    }
}

/// The request that `new` and `default` give: that of the compact variant.
pub open spec fn default_request() -> RequestView {
    initial_request(Variant::Compact)
}

impl Default for TranslateOptions<'_> {
    fn default() -> (r: Self)
        ensures
            r@ == default_request(),
    {
        TranslateOptions::for_variant(Variant::Compact)
    }
}

impl TranslateOptions<'_> {
    /// A request for the compact endpoint with every language and the query
    /// still empty.
    pub fn new() -> (r: Self)
        ensures
            r@ == default_request(),
    {
        TranslateOptions::default()
    }

    /// A request for the given variant with every language and the query
    /// still empty.
    pub fn for_variant(variant: Variant) -> (r: Self)
        ensures
            r@ == initial_request(variant),
    {
        proof {
            reveal_strlit("");
        }
        let r = TranslateOptions {
            client: variant.client_tag(),
            source_lang: "",
            target_lang: "",
            dst_target: DST_TARGET,
            query: "",
        };
        assert(r.source_lang@ =~= Seq::<char>::empty());
        r
    }

    /// The same request with another client tag.
    pub fn set_client(self, client: &'static str) -> (r: Self)
        ensures
            r@ == (RequestView { client: client@, ..self@ }),
    {
        TranslateOptions { client, ..self }
    }

    /// The same request with another source language.
    pub fn set_source_lang(self, source_lang: &'static str) -> (r: Self)
        ensures
            r@ == (RequestView { source_lang: source_lang@, ..self@ }),
    {
        TranslateOptions { source_lang, ..self }
    }

    /// The same request with another target language.
    pub fn set_target_lang(self, target_lang: &'static str) -> (r: Self)
        ensures
            r@ == (RequestView { target_lang: target_lang@, ..self@ }),
    {
        TranslateOptions { target_lang, ..self }
    }

    /// The same request with another destination target.
    pub fn set_dst_target(self, dst_target: &'static str) -> (r: Self)
        ensures
            r@ == (RequestView { dst_target: dst_target@, ..self@ }),
    {
        TranslateOptions { dst_target, ..self }
    }

    /// The same request with another text to translate.
    pub fn query(self, query: &'static str) -> (r: Self)
        ensures
            r@ == (RequestView { query: query@, ..self@ }),
    {
        TranslateOptions { query, ..self }
    }
}

} // verus!
