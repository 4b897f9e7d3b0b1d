//! One call from end to end: the target to ask, and what to make of the
//! exchange once the transport has carried it out.

use vstd::prelude::*;
use crate::encoder::{encode, target_of, RequestTarget, TargetView};
use crate::errors::{outcome, Failure, TranslatorErrors};
use crate::normalizer::{normalize, normalized};
use crate::options::{RequestView, TranslateOptions};
use crate::variant::{endpoint_of, Variant};

verus! {

/// What the service sent back.
#[derive(Clone, Debug, PartialEq, Eq)]
pub struct Reply {
    pub status: u16,
    pub body: String,
}

/// An exchange as a mathematical value: the status and body that came back,
/// or the transport's account of why nothing did.
pub open spec fn exchange_view(exchange: Result<Reply, String>) -> Result<(int, Seq<char>), Seq<char>> {
    match exchange {
        Ok(reply) => Ok((reply.status as int, reply.body@)),
        Err(cause) => Err(cause@),
    }
}

/// The target that a request of a variant goes to.
pub open spec fn prepared(variant: Variant, request: RequestView) -> TargetView {
    target_of(endpoint_of(variant), request)
}

/// What a call comes to. A transport failure is handed on with its cause;
/// an answer is read by the variant's grammar.
pub open spec fn concluded(variant: Variant, exchange: Result<(int, Seq<char>), Seq<char>>) -> Result<
    Seq<char>,
    Failure,
> {
    match exchange {
        Err(cause) => Err(Failure::Transport(cause)),
        Ok(reply) => normalized(variant, reply.0, reply.1),
    }
}

/// Builds the target of a request at the variant's endpoint.
pub fn prepare(variant: Variant, request: &TranslateOptions<'_>) -> (r: RequestTarget)
    ensures
        r@ == prepared(variant, request@),
{
    encode(variant.endpoint(), request)
}

/// Settles a call once the transport is done with it: either the
/// translated text, or the one failure that ended the call.
pub fn conclude(variant: Variant, exchange: Result<Reply, String>) -> (r: Result<
    String,
    TranslatorErrors,
>)
    ensures
        outcome(r) == concluded(variant, exchange_view(exchange)),
        exchange is Err ==> outcome(r) == Err::<Seq<char>, Failure>(
            Failure::Transport(exchange->Err_0@),
        ),
{
    match exchange {
        Err(cause) => Err(TranslatorErrors::Transport(cause)),
        Ok(reply) => normalize(variant, reply.status, reply.body.as_str()),
    }
}

/// A call is repeatable: the same request goes to the same target, and
/// where the exchange goes the same way twice, both calls come to the same
/// translation or the same failure.
pub proof fn repeated_call_agrees(
    variant: Variant,
    first_request: RequestView,
    second_request: RequestView,
    first_exchange: Result<(int, Seq<char>), Seq<char>>,
    second_exchange: Result<(int, Seq<char>), Seq<char>>,
)
    requires
        first_request == second_request,
        first_exchange == second_exchange,
    ensures
        prepared(variant, first_request) == prepared(variant, second_request),
        concluded(variant, first_exchange) == concluded(variant, second_exchange),
{
}

} // verus!
