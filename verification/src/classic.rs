//! The classic grammar: the translated text stands between the first two
//! quotes of the body.

use vstd::prelude::*;
use vstd::std_specs::iter::IteratorSpec;
use crate::errors::{outcome, Failure, TranslatorErrors};
use crate::text::{is_quote, is_quote_free};

verus! {

/// How many characters of a text stand before its first quote; its length
/// where it has none.
pub open spec fn lead_len(s: Seq<char>) -> nat
    decreases s.len(),
{
    if s.len() == 0 || is_quote(s[0]) {
        0
    } else {
        1 + lead_len(s.drop_first())
    }
}

/// The pieces that a text falls into when it is cut at each quote. There is
/// one more piece than there are quotes.
pub open spec fn quote_segments(s: Seq<char>) -> Seq<Seq<char>>
    decreases s.len(),
{
    let k = lead_len(s) as int;
    if k >= s.len() {
        seq![s]
    } else {
        seq![s.take(k)] + quote_segments(s.skip(k + 1))
    }
}

/// The pieces put together again, with a quote between neighbours.
pub open spec fn joined(segments: Seq<Seq<char>>) -> Seq<char>
    decreases segments.len(),
{
    if segments.len() == 0 {
        Seq::empty()
    } else if segments.len() == 1 {
        segments[0]
    } else {
        segments[0] + seq!['"'] + joined(segments.drop_first())
    }
}

/// What the classic grammar makes of a body: its second piece, unless there
/// is none or it is empty.
pub open spec fn classic_text(body: Seq<char>) -> Result<Seq<char>, Failure> {
    let segments = quote_segments(body);
    if segments.len() < 2 || segments[1].len() == 0 {
        Err(Failure::FailedParsing)
    } else {
        Ok(segments[1])
    }
}

/// `lead_len` stops at the first quote and nowhere before it.
pub proof fn lemma_lead_len(s: Seq<char>)
    ensures
        lead_len(s) <= s.len(),
        is_quote_free(s.take(lead_len(s) as int)),
        lead_len(s) < s.len() ==> is_quote(s[lead_len(s) as int]),
    decreases s.len(),
{
    if s.len() == 0 || is_quote(s[0]) {
    } else {
        let t = s.drop_first();
        lemma_lead_len(t);
        let k = lead_len(t) as int;
        assert forall|i: int| 0 <= i < k + 1 implies !is_quote(#[trigger] s.take(k + 1)[i]) by {
            if i > 0 {
                assert(t.take(k)[i - 1] == s[i]);
            }
        }
        if k < t.len() {
            assert(t[k] == s[k + 1]);
        }
    }
}

/// A position that holds a quote, or the end, with no quote before it is
/// where `lead_len` stops.
pub proof fn lemma_lead_len_is(s: Seq<char>, k: int)
    requires
        0 <= k <= s.len(),
        is_quote_free(s.take(k)),
        k < s.len() ==> is_quote(s[k]),
    ensures
        lead_len(s) == k,
    decreases s.len(),
{
    if s.len() == 0 {
    } else if is_quote(s[0]) {
        if k > 0 {
            assert(s.take(k)[0] == s[0]);
        }
    } else {
        let t = s.drop_first();
        assert forall|i: int| 0 <= i < k - 1 implies !is_quote(#[trigger] t.take(k - 1)[i]) by {
            assert(s.take(k)[i + 1] == t[i]);
        }
        if k - 1 < t.len() {
            assert(t[k - 1] == s[k]);
        }
        lemma_lead_len_is(t, k - 1);
    }
}

/// The first piece of a text is what stands before its first quote.
pub proof fn lemma_first_segment(s: Seq<char>)
    ensures
        quote_segments(s).len() >= 1,
        quote_segments(s)[0] == s.take(lead_len(s) as int),
        quote_segments(s).len() >= 2 <==> lead_len(s) < s.len(),
{
    lemma_lead_len(s);
    let k = lead_len(s) as int;
    if k >= s.len() {
        assert(s.take(k) =~= s);
    } else {
        lemma_first_segment_exists(s.skip(k + 1));
    }
}

proof fn lemma_first_segment_exists(s: Seq<char>)
    ensures
        quote_segments(s).len() >= 1,
{
}

/// The second piece of a text is what stands between its first quote and the
/// next one, or the end.
pub proof fn lemma_second_segment(s: Seq<char>, first: int, next: int)
    requires
        0 <= first < next <= s.len(),
        is_quote_free(s.take(first)),
        is_quote(s[first]),
        is_quote_free(s.subrange(first + 1, next)),
        next < s.len() ==> is_quote(s[next]),
    ensures
        quote_segments(s).len() >= 2,
        quote_segments(s)[1] == s.subrange(first + 1, next),
{
    lemma_lead_len_is(s, first);
    let rest = s.skip(first + 1);
    assert(rest.take(next - first - 1) =~= s.subrange(first + 1, next));
    if next < s.len() {
        assert(rest[next - first - 1] == s[next]);
    }
    lemma_lead_len_is(rest, next - first - 1);
    lemma_first_segment(rest);
}

/// Cutting undoes joining: pieces without a quote, joined and cut again, come
/// back as they were.
pub proof fn cut_of_joined(segments: Seq<Seq<char>>)
    requires
        segments.len() >= 1,
        forall|i: int| 0 <= i < segments.len() ==> is_quote_free(#[trigger] segments[i]),
    ensures
        quote_segments(joined(segments)) == segments,
    decreases segments.len(),
{
    let whole = joined(segments);
    let head = segments[0];
    if segments.len() == 1 {
        assert(whole.take(whole.len() as int) =~= whole);
        lemma_lead_len_is(whole, whole.len() as int);
        assert(quote_segments(whole) =~= segments);
    } else {
        let tail = segments.drop_first();
        assert forall|i: int| 0 <= i < tail.len() implies is_quote_free(#[trigger] tail[i]) by {
            assert(tail[i] == segments[i + 1]);
        }
        cut_of_joined(tail);
        let k = head.len() as int;
        assert(whole.take(k) =~= head);
        assert(whole[k] == '"');
        lemma_lead_len_is(whole, k);
        assert(whole.skip(k + 1) =~= joined(tail));
        assert(quote_segments(whole) =~= segments);
    }
}

/// Joining undoes cutting: the pieces of a text hold no quote, and joined
/// they give the text back.
pub proof fn joined_of_cut(s: Seq<char>)
    ensures
        joined(quote_segments(s)) == s,
        forall|i: int|
            0 <= i < quote_segments(s).len() ==> is_quote_free(#[trigger] quote_segments(s)[i]),
    decreases s.len(),
{
    lemma_lead_len(s);
    let k = lead_len(s) as int;
    let segments = quote_segments(s);
    if k >= s.len() {
        assert(s.take(k) =~= s);
    } else {
        let rest = s.skip(k + 1);
        joined_of_cut(rest);
        lemma_first_segment(rest);
        assert(segments.drop_first() =~= quote_segments(rest));
        assert(joined(segments) =~= s);
        assert forall|i: int| 0 <= i < segments.len() implies is_quote_free(
            #[trigger] segments[i],
        ) by {
            if i > 0 {
                assert(segments[i] == quote_segments(rest)[i - 1]);
            }
        }
    }
}

/// A body made of two or more pieces without a quote, joined by quotes, is
/// read as its second piece, provided that piece is not empty.
pub proof fn classic_returns_second_segment(segments: Seq<Seq<char>>)
    requires
        segments.len() >= 2,
        forall|i: int| 0 <= i < segments.len() ==> is_quote_free(#[trigger] segments[i]),
        segments[1].len() > 0,
    ensures
        classic_text(joined(segments)) == Ok::<Seq<char>, Failure>(segments[1]),
{
    cut_of_joined(segments);
}

/// A body with fewer than two pieces, that is one without a quote, does not
/// parse.
pub proof fn classic_needs_two_segments(body: Seq<char>)
    ensures
        quote_segments(body).len() < 2 <==> is_quote_free(body),
        is_quote_free(body) ==> classic_text(body) == Err::<Seq<char>, Failure>(
            Failure::FailedParsing,
        ),
{
    lemma_lead_len(body);
    lemma_first_segment(body);
    let k = lead_len(body) as int;
    if k >= body.len() {
        assert(body.take(k) =~= body);
    }
}

/// Reads a body by the classic grammar: the text between the first quote and
/// the next one, or the end of the body where no second quote follows.
/// A body without a quote, or with nothing between the two, does not parse.
pub fn extract_classic(body: &str) -> (r: Result<String, TranslatorErrors>)
    ensures
        outcome(r) == classic_text(body@),
{
    broadcast use vstd::string::group_string_axioms;

    let mut it = body.chars();
    let mut text = String::new();
    let mut opened = false;
    let ghost mut seen: int = 0;
    let ghost mut first: int = 0;
    loop
        invariant_except_break
            0 <= seen <= body@.len(),
            it.remaining() == body@.skip(seen),
            !opened ==> is_quote_free(body@.take(seen)) && text@.len() == 0,
            opened ==> {
                &&& 0 <= first < seen
                &&& is_quote_free(body@.take(first))
                &&& is_quote(body@[first])
                &&& is_quote_free(body@.subrange(first + 1, seen))
                &&& text@ == body@.subrange(first + 1, seen)
            },
        ensures
            opened == (quote_segments(body@).len() >= 2),
            opened ==> text@ == quote_segments(body@)[1],
            !opened ==> text@.len() == 0,
        decreases body@.len() - seen,
    {
        match it.next() {
            None => {
                proof {
                    if opened {
                        lemma_second_segment(body@, first, seen);
                    } else {
                        assert(body@.take(seen) =~= body@);
                        lemma_lead_len_is(body@, seen);
                        lemma_first_segment(body@);
                    }
                }
                break ;
            },
            Some(c) => {
                assert(c == body@[seen]);
                assert(body@.skip(seen).drop_first() =~= body@.skip(seen + 1));
                if c == '"' {
                    if opened {
                        proof {
                            lemma_second_segment(body@, first, seen);
                        }
                        break ;
                    }
                    opened = true;
                    proof {
                        first = seen;
                        assert(body@.subrange(first + 1, seen + 1) =~= Seq::<char>::empty());
                    }
                } else if opened {
                    text.push(c);
                    proof {
                        let grown = body@.subrange(first + 1, seen + 1);
                        assert(grown =~= body@.subrange(first + 1, seen).push(c));
                    }
                } else {
                    proof {
                        assert(body@.take(seen + 1) =~= body@.take(seen).push(c));
                    }
                }
                proof {
                    seen = seen + 1;
                }
            },
        }
    }
    if text.as_str().is_empty() {
        Err(TranslatorErrors::FailedParsing)
    } else {
        Ok(text)
    }
}

} // verus!
