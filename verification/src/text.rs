//! Building and classifying text, one character at a time.

use vstd::prelude::*;
use vstd::std_specs::iter::IteratorSpec;

verus! {

/// `String::push` appends the given character to the end of the string.
pub assume_specification[ String::push ](s: &mut String, ch: char)
    ensures
        final(s)@ == old(s)@.push(ch),
;

/// The character that delimits text in both grammars.
pub open spec fn is_quote(c: char) -> bool {
    c == '"'
}

/// Space, tab, line feed, form feed and carriage return.
pub open spec fn is_blank_char(c: char) -> bool {
    c == ' ' || c == '\t' || c == '\n' || c == '\x0C' || c == '\r'
}

/// A text that is empty or holds blank characters only.
pub open spec fn is_blank(s: Seq<char>) -> bool {
    forall|i: int| 0 <= i < s.len() ==> is_blank_char(#[trigger] s[i])
}

/// A text without any quote.
pub open spec fn is_quote_free(s: Seq<char>) -> bool {
    forall|i: int| 0 <= i < s.len() ==> !is_quote(#[trigger] s[i])
}

/// Tells whether a text is empty or holds blank characters only.
pub fn blank(s: &str) -> (r: bool)
    ensures
        r == is_blank(s@),
{
    broadcast use vstd::string::group_string_axioms;

    let mut it = s.chars();
    let ghost mut seen: int = 0;
    loop
        invariant
            0 <= seen <= s@.len(),
            it.remaining() == s@.skip(seen),
            is_blank(s@.take(seen)),
        decreases s@.len() - seen,
    {
        match it.next() {
            None => {
                assert(s@.take(seen) =~= s@);
                return true;
            },
            Some(c) => {
                assert(c == s@[seen]);
                if !(c == ' ' || c == '\t' || c == '\n' || c == '\x0C' || c == '\r') {
                    return false;
                }
                proof {
                    assert(s@.skip(seen).drop_first() =~= s@.skip(seen + 1));
                    assert forall|i: int| 0 <= i < seen + 1 implies is_blank_char(
                        #[trigger] s@.take(seen + 1)[i],
                    ) by {
                        if i < seen {
                            assert(s@.take(seen)[i] == s@[i]);
                        }
                    }
                    seen = seen + 1;
                }
            },
        }
    }
}

} // verus!
