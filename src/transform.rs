//! The text transformation: carriage returns are dropped and every line feed
//! becomes a single space.

use vstd::prelude::*;

verus! {

broadcast use vstd::string::axiom_spec_iter;

/// The text that `s` becomes: each `'\r'` is removed, each `'\n'` is
/// replaced by `' '`, and every other character is kept in place.
pub open spec fn flattened(s: Seq<char>) -> Seq<char>
    decreases s.len(),
{
    if s.len() == 0 {
        Seq::empty()
    } else {
        let head = flattened(s.drop_last());
        let c = s.last();
        if c == '\r' {
            head
        } else if c == '\n' {
            head.push(' ')
        } else {
            head.push(c)
        }
    }
}

/// How many times `c` occurs in `s`.
pub open spec fn occurrences(s: Seq<char>, c: char) -> nat
    decreases s.len(),
{
    if s.len() == 0 {
        0
    } else {
        occurrences(s.drop_last(), c) + if s.last() == c { 1nat } else { 0nat }
    }
}

/// Relies on `String::push`: the character is appended at the end.
#[verifier::external_body]
fn push_char(s: &mut String, c: char)
    ensures
        final(s)@ == old(s)@.push(c),
{
    s.push(c)
}

/// Removes every carriage return from `text` and turns every line feed into a
/// space, whatever line-ending convention the text was written with.
pub fn remove_newlines(text: &str) -> (r: String)
    ensures
        r@ == flattened(text@),
{
    let mut out = String::new();
    for c in it: text.chars()
        invariant
            it.seq() == text@,
            out@ == flattened(text@.take(it.index() as int)),
    {
        proof {
            let i = it.index() as int;
            assert(text@.take(i + 1).drop_last() =~= text@.take(i));
        }
        if c == '\r' {
        } else if c == '\n' {
            push_char(&mut out, ' ');
        } else {
            push_char(&mut out, c);
        }
    }
    proof {
        assert(text@.take(text@.len() as int) =~= text@);
    }
    out
}

/// No carriage return or line feed is left in a flattened text.
pub proof fn lemma_flattened_has_no_breaks(s: Seq<char>)
    ensures
        forall|i: int|
            0 <= i < flattened(s).len() ==> #[trigger] flattened(s)[i] != '\r' && flattened(
                s,
            )[i] != '\n',
    decreases s.len(),
{
    if s.len() > 0 {
        lemma_flattened_has_no_breaks(s.drop_last());
        let head = flattened(s.drop_last());
        assert forall|i: int| 0 <= i < flattened(s).len() implies #[trigger] flattened(s)[i]
            != '\r' && flattened(s)[i] != '\n' by {
            if i < head.len() {
                assert(flattened(s)[i] == head[i]);
            }
        }
    }
}

/// A text without carriage returns and line feeds is left as it is.
pub proof fn lemma_flattened_keeps_plain_text(s: Seq<char>)
    requires
        forall|i: int| 0 <= i < s.len() ==> #[trigger] s[i] != '\r' && s[i] != '\n',
    ensures
        flattened(s) == s,
    decreases s.len(),
{
    if s.len() > 0 {
        lemma_flattened_keeps_plain_text(s.drop_last());
        assert(s.drop_last().push(s.last()) =~= s);
    }
}

/// Each character of the input accounts for one character of the output,
/// but a carriage return, which accounts for none.
pub proof fn lemma_flattened_len(s: Seq<char>)
    ensures
        flattened(s).len() + occurrences(s, '\r') == s.len(),
    decreases s.len(),
{
    if s.len() > 0 {
        lemma_flattened_len(s.drop_last());
    }
}

/// The spaces of the output are those of the input and one for each line
/// feed; no carriage return or line feed is counted in the output.
pub proof fn lemma_flattened_counts(s: Seq<char>)
    ensures
        occurrences(flattened(s), ' ') == occurrences(s, ' ') + occurrences(s, '\n'),
        occurrences(flattened(s), '\r') == 0,
        occurrences(flattened(s), '\n') == 0,
    decreases s.len(),
{
    if s.len() > 0 {
        lemma_flattened_counts(s.drop_last());
        let head = flattened(s.drop_last());
        let c = s.last();
        if c != '\r' {
            let x = if c == '\n' { ' ' } else { c };
            assert(head.push(x).drop_last() =~= head);
        }
    }
}

/// Flattening a text a second time changes nothing.
pub proof fn remove_newlines_is_idempotent(s: Seq<char>)
    ensures
        flattened(flattened(s)) == flattened(s),
{
    lemma_flattened_has_no_breaks(s);
    lemma_flattened_keeps_plain_text(flattened(s));
}

/// Whatever mix of `"\r\n"`, bare `'\n'` and bare `'\r'` the text holds, the
/// result holds no carriage return and no line feed, and it has one more
/// space than the input for each line feed of the input.
pub proof fn remove_newlines_covers_all_breaks(s: Seq<char>)
    ensures
        forall|i: int|
            0 <= i < flattened(s).len() ==> #[trigger] flattened(s)[i] != '\r' && flattened(
                s,
            )[i] != '\n',
        occurrences(flattened(s), '\r') == 0,
        occurrences(flattened(s), '\n') == 0,
        occurrences(flattened(s), ' ') == occurrences(s, ' ') + occurrences(s, '\n'),
{
    lemma_flattened_has_no_breaks(s);
    lemma_flattened_counts(s);
}

/// `s` ends its lines with `"\r\n"` only: each carriage return is followed by
/// a line feed, and each line feed follows a carriage return.
pub open spec fn crlf_only(s: Seq<char>) -> bool {
    &&& forall|i: int| 0 <= i < s.len() && #[trigger] s[i] == '\r' ==> i + 1 < s.len() && s[i + 1] == '\n'
    &&& forall|i: int| 0 <= i < s.len() && #[trigger] s[i] == '\n' ==> i > 0 && s[i - 1] == '\r'
}

/// A text whose line breaks are all `"\r\n"` does not grow: each pair becomes
/// one space, so the output is shorter by the number of pairs.
pub proof fn remove_newlines_shrinks_crlf_text(s: Seq<char>)
    requires
        crlf_only(s),
    ensures
        flattened(s).len() <= s.len(),
        flattened(s).len() == s.len() - occurrences(s, '\r'),
        occurrences(flattened(s), ' ') == occurrences(s, ' ') + occurrences(s, '\n'),
{
    lemma_flattened_len(s);
    lemma_flattened_counts(s);
}

} // verus!
