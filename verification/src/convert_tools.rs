//! Text conversion helpers used when building links for e-mails.
use vstd::prelude::*;

use crate::text::push_char;

verus! {

/// Holder of the conversion functions.
pub struct ConvertTools {}

/// The URL encoding of one character: reserved characters become their
/// percent code, every other character stays as it is. A single quote is
/// written as `%60`, the code this service has always used for it.
pub open spec fn escape_char(c: char) -> Seq<char> {
    if c == ' ' { seq!['%', '2', '0'] }
    else if c == '<' { seq!['%', '3', 'C'] }
    else if c == '>' { seq!['%', '3', 'E'] }
    else if c == '#' { seq!['%', '2', '3'] }
    else if c == '%' { seq!['%', '2', '5'] }
    else if c == '+' { seq!['%', '2', 'B'] }
    else if c == '{' { seq!['%', '7', 'B'] }
    else if c == '}' { seq!['%', '7', 'D'] }
    else if c == '|' { seq!['%', '7', 'C'] }
    else if c == '\\' { seq!['%', '5', 'C'] }
    else if c == '^' { seq!['%', '5', 'E'] }
    else if c == '~' { seq!['%', '7', 'E'] }
    else if c == '[' { seq!['%', '5', 'B'] }
    else if c == ']' { seq!['%', '5', 'D'] }
    else if c == '\'' { seq!['%', '6', '0'] }
    else if c == ';' { seq!['%', '3', 'B'] }
    else if c == '/' { seq!['%', '2', 'F'] }
    else if c == '?' { seq!['%', '3', 'F'] }
    else if c == ':' { seq!['%', '3', 'A'] }
    else if c == '@' { seq!['%', '4', '0'] }
    else if c == '=' { seq!['%', '3', 'D'] }
    else if c == '&' { seq!['%', '2', '6'] }
    else if c == '$' { seq!['%', '2', '4'] }
    else { seq![c] }
}

/// The encoding of a whole text: the encodings of its characters, in order.
pub open spec fn escape_text(s: Seq<char>) -> Seq<char>
    decreases s.len(),
{
    if s.len() == 0 {
        Seq::empty()
    } else {
        escape_text(s.drop_last()) + escape_char(s.last())
    }
}

/// Whether a character is one of those that the encoding replaces.
pub open spec fn is_reserved_char(c: char) -> bool {
    escape_char(c) != seq![c]
}

fn push_code(r: &mut String, a: char, b: char, c: char)
    ensures
        final(r)@ == old(r)@ + seq![a, b, c],
{
    push_char(r, a);
    push_char(r, b);
    push_char(r, c);
    assert(final(r)@ =~= old(r)@ + seq![a, b, c]);
}

fn push_escaped(r: &mut String, c: char)
    ensures
        final(r)@ == old(r)@ + escape_char(c),
{
    if c == ' ' { push_code(r, '%', '2', '0') }
    else if c == '<' { push_code(r, '%', '3', 'C') }
    else if c == '>' { push_code(r, '%', '3', 'E') }
    else if c == '#' { push_code(r, '%', '2', '3') }
    else if c == '%' { push_code(r, '%', '2', '5') }
    else if c == '+' { push_code(r, '%', '2', 'B') }
    else if c == '{' { push_code(r, '%', '7', 'B') }
    else if c == '}' { push_code(r, '%', '7', 'D') }
    else if c == '|' { push_code(r, '%', '7', 'C') }
    else if c == '\\' { push_code(r, '%', '5', 'C') }
    else if c == '^' { push_code(r, '%', '5', 'E') }
    else if c == '~' { push_code(r, '%', '7', 'E') }
    else if c == '[' { push_code(r, '%', '5', 'B') }
    else if c == ']' { push_code(r, '%', '5', 'D') }
    else if c == '\'' { push_code(r, '%', '6', '0') }
    else if c == ';' { push_code(r, '%', '3', 'B') }
    else if c == '/' { push_code(r, '%', '2', 'F') }
    else if c == '?' { push_code(r, '%', '3', 'F') }
    else if c == ':' { push_code(r, '%', '3', 'A') }
    else if c == '@' { push_code(r, '%', '4', '0') }
    else if c == '=' { push_code(r, '%', '3', 'D') }
    else if c == '&' { push_code(r, '%', '2', '6') }
    else if c == '$' { push_code(r, '%', '2', '4') }
    else {
        push_char(r, c);
    }
}

impl ConvertTools {
    /// Percent-encodes the characters of `input` that are reserved in URLs.
    pub fn escape_htmltext(input: &String) -> (r: String)
        ensures
            r@ == escape_text(input@),
    {
        let mut result = String::new();
        let ghost text = input@;
        for c in it: input.as_str().chars()
            invariant
                it.seq() == text,
                result@ == escape_text(text.take(it.index() as int)),
        {
            proof {
                assert(text.take(it.index() + 1).drop_last() =~= text.take(it.index() as int));
            }
            push_escaped(&mut result, c);
        }
        proof {
            assert(text.take(text.len() as int) =~= text);
        }
        result
    }
}

/// Encoding a concatenation encodes the parts one after the other.
pub proof fn law_escape_concat(a: Seq<char>, b: Seq<char>)
    ensures
        escape_text(a + b) == escape_text(a) + escape_text(b),
    decreases b.len(),
{
    if b.len() == 0 {
        assert(a + b =~= a);
        assert(escape_text(a) + escape_text(b) =~= escape_text(a));
    } else {
        law_escape_concat(a, b.drop_last());
        assert((a + b).drop_last() =~= a + b.drop_last());
        assert((a + b).last() == b.last());
        assert(escape_text(a) + escape_text(b) =~= escape_text(a) + escape_text(b.drop_last())
            + escape_char(b.last()));
    }
}

/// A text without reserved characters is left as it is.
pub proof fn law_escape_plain_text_unchanged(s: Seq<char>)
    requires
        forall|i: int| 0 <= i < s.len() ==> !is_reserved_char(#[trigger] s[i]),
    ensures
        escape_text(s) == s,
    decreases s.len(),
{
    if s.len() > 0 {
        assert(!is_reserved_char(s[s.len() - 1]));
        law_escape_plain_text_unchanged(s.drop_last());
        assert(s.drop_last().push(s.last()) =~= s);
    }
}

/// The encoded text holds no reserved character but the `%` that starts
/// each code.
pub proof fn law_escape_leaves_only_percent_reserved(s: Seq<char>)
    ensures
        forall|i: int|
            0 <= i < escape_text(s).len() && is_reserved_char(#[trigger] escape_text(s)[i])
                ==> escape_text(s)[i] == '%',
    decreases s.len(),
{
    if s.len() > 0 {
        law_escape_leaves_only_percent_reserved(s.drop_last());
        let prev = escape_text(s.drop_last());
        let tail = escape_char(s.last());
        assert forall|i: int| 0 <= i < tail.len() && is_reserved_char(#[trigger] tail[i]) implies tail[i] == '%' by {
        }
        assert forall|i: int|
            0 <= i < escape_text(s).len() && is_reserved_char(#[trigger] escape_text(s)[i]) implies escape_text(s)[i]
                == '%' by {
            if i < prev.len() {
                assert(escape_text(s)[i] == prev[i]);
            } else {
                assert(escape_text(s)[i] == tail[i - prev.len()]);
            }
        }
    }
}

/// The characters the encoding percent-codes: those reserved or unsafe in
/// URLs (space < > # % + { } | \ ^ ~ [ ] ; / ? : @ = & $) and the single
/// quote.
pub open spec fn url_reserved(c: char) -> bool {
    c == ' ' || c == '<' || c == '>' || c == '#' || c == '%' || c == '+' || c == '{' || c == '}'
        || c == '|' || c == '\\' || c == '^' || c == '~' || c == '[' || c == ']' || c == '\'' || c == ';'
        || c == '/' || c == '?' || c == ':' || c == '@' || c == '=' || c == '&' || c == '$'
}

/// The upper-case hexadecimal digit of a number below 16.
pub open spec fn hex_upper(n: int) -> char {
    if n < 10 {
        (n + 48) as char
    } else {
        (n + 55) as char
    }
}

/// Every character outside the reserved ones, letters and digits among
/// them, encodes as itself.
pub proof fn law_unreserved_char_kept(c: char)
    requires
        !url_reserved(c),
    ensures
        escape_char(c) == seq![c],
{
}

/// Every reserved character encodes as `%` and the two upper-case
/// hexadecimal digits of its code, but the single quote, which encodes as
/// `%60`.
pub proof fn law_reserved_char_percent_coded(c: char)
    requires
        url_reserved(c),
    ensures
        c != '\'' ==> escape_char(c) == seq!['%', hex_upper(c as int / 16), hex_upper(c as int % 16)],
        c == '\'' ==> escape_char(c) == seq!['%', '6', '0'],
{
}

/// A text without reserved characters encodes as itself, and encoding
/// never shortens a text: each character gives one character, or three for
/// a reserved one.
pub proof fn law_escape_keeps_unreserved_text(s: Seq<char>)
    ensures
        (forall|i: int| 0 <= i < s.len() ==> !url_reserved(#[trigger] s[i])) ==> escape_text(s) == s,
        escape_text(s).len() >= s.len(),
    decreases s.len(),
{
    if s.len() > 0 {
        law_escape_keeps_unreserved_text(s.drop_last());
        if forall|i: int| 0 <= i < s.len() ==> !url_reserved(#[trigger] s[i]) {
            assert(!url_reserved(s[s.len() - 1]));
            assert forall|i: int| 0 <= i < s.drop_last().len() implies !url_reserved(#[trigger] s.drop_last()[i]) by {
                assert(s.drop_last()[i] == s[i]);
            }
            law_unreserved_char_kept(s.last());
            assert(s.drop_last().push(s.last()) =~= s);
        }
    }
}

} // verus!
