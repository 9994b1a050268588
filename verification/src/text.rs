//! Small verified string helpers: concatenation, decimal rendering and
//! single-character pushes, stated over the `Seq<char>` view of strings.
use vstd::prelude::*;

verus! {

/// Whether `r` is an error with the text `m`.
pub open spec fn fails_with<T>(r: Result<T, String>, m: Seq<char>) -> bool {
    r matches Err(e) && e@ == m
}

/// `String::push` from std: appends one character.
#[verifier::external_body]
pub(crate) fn push_char(s: &mut String, c: char)
    ensures
        final(s)@ == old(s)@.push(c),
{
    s.push(c);
}

/// A fresh string holding `a` followed by `b`.
pub fn concat2(a: &str, b: &str) -> (r: String)
    ensures
        r@ == a@ + b@,
{
    let mut r = String::from_str(a);
    r.append(b);
    r
}

/// A fresh string holding `a`, `b` and `c` in that order.
pub fn concat3(a: &str, b: &str, c: &str) -> (r: String)
    ensures
        r@ == a@ + b@ + c@,
{
    let mut r = String::from_str(a);
    r.append(b);
    r.append(c);
    r
}

/// The decimal digit character for `d` in 0..=9.
pub open spec fn digit_char(d: int) -> char {
    if d == 0 { '0' }
    else if d == 1 { '1' }
    else if d == 2 { '2' }
    else if d == 3 { '3' }
    else if d == 4 { '4' }
    else if d == 5 { '5' }
    else if d == 6 { '6' }
    else if d == 7 { '7' }
    else if d == 8 { '8' }
    else { '9' }
}

/// The decimal digits of a natural number, most significant first, without
/// leading zeros ("0" for zero).
pub open spec fn nat_digits(n: nat) -> Seq<char>
    decreases n,
{
    if n < 10 {
        seq![digit_char(n as int)]
    } else {
        nat_digits((n / 10) as nat).push(digit_char((n % 10) as int))
    }
}

/// The decimal rendering of an integer, with a leading '-' for negatives,
/// as std's `Display` for integers writes it.
pub open spec fn int_decimal(v: int) -> Seq<char> {
    if v < 0 {
        seq!['-'] + nat_digits((-v) as nat)
    } else {
        nat_digits(v as nat)
    }
}

fn digit_of(d: u64) -> (c: char)
    requires
        d < 10,
    ensures
        c == digit_char(d as int),
{
    if d == 0 { '0' }
    else if d == 1 { '1' }
    else if d == 2 { '2' }
    else if d == 3 { '3' }
    else if d == 4 { '4' }
    else if d == 5 { '5' }
    else if d == 6 { '6' }
    else if d == 7 { '7' }
    else if d == 8 { '8' }
    else { '9' }
}

/// Renders an unsigned number in decimal.
pub fn u64_decimal(v: u64) -> (r: String)
    ensures
        r@ == nat_digits(v as nat),
    decreases v,
{
    if v < 10 {
        let mut r = String::new();
        push_char(&mut r, digit_of(v));
        r
    } else {
        let mut r = u64_decimal(v / 10);
        push_char(&mut r, digit_of(v % 10));
        r
    }
}

/// Renders a signed number in decimal, as `format!("{}", v)` does.
pub fn i64_decimal(v: i64) -> (r: String)
    ensures
        r@ == int_decimal(v as int),
{
    if v < 0 {
        let magnitude: u64 = if v == i64::MIN {
            9223372036854775808u64
        } else {
            (-v) as u64
        };
        let digits = u64_decimal(magnitude);
        let mut r = String::new();
        push_char(&mut r, '-');
        r.append(digits.as_str());
        r
    } else {
        u64_decimal(v as u64)
    }
}

/// Whether a character is an ASCII decimal digit.
pub open spec fn is_digit_char(c: char) -> bool {
    '0' <= c && c <= '9'
}

/// The value of an ASCII decimal digit.
pub open spec fn digit_value(c: char) -> nat {
    ((c as int) - ('0' as int)) as nat
}

/// The value of a string of decimal digits (0 for the empty string), or
/// `None` when some character is not a digit.
pub open spec fn digits_value(t: Seq<char>) -> Option<nat>
    decreases t.len(),
{
    if t.len() == 0 {
        Some(0)
    } else if !is_digit_char(t.last()) {
        None
    } else {
        match digits_value(t.drop_last()) {
            Some(v) => Some(v * 10 + digit_value(t.last())),
            None => None,
        }
    }
}

/// The number an unsigned integer's `FromStr` reads from a text: an
/// optional `+` followed by at least one decimal digit; `None` for anything
/// else. Whether the number fits the target type is checked separately.
pub open spec fn unsigned_text_value(s: Seq<char>) -> Option<nat> {
    if s.len() == 0 {
        None
    } else if s[0] == '+' {
        if s.len() == 1 {
            None
        } else {
            digits_value(s.drop_first())
        }
    } else {
        digits_value(s)
    }
}

/// The number read from the text when it is at most `max`.
pub open spec fn bounded_text_value(s: Seq<char>, max: nat) -> Option<nat> {
    match unsigned_text_value(s) {
        Some(v) => if v <= max {
            Some(v)
        } else {
            None
        },
        None => None,
    }
}

/// A longer run of digits is worth no less than its prefix.
pub proof fn lemma_digits_value_grows(t: Seq<char>, k: int)
    requires
        0 <= k <= t.len(),
        digits_value(t) is Some,
    ensures
        digits_value(t.take(k)) is Some,
        digits_value(t.take(k))->0 <= digits_value(t)->0,
    decreases t.len(),
{
    if k < t.len() {
        assert(t.drop_last().take(k) =~= t.take(k));
        lemma_digits_value_grows(t.drop_last(), k);
    } else {
        assert(t.take(k) =~= t);
    }
}

/// Reads an unsigned number of at most `max` the way an unsigned integer's
/// `FromStr` does: an optional `+` and at least one decimal digit.
pub fn parse_bounded_unsigned(s: &str, max: u32) -> (r: Option<u32>)
    ensures
        match bounded_text_value(s@, max as nat) {
            Some(v) => r == Some(v as u32),
            None => r is None,
        },
{
    let ghost text = s@;
    let n = s.unicode_len();
    if n == 0 {
        return None;
    }
    let first = s.get_char(0);
    let start: usize = if first == '+' { 1 } else { 0 };
    if start == 1 && n == 1 {
        return None;
    }
    let ghost digits = text.subrange(start as int, text.len() as int);
    proof {
        if start == 1 {
            assert(digits =~= text.drop_first());
        } else {
            assert(digits =~= text);
        }
    }
    let mut value: u64 = 0;
    let mut i: usize = start;
    while i < n
        invariant
            text == s@,
            n == text.len(),
            start <= i <= n,
            digits == text.subrange(start as int, text.len() as int),
            unsigned_text_value(text) == digits_value(digits),
            digits_value(digits.take(i - start)) == Some(value as nat),
            value <= max,
        decreases n - i,
    {
        let c = s.get_char(i);
        let ghost k = i - start;
        proof {
            assert(digits.take(k + 1).drop_last() =~= digits.take(k));
            assert(digits.take(k + 1).last() == c);
        }
        if c < '0' || c > '9' {
            proof {
                lemma_digits_prefix_invalid(digits, k + 1);
            }
            return None;
        }
        let d: u64 = (c as u64) - ('0' as u64);
        let next: u64 = value * 10 + d;
        if next > max as u64 {
            proof {
                if digits_value(digits) is Some {
                    lemma_digits_value_grows(digits, k + 1);
                }
            }
            return None;
        }
        value = next;
        i = i + 1;
    }
    proof {
        assert(digits.take(i - start) =~= digits);
    }
    Some(value as u32)
}

/// A run of characters with a non-digit in its prefix has no value.
pub proof fn lemma_digits_prefix_invalid(t: Seq<char>, k: int)
    requires
        0 <= k <= t.len(),
        digits_value(t.take(k)) is None,
    ensures
        digits_value(t) is None,
    decreases t.len(),
{
    if k < t.len() {
        assert(t.drop_last().take(k) =~= t.take(k));
        lemma_digits_prefix_invalid(t.drop_last(), k);
    } else {
        assert(t.take(k) =~= t);
    }
}

/// Whether two texts are equal, character by character.
pub fn text_equal(a: &str, b: &str) -> (r: bool)
    ensures
        r == (a@ == b@),
{
    let n = a.unicode_len();
    if n != b.unicode_len() {
        return false;
    }
    let mut i: usize = 0;
    while i < n
        invariant
            n == a@.len(),
            n == b@.len(),
            i <= n,
            forall|j: int| 0 <= j < i ==> a@[j] == b@[j],
        decreases n - i,
    {
        if a.get_char(i) != b.get_char(i) {
            return false;
        }
        i = i + 1;
    }
    assert(a@ =~= b@);
    true
}

/// A text with every occurrence of a non-empty pattern replaced, the
/// occurrences found from left to right without overlapping, as
/// `str::replace` does.
pub open spec fn replaced(s: Seq<char>, pat: Seq<char>, with: Seq<char>) -> Seq<char>
    recommends
        pat.len() > 0,
    decreases s.len(),
{
    if pat.len() == 0 || s.len() < pat.len() {
        s
    } else if s.take(pat.len() as int) == pat {
        with + replaced(s.skip(pat.len() as int), pat, with)
    } else {
        seq![s[0]] + replaced(s.skip(1), pat, with)
    }
}

/// The characters of a text.
pub fn text_chars(s: &str) -> (r: Vec<char>)
    ensures
        r@ == s@,
{
    let mut r: Vec<char> = Vec::new();
    let ghost text = s@;
    for c in it: s.chars()
        invariant
            it.seq() == text,
            r@ == text.take(it.index() as int),
    {
        proof {
            assert(text.take(it.index() + 1) =~= text.take(it.index() as int).push(c));
        }
        r.push(c);
    }
    proof {
        assert(text.take(text.len() as int) =~= text);
    }
    r
}

/// Whether the pattern occurs in the characters at position `i`.
fn occurs_at(cs: &Vec<char>, i: usize, pat: &Vec<char>) -> (r: bool)
    requires
        i <= cs@.len(),
    ensures
        r == (i + pat@.len() <= cs@.len() && cs@.skip(i as int).take(pat@.len() as int) == pat@),
{
    if pat.len() > cs.len() - i {
        return false;
    }
    let mut j: usize = 0;
    while j < pat.len()
        invariant
            i + pat@.len() <= cs@.len(),
            cs@.len() == cs.len(),
            pat@.len() == pat.len(),
            j <= pat@.len(),
            forall|q: int| 0 <= q < j ==> cs@[i + q] == pat@[q],
        decreases pat.len() - j,
    {
        if cs[i + j] != pat[j] {
            proof {
                assert(cs@.skip(i as int).take(pat@.len() as int)[j as int] != pat@[j as int]);
            }
            return false;
        }
        j = j + 1;
    }
    proof {
        assert(cs@.skip(i as int).take(pat@.len() as int) =~= pat@);
    }
    true
}

/// Replaces every occurrence of a non-empty pattern, as `str::replace`
/// does.
pub fn replace_all(s: &str, pat: &str, with: &str) -> (r: String)
    requires
        pat@.len() > 0,
    ensures
        r@ == replaced(s@, pat@, with@),
{
    let cs = text_chars(s);
    let ps = text_chars(pat);
    let ghost text = s@;
    let mut r = String::new();
    let mut i: usize = 0;
    proof {
        assert(text.skip(0) =~= text);
        assert(r@ + replaced(text, pat@, with@) =~= replaced(text, pat@, with@));
    }
    while i < cs.len()
        invariant
            cs@ == text,
            ps@ == pat@,
            pat@.len() > 0,
            i <= cs@.len(),
            r@ + replaced(text.skip(i as int), pat@, with@) == replaced(text, pat@, with@),
        decreases cs.len() - i,
    {
        let ghost rest = text.skip(i as int);
        if occurs_at(&cs, i, &ps) {
            proof {
                assert(rest.take(pat@.len() as int) =~= text.skip(i as int).take(pat@.len() as int));
                assert(rest.skip(pat@.len() as int) =~= text.skip(i + pat@.len()));
                assert(r@ + with@ + replaced(text.skip(i + pat@.len()), pat@, with@) =~= r@ + replaced(rest, pat@, with@));
            }
            r.append(with);
            i = i + ps.len();
        } else {
            let c = cs[i];
            proof {
                if rest.len() >= pat@.len() {
                    assert(rest.take(pat@.len() as int) != pat@);
                    assert(rest.skip(1) =~= text.skip(i + 1));
                    assert(r@.push(c) + replaced(text.skip(i + 1), pat@, with@) =~= r@ + replaced(rest, pat@, with@));
                } else {
                    assert(replaced(rest, pat@, with@) == rest);
                    assert(text.skip(i + 1).len() < pat@.len());
                    assert(replaced(text.skip(i + 1), pat@, with@) == text.skip(i + 1));
                    assert(rest =~= seq![c] + text.skip(i + 1));
                    assert(r@.push(c) + replaced(text.skip(i + 1), pat@, with@) =~= r@ + replaced(rest, pat@, with@));
                }
            }
            push_char(&mut r, c);
            i = i + 1;
        }
    }
    proof {
        assert(text.skip(i as int) =~= Seq::<char>::empty());
        assert(r@ + Seq::<char>::empty() =~= r@);
    }
    r
}

} // verus!
