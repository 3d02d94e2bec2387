use vstd::prelude::*;
use crate::clock::{Timestamp, padded, signed_padded, padded_decimal, signed_decimal};
use crate::palette::Colors;

verus! {

/// What `str::to_uppercase` makes of a string.
pub uninterp spec fn upper_of(s: Seq<char>) -> Seq<char>;

/// Relies on `str::to_uppercase`: the result depends on the characters alone,
/// and an empty string stays empty.
#[verifier::external_body]
fn uppercase(s: &str) -> (r: String)
    ensures
        r@ == upper_of(s@),
        s@.len() == 0 ==> r@.len() == 0,
{
    s.to_uppercase()
}

/// The text that the two-letter token `a b` stands for, if it is one.
pub open spec fn token_value(a: char, b: char, t: Timestamp) -> Option<Seq<char>> {
    if a == 'Y' && b == 'Y' {
        Some(signed_padded(t.year as int, 4))
    } else if a == 'M' && b == 'M' {
        Some(padded(t.month as nat, 2))
    } else if a == 'D' && b == 'D' {
        Some(padded(t.day as nat, 2))
    } else if a == 'H' && b == 'H' {
        Some(padded(t.hour as nat, 2))
    } else if a == 'M' && b == 'I' {
        Some(padded(t.minute as nat, 2))
    } else if a == 'S' && b == 'S' {
        Some(padded(t.second as nat, 2))
    } else if a == 'M' && b == 'S' {
        Some(signed_padded(t.millis as int, 1))
    } else {
        None
    }
}

/// One left-to-right scan of `p`: each token is replaced by its value, every
/// other character is kept, and a replaced value is never scanned again.
pub open spec fn substitute(p: Seq<char>, t: Timestamp) -> Seq<char>
    decreases p.len(),
{
    if p.len() == 0 {
        Seq::empty()
    } else if p.len() >= 2 && token_value(p[0], p[1], t) is Some {
        token_value(p[0], p[1], t)->0 + substitute(p.skip(2), t)
    } else {
        seq![p[0]] + substitute(p.skip(1), t)
    }
}

/// The timestamp block of a line: white, the rendered pattern in brackets
/// (nothing when the pattern is empty), reset.
pub open spec fn date_block(pattern: Seq<char>, t: Timestamp) -> Seq<char> {
    Colors::WHITE.code() + (if pattern.len() > 0 {
        seq!['['] + substitute(upper_of(pattern), t) + seq![']']
    } else {
        Seq::empty()
    }) + Colors::RESET.code()
}

fn token_text(a: char, b: char, t: &Timestamp) -> (r: Option<String>)
    ensures
        token_value(a, b, *t) is Some <==> r is Some,
        r is Some ==> r->0@ == token_value(a, b, *t)->0,
{
    if a == 'Y' && b == 'Y' {
        Some(signed_decimal(t.year as i64, 4))
    } else if a == 'M' && b == 'M' {
        Some(padded_decimal(t.month as u64, 2))
    } else if a == 'D' && b == 'D' {
        Some(padded_decimal(t.day as u64, 2))
    } else if a == 'H' && b == 'H' {
        Some(padded_decimal(t.hour as u64, 2))
    } else if a == 'M' && b == 'I' {
        Some(padded_decimal(t.minute as u64, 2))
    } else if a == 'S' && b == 'S' {
        Some(padded_decimal(t.second as u64, 2))
    } else if a == 'M' && b == 'S' {
        Some(signed_decimal(t.millis, 1))
    } else {
        None
    }
}

/// Replaces the date and time tokens of an already upper-cased pattern.
pub fn substitute_tokens(upper: &str, now: &Timestamp) -> (r: String)
    ensures
        r@ == substitute(upper@, *now),
{
    let n = upper.unicode_len();
    let ghost p = upper@;
    let mut out = String::new();
    let mut i: usize = 0;
    assert(p.skip(0) =~= p);
    assert(out@ + substitute(p.skip(0), *now) =~= substitute(p, *now));
    while i < n
        invariant
            n == p.len(),
            p == upper@,
            i <= n,
            out@ + substitute(p.skip(i as int), *now) == substitute(p, *now),
        decreases n - i,
    {
        let ghost rest = p.skip(i as int);
        let a = upper.get_char(i);
        let mut done = false;
        if i + 1 < n {
            let b = upper.get_char(i + 1);
            if let Some(v) = token_text(a, b, now) {
                assert(rest.skip(2) =~= p.skip(i + 2));
                assert(substitute(rest, *now) == v@ + substitute(p.skip(i + 2), *now));
                out.append(v.as_str());
                assert(out@ + substitute(p.skip(i + 2), *now) =~= substitute(p, *now));
                i = i + 2;
                done = true;
            }
        }
        if !done {
            let c = upper.substring_char(i, i + 1);
            assert(rest.skip(1) =~= p.skip(i + 1));
            assert(c@ =~= seq![p[i as int]]);
            assert(substitute(rest, *now) == c@ + substitute(p.skip(i + 1), *now));
            out.append(c);
            assert(out@ + substitute(p.skip(i + 1), *now) =~= substitute(p, *now));
            i = i + 1;
        }
    }
    assert(p.skip(n as int) =~= Seq::<char>::empty());
    assert(out@ =~= substitute(p, *now));
    out
}

/// Renders the timestamp block of a line for `pattern` at the time `now`.
pub fn render_date(pattern: &str, now: &Timestamp) -> (r: String)
    ensures
        r@ == date_block(pattern@, *now),
{
    let mut r = String::from_str(Colors::WHITE.resolve());
    if pattern.unicode_len() >= 1 {
        let upper = uppercase(pattern);
        let body = substitute_tokens(upper.as_str(), now);
        proof {
            reveal_strlit("[");
            reveal_strlit("]");
        }
        r.append("[");
        r.append(body.as_str());
        r.append("]");
    }
    r.append(Colors::RESET.resolve());
    assert(r@ =~= date_block(pattern@, *now));
    r
}

} // verus!
