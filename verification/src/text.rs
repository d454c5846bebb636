//! Text helpers: the canonical form of a link and small string builders.

use vstd::prelude::*;
use vstd::string::*;

verus! {

/// The lower-case counterpart of an ASCII capital; every other character is
/// left as it is.
pub open spec fn lower_char(c: char) -> char {
    if 'A' <= c && c <= 'Z' {
        ((c as u32) + 32) as char
    } else {
        c
    }
}

/// The canonical form of a link text: each ASCII capital replaced by its
/// lower-case letter. Two links are the same link when their canonical forms
/// are equal.
pub open spec fn canonical(s: Seq<char>) -> Seq<char> {
    s.map_values(|c: char| lower_char(c))
}

/// Whether a text already is in canonical form.
pub open spec fn is_canonical(s: Seq<char>) -> bool {
    canonical(s) == s
}

/// Canonicalising twice is the same as canonicalising once.
pub proof fn lemma_canonical_idempotent(s: Seq<char>)
    ensures
        is_canonical(canonical(s)),
{
    assert forall|i: int| 0 <= i < s.len() implies #[trigger] canonical(canonical(s))[i]
        == canonical(s)[i] by {
        let c = s[i];
        assert(canonical(s)[i] == lower_char(c));
        assert(lower_char(lower_char(c)) == lower_char(c));
    }
    assert(canonical(canonical(s)) =~= canonical(s));
}

/// `str::to_ascii_lowercase` of the standard library: a copy of the text in
/// which the ASCII letters `A` to `Z` are replaced by `a` to `z` and every
/// other character is kept.
#[verifier::external_body]
pub(crate) fn ascii_lowercase(s: &str) -> (r: String)
    ensures
        r@ == canonical(s@),
{
    s.to_ascii_lowercase()
}

/// The character of a decimal digit.
pub open spec fn digit_char(d: nat) -> char {
    if d == 0 {
        '0'
    } else if d == 1 {
        '1'
    } else if d == 2 {
        '2'
    } else if d == 3 {
        '3'
    } else if d == 4 {
        '4'
    } else if d == 5 {
        '5'
    } else if d == 6 {
        '6'
    } else if d == 7 {
        '7'
    } else if d == 8 {
        '8'
    } else {
        '9'
    }
}

/// A number written in decimal, without leading zeros.
pub open spec fn decimal(n: nat) -> Seq<char>
    decreases n,
{
    if n < 10 {
        seq![digit_char(n)]
    } else {
        decimal(n / 10).push(digit_char(n % 10))
    }
}

/// The text of one decimal digit.
fn digit_str(d: u32) -> (r: &'static str)
    requires
        d < 10,
    ensures
        r@ == seq![digit_char(d as nat)],
{
    proof {
        reveal_strlit("0");
        reveal_strlit("1");
        reveal_strlit("2");
        reveal_strlit("3");
        reveal_strlit("4");
        reveal_strlit("5");
        reveal_strlit("6");
        reveal_strlit("7");
        reveal_strlit("8");
        reveal_strlit("9");
    }
    let r = if d == 0 {
        "0"
    } else if d == 1 {
        "1"
    } else if d == 2 {
        "2"
    } else if d == 3 {
        "3"
    } else if d == 4 {
        "4"
    } else if d == 5 {
        "5"
    } else if d == 6 {
        "6"
    } else if d == 7 {
        "7"
    } else if d == 8 {
        "8"
    } else {
        "9"
    };
    assert(r@ =~= seq![digit_char(d as nat)]);
    r
}

/// Appends a number, written in decimal, to a string.
pub fn push_decimal(out: &mut String, n: u32)
    ensures
        final(out)@ == old(out)@ + decimal(n as nat),
    decreases n,
{
    if n >= 10 {
        push_decimal(out, n / 10);
    }
    out.append(digit_str(n % 10));
    assert(out@ =~= old(out)@ + decimal(n as nat));
}

/// The texts of a list of strings.
pub open spec fn texts(strings: Seq<String>) -> Seq<Seq<char>> {
    strings.map_values(|s: String| s@)
}

/// A text in which every match of a pattern that is not empty is replaced:
/// the text is read from the left; where the pattern stands, the replacement
/// is written and the reading goes on behind the match; elsewhere the
/// character is kept.
pub open spec fn replaced(text: Seq<char>, from: Seq<char>, to: Seq<char>) -> Seq<char>
    decreases text.len(),
{
    if from.len() == 0 || text.len() < from.len() {
        text
    } else if text.subrange(0, from.len() as int) == from {
        to + replaced(text.subrange(from.len() as int, text.len() as int), from, to)
    } else {
        seq![text[0]] + replaced(text.subrange(1, text.len() as int), from, to)
    }
}

/// `str::replace` of the standard library, for a pattern that is a text and
/// is not empty: a new string in which the matches of the pattern, found
/// from the left and not overlapping, are replaced.
#[verifier::external_body]
pub(crate) fn replace_all(text: &str, from: &str, to: &str) -> (r: String)
    requires
        from@.len() > 0,
    ensures
        r@ == replaced(text@, from@, to@),
{
    text.replace(from, to)
}

/// The parts written one after the other, with the separator between each
/// two.
pub open spec fn joined(parts: Seq<Seq<char>>, separator: Seq<char>) -> Seq<char>
    decreases parts.len(),
{
    if parts.len() == 0 {
        Seq::empty()
    } else if parts.len() == 1 {
        parts[0]
    } else {
        joined(parts.drop_last(), separator) + separator + parts.last()
    }
}

/// Joins the parts with the separator between each two.
pub fn join(parts: &Vec<String>, separator: &str) -> (r: String)
    ensures
        r@ == joined(texts(parts@), separator@),
{
    let mut out = String::new();
    let mut i: usize = 0;
    while i < parts.len()
        invariant
            i <= parts.len(),
            out@ == joined(texts(parts@).take(i as int), separator@),
        decreases parts.len() - i,
    {
        let ghost before = texts(parts@).take(i as int);
        let ghost after = texts(parts@).take(i + 1);
        assert(after.drop_last() =~= before);
        assert(after.last() == parts@[i as int]@);
        if i > 0 {
            out.append(separator);
        }
        out.append(parts[i].as_str());
        proof {
            if i == 0 {
                assert(out@ =~= parts@[0]@);
            }
        }
        i += 1;
    }
    assert(texts(parts@).take(parts@.len() as int) =~= texts(parts@));
    out
}

/// `str::starts_with` of the standard library, for a pattern that is a text:
/// whether the text begins with the pattern.
#[verifier::external_body]
pub(crate) fn starts_with(text: &str, prefix: &str) -> (r: bool)
    ensures
        r == prefix@.is_prefix_of(text@),
{
    text.starts_with(prefix)
}

} // verus!
