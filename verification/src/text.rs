//! Helpers shared by the other modules: decimal notation, literal
//! substitution, joining, and numbers held within their machine type.

use vstd::prelude::*;
use vstd::string::StringExecFns;

verus! {

/// The character that stands for the decimal digit `d`.
pub open spec fn digit_char(d: nat) -> char {
    if d == 0 {
        '0'
    } else if d == 1 {
        '1'
    } else if d == 2 {
        '2'
    } else if d == 3 {
        '3'
    } else if d == 4 {
        '4'
    } else if d == 5 {
        '5'
    } else if d == 6 {
        '6'
    } else if d == 7 {
        '7'
    } else if d == 8 {
        '8'
    } else {
        '9'
    }
}

/// The decimal notation of `n`, most significant digit first, without
/// leading zeros (`0` itself is written "0").
pub open spec fn decimal_digits(n: nat) -> Seq<char>
    decreases n,
{
    if n < 10 {
        seq![digit_char(n)]
    } else {
        decimal_digits(n / 10).push(digit_char(n % 10))
    }
}

/// `text` with every occurrence of `pattern` replaced by `replacement`,
/// found from left to right without overlap. An empty pattern occurs
/// nowhere.
pub open spec fn replaced(text: Seq<char>, pattern: Seq<char>, replacement: Seq<char>) -> Seq<char>
    decreases text.len(),
{
    if pattern.len() == 0 || text.len() == 0 {
        text
    } else if pattern.is_prefix_of(text) {
        replacement + replaced(text.skip(pattern.len() as int), pattern, replacement)
    } else {
        seq![text[0]] + replaced(text.skip(1), pattern, replacement)
    }
}

/// The parts written one after another with `separator` between neighbours.
pub open spec fn joined(parts: Seq<Seq<char>>, separator: Seq<char>) -> Seq<char>
    decreases parts.len(),
{
    if parts.len() == 0 {
        Seq::empty()
    } else if parts.len() == 1 {
        parts[0]
    } else {
        joined(parts.drop_last(), separator) + separator + parts.last()
    }
}

/// The text of an optional string.
pub open spec fn optional_text(s: Option<String>) -> Option<Seq<char>> {
    match s {
        Some(t) => Some(t@),
        None => None,
    }
}

/// `x` held within `u64`: the nearest value that the type has.
pub open spec fn within_u64(x: int) -> u64 {
    if x > u64::MAX {
        u64::MAX
    } else if x < 0 {
        0
    } else {
        x as u64
    }
}

/// The texts that a vector of strings holds.
pub open spec fn texts(parts: Seq<String>) -> Seq<Seq<char>> {
    Seq::new(parts.len(), |i: int| parts[i]@)
}

/// Appends `c` to `s`.
///
/// Trusted: stands for `String::push`, which appends the given character to
/// the end of the string and leaves what was there before untouched.
#[verifier::external_body]
pub(crate) fn push_char(s: &mut String, c: char)
    ensures
        final(s)@ == old(s)@.push(c),
{
    s.push(c);
}

/// The character that stands for the decimal digit `d`.
fn digit_of(d: u128) -> (c: char)
    requires
        d < 10,
    ensures
        c == digit_char(d as nat),
{
    if d == 0 {
        '0'
    } else if d == 1 {
        '1'
    } else if d == 2 {
        '2'
    } else if d == 3 {
        '3'
    } else if d == 4 {
        '4'
    } else if d == 5 {
        '5'
    } else if d == 6 {
        '6'
    } else if d == 7 {
        '7'
    } else if d == 8 {
        '8'
    } else {
        '9'
    }
}

/// Appends the decimal notation of `n` to `out`.
pub fn push_decimal(out: &mut String, n: u128)
    ensures
        final(out)@ == old(out)@ + decimal_digits(n as nat),
    decreases n,
{
    if n >= 10 {
        push_decimal(out, n / 10);
    }
    push_char(out, digit_of(n % 10));
}

/// The decimal notation of `n`.
pub fn decimal_text(n: u64) -> (s: String)
    ensures
        s@ == decimal_digits(n as nat),
{
    let mut s = String::new();
    push_decimal(&mut s, n as u128);
    s
}

/// Collects the characters of `s` in order.
pub fn chars_of(s: &str) -> (v: Vec<char>)
    ensures
        v@ == s@,
{
    let mut v: Vec<char> = Vec::new();
    for c in it: s.chars()
        invariant
            it.seq() == s@,
            v@ == s@.take(it.index()),
    {
        v.push(c);
    }
    assert(v@ == s@);
    v
}

/// Whether `pattern` stands in `text` at position `at`.
fn occurs_at(text: &Vec<char>, pattern: &Vec<char>, at: usize) -> (r: bool)
    requires
        at <= text.len(),
    ensures
        r == pattern@.is_prefix_of(text@.skip(at as int)),
{
    if pattern.len() > text.len() - at {
        return false;
    }
    let mut k: usize = 0;
    while k < pattern.len()
        invariant
            at <= text.len(),
            pattern.len() <= text.len() - at,
            k <= pattern.len(),
            forall|j: int| 0 <= j < k ==> pattern@[j] == text@[at + j],
        decreases pattern.len() - k,
    {
        if pattern[k] != text[at + k] {
            assert(text@.skip(at as int)[k as int] == text@[at + k]);
            return false;
        }
        k += 1;
    }
    assert(pattern@ =~= text@.skip(at as int).subrange(0, pattern@.len() as int));
    true
}

/// Replaces every occurrence of `pattern` in `text` by `replacement`, from
/// left to right and without overlap; an empty pattern leaves the text as it
/// is.
pub fn replace_all(text: &str, pattern: &str, replacement: &str) -> (out: String)
    ensures
        out@ == replaced(text@, pattern@, replacement@),
{
    let t = chars_of(text);
    let p = chars_of(pattern);
    let mut out = String::new();
    if p.len() == 0 {
        out.append(text);
        return out;
    }
    let mut i: usize = 0;
    assert(t@.skip(0) =~= t@);
    assert(out@ + replaced(t@, p@, replacement@) =~= replaced(t@, p@, replacement@));
    while i < t.len()
        invariant
            i <= t.len(),
            t@ == text@,
            p@ == pattern@,
            p.len() > 0,
            out@ + replaced(t@.skip(i as int), p@, replacement@) == replaced(
                t@,
                p@,
                replacement@,
            ),
        decreases t.len() - i,
    {
        let ghost rest = t@.skip(i as int);
        if occurs_at(&t, &p, i) {
            assert(rest.skip(p@.len() as int) =~= t@.skip(i + p@.len()));
            out.append(replacement);
            i += p.len();
        } else {
            assert(rest.skip(1) =~= t@.skip(i + 1));
            assert(rest[0] == t@[i as int]);
            push_char(&mut out, t[i]);
            i += 1;
        }
    }
    assert(t@.skip(i as int).len() == 0);
    out
}

/// Writes the parts one after another with `separator` between neighbours.
pub fn join(parts: &Vec<String>, separator: &str) -> (out: String)
    ensures
        out@ == joined(texts(parts@), separator@),
{
    let mut out = String::new();
    let mut i: usize = 0;
    while i < parts.len()
        invariant
            i <= parts.len(),
            out@ == joined(texts(parts@).take(i as int), separator@),
        decreases parts.len() - i,
    {
        let ghost done = texts(parts@).take(i as int);
        let ghost next = texts(parts@).take(i + 1);
        assert(next.drop_last() =~= done);
        assert(next.last() == parts@[i as int]@);
        if i > 0 {
            out.append(separator);
        }
        out.append(parts[i].as_str());
        i += 1;
    }
    assert(texts(parts@).take(parts.len() as int) =~= texts(parts@));
    out
}

} // verus!
