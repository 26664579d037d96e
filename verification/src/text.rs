//! Plain text operations on sequences of characters: literal substring
//! replacement, concatenation and decimal formatting.

use vstd::prelude::*;

verus! {

/// The text obtained from `text` by replacing every occurrence of `pattern`
/// with `with`. Occurrences are found from left to right and do not overlap:
/// after a match the search resumes behind it. An empty pattern matches at
/// every position between two characters and at both ends.
pub open spec fn replace_all(text: Seq<char>, pattern: Seq<char>, with: Seq<char>) -> Seq<char>
    decreases text.len(),
{
    if text.len() == 0 {
        if pattern.len() == 0 {
            with
        } else {
            text
        }
    } else if pattern.len() == 0 {
        with + seq![text[0]] + replace_all(text.skip(1), pattern, with)
    } else if pattern.is_prefix_of(text) {
        with + replace_all(text.skip(pattern.len() as int), pattern, with)
    } else {
        seq![text[0]] + replace_all(text.skip(1), pattern, with)
    }
}

/// `String::push` appends one character.
pub assume_specification[ String::push ](s: &mut String, c: char)
    ensures
        final(s)@ == old(s)@.push(c),
;

/// The characters of `s`, in order.
pub fn chars_of(s: &str) -> (v: Vec<char>)
    ensures
        v@ == s@,
{
    let mut v: Vec<char> = Vec::new();
    for c in it: s.chars()
        invariant
            it.seq() == s@,
            v@ == it.seq().take(it.index() as int),
    {
        v.push(c);
    }
    v
}

/// Whether `pattern` occurs in `text` at position `at`.
pub fn occurs_at(text: &Vec<char>, pattern: &Vec<char>, at: usize) -> (found: bool)
    requires
        at <= text.len(),
    ensures
        found == pattern@.is_prefix_of(text@.skip(at as int)),
{
    if pattern.len() > text.len() - at {
        return false;
    }
    let mut j: usize = 0;
    while j < pattern.len()
        invariant
            at <= text.len(),
            pattern.len() <= text.len() - at,
            j <= pattern.len(),
            forall|k: int| 0 <= k < j ==> pattern@[k] == text@[at + k],
        decreases pattern.len() - j,
    {
        if pattern[j] != text[at + j] {
            return false;
        }
        j += 1;
    }
    true
}

/// Replaces every occurrence of `pattern` in `text` with `with`.
pub fn replace(text: &str, pattern: &str, with: &str) -> (out: String)
    ensures
        out@ == replace_all(text@, pattern@, with@),
{
    let t = chars_of(text);
    let p = chars_of(pattern);
    let mut out = String::new();
    let mut i: usize = 0;
    assert(t@.skip(0) =~= t@);
    while i < t.len()
        invariant
            i <= t.len(),
            t@ == text@,
            p@ == pattern@,
            out@ + replace_all(t@.skip(i as int), p@, with@) == replace_all(t@, p@, with@),
        decreases t.len() - i,
    {
        let ghost rest = t@.skip(i as int);
        if p.len() == 0 {
            assert(rest.skip(1) =~= t@.skip(i + 1));
            out.append(with);
            out.push(t[i]);
            i += 1;
        } else if occurs_at(&t, &p, i) {
            assert(rest.skip(p@.len() as int) =~= t@.skip(i + p@.len()));
            out.append(with);
            i += p.len();
        } else {
            assert(rest.skip(1) =~= t@.skip(i + 1));
            out.push(t[i]);
            i += 1;
        }
    }
    if p.len() == 0 {
        out.append(with);
    }
    out
}

/// Whether `a` and `b` are the same text.
pub fn same_text(a: &str, b: &str) -> (same: bool)
    ensures
        same == (a@ == b@),
{
    let x = chars_of(a);
    let y = chars_of(b);
    if x.len() != y.len() {
        return false;
    }
    let mut i: usize = 0;
    while i < x.len()
        invariant
            i <= x.len(),
            x.len() == y.len(),
            x@ == a@,
            y@ == b@,
            forall|k: int| 0 <= k < i ==> x@[k] == y@[k],
        decreases x.len() - i,
    {
        if x[i] != y[i] {
            return false;
        }
        i += 1;
    }
    assert(x@ =~= y@);
    true
}

/// Whether the character `c` occurs in `s`.
pub fn contains_char(s: &str, c: char) -> (found: bool)
    ensures
        found == s@.contains(c),
{
    let v = chars_of(s);
    let mut i: usize = 0;
    while i < v.len()
        invariant
            i <= v.len(),
            v@ == s@,
            forall|k: int| 0 <= k < i ==> v@[k] != c,
        decreases v.len() - i,
    {
        if v[i] == c {
            return true;
        }
        i += 1;
    }
    false
}

/// The concatenation of `parts`, in order.
pub fn join(parts: &Vec<String>) -> (out: String)
    ensures
        out@ == parts.deep_view().flatten(),
{
    let ghost all = parts.deep_view();
    let mut out = String::new();
    let mut i: usize = 0;
    while i < parts.len()
        invariant
            i <= parts.len(),
            all == parts.deep_view(),
            out@ == all.take(i as int).flatten(),
        decreases parts.len() - i,
    {
        proof {
            assert(all.take(i + 1) =~= all.take(i as int).push(all[i as int]));
            all.take(i as int).lemma_flatten_push(all[i as int]);
        }
        out.append(parts[i].as_str());
        i += 1;
    }
    assert(all.take(parts.len() as int) =~= all);
    out
}

/// The character that writes the decimal digit `d`.
pub open spec fn digit(d: nat) -> char {
    if d == 0 {
        '0'
    } else if d == 1 {
        '1'
    } else if d == 2 {
        '2'
    } else if d == 3 {
        '3'
    } else if d == 4 {
        '4'
    } else if d == 5 {
        '5'
    } else if d == 6 {
        '6'
    } else if d == 7 {
        '7'
    } else if d == 8 {
        '8'
    } else {
        '9'
    }
}

/// The decimal numeral of `n`, without leading zeros.
pub open spec fn decimal(n: nat) -> Seq<char>
    decreases n,
{
    if n < 10 {
        seq![digit(n)]
    } else {
        decimal(n / 10).push(digit(n % 10))
    }
}

/// The decimal numeral of `n`, with a minus sign in front where `n` is negative.
pub open spec fn signed_decimal(n: int) -> Seq<char> {
    if n < 0 {
        seq!['-'] + decimal((-n) as nat)
    } else {
        decimal(n as nat)
    }
}

fn digit_char(d: u64) -> (c: char)
    requires
        d < 10,
    ensures
        c == digit(d as nat),
{
    match d {
        0 => '0',
        1 => '1',
        2 => '2',
        3 => '3',
        4 => '4',
        5 => '5',
        6 => '6',
        7 => '7',
        8 => '8',
        _ => '9',
    }
}

/// Appends the decimal numeral of `n` to `out`.
pub fn push_decimal(out: &mut String, n: u64)
    ensures
        final(out)@ == old(out)@ + decimal(n as nat),
    decreases n,
{
    if n >= 10 {
        push_decimal(out, n / 10);
    }
    out.push(digit_char(n % 10));
}

/// Appends the decimal numeral of `n` to `out`, with its sign where it is negative.
pub fn push_signed_decimal(out: &mut String, n: i64)
    requires
        n > i64::MIN,
    ensures
        final(out)@ == old(out)@ + signed_decimal(n as int),
{
    if n < 0 {
        out.push('-');
        let m: u64 = (-n) as u64;
        push_decimal(out, m);
    } else {
        push_decimal(out, n as u64);
    }
}

} // verus!
