//! Character-level helpers: decimal formatting, substring replacement and
//! splitting of file names into stem and extension.

use vstd::prelude::*;
use vstd::std_specs::iter::IteratorSpec;

verus! {

/// Appends one character to a `String` (`String::push`).
///
/// Claimed of `String::push`: the string afterwards is the old one followed by `c`.
#[verifier::external_body]
pub(crate) fn push_char(s: &mut String, c: char)
    ensures
        final(s)@ == old(s)@.push(c),
{
    s.push(c)
}

/// What `str::to_lowercase` returns for a string: its Unicode lowercase
/// mapping as the standard library defines it (character by character, except
/// that a capital sigma ending a word becomes a final sigma).
pub uninterp spec fn lowercase_of(s: Seq<char>) -> Seq<char>;

/// Lowercases a string (`str::to_lowercase`).
///
/// Claimed of `str::to_lowercase`: its result is a function of the input alone,
/// named [`lowercase_of`]; nothing more is stated of it.
#[verifier::external_body]
pub(crate) fn to_lowercase(s: &str) -> (res: String)
    ensures
        res@ == lowercase_of(s@),
{
    s.to_lowercase()
}

/// The characters of `s`, in order.
pub(crate) fn chars_of(s: &str) -> (out: Vec<char>)
    ensures
        out@ == s@,
{
    let mut out: Vec<char> = Vec::new();
    for c in it: s.chars()
        invariant
            out@ == it.seq().take(it.index()),
    {
        out.push(c);
    }
    out
}

/// The string made of the characters `chars[lo..hi]`.
pub(crate) fn string_of_range(chars: &Vec<char>, lo: usize, hi: usize) -> (res: String)
    requires
        lo <= hi <= chars.len(),
    ensures
        res@ == chars@.subrange(lo as int, hi as int),
{
    let mut res = String::new();
    let mut i = lo;
    while i < hi
        invariant
            lo <= i <= hi <= chars.len(),
            res@ == chars@.subrange(lo as int, i as int),
        decreases hi - i,
    {
        push_char(&mut res, chars[i]);
        proof {
            assert(chars@.subrange(lo as int, i + 1) == chars@.subrange(lo as int, i as int).push(
                chars@[i as int],
            ));
        }
        i = i + 1;
    }
    res
}

/// The ASCII digit for `d`, which must be below ten.
pub open spec fn digit_char(d: int) -> char {
    seq!['0', '1', '2', '3', '4', '5', '6', '7', '8', '9'][d]
}

/// The decimal representation of `n`, most significant digit first, without
/// leading zeros (`"0"` for zero), as `Display` prints an unsigned integer.
pub open spec fn decimal_digits(n: nat) -> Seq<char>
    decreases n,
{
    if n < 10 {
        seq![digit_char(n as int)]
    } else {
        decimal_digits(n / 10).push(digit_char((n % 10) as int))
    }
}

/// The decimal representation of a signed integer as `Display` prints it:
/// a minus sign before the digits of its magnitude when it is negative.
pub open spec fn signed_decimal(n: int) -> Seq<char> {
    if n < 0 {
        seq!['-'] + decimal_digits((-n) as nat)
    } else {
        decimal_digits(n as nat)
    }
}

/// The representation of `n` as `format!("{:02}", n)` prints it: padded with
/// zeros to at least two digits.
pub open spec fn two_digit_decimal(n: nat) -> Seq<char> {
    if n < 10 {
        seq!['0'] + decimal_digits(n)
    } else {
        decimal_digits(n)
    }
}

/// How `bool` is printed by `Display`.
pub open spec fn bool_text(b: bool) -> Seq<char> {
    if b {
        seq!['t', 'r', 'u', 'e']
    } else {
        seq!['f', 'a', 'l', 's', 'e']
    }
}

fn digit(d: u64) -> (c: char)
    requires
        d < 10,
    ensures
        c == digit_char(d as int),
{
    if d == 0 {
        '0'
    } else if d == 1 {
        '1'
    } else if d == 2 {
        '2'
    } else if d == 3 {
        '3'
    } else if d == 4 {
        '4'
    } else if d == 5 {
        '5'
    } else if d == 6 {
        '6'
    } else if d == 7 {
        '7'
    } else if d == 8 {
        '8'
    } else {
        '9'
    }
}

/// Appends the decimal digits of `n` to `s`.
pub(crate) fn push_decimal(s: &mut String, n: u64)
    ensures
        final(s)@ == old(s)@ + decimal_digits(n as nat),
    decreases n,
{
    if n >= 10 {
        push_decimal(s, n / 10);
    }
    push_char(s, digit(n % 10));
    proof {
        if n < 10 {
            assert(old(s)@ + decimal_digits(n as nat) == old(s)@.push(digit_char(n as int)));
        } else {
            assert(old(s)@ + decimal_digits(n as nat) == (old(s)@ + decimal_digits(
                (n / 10) as nat,
            )).push(digit_char((n % 10) as int)));
        }
    }
}

/// Formats an unsigned integer in decimal.
pub fn u64_to_string(n: u64) -> (res: String)
    ensures
        res@ == decimal_digits(n as nat),
{
    let mut s = String::new();
    push_decimal(&mut s, n);
    proof {
        assert(s@ == Seq::<char>::empty() + decimal_digits(n as nat));
    }
    s
}

/// Formats a signed integer in decimal, as `i64::to_string` does.
pub fn i64_to_string(n: i64) -> (res: String)
    ensures
        res@ == signed_decimal(n as int),
{
    let mut s = String::new();
    if n < 0 {
        push_char(&mut s, '-');
        let magnitude: u64 = ((-(n + 1)) as u64) + 1;
        push_decimal(&mut s, magnitude);
    } else {
        push_decimal(&mut s, n as u64);
        proof {
            assert(s@ == Seq::<char>::empty() + decimal_digits(n as nat));
        }
    }
    s
}

/// Formats `n` with at least two digits, as `format!("{:02}", n)` does.
pub fn two_digit_string(n: u64) -> (res: String)
    ensures
        res@ == two_digit_decimal(n as nat),
{
    let mut s = String::new();
    if n < 10 {
        push_char(&mut s, '0');
    } else {
        proof {
            assert(s@ == Seq::<char>::empty());
        }
    }
    push_decimal(&mut s, n);
    s
}

/// Formats a boolean as `bool::to_string` does.
pub fn bool_to_string(b: bool) -> (res: String)
    ensures
        res@ == bool_text(b),
{
    let mut s = String::new();
    if b {
        push_char(&mut s, 't');
        push_char(&mut s, 'r');
        push_char(&mut s, 'u');
        push_char(&mut s, 'e');
    } else {
        push_char(&mut s, 'f');
        push_char(&mut s, 'a');
        push_char(&mut s, 'l');
        push_char(&mut s, 's');
        push_char(&mut s, 'e');
    }
    s
}

/// The result of replacing, from left to right, every non-overlapping occurrence
/// of the pattern `from` in `s` by `to`, as `str::replace` does. The empty
/// pattern occurs before every character and at the end, so `to` is inserted
/// there.
pub open spec fn replaced(s: Seq<char>, from: Seq<char>, to: Seq<char>) -> Seq<char>
    decreases s.len(),
{
    if from.len() == 0 {
        if s.len() == 0 {
            to
        } else {
            to + seq![s[0]] + replaced(s.skip(1), from, to)
        }
    } else if s.len() < from.len() {
        s
    } else if s.take(from.len() as int) == from {
        to + replaced(s.skip(from.len() as int), from, to)
    } else {
        seq![s[0]] + replaced(s.skip(1), from, to)
    }
}

/// Whether `pat` occurs in `v` at position `i`.
fn occurs_at(v: &Vec<char>, i: usize, pat: &Vec<char>) -> (res: bool)
    requires
        i <= v.len(),
    ensures
        res == (i + pat.len() <= v.len() && v@.subrange(i as int, i + pat.len()) == pat@),
{
    if pat.len() > v.len() - i {
        return false;
    }
    let mut j: usize = 0;
    while j < pat.len()
        invariant
            i + pat.len() <= v.len(),
            j <= pat.len(),
            forall|k: int| 0 <= k < j ==> v@[i + k] == pat@[k],
        decreases pat.len() - j,
    {
        if v[i + j] != pat[j] {
            assert(v@.subrange(i as int, i + pat.len())[j as int] != pat@[j as int]);
            return false;
        }
        j = j + 1;
    }
    assert(v@.subrange(i as int, i + pat.len()) =~= pat@);
    true
}

/// Inserts `to` before every character of `s` and at its end, as
/// `str::replace` does for the empty pattern.
fn interleave(s: &str, to: &str) -> (res: String)
    ensures
        res@ == replaced(s@, Seq::empty(), to@),
{
    let v = chars_of(s);
    let mut out = String::new();
    let mut i: usize = 0;
    let ghost empty = Seq::<char>::empty();
    proof {
        assert(v@.skip(0) =~= v@);
        assert(out@ + replaced(v@, empty, to@) =~= replaced(v@, empty, to@));
    }
    while i < v.len()
        invariant
            i <= v.len(),
            v@ == s@,
            empty == Seq::<char>::empty(),
            out@ + replaced(v@.skip(i as int), empty, to@) == replaced(v@, empty, to@),
        decreases v.len() - i,
    {
        let ghost rest = v@.skip(i as int);
        let ghost before = out@;
        proof {
            assert(rest.len() > 0);
            assert(rest.skip(1) =~= v@.skip(i + 1));
            assert(rest[0] == v@[i as int]);
            assert(replaced(rest, empty, to@) == to@ + seq![rest[0]] + replaced(rest.skip(1), empty, to@));
        }
        out.append(to);
        push_char(&mut out, v[i]);
        proof {
            assert(out@ =~= before + to@ + seq![v@[i as int]]);
            assert(out@ + replaced(v@.skip(i + 1), empty, to@) =~= before + (to@ + seq![rest[0]]
                + replaced(rest.skip(1), empty, to@)));
        }
        i = i + 1;
    }
    proof {
        assert(v@.skip(i as int) =~= Seq::<char>::empty());
    }
    out.append(to);
    out
}

/// Replaces every occurrence of `from` in `s` by `to`, as `str::replace` does.
pub fn replace_all(s: &str, from: &str, to: &str) -> (res: String)
    ensures
        res@ == replaced(s@, from@, to@),
{
    let pat = chars_of(from);
    if pat.len() == 0 {
        proof {
            assert(from@ =~= Seq::<char>::empty());
        }
        return interleave(s, to);
    }
    let v = chars_of(s);
    let mut out = String::new();
    let mut i: usize = 0;
    proof {
        assert(v@.skip(0) =~= v@);
        assert(out@ + replaced(v@, pat@, to@) =~= replaced(v@, pat@, to@));
    }
    while i < v.len()
        invariant
            i <= v.len(),
            v@ == s@,
            pat@ == from@,
            pat@.len() > 0,
            out@ + replaced(v@.skip(i as int), pat@, to@) == replaced(v@, pat@, to@),
        decreases v.len() - i,
    {
        let ghost rest = v@.skip(i as int);
        if occurs_at(&v, i, &pat) {
            proof {
                assert(rest.take(pat@.len() as int) =~= v@.subrange(i as int, i + pat@.len()));
                assert(rest.skip(pat@.len() as int) =~= v@.skip(i + pat@.len()));
                assert(out@ + to@ + replaced(v@.skip(i + pat@.len()), pat@, to@) == out@ + (to@
                    + replaced(v@.skip(i + pat@.len()), pat@, to@)));
            }
            out.append(to);
            i = i + pat.len();
        } else {
            proof {
                if rest.len() >= pat@.len() {
                    assert(rest.take(pat@.len() as int) =~= v@.subrange(i as int, i + pat@.len()));
                }
                assert(rest.skip(1) =~= v@.skip(i + 1));
                if rest.len() < pat@.len() {
                    assert(replaced(rest, pat@, to@) == rest);
                    assert(rest =~= seq![v@[i as int]] + rest.skip(1));
                    assert(replaced(rest.skip(1), pat@, to@) == rest.skip(1));
                }
                assert(out@.push(v@[i as int]) + replaced(v@.skip(i + 1), pat@, to@) == out@ + (
                seq![v@[i as int]] + replaced(v@.skip(i + 1), pat@, to@)));
            }
            push_char(&mut out, v[i]);
            i = i + 1;
        }
    }
    proof {
        assert(v@.skip(i as int) =~= Seq::<char>::empty());
        assert(out@ + Seq::<char>::empty() == out@);
    }
    out
}

/// The position of the last `'.'` in `name`, or `-1` when there is none.
pub open spec fn last_dot(name: Seq<char>) -> int
    decreases name.len(),
{
    if name.len() == 0 {
        -1
    } else if name.last() == '.' {
        name.len() - 1
    } else {
        last_dot(name.drop_last())
    }
}

/// The names of a single path component that carry no file name: the empty
/// component, `"."` and `".."`.
pub open spec fn is_dot_component(name: Seq<char>) -> bool {
    name == Seq::<char>::empty() || name == seq!['.'] || name == seq!['.', '.']
}

/// The extension of a file name, as `Path::extension` gives it for a path whose
/// last component is `name`: the part after the last dot, unless there is no
/// dot or the only dot leads the name.
pub open spec fn extension_of(name: Seq<char>) -> Option<Seq<char>> {
    if is_dot_component(name) || last_dot(name) <= 0 {
        None
    } else {
        Some(name.skip(last_dot(name) + 1))
    }
}

/// The stem of a file name, as `Path::file_stem` gives it for a path whose last
/// component is `name`: the part before the last dot, or the whole name when it
/// has no extension.
pub open spec fn stem_of(name: Seq<char>) -> Option<Seq<char>> {
    if is_dot_component(name) {
        None
    } else if last_dot(name) <= 0 {
        Some(name)
    } else {
        Some(name.take(last_dot(name)))
    }
}

/// Finds the position of the last dot in `v`, if any.
fn find_last_dot(v: &Vec<char>) -> (res: Option<usize>)
    ensures
        match res {
            Some(k) => last_dot(v@) == k as int && k < v.len(),
            None => last_dot(v@) == -1,
        },
{
    let mut i = v.len();
    proof {
        assert(v@.take(i as int) =~= v@);
    }
    while i > 0
        invariant
            i <= v.len(),
            last_dot(v@) == last_dot(v@.take(i as int)),
        decreases i,
    {
        proof {
            assert(v@.take(i as int).drop_last() =~= v@.take(i - 1));
            assert(v@.take(i as int).last() == v@[i - 1]);
        }
        if v[i - 1] == '.' {
            return Some(i - 1);
        }
        i = i - 1;
    }
    None
}

fn dot_component(v: &Vec<char>) -> (res: bool)
    ensures
        res == is_dot_component(v@),
{
    if v.len() == 0 {
        assert(v@ =~= Seq::<char>::empty());
        true
    } else if v.len() == 1 {
        if v[0] == '.' {
            assert(v@ =~= seq!['.']);
        }
        v[0] == '.'
    } else if v.len() == 2 {
        if v[0] == '.' && v[1] == '.' {
            assert(v@ =~= seq!['.', '.']);
        }
        v[0] == '.' && v[1] == '.'
    } else {
        false
    }
}

/// The extension of the file name `name` (see [`extension_of`]).
pub fn file_extension(name: &str) -> (res: Option<String>)
    ensures
        match res {
            Some(e) => extension_of(name@) == Some(e@),
            None => extension_of(name@) is None,
        },
{
    let v = chars_of(name);
    proof {
        assert(v@.take(v@.len() as int) =~= v@);
    }
    if dot_component(&v) {
        return None;
    }
    match find_last_dot(&v) {
        Some(k) => {
            if k == 0 {
                None
            } else {
                proof {
                    assert(v@.subrange(k + 1, v@.len() as int) =~= v@.skip(k + 1));
                }
                Some(string_of_range(&v, k + 1, v.len()))
            }
        },
        None => None,
    }
}

/// The stem of the file name `name` (see [`stem_of`]).
pub fn file_stem(name: &str) -> (res: Option<String>)
    ensures
        match res {
            Some(e) => stem_of(name@) == Some(e@),
            None => stem_of(name@) is None,
        },
{
    let v = chars_of(name);
    proof {
        assert(v@.take(v@.len() as int) =~= v@);
    }
    if dot_component(&v) {
        return None;
    }
    match find_last_dot(&v) {
        Some(k) => {
            if k == 0 {
                proof {
                    assert(v@.subrange(0, v@.len() as int) =~= v@);
                }
                Some(string_of_range(&v, 0, v.len()))
            } else {
                proof {
                    assert(v@.subrange(0, k as int) =~= v@.take(k as int));
                }
                Some(string_of_range(&v, 0, k))
            }
        },
        None => {
            proof {
                assert(v@.subrange(0, v@.len() as int) =~= v@);
            }
            Some(string_of_range(&v, 0, v.len()))
        },
    }
}

/// Whether two strings are equal, character by character.
pub fn str_equals(a: &str, b: &str) -> (res: bool)
    ensures
        res == (a@ == b@),
{
    let va = chars_of(a);
    let vb = chars_of(b);
    if va.len() != vb.len() {
        return false;
    }
    let mut i: usize = 0;
    while i < va.len()
        invariant
            va@ == a@,
            vb@ == b@,
            va.len() == vb.len(),
            i <= va.len(),
            forall|k: int| 0 <= k < i ==> va@[k] == vb@[k],
        decreases va.len() - i,
    {
        if va[i] != vb[i] {
            return false;
        }
        i = i + 1;
    }
    assert(va@ =~= vb@);
    true
}

} // verus!
