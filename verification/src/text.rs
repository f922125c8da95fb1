//! Text primitives shared by the rest of the crate: conversion between
//! strings and character vectors, trimming, splitting and decimal numbers.
//! All contracts are stated over `Seq<char>`.

use vstd::prelude::*;

verus! {

/// `String::push` appends one character.
pub assume_specification[ String::push ](s: &mut String, c: char)
    ensures
        final(s)@ == old(s)@.push(c),
;

/// Equality of string slices is equality of their characters.
pub assume_specification[ <str as PartialEq>::eq ](a: &str, b: &str) -> (r: bool)
    ensures
        r == (a@ == b@),
;

/// Whether two string slices hold the same characters.
pub fn str_eq(a: &str, b: &str) -> (r: bool)
    ensures
        r == (a@ == b@),
{
    *a == *b
}

/// The characters of `s`, in order.
pub fn chars_of(s: &str) -> (v: Vec<char>)
    ensures
        v@ == s@,
{
    let mut v: Vec<char> = Vec::new();
    for c in it: s.chars()
        invariant
            v@ == s@.take(it.index() as int),
            it.seq() == s@,
    {
        v.push(c);
    }
    v
}

/// The string made of the characters `v[from..to]`.
pub fn string_of(v: &Vec<char>, from: usize, to: usize) -> (s: String)
    requires
        from <= to <= v.len(),
    ensures
        s@ == v@.subrange(from as int, to as int),
{
    let mut s = String::new();
    let mut i: usize = from;
    while i < to
        invariant
            from <= i <= to <= v.len(),
            s@ == v@.subrange(from as int, i as int),
        decreases to - i,
    {
        s.push(v[i]);
        i += 1;
    }
    s
}

/// The code points that Unicode gives the property `White_Space`.
pub open spec fn is_space(c: char) -> bool {
    let u = c as u32;
    ||| 0x09 <= u <= 0x0D
    ||| u == 0x20
    ||| u == 0x85
    ||| u == 0xA0
    ||| u == 0x1680
    ||| 0x2000 <= u <= 0x200A
    ||| u == 0x2028
    ||| u == 0x2029
    ||| u == 0x202F
    ||| u == 0x205F
    ||| u == 0x3000
}

/// Whether `c` is white space.
pub fn is_space_char(c: char) -> (r: bool)
    ensures
        r == is_space(c),
{
    let u: u32 = c as u32;
    (0x09 <= u && u <= 0x0D) || u == 0x20 || u == 0x85 || u == 0xA0 || u == 0x1680 || (0x2000 <= u
        && u <= 0x200A) || u == 0x2028 || u == 0x2029 || u == 0x202F || u == 0x205F || u == 0x3000
}

/// Number of white-space characters at the front of `s`.
pub open spec fn leading_spaces(s: Seq<char>) -> nat
    decreases s.len(),
{
    if s.len() > 0 && is_space(s[0]) {
        1 + leading_spaces(s.skip(1))
    } else {
        0
    }
}

/// Number of white-space characters at the back of `s`.
pub open spec fn trailing_spaces(s: Seq<char>) -> nat
    decreases s.len(),
{
    if s.len() > 0 && is_space(s.last()) {
        1 + trailing_spaces(s.drop_last())
    } else {
        0
    }
}

/// `s` without the white space at its two ends.
pub open spec fn trimmed(s: Seq<char>) -> Seq<char> {
    let t = s.skip(leading_spaces(s) as int);
    t.take(t.len() - trailing_spaces(t))
}

/// The white space at the front of `s` is counted in full: a run of `k`
/// white-space characters that ends the text or meets another character.
proof fn lemma_leading_spaces(s: Seq<char>, k: int)
    requires
        0 <= k <= s.len(),
        forall|i: int| 0 <= i < k ==> is_space(s[i]),
        k < s.len() ==> !is_space(s[k]),
    ensures
        leading_spaces(s) == k,
    decreases k,
{
    if k > 0 {
        let t = s.skip(1);
        assert forall|i: int| 0 <= i < k - 1 implies is_space(t[i]) by {
            assert(t[i] == s[i + 1]);
        }
        lemma_leading_spaces(t, k - 1);
    }
}

/// The white space at the back of `s` is counted in full.
proof fn lemma_trailing_spaces(s: Seq<char>, k: int)
    requires
        0 <= k <= s.len(),
        forall|i: int| s.len() - k <= i < s.len() ==> is_space(s[i]),
        k < s.len() ==> !is_space(s[s.len() - k - 1]),
    ensures
        trailing_spaces(s) == k,
    decreases k,
{
    if k > 0 {
        let t = s.drop_last();
        assert forall|i: int| t.len() - (k - 1) <= i < t.len() implies is_space(t[i]) by {
            assert(t[i] == s[i]);
        }
        lemma_trailing_spaces(t, k - 1);
    }
}

/// What is counted at the front of `s` is white space and nothing else.
proof fn lemma_leading_run(s: Seq<char>)
    ensures
        leading_spaces(s) <= s.len(),
        forall|i: int| 0 <= i < leading_spaces(s) ==> is_space(#[trigger] s[i]),
        leading_spaces(s) < s.len() ==> !is_space(s[leading_spaces(s) as int]),
    decreases s.len(),
{
    if s.len() > 0 && is_space(s[0]) {
        let t = s.skip(1);
        lemma_leading_run(t);
        assert forall|i: int| 0 <= i < leading_spaces(s) implies is_space(#[trigger] s[i]) by {
            if i > 0 {
                assert(s[i] == t[i - 1]);
            }
        }
        if leading_spaces(s) < s.len() {
            assert(s[leading_spaces(s) as int] == t[leading_spaces(t) as int]);
        }
    }
}

/// What is counted at the back of `s` is white space and nothing else.
proof fn lemma_trailing_run(s: Seq<char>)
    ensures
        trailing_spaces(s) <= s.len(),
        forall|i: int| s.len() - trailing_spaces(s) <= i < s.len() ==> is_space(#[trigger] s[i]),
        trailing_spaces(s) < s.len() ==> !is_space(s[s.len() - trailing_spaces(s) - 1]),
    decreases s.len(),
{
    if s.len() > 0 && is_space(s.last()) {
        let t = s.drop_last();
        lemma_trailing_run(t);
        assert forall|i: int| s.len() - trailing_spaces(s) <= i < s.len() implies is_space(
            #[trigger] s[i],
        ) by {
            if i < s.len() - 1 {
                assert(s[i] == t[i]);
            }
        }
        if trailing_spaces(s) < s.len() {
            assert(s[s.len() - trailing_spaces(s) - 1] == t[t.len() - trailing_spaces(t) - 1]);
        }
    }
}

/// Trimming takes white space away and nothing else: `s` is white space,
/// then `trimmed(s)`, then white space. What is left neither starts nor ends
/// with white space, so trimming it again changes nothing.
pub proof fn lemma_trimmed(s: Seq<char>)
    ensures
        exists|a: int, b: int|
            0 <= a <= b <= s.len() && #[trigger] s.subrange(a, b) == trimmed(s) && (forall|i: int|
                0 <= i < a || b <= i < s.len() ==> is_space(#[trigger] s[i])),
        trimmed(s).len() > 0 ==> !is_space(trimmed(s)[0]) && !is_space(trimmed(s).last()),
        trimmed(trimmed(s)) == trimmed(s),
{
    lemma_leading_run(s);
    let a = leading_spaces(s) as int;
    let t = s.skip(a);
    lemma_trailing_run(t);
    let k = trailing_spaces(t) as int;
    let b = s.len() - k;
    let r = trimmed(s);
    assert(r =~= s.subrange(a, b));
    assert forall|i: int| 0 <= i < a || b <= i < s.len() implies is_space(#[trigger] s[i]) by {
        if i >= b {
            assert(s[i] == t[i - a]);
        }
    }
    if r.len() > 0 {
        assert(r[0] == s[a]);
        assert(r.last() == t[t.len() - k - 1]);
    }
    lemma_leading_spaces(r, 0);
    lemma_trailing_spaces(r, 0);
    assert(r.skip(0) =~= r);
    assert(r.take(r.len() as int) =~= r);
}

/// Trims `v[from..to]` and returns the bounds of what is left.
pub fn trim_bounds(v: &Vec<char>, from: usize, to: usize) -> (r: (usize, usize))
    requires
        from <= to <= v.len(),
    ensures
        from <= r.0 <= r.1 <= to,
        v@.subrange(r.0 as int, r.1 as int) == trimmed(v@.subrange(from as int, to as int)),
{
    let ghost s = v@.subrange(from as int, to as int);
    let mut a: usize = from;
    while a < to && is_space_char(v[a])
        invariant
            from <= a <= to <= v.len(),
            forall|i: int| from <= i < a ==> is_space(v@[i]),
        decreases to - a,
    {
        a += 1;
    }
    let mut b: usize = to;
    while b > a && is_space_char(v[b - 1])
        invariant
            a <= b <= to <= v.len(),
            forall|i: int| b <= i < to ==> is_space(v@[i]),
        decreases b,
    {
        b -= 1;
    }
    proof {
        assert forall|i: int| 0 <= i < a - from implies is_space(s[i]) by {
            assert(s[i] == v@[from + i]);
        }
        lemma_leading_spaces(s, a - from);
        let t = s.skip(a - from);
        assert(t =~= v@.subrange(a as int, to as int));
        assert forall|i: int| t.len() - (to - b) <= i < t.len() implies is_space(t[i]) by {
            assert(t[i] == v@[a + i]);
        }
        lemma_trailing_spaces(t, to - b);
        assert(t.take(t.len() - (to - b)) =~= v@.subrange(a as int, b as int));
    }
    (a, b)
}

/// The pieces of `s` between occurrences of `sep`: one more piece than there
/// are separators, each free of `sep`, some possibly empty.
pub open spec fn split(s: Seq<char>, sep: char) -> Seq<Seq<char>>
    decreases s.len(),
{
    if s.len() == 0 {
        seq![Seq::<char>::empty()]
    } else {
        let before = split(s.drop_last(), sep);
        if s.last() == sep {
            before.push(Seq::<char>::empty())
        } else {
            before.drop_last().push(before.last().push(s.last()))
        }
    }
}

/// The pieces of a split, put together again with `sep` between them.
pub open spec fn join(pieces: Seq<Seq<char>>, sep: char) -> Seq<char>
    decreases pieces.len(),
{
    if pieces.len() == 0 {
        Seq::<char>::empty()
    } else if pieces.len() == 1 {
        pieces[0]
    } else {
        join(pieces.drop_last(), sep).push(sep) + pieces.last()
    }
}

/// Splitting loses nothing: there is at least one piece, no piece holds the
/// separator, and joining the pieces gives the text back.
pub proof fn lemma_split_join(s: Seq<char>, sep: char)
    ensures
        split(s, sep).len() >= 1,
        forall|i: int, j: int|
            0 <= i < split(s, sep).len() && 0 <= j < split(s, sep)[i].len() ==> split(
                s,
                sep,
            )[i][j] != sep,
        join(split(s, sep), sep) == s,
    decreases s.len(),
{
    if s.len() == 0 {
        assert(join(split(s, sep), sep) =~= s);
    } else {
        let before = split(s.drop_last(), sep);
        lemma_split_join(s.drop_last(), sep);
        let now = split(s, sep);
        if s.last() == sep {
            assert(now.drop_last() =~= before);
            assert(join(now, sep) =~= s);
        } else {
            let grown = before.last().push(s.last());
            assert(now.last() == grown);
            if before.len() == 1 {
                assert(join(now, sep) =~= s);
            } else {
                let head = join(before.drop_last(), sep).push(sep);
                assert(now.drop_last() =~= before.drop_last());
                assert(join(before, sep) == head + before.last());
                assert(join(now, sep) == head + grown);
                assert(s =~= s.drop_last().push(s.last()));
                assert(head + grown =~= (head + before.last()).push(s.last()));
            }
        }
    }
}

/// `v[b.0..b.1]` is a well-formed range of `v` and holds `piece`.
pub open spec fn is_piece(v: Seq<char>, b: (usize, usize), piece: Seq<char>) -> bool {
    b.0 <= b.1 <= v.len() && v.subrange(b.0 as int, b.1 as int) == piece
}

/// Bounds of the pieces of `v` between occurrences of `sep`.
pub fn split_bounds(v: &Vec<char>, sep: char) -> (r: Vec<(usize, usize)>)
    ensures
        r@.len() == split(v@, sep).len(),
        forall|k: int| 0 <= k < r@.len() ==> is_piece(v@, #[trigger] r@[k], split(v@, sep)[k]),
{
    let mut r: Vec<(usize, usize)> = Vec::new();
    let mut start: usize = 0;
    let mut i: usize = 0;
    while i < v.len()
        invariant
            start <= i <= v.len(),
            split(v@.take(i as int), sep).len() == r@.len() + 1,
            split(v@.take(i as int), sep).last() == v@.subrange(start as int, i as int),
            forall|k: int|
                0 <= k < r@.len() ==> is_piece(
                    v@,
                    #[trigger] r@[k],
                    split(v@.take(i as int), sep)[k],
                ),
        decreases v.len() - i,
    {
        let ghost before = split(v@.take(i as int), sep);
        let ghost next = v@.take(i + 1);
        let ghost now = split(next, sep);
        let ghost before_r = r@;
        proof {
            assert(next.drop_last() =~= v@.take(i as int));
            assert(next.last() == v@[i as int]);
        }
        if v[i] == sep {
            r.push((start, i));
            start = i + 1;
            proof {
                assert(now == before.push(Seq::<char>::empty()));
                assert(v@.subrange(start as int, i + 1) =~= Seq::<char>::empty());
            }
        } else {
            proof {
                assert(now == before.drop_last().push(before.last().push(v@[i as int])));
                assert(v@.subrange(start as int, i + 1) =~= before.last().push(v@[i as int]));
            }
        }
        proof {
            assert forall|k: int| 0 <= k < r@.len() implies is_piece(
                v@,
                #[trigger] r@[k],
                now[k],
            ) by {
                if k < before_r.len() {
                    assert(r@[k] == before_r[k]);
                    assert(before[k] == now[k]);
                }
            }
        }
        i += 1;
    }
    let ghost whole = split(v@, sep);
    let ghost before_r = r@;
    proof {
        assert(v@.take(i as int) =~= v@);
    }
    r.push((start, i));
    proof {
        assert forall|k: int| 0 <= k < r@.len() implies is_piece(
            v@,
            #[trigger] r@[k],
            whole[k],
        ) by {
            if k < before_r.len() {
                assert(r@[k] == before_r[k]);
            } else {
                assert(whole[k] == whole.last());
            }
        }
    }
    r
}

/// The ten decimal digits of ASCII.
pub open spec fn is_digit(c: char) -> bool {
    '0' <= c <= '9'
}

/// The number that the digit `c` stands for.
pub open spec fn digit_value(c: char) -> nat {
    (c as u32 - 0x30) as nat
}

/// The character that stands for the digit `d`.
pub open spec fn digit_char(d: nat) -> char {
    (0x30 + d) as u8 as char
}

/// The number that a run of decimal digits stands for.
pub open spec fn number_of(s: Seq<char>) -> nat
    decreases s.len(),
{
    if s.len() == 0 {
        0
    } else {
        number_of(s.drop_last()) * 10 + digit_value(s.last())
    }
}

/// The digits of an unsigned decimal numeral: what is left of `s` once one
/// leading `+` is dropped.
pub open spec fn numeral_digits(s: Seq<char>) -> Seq<char> {
    if s.len() > 0 && s[0] == '+' {
        s.skip(1)
    } else {
        s
    }
}

/// An unsigned decimal numeral is an optional `+` and then one digit or more.
pub open spec fn is_numeral(s: Seq<char>) -> bool {
    let d = numeral_digits(s);
    d.len() > 0 && forall|i: int| 0 <= i < d.len() ==> is_digit(#[trigger] d[i])
}

/// The value of `s` read as an unsigned decimal numeral no larger than
/// `max`; `None` where `s` is no numeral or stands for a larger number.
pub open spec fn numeral_value(s: Seq<char>, max: nat) -> Option<nat> {
    if is_numeral(s) && number_of(numeral_digits(s)) <= max {
        Some(number_of(numeral_digits(s)))
    } else {
        None
    }
}

/// The decimal digits of `n`, without leading zeros.
pub open spec fn digits_of(n: nat) -> Seq<char>
    decreases n,
{
    if n < 10 {
        seq![digit_char(n)]
    } else {
        digits_of(n / 10).push(digit_char(n % 10))
    }
}

/// A longer run of digits never stands for a smaller number than its prefix.
pub proof fn lemma_number_of_prefix(s: Seq<char>, k: int)
    requires
        0 <= k <= s.len(),
    ensures
        number_of(s.take(k)) <= number_of(s),
    decreases s.len() - k,
{
    if k < s.len() {
        lemma_number_of_prefix(s.drop_last(), k);
        assert(s.drop_last().take(k) =~= s.take(k));
    } else {
        assert(s.take(k) =~= s);
    }
}

/// Writing a number and reading it again gives the number back: what is
/// written is a numeral without a sign, and it stands for the number.
pub proof fn lemma_digits_round_trip(n: nat)
    ensures
        is_numeral(digits_of(n)),
        number_of(digits_of(n)) == n,
        digits_of(n).len() >= 1,
        digits_of(n)[0] != '+',
        forall|max: nat| n <= max ==> #[trigger] numeral_value(digits_of(n), max) == Some(n),
    decreases n,
{
    let d = digits_of(n);
    if n < 10 {
        assert(d.drop_last() =~= Seq::<char>::empty());
        assert(number_of(d.drop_last()) == 0);
        assert(is_digit(d[0]));
    } else {
        lemma_digits_round_trip(n / 10);
        let front = digits_of(n / 10);
        assert(d.drop_last() =~= front);
        assert(d[0] == front[0]);
        assert forall|i: int| 0 <= i < d.len() implies is_digit(#[trigger] d[i]) by {
            if i < front.len() {
                assert(d[i] == front[i]);
            }
        }
    }
}

/// Reads `s` as an unsigned decimal numeral that fits a `usize`.
pub fn parse_usize(s: &str) -> (r: Option<usize>)
    ensures
        match r {
            Some(n) => numeral_value(s@, usize::MAX as nat) == Some(n as nat),
            None => numeral_value(s@, usize::MAX as nat) is None,
        },
{
    let v = chars_of(s);
    let first: usize = if v.len() > 0 && v[0] == '+' {
        1
    } else {
        0
    };
    let ghost d = numeral_digits(s@);
    assert(d =~= v@.subrange(first as int, v@.len() as int));
    if first == v.len() {
        return None;
    }
    let mut n: usize = 0;
    let mut i: usize = first;
    while i < v.len()
        invariant
            first <= i <= v.len(),
            d == numeral_digits(s@),
            d.len() > 0,
            d == v@.subrange(first as int, v@.len() as int),
            forall|k: int| 0 <= k < i - first ==> is_digit(#[trigger] d[k]),
            n == number_of(d.take(i - first)),
        decreases v.len() - i,
    {
        let c: char = v[i];
        let ghost next = d.take(i - first + 1);
        proof {
            assert(d[i - first] == c);
            assert(next.drop_last() =~= d.take(i - first));
            assert(next.last() == c);
        }
        if !('0' <= c && c <= '9') {
            return None;
        }
        let digit: usize = (c as u32 - 0x30) as usize;
        proof {
            lemma_number_of_prefix(d, i - first + 1);
        }
        match n.checked_mul(10) {
            Some(tens) => match tens.checked_add(digit) {
                Some(sum) => {
                    n = sum;
                },
                None => {
                    return None;
                },
            },
            None => {
                return None;
            },
        }
        i += 1;
    }
    proof {
        assert(d.take(i - first) =~= d);
    }
    Some(n)
}

/// Appends the decimal digits of `n` to `out`.
pub fn push_digits(n: u64, out: &mut String)
    ensures
        final(out)@ == old(out)@ + digits_of(n as nat),
    decreases n,
{
    if n >= 10 {
        push_digits(n / 10, out);
    }
    let d: u8 = (n % 10) as u8;
    out.push((0x30 + d) as char);
    proof {
        assert(out@ =~= old(out)@ + digits_of(n as nat));
    }
}

/// The decimal numeral of `n`.
pub fn decimal(n: u64) -> (s: String)
    ensures
        s@ == digits_of(n as nat),
{
    let mut s = String::new();
    push_digits(n, &mut s);
    s
}

} // verus!
