//! Character sequences: the model of every piece of prompt text.
//!
//! A piece of text is a `Seq<char>`, and one character takes one column.
//! Executable code holds text as `Vec<char>` while it works on it and as
//! `String` at the public surface.

use vstd::prelude::*;

verus! {

/// `String::push` appends the one character to the end of the string.
pub assume_specification[ String::push ](s: &mut String, c: char)
    ensures
        final(s)@ == old(s)@.push(c),
;

/// `n` copies of the character `c`.
pub open spec fn repeated(c: char, n: nat) -> Seq<char> {
    Seq::new(n, |i: int| c)
}

/// The decimal digit for `d`, for `0 <= d < 10`.
pub open spec fn digit(d: int) -> char {
    if d == 0 {
        '0'
    } else if d == 1 {
        '1'
    } else if d == 2 {
        '2'
    } else if d == 3 {
        '3'
    } else if d == 4 {
        '4'
    } else if d == 5 {
        '5'
    } else if d == 6 {
        '6'
    } else if d == 7 {
        '7'
    } else if d == 8 {
        '8'
    } else {
        '9'
    }
}

/// `n` in decimal, without leading zeros.
pub open spec fn decimal(n: nat) -> Seq<char>
    decreases n,
{
    if n < 10 {
        seq![digit(n as int)]
    } else {
        decimal(n / 10).push(digit((n % 10) as int))
    }
}

/// `n` in decimal, with zeros in front up to `width` characters.
pub open spec fn zero_padded(n: nat, width: nat) -> Seq<char> {
    let digits = decimal(n);
    if digits.len() < width {
        repeated('0', (width - digits.len()) as nat) + digits
    } else {
        digits
    }
}

/// The characters of an optional string.
pub open spec fn text_of(s: Option<String>) -> Option<Seq<char>> {
    match s {
        Some(s) => Some(s@),
        None => None,
    }
}

/// The characters of an optional string slice.
pub open spec fn slice_text(s: Option<&str>) -> Option<Seq<char>> {
    match s {
        Some(s) => Some(s@),
        None => None,
    }
}

/// `i` is the first position in `lo..hi` at which `p` holds, or `hi` where it
/// holds at none.
pub open spec fn is_least(lo: int, hi: int, p: spec_fn(int) -> bool, i: int) -> bool {
    &&& lo <= i <= hi
    &&& i < hi ==> p(i)
    &&& forall|k: int| lo <= k < i ==> !#[trigger] p(k)
}

/// The first position in `lo..hi` at which `p` holds, or `hi`.
pub open spec fn least(lo: int, hi: int, p: spec_fn(int) -> bool) -> int {
    choose|i: int| is_least(lo, hi, p, i)
}

/// The predicate "the character at this position is `c`".
pub open spec fn holds_char(s: Seq<char>, c: char) -> spec_fn(int) -> bool {
    |k: int| 0 <= k < s.len() && s[k] == c
}

/// The position of the first `c` in `s` at or after `from`, or the length of
/// `s` where there is none.
pub open spec fn position_from(s: Seq<char>, c: char, from: int) -> int {
    least(from, s.len() as int, holds_char(s, c))
}

/// White space: the characters that Unicode gives the property White_Space.
pub open spec fn is_space(c: char) -> bool {
    let n = c as u32;
    ||| 0x09 <= n <= 0x0d
    ||| n == 0x20
    ||| n == 0x85
    ||| n == 0xa0
    ||| n == 0x1680
    ||| 0x2000 <= n <= 0x200a
    ||| n == 0x2028
    ||| n == 0x2029
    ||| n == 0x202f
    ||| n == 0x205f
    ||| n == 0x3000
}

/// The predicate "the character at this position is no white space".
pub open spec fn holds_ink(s: Seq<char>) -> spec_fn(int) -> bool {
    |k: int| 0 <= k < s.len() && !is_space(s[k])
}

/// The predicate "the character at this position is the last that is no
/// white space".
pub open spec fn holds_last_ink(s: Seq<char>) -> spec_fn(int) -> bool {
    |k: int|
        0 <= k < s.len() && !is_space(s[k]) && forall|m: int|
            k < m < s.len() ==> is_space(#[trigger] s[m])
}

/// `s` without the white space at its front and at its end.
pub open spec fn trimmed(s: Seq<char>) -> Seq<char> {
    let first = least(0, s.len() as int, holds_ink(s));
    let last = least(0, s.len() as int, holds_last_ink(s));
    if 0 <= first <= last < s.len() {
        s.subrange(first, last + 1)
    } else {
        Seq::empty()
    }
}

/// The decimal digits.
pub open spec fn is_digit(c: char) -> bool {
    '0' <= c <= '9'
}

/// The number that a decimal digit stands for.
pub open spec fn digit_value(c: char) -> nat {
    (c as u32 - '0' as u32) as nat
}

/// The number that a sequence of decimal digits stands for.
pub open spec fn number(s: Seq<char>) -> nat
    decreases s.len(),
{
    if s.len() == 0 {
        0
    } else {
        number(s.drop_last()) * 10 + digit_value(s.last())
    }
}

/// The digits of a number that may have a `+` in front.
pub open spec fn unsigned_part(s: Seq<char>) -> Seq<char> {
    if s.len() > 0 && s[0] == '+' {
        s.skip(1)
    } else {
        s
    }
}

/// The number that `s` is the decimal form of, where it is one and not
/// above `max`: one digit or more, with or without a `+` in front, and
/// nothing else.
pub open spec fn parsed_number(s: Seq<char>, max: nat) -> Option<nat> {
    let digits = unsigned_part(s);
    if digits.len() > 0 && (forall|i: int| 0 <= i < digits.len() ==> is_digit(#[trigger] digits[i]))
        && number(digits) <= max {
        Some(number(digits))
    } else {
        None
    }
}

proof fn lemma_least_from(lo: int, hi: int, p: spec_fn(int) -> bool, cur: int)
    requires
        lo <= cur <= hi,
        forall|k: int| lo <= k < cur ==> !#[trigger] p(k),
    ensures
        exists|i: int| is_least(lo, hi, p, i),
    decreases hi - cur,
{
    if cur == hi || p(cur) {
        assert(is_least(lo, hi, p, cur));
    } else {
        lemma_least_from(lo, hi, p, cur + 1);
    }
}

/// A first position is the first position: `least` is that position.
pub proof fn lemma_least_is(lo: int, hi: int, p: spec_fn(int) -> bool, i: int)
    requires
        is_least(lo, hi, p, i),
    ensures
        least(lo, hi, p) == i,
{
    let j = least(lo, hi, p);
    assert(is_least(lo, hi, p, j));
    if j < i {
        assert(!p(j));
    }
    if i < j {
        assert(!p(i));
    }
}

/// Over a range that is not inverted there is a first position.
pub proof fn lemma_least_exists(lo: int, hi: int, p: spec_fn(int) -> bool)
    requires
        lo <= hi,
    ensures
        is_least(lo, hi, p, least(lo, hi, p)),
{
    lemma_least_from(lo, hi, p, lo);
}

/// The first `c` at or after `from` is a `c`, and nothing between `from` and
/// it is.
pub proof fn lemma_position_from(s: Seq<char>, c: char, from: int)
    requires
        0 <= from <= s.len(),
    ensures
        from <= position_from(s, c, from) <= s.len(),
        position_from(s, c, from) < s.len() ==> s[position_from(s, c, from)] == c,
        forall|k: int| from <= k < position_from(s, c, from) ==> s[k] != c,
{
    lemma_least_exists(from, s.len() as int, holds_char(s, c));
    let i = position_from(s, c, from);
    assert(is_least(from, s.len() as int, holds_char(s, c), i));
    assert forall|k: int| from <= k < i implies s[k] != c by {
        assert(!holds_char(s, c)(k));
    }
}

/// A position that holds `c`, with no `c` between `from` and it, is the
/// first `c` at or after `from`; so is the length where there is no `c` at
/// all.
pub proof fn lemma_position_is(s: Seq<char>, c: char, from: int, i: int)
    requires
        0 <= from <= i <= s.len(),
        i < s.len() ==> s[i] == c,
        forall|k: int| from <= k < i ==> s[k] != c,
    ensures
        position_from(s, c, from) == i,
{
    assert(is_least(from, s.len() as int, holds_char(s, c), i));
    lemma_least_is(from, s.len() as int, holds_char(s, c), i);
}

/// Looking for `c` in what is left after the first `k` characters finds the
/// same `c` as looking in the whole text from position `k`.
pub proof fn lemma_position_skip(s: Seq<char>, c: char, k: int)
    requires
        0 <= k <= s.len(),
    ensures
        position_from(s.skip(k), c, 0) == position_from(s, c, k) - k,
{
    lemma_position_from(s, c, k);
    let i = position_from(s, c, k);
    lemma_position_is(s.skip(k), c, 0, i - k);
}

/// The decimal form of a number has at least one digit, and no more digits
/// than its size allows.
pub proof fn lemma_decimal_len(n: nat)
    ensures
        decimal(n).len() >= 1,
        n < 10 ==> decimal(n).len() == 1,
        10 <= n < 100 ==> decimal(n).len() == 2,
        100 <= n < 1000 ==> decimal(n).len() == 3,
    decreases n,
{
    reveal_with_fuel(decimal, 3);
    if n >= 10 {
        lemma_decimal_len(n / 10);
    }
}

/// A number with zeros in front takes the width asked for, or the digits
/// that it has where they are more.
pub proof fn lemma_zero_padded_len(n: nat, width: nat)
    ensures
        zero_padded(n, width).len() == if decimal(n).len() < width {
            width
        } else {
            decimal(n).len()
        },
        n < 100 ==> zero_padded(n, 2).len() == 2,
        n < 1000 ==> zero_padded(n, 3).len() == 3,
{
    lemma_decimal_len(n);
}

/// The characters of `s`, in order.
pub fn chars_of(s: &str) -> (v: Vec<char>)
    ensures
        v@ == s@,
{
    let mut v: Vec<char> = Vec::new();
    for c in it: s.chars()
        invariant
            it.seq() == s@,
            v@ =~= it.seq().take(it.index() as int),
    {
        v.push(c);
    }
    v
}

/// The string made of the characters of `v`, in order.
pub fn string_of(v: &Vec<char>) -> (s: String)
    ensures
        s@ == v@,
{
    let mut s = String::new();
    let mut i: usize = 0;
    while i < v.len()
        invariant
            i <= v.len(),
            s@ =~= v@.take(i as int),
        decreases v.len() - i,
    {
        s.push(v[i]);
        i += 1;
    }
    s
}

/// Appends the characters of `src` to `dst`.
pub fn push_all(dst: &mut Vec<char>, src: &Vec<char>)
    ensures
        final(dst)@ == old(dst)@ + src@,
{
    let mut i: usize = 0;
    while i < src.len()
        invariant
            i <= src.len(),
            dst@ =~= old(dst)@ + src@.take(i as int),
        decreases src.len() - i,
    {
        dst.push(src[i]);
        i += 1;
    }
}

/// Appends the characters of `src` from position `from` up to `to`.
pub fn push_range(dst: &mut Vec<char>, src: &Vec<char>, from: usize, to: usize)
    requires
        from <= to <= src.len(),
    ensures
        final(dst)@ == old(dst)@ + src@.subrange(from as int, to as int),
{
    let mut i: usize = from;
    while i < to
        invariant
            from <= i <= to <= src.len(),
            dst@ =~= old(dst)@ + src@.subrange(from as int, i as int),
        decreases to - i,
    {
        dst.push(src[i]);
        i += 1;
    }
}

/// Appends `n` copies of `c` to `dst`.
pub fn push_repeated(dst: &mut Vec<char>, c: char, n: usize)
    ensures
        final(dst)@ == old(dst)@ + repeated(c, n as nat),
{
    let mut i: usize = 0;
    while i < n
        invariant
            i <= n,
            dst@ =~= old(dst)@ + repeated(c, i as nat),
        decreases n - i,
    {
        dst.push(c);
        i += 1;
    }
}

/// The character of one decimal digit.
pub fn digit_of(d: u8) -> (c: char)
    requires
        d < 10,
    ensures
        c == digit(d as int),
{
    if d == 0 {
        '0'
    } else if d == 1 {
        '1'
    } else if d == 2 {
        '2'
    } else if d == 3 {
        '3'
    } else if d == 4 {
        '4'
    } else if d == 5 {
        '5'
    } else if d == 6 {
        '6'
    } else if d == 7 {
        '7'
    } else if d == 8 {
        '8'
    } else {
        '9'
    }
}

/// Appends `n` in decimal to `dst`.
pub fn push_decimal(dst: &mut Vec<char>, n: u128)
    ensures
        final(dst)@ == old(dst)@ + decimal(n as nat),
    decreases n,
{
    if n >= 10 {
        push_decimal(dst, n / 10);
    }
    dst.push(digit_of((n % 10) as u8));
    assert(dst@ =~= old(dst)@ + decimal(n as nat));
}

/// Appends `n` in decimal to `dst`, with zeros in front up to `width`
/// characters.
pub fn push_zero_padded(dst: &mut Vec<char>, n: u128, width: usize)
    ensures
        final(dst)@ == old(dst)@ + zero_padded(n as nat, width as nat),
{
    let mut digits: Vec<char> = Vec::new();
    push_decimal(&mut digits, n);
    assert(digits@ =~= decimal(n as nat));
    if digits.len() < width {
        push_repeated(dst, '0', width - digits.len());
    }
    push_all(dst, &digits);
    assert(dst@ =~= old(dst)@ + zero_padded(n as nat, width as nat));
}

/// The position of the first `c` in `s` at or after `from`, or the length of
/// `s`.
pub fn find_from(s: &Vec<char>, c: char, from: usize) -> (i: usize)
    requires
        from <= s.len(),
    ensures
        i == position_from(s@, c, from as int),
        from <= i <= s.len(),
        i < s.len() ==> s@[i as int] == c,
        forall|k: int| from <= k < i ==> s@[k] != c,
{
    let mut i: usize = from;
    while i < s.len() && s[i] != c
        invariant
            from <= i <= s.len(),
            forall|k: int| from <= k < i ==> s@[k] != c,
        decreases s.len() - i,
    {
        i += 1;
    }
    proof {
        assert(is_least(from as int, s.len() as int, holds_char(s@, c), i as int));
        lemma_least_is(from as int, s.len() as int, holds_char(s@, c), i as int);
    }
    i
}

/// The digits read so far stand for no more than all the digits do.
proof fn lemma_number_grows(s: Seq<char>, i: int)
    requires
        0 <= i <= s.len(),
    ensures
        number(s.take(i)) <= number(s),
    decreases s.len() - i,
{
    if i < s.len() {
        lemma_number_grows(s, i + 1);
        assert(s.take(i + 1).drop_last() =~= s.take(i));
    } else {
        assert(s.take(i) =~= s);
    }
}

/// Whether `c` is white space.
pub fn space(c: char) -> (b: bool)
    ensures
        b == is_space(c),
{
    let n = c as u32;
    (0x09 <= n && n <= 0x0d) || n == 0x20 || n == 0x85 || n == 0xa0 || n == 0x1680 || (0x2000 <= n
        && n <= 0x200a) || n == 0x2028 || n == 0x2029 || n == 0x202f || n == 0x205f || n == 0x3000
}

/// `s` without the white space at its front and at its end.
pub fn trim(s: &Vec<char>) -> (v: Vec<char>)
    ensures
        v@ == trimmed(s@),
{
    let mut first: usize = 0;
    while first < s.len() && space(s[first])
        invariant
            first <= s.len(),
            forall|k: int| 0 <= k < first ==> is_space(#[trigger] s@[k]),
        decreases s.len() - first,
    {
        first += 1;
    }
    proof {
        let p = holds_ink(s@);
        assert forall|k: int| 0 <= k < first implies !#[trigger] p(k) by {
            assert(is_space(s@[k]));
        }
        assert(is_least(0, s.len() as int, p, first as int));
        lemma_least_is(0, s.len() as int, p, first as int);
    }
    let mut v: Vec<char> = Vec::new();
    if first == s.len() {
        proof {
            lemma_least_exists(0, s.len() as int, holds_last_ink(s@));
            let last = least(0, s.len() as int, holds_last_ink(s@));
            if last < s.len() {
                assert(holds_last_ink(s@)(last));
                assert(is_space(s@[last]));
            }
            assert(v@ =~= trimmed(s@));
        }
        return v;
    }
    let mut last: usize = s.len() - 1;
    while space(s[last])
        invariant
            first <= last < s.len(),
            !is_space(s@[first as int]),
            forall|m: int| last < m < s.len() ==> is_space(#[trigger] s@[m]),
        decreases last,
    {
        last -= 1;
    }
    proof {
        let p = holds_last_ink(s@);
        assert(p(last as int));
        assert forall|k: int| 0 <= k < last implies !#[trigger] p(k) by {
            if p(k) {
                assert(is_space(s@[last as int]));
            }
        }
        assert(is_least(0, s.len() as int, p, last as int));
        lemma_least_is(0, s.len() as int, p, last as int);
    }
    push_range(&mut v, s, first, last + 1);
    assert(v@ =~= trimmed(s@));
    v
}

/// The number that `s` is the decimal form of, where it is one and not
/// above `max`.
pub fn parse_number(s: &Vec<char>, max: u64) -> (r: Option<u64>)
    ensures
        r matches Some(n) ==> parsed_number(s@, max as nat) == Some(n as nat),
        r is None ==> parsed_number(s@, max as nat) is None,
{
    let start: usize = if s.len() > 0 && s[0] == '+' {
        1
    } else {
        0
    };
    let ghost digits = unsigned_part(s@);
    assert(digits =~= s@.skip(start as int));
    if start == s.len() {
        return None;
    }
    let mut n: u64 = 0;
    let mut i: usize = start;
    while i < s.len()
        invariant
            start <= i <= s.len(),
            digits == s@.skip(start as int),
            digits == unsigned_part(s@),
            n == number(digits.take(i - start)),
            n <= max,
            forall|k: int| 0 <= k < i - start ==> is_digit(#[trigger] digits[k]),
        decreases s.len() - i,
    {
        let c = s[i];
        if !('0' <= c && c <= '9') {
            assert(!is_digit(digits[i - start]));
            return None;
        }
        let d = (c as u32 - '0' as u32) as u64;
        proof {
            assert(digits.take(i - start + 1).drop_last() =~= digits.take(i - start));
            assert(number(digits.take(i - start + 1)) == n * 10 + d);
            lemma_number_grows(digits, i - start + 1);
        }
        if d > max || n > (max - d) / 10 {
            return None;
        }
        n = n * 10 + d;
        i += 1;
    }
    assert(digits.take(i - start) =~= digits);
    Some(n)
}

/// Whether `s` begins with the characters of `prefix`.
pub fn starts_with(s: &Vec<char>, prefix: &Vec<char>) -> (b: bool)
    ensures
        b == prefix@.is_prefix_of(s@),
{
    if prefix.len() > s.len() {
        return false;
    }
    let mut i: usize = 0;
    while i < prefix.len()
        invariant
            i <= prefix.len() <= s.len(),
            forall|k: int| 0 <= k < i ==> s@[k] == prefix@[k],
        decreases prefix.len() - i,
    {
        if s[i] != prefix[i] {
            assert(prefix@[i as int] != s@.subrange(0, prefix.len() as int)[i as int]);
            return false;
        }
        i += 1;
    }
    assert(prefix@ =~= s@.subrange(0, prefix@.len() as int));
    true
}

/// Whether `a` and `b` hold the same characters.
pub fn same_text(a: &Vec<char>, b: &Vec<char>) -> (r: bool)
    ensures
        r == (a@ == b@),
{
    if a.len() != b.len() {
        return false;
    }
    let mut i: usize = 0;
    while i < a.len()
        invariant
            i <= a.len(),
            a.len() == b.len(),
            forall|k: int| 0 <= k < i ==> a@[k] == b@[k],
        decreases a.len() - i,
    {
        if a[i] != b[i] {
            return false;
        }
        i += 1;
    }
    assert(a@ =~= b@);
    true
}

} // verus!
