//! Text as a sequence of characters: the few operations the panel needs to
//! read what a script printed and to write what the next script is given.
//!
//! Every function here is stated over `Seq<char>`, the view of `str` and
//! `String`. All but the change to lower case are proved against their
//! statements; the change to lower case is left to the standard library.

use vstd::prelude::*;
use vstd::string::StrSliceExecFns;
use vstd::string::StringExecFns;

verus! {

/// Whether `c` has the Unicode property White_Space.
pub open spec fn is_whitespace(c: char) -> bool {
    let u = c as u32;
    ||| 0x09 <= u <= 0x0D
    ||| u == 0x20
    ||| u == 0x85
    ||| u == 0xA0
    ||| u == 0x1680
    ||| 0x2000 <= u <= 0x200A
    ||| u == 0x2028
    ||| u == 0x2029
    ||| u == 0x202F
    ||| u == 0x205F
    ||| u == 0x3000
}

/// `s` without its leading whitespace.
pub open spec fn trim_start(s: Seq<char>) -> Seq<char>
    decreases s.len(),
{
    if s.len() > 0 && is_whitespace(s[0]) {
        trim_start(s.drop_first())
    } else {
        s
    }
}

/// `s` without its trailing whitespace.
pub open spec fn trim_end(s: Seq<char>) -> Seq<char>
    decreases s.len(),
{
    if s.len() > 0 && is_whitespace(s.last()) {
        trim_end(s.drop_last())
    } else {
        s
    }
}

/// `s` without leading and trailing whitespace.
pub open spec fn trim(s: Seq<char>) -> Seq<char> {
    trim_end(trim_start(s))
}

/// Whether `p` stands in `s` at position `i`.
pub open spec fn occurs_at(s: Seq<char>, p: Seq<char>, i: int) -> bool {
    0 <= i && i + p.len() <= s.len() && s.subrange(i, i + p.len()) == p
}

/// Whether `p` stands somewhere in `s`. The empty text stands everywhere.
pub open spec fn contains(s: Seq<char>, p: Seq<char>) -> bool {
    exists|i: int| occurs_at(s, p, i)
}

/// `to`, then each character of `s` followed by `to`.
pub open spec fn interleave(s: Seq<char>, to: Seq<char>) -> Seq<char>
    decreases s.len(),
{
    if s.len() == 0 {
        to
    } else {
        to + seq![s[0]] + interleave(s.drop_first(), to)
    }
}

/// `s` with every occurrence of `from` replaced by `to`, occurrences taken
/// from left to right without overlap. An empty `from` matches between any
/// two characters and at both ends.
pub open spec fn replace(s: Seq<char>, from: Seq<char>, to: Seq<char>) -> Seq<char>
    decreases s.len(),
{
    if from.len() == 0 {
        interleave(s, to)
    } else if occurs_at(s, from, 0) {
        to + replace(s.skip(from.len() as int), from, to)
    } else if s.len() == 0 {
        s
    } else {
        seq![s[0]] + replace(s.drop_first(), from, to)
    }
}

/// Whether `c` is one of the ten decimal digits.
pub open spec fn is_digit(c: char) -> bool {
    '0' <= c && c <= '9'
}

/// The number a decimal digit stands for.
pub open spec fn digit_value(c: char) -> nat {
    (c as u32 - '0' as u32) as nat
}

/// The digit that stands for `d`, for `d` below ten.
pub open spec fn digit_char(d: nat) -> char {
    if d == 0 {
        '0'
    } else if d == 1 {
        '1'
    } else if d == 2 {
        '2'
    } else if d == 3 {
        '3'
    } else if d == 4 {
        '4'
    } else if d == 5 {
        '5'
    } else if d == 6 {
        '6'
    } else if d == 7 {
        '7'
    } else if d == 8 {
        '8'
    } else {
        '9'
    }
}

/// Whether every character of `s` is a decimal digit.
pub open spec fn all_digits(s: Seq<char>) -> bool {
    forall|i: int| 0 <= i < s.len() ==> is_digit(#[trigger] s[i])
}

/// The number that the digits of `s` write in base ten; 0 for no digits.
pub open spec fn digits_value(s: Seq<char>) -> nat
    decreases s.len(),
{
    if s.len() == 0 {
        0
    } else {
        digits_value(s.drop_last()) * 10 + digit_value(s.last())
    }
}

/// `s` without one leading plus sign.
pub open spec fn unsigned_digits(s: Seq<char>) -> Seq<char> {
    if s.len() > 0 && s[0] == '+' {
        s.drop_first()
    } else {
        s
    }
}

/// The unsigned number that `s` writes, if it writes one no larger than
/// `max`: an optional plus sign, then one or more decimal digits and nothing
/// else.
pub open spec fn parse_unsigned(s: Seq<char>, max: nat) -> Option<nat> {
    let d = unsigned_digits(s);
    if d.len() > 0 && all_digits(d) && digits_value(d) <= max {
        Some(digits_value(d))
    } else {
        None
    }
}

/// The number that `s` writes within `max`, and 0 where it writes none.
pub open spec fn number_or_zero(s: Seq<char>, max: nat) -> nat {
    match parse_unsigned(s, max) {
        Some(n) => n,
        None => 0,
    }
}

/// `n` in base ten, without sign or leading zeros.
pub open spec fn decimal(n: nat) -> Seq<char>
    decreases n,
{
    if n < 10 {
        seq![digit_char(n)]
    } else {
        decimal(n / 10).push(digit_char(n % 10))
    }
}

/// The first position at or after `i` where `c` stands in `s`, and the
/// length of `s` where there is none.
pub open spec fn position_from(s: Seq<char>, c: char, i: int) -> int
    decreases s.len() - i,
{
    if i >= s.len() || s[i] == c {
        i
    } else {
        position_from(s, c, i + 1)
    }
}

/// Whether `c` stands in `s` exactly once.
pub open spec fn has_one(s: Seq<char>, c: char) -> bool {
    let first = position_from(s, c, 0);
    first < s.len() && position_from(s, c, first + 1) == s.len()
}

/// What stands before the first `c` in `s`.
pub open spec fn before(s: Seq<char>, c: char) -> Seq<char> {
    s.take(position_from(s, c, 0))
}

/// What stands after the first `c` in `s`.
pub open spec fn after(s: Seq<char>, c: char) -> Seq<char> {
    s.skip(position_from(s, c, 0) + 1)
}

/// `s` with every character in lower case, as Unicode maps it.
pub uninterp spec fn lowercase(s: Seq<char>) -> Seq<char>;

/// Calls `str::to_lowercase`, which gives the lower case of a text by the
/// Unicode tables. The contract only names what comes out.
#[verifier::external_body]
pub(crate) fn lowered(s: &str) -> (r: String)
    ensures
        r@ == lowercase(s@),
{
    s.to_lowercase()
}

/// The characters of `s`, in order.
pub fn chars_of(s: &str) -> (v: Vec<char>)
    ensures
        v@ == s@,
{
    let mut v: Vec<char> = Vec::new();
    for c in it: s.chars()
        invariant
            v@ == it.seq().take(it.index() as int),
            it.seq() == s@,
    {
        v.push(c);
    }
    v
}

/// Tests a character for the property White_Space.
pub fn char_is_whitespace(c: char) -> (r: bool)
    ensures
        r == is_whitespace(c),
{
    let u: u32 = c as u32;
    (0x09 <= u && u <= 0x0D) || u == 0x20 || u == 0x85 || u == 0xA0 || u == 0x1680 || (0x2000 <= u
        && u <= 0x200A) || u == 0x2028 || u == 0x2029 || u == 0x202F || u == 0x205F || u == 0x3000
}

/// Whether two texts hold the same characters.
pub fn same_text(a: &str, b: &str) -> (r: bool)
    ensures
        r == (a@ == b@),
{
    let x = chars_of(a);
    let y = chars_of(b);
    if x.len() != y.len() {
        return false;
    }
    let mut i: usize = 0;
    while i < x.len()
        invariant
            x@ == a@,
            y@ == b@,
            x.len() == y.len(),
            i <= x.len(),
            x@.take(i as int) == y@.take(i as int),
        decreases x.len() - i,
    {
        if x[i] != y[i] {
            return false;
        }
        i += 1;
    }
    assert(x@ == x@.take(i as int));
    assert(y@ == y@.take(i as int));
    true
}

/// Whether `p` stands in `x` at position `i`.
fn matches_at(x: &Vec<char>, p: &Vec<char>, i: usize) -> (r: bool)
    requires
        i + p.len() <= x.len(),
    ensures
        r == occurs_at(x@, p@, i as int),
{
    let mut j: usize = 0;
    while j < p.len()
        invariant
            i + p.len() <= x.len(),
            j <= p.len(),
            x@.subrange(i as int, i + j) == p@.take(j as int),
        decreases p.len() - j,
    {
        if x[i + j] != p[j] {
            return false;
        }
        j += 1;
    }
    assert(p@ == p@.take(j as int));
    true
}

/// `s` without leading and trailing whitespace.
pub fn trimmed<'a>(s: &'a str) -> (r: &'a str)
    ensures
        r@ == trim(s@),
{
    let v = chars_of(s);
    let n = v.len();
    let mut i: usize = 0;
    assert(s@ == s@.subrange(0, n as int));
    while i < n && char_is_whitespace(v[i])
        invariant
            v@ == s@,
            n == v.len(),
            i <= n,
            trim_start(s@) == trim_start(s@.subrange(i as int, n as int)),
        decreases n - i,
    {
        assert(s@.subrange(i as int, n as int).drop_first() == s@.subrange(i + 1, n as int));
        i += 1;
    }
    let mut j: usize = n;
    while j > i && char_is_whitespace(v[j - 1])
        invariant
            v@ == s@,
            n == v.len(),
            i <= j <= n,
            trim(s@) == trim_end(s@.subrange(i as int, j as int)),
        decreases j,
    {
        assert(s@.subrange(i as int, j as int).drop_last() == s@.subrange(i as int, j - 1));
        j -= 1;
    }
    s.substring_char(i, j)
}

/// Whether `pattern` stands somewhere in `s`.
pub fn includes(s: &str, pattern: &str) -> (r: bool)
    ensures
        r == contains(s@, pattern@),
{
    let x = chars_of(s);
    let p = chars_of(pattern);
    if p.len() > x.len() {
        return false;
    }
    let last = x.len() - p.len();
    let mut i: usize = 0;
    while i < last
        invariant
            x@ == s@,
            p@ == pattern@,
            last == x.len() - p.len(),
            i <= last,
            forall|k: int| 0 <= k < i ==> !occurs_at(s@, pattern@, k),
        decreases last - i,
    {
        if matches_at(&x, &p, i) {
            return true;
        }
        i += 1;
    }
    matches_at(&x, &p, last)
}

/// The text of one decimal digit.
fn digit_text(d: u64) -> (r: &'static str)
    requires
        d < 10,
    ensures
        r@ == seq![digit_char(d as nat)],
{
    proof {
        reveal_strlit("0");
        reveal_strlit("1");
        reveal_strlit("2");
        reveal_strlit("3");
        reveal_strlit("4");
        reveal_strlit("5");
        reveal_strlit("6");
        reveal_strlit("7");
        reveal_strlit("8");
        reveal_strlit("9");
    }
    let r = if d == 0 {
        "0"
    } else if d == 1 {
        "1"
    } else if d == 2 {
        "2"
    } else if d == 3 {
        "3"
    } else if d == 4 {
        "4"
    } else if d == 5 {
        "5"
    } else if d == 6 {
        "6"
    } else if d == 7 {
        "7"
    } else if d == 8 {
        "8"
    } else {
        "9"
    };
    r
}

/// `n` written in base ten.
pub fn decimal_text(n: u64) -> (r: String)
    ensures
        r@ == decimal(n as nat),
    decreases n,
{
    if n < 10 {
        String::from_str(digit_text(n))
    } else {
        let mut r = decimal_text(n / 10);
        r.append(digit_text(n % 10));
        r
    }
}

/// `s` with every occurrence of `from` replaced by `to`.
pub fn replaced(s: &str, from: &str, to: &str) -> (r: String)
    ensures
        r@ == replace(s@, from@, to@),
{
    let x = chars_of(s);
    let f = chars_of(from);
    let n = x.len();
    let m = f.len();
    let mut out = String::new();
    assert(s@ == s@.subrange(0, n as int));
    if m == 0 {
        let mut k: usize = 0;
        while k < n
            invariant
                x@ == s@,
                n == x.len(),
                k <= n,
                from@.len() == 0,
                replace(s@, from@, to@) == out@ + interleave(s@.subrange(k as int, n as int), to@),
            decreases n - k,
        {
            let ghost rest = s@.subrange(k as int, n as int);
            assert(rest.drop_first() == s@.subrange(k + 1, n as int));
            out.append(to);
            out.append(s.substring_char(k, k + 1));
            k += 1;
        }
        out.append(to);
        return out;
    }
    let mut i: usize = 0;
    let mut start: usize = 0;
    while i < n
        invariant
            x@ == s@,
            f@ == from@,
            n == x.len(),
            m == f.len(),
            m > 0,
            start <= i <= n,
            replace(s@, from@, to@) == out@ + s@.subrange(start as int, i as int) + replace(
                s@.subrange(i as int, n as int),
                from@,
                to@,
            ),
        decreases n - i,
    {
        let ghost rest = s@.subrange(i as int, n as int);
        if m <= n - i && matches_at(&x, &f, i) {
            assert(rest.subrange(0, m as int) == s@.subrange(i as int, i + m));
            assert(rest.skip(m as int) == s@.subrange(i + m, n as int));
            out.append(s.substring_char(start, i));
            out.append(to);
            i += m;
            start = i;
        } else {
            assert(!occurs_at(rest, from@, 0)) by {
                if m <= n - i {
                    assert(rest.subrange(0, m as int) == s@.subrange(i as int, i + m));
                }
            }
            assert(rest.drop_first() == s@.subrange(i + 1, n as int));
            i += 1;
        }
    }
    out.append(s.substring_char(start, n));
    out
}

/// The sum of the digits read so far never exceeds that of the whole text.
pub proof fn lemma_digits_value_grows(s: Seq<char>, k: int)
    requires
        0 <= k <= s.len(),
    ensures
        digits_value(s.take(k)) <= digits_value(s),
    decreases s.len() - k,
{
    if k < s.len() {
        lemma_digits_value_grows(s, k + 1);
        assert(s.take(k + 1).drop_last() == s.take(k));
    } else {
        assert(s.take(k) == s);
    }
}

/// The unsigned number that `s` writes, if it writes one no larger than `max`.
pub fn read_unsigned(s: &str, max: u64) -> (r: Option<u64>)
    ensures
        match r {
            Some(n) => parse_unsigned(s@, max as nat) == Some(n as nat),
            None => parse_unsigned(s@, max as nat) is None,
        },
{
    let v = chars_of(s);
    let n = v.len();
    let first: usize = if n > 0 && v[0] == '+' {
        1
    } else {
        0
    };
    let ghost d = unsigned_digits(s@);
    if first == n {
        return None;
    }
    let mut acc: u64 = 0;
    let mut i: usize = first;
    while i < n
        invariant
            v@ == s@,
            n == v.len(),
            first <= i <= n,
            d == unsigned_digits(s@),
            d == s@.subrange(first as int, n as int),
            all_digits(d.take(i - first)),
            acc == digits_value(d.take(i - first)),
            acc <= max,
        decreases n - i,
    {
        let c = v[i];
        let ghost k = i - first;
        assert(d.take(k + 1).drop_last() == d.take(k));
        if !('0' <= c && c <= '9') {
            assert(!is_digit(d[k]));
            return None;
        }
        let digit: u64 = (c as u32 - '0' as u32) as u64;
        let next: u128 = acc as u128 * 10 + digit as u128;
        if next > max as u128 {
            proof {
                lemma_digits_value_grows(d, k + 1);
            }
            return None;
        }
        acc = next as u64;
        assert(all_digits(d.take(k + 1))) by {
            assert forall|j: int| 0 <= j < d.take(k + 1).len() implies is_digit(
                #[trigger] d.take(k + 1)[j],
            ) by {
                if j < k {
                    assert(d.take(k + 1)[j] == d.take(k)[j]);
                }
            }
        }
        i += 1;
    }
    assert(d.take(n - first) == d);
    Some(acc)
}

/// The number that `s` writes within `max`, and 0 where it writes none.
pub fn read_or_zero(s: &str, max: u64) -> (r: u64)
    ensures
        r == number_or_zero(s@, max as nat),
        r <= max,
{
    match read_unsigned(s, max) {
        Some(n) => n,
        None => 0,
    }
}

/// The two parts of `s` around `c`, where `c` stands in `s` exactly once.
pub fn split_in_two<'a>(s: &'a str, c: char) -> (r: Option<(&'a str, &'a str)>)
    ensures
        match r {
            Some((a, b)) => has_one(s@, c) && a@ == before(s@, c) && b@ == after(s@, c),
            None => !has_one(s@, c),
        },
{
    let v = chars_of(s);
    let n = v.len();
    let mut i: usize = 0;
    while i < n && v[i] != c
        invariant
            v@ == s@,
            n == v.len(),
            i <= n,
            position_from(s@, c, 0) == position_from(s@, c, i as int),
        decreases n - i,
    {
        i += 1;
    }
    if i == n {
        return None;
    }
    let first = i;
    let mut j: usize = first + 1;
    while j < n && v[j] != c
        invariant
            v@ == s@,
            n == v.len(),
            first < j <= n,
            position_from(s@, c, first + 1) == position_from(s@, c, j as int),
        decreases n - j,
    {
        j += 1;
    }
    if j < n {
        return None;
    }
    Some((s.substring_char(0, first), s.substring_char(first + 1, n)))
}

/// What is left of a text without its leading whitespace is the end of
/// the text, and does not begin with whitespace.
pub proof fn lemma_trim_start_shape(s: Seq<char>)
    ensures
        trim_start(s).len() <= s.len(),
        trim_start(s) == s.skip(s.len() - trim_start(s).len()),
        trim_start(s).len() > 0 ==> !is_whitespace(trim_start(s)[0]),
    decreases s.len(),
{
    if s.len() > 0 && is_whitespace(s[0]) {
        lemma_trim_start_shape(s.drop_first());
    }
}

/// What is left of a text without its trailing whitespace is the start of
/// the text, does not end with whitespace, and is not empty where the text
/// begins with something else than whitespace.
pub proof fn lemma_trim_end_shape(s: Seq<char>)
    ensures
        trim_end(s).len() <= s.len(),
        trim_end(s) == s.take(trim_end(s).len() as int),
        trim_end(s).len() > 0 ==> !is_whitespace(trim_end(s).last()),
        s.len() > 0 && !is_whitespace(s[0]) ==> trim_end(s).len() > 0,
    decreases s.len(),
{
    if s.len() > 0 && is_whitespace(s.last()) {
        lemma_trim_end_shape(s.drop_last());
    }
}

/// A trimmed text is a stretch of the text it was made of, and neither
/// begins nor ends with whitespace.
pub proof fn lemma_trim_bare(s: Seq<char>)
    ensures
        trim(s).len() > 0 ==> !is_whitespace(trim(s)[0]) && !is_whitespace(trim(s).last()),
        exists|i: int, j: int| 0 <= i <= j <= s.len() && trim(s) == #[trigger] s.subrange(i, j),
{
    lemma_trim_start_shape(s);
    let u = trim_start(s);
    lemma_trim_end_shape(u);
    let t = trim_end(u);
    let i = s.len() - u.len();
    let j = i + t.len();
    assert(t == s.subrange(i, j));
}

/// To trim a text twice is to trim it once.
pub proof fn lemma_trim_idempotent(s: Seq<char>)
    ensures
        trim(trim(s)) == trim(s),
{
    lemma_trim_bare(s);
}

/// The digit that stands for a number below ten stands for that number.
pub proof fn lemma_digit_char_value(d: nat)
    requires
        d < 10,
    ensures
        is_digit(digit_char(d)),
        digit_value(digit_char(d)) == d,
        digit_char(d) != '+',
{
}

/// A number in base ten is written in digits alone, and the digits write
/// that number.
pub proof fn lemma_decimal_digits(n: nat)
    ensures
        decimal(n).len() > 0,
        all_digits(decimal(n)),
        digits_value(decimal(n)) == n,
    decreases n,
{
    if n < 10 {
        lemma_digit_char_value(n);
        assert(digits_value(decimal(n).drop_last()) == 0);
    } else {
        lemma_decimal_digits(n / 10);
        lemma_digit_char_value(n % 10);
        assert(decimal(n).drop_last() == decimal(n / 10));
    }
}

/// What is written in base ten is read back as the number it was written
/// for, within any bound that the number keeps.
pub proof fn lemma_decimal_reads_back(n: nat, max: nat)
    requires
        n <= max,
    ensures
        parse_unsigned(decimal(n), max) == Some(n),
{
    lemma_decimal_digits(n);
}

/// To replace what does not occur changes nothing.
pub proof fn lemma_replace_absent(s: Seq<char>, from: Seq<char>, to: Seq<char>)
    requires
        from.len() > 0,
        !contains(s, from),
    ensures
        replace(s, from, to) == s,
    decreases s.len(),
{
    if s.len() > 0 {
        let rest = s.drop_first();
        assert(!contains(rest, from)) by {
            if contains(rest, from) {
                let i = choose|i: int| occurs_at(rest, from, i);
                assert(rest.subrange(i, i + from.len()) == s.subrange(i + 1, i + 1 + from.len()));
                assert(occurs_at(s, from, i + 1));
            }
        }
        lemma_replace_absent(rest, from, to);
    }
}

/// Whether `s` holds nothing but whitespace.
pub open spec fn all_whitespace(s: Seq<char>) -> bool {
    forall|i: int| 0 <= i < s.len() ==> is_whitespace(#[trigger] s[i])
}

/// Whitespace in front of a text is trimmed away with the text's own.
pub proof fn lemma_trim_start_of_padded(padding: Seq<char>, s: Seq<char>)
    requires
        all_whitespace(padding),
    ensures
        trim_start(padding + s) == trim_start(s),
    decreases padding.len(),
{
    if padding.len() > 0 {
        assert((padding + s).drop_first() == padding.drop_first() + s);
        lemma_trim_start_of_padded(padding.drop_first(), s);
    }
}

/// Whitespace behind a text is trimmed away with the text's own.
pub proof fn lemma_trim_end_of_padded(s: Seq<char>, padding: Seq<char>)
    requires
        all_whitespace(padding),
    ensures
        trim_end(s + padding) == trim_end(s),
    decreases padding.len(),
{
    if padding.len() > 0 {
        assert((s + padding).drop_last() == s + padding.drop_last());
        lemma_trim_end_of_padded(s, padding.drop_last());
    }
}

/// A text that neither begins nor ends with whitespace comes out of any
/// whitespace around it as it is.
pub proof fn lemma_trim_of_padded(before: Seq<char>, s: Seq<char>, after: Seq<char>)
    requires
        all_whitespace(before),
        all_whitespace(after),
        s.len() > 0,
        !is_whitespace(s[0]),
        !is_whitespace(s.last()),
    ensures
        trim(before + s + after) == s,
{
    assert(before + s + after == before + (s + after));
    lemma_trim_start_of_padded(before, s + after);
    lemma_trim_end_of_padded(s, after);
}

/// Where a character does not stand between two positions, the search for
/// it from the one goes on from the other.
pub proof fn lemma_position_skips(s: Seq<char>, c: char, i: int, k: int)
    requires
        0 <= i <= k <= s.len(),
        forall|j: int| i <= j < k ==> s[j] != c,
    ensures
        position_from(s, c, i) == position_from(s, c, k),
    decreases k - i,
{
    if i < k {
        lemma_position_skips(s, c, i + 1, k);
    }
}

/// Two texts without a character, with the character between them, hold
/// it exactly once; what stands before it is the one text and what stands
/// after it is the other.
pub proof fn lemma_split_of_joined(a: Seq<char>, c: char, b: Seq<char>)
    requires
        forall|i: int| 0 <= i < a.len() ==> a[i] != c,
        forall|i: int| 0 <= i < b.len() ==> b[i] != c,
    ensures
        has_one(a + seq![c] + b, c),
        before(a + seq![c] + b, c) == a,
        after(a + seq![c] + b, c) == b,
{
    let s = a + seq![c] + b;
    let k = a.len() as int;
    lemma_position_skips(s, c, 0, k);
    lemma_position_skips(s, c, k + 1, s.len() as int);
}

/// Two numbers that are written alike in base ten are the same number.
pub proof fn lemma_decimal_injective(a: nat, b: nat)
    requires
        decimal(a) == decimal(b),
    ensures
        a == b,
{
    lemma_decimal_digits(a);
    lemma_decimal_digits(b);
}

/// Whether `c` stands nowhere in `s`.
pub open spec fn lacks(s: Seq<char>, c: char) -> bool {
    forall|i: int| 0 <= i < s.len() ==> #[trigger] s[i] != c
}

/// Where every occurrence of a character is replaced by a text without
/// it, the character is gone.
pub proof fn lemma_replace_removes_char(s: Seq<char>, c: char, to: Seq<char>)
    requires
        lacks(to, c),
    ensures
        lacks(replace(s, seq![c], to), c),
    decreases s.len(),
{
    let from = seq![c];
    if occurs_at(s, from, 0) {
        lemma_replace_removes_char(s.skip(1), c, to);
    } else if s.len() > 0 {
        lemma_replace_removes_char(s.drop_first(), c, to);
        assert(s.subrange(0, 1) == seq![s[0]]);
    }
}

/// A trimmed text holds no character that the text did not hold.
pub proof fn lemma_trim_lacks(s: Seq<char>, c: char)
    requires
        lacks(s, c),
    ensures
        lacks(trim(s), c),
{
    lemma_trim_bare(s);
}

/// Where every occurrence of a character is doubled, to take each pair of
/// it for one gives back the text.
pub proof fn lemma_doubled_reads_back(s: Seq<char>, c: char)
    ensures
        replace(replace(s, seq![c], seq![c, c]), seq![c, c], seq![c]) == s,
    decreases s.len(),
{
    let one = seq![c];
    let two = seq![c, c];
    let doubled = replace(s, one, two);
    if s.len() > 0 {
        let rest = replace(s.drop_first(), one, two);
        lemma_doubled_reads_back(s.drop_first(), c);
        assert(s.subrange(0, 1) == seq![s[0]]);
        assert(s.skip(1) == s.drop_first());
        if s[0] == c {
            assert(doubled == two + rest);
            assert(doubled.subrange(0, 2) == two);
            assert(doubled.skip(2) == rest);
            assert(one + s.drop_first() == s);
        } else {
            assert(!occurs_at(s, one, 0)) by {
                assert(s.subrange(0, 1)[0] == s[0]);
            }
            assert(doubled == seq![s[0]] + rest);
            assert(doubled.drop_first() == rest);
            assert(!occurs_at(doubled, two, 0)) by {
                if doubled.len() >= 2 {
                    assert(doubled.subrange(0, 2)[0] == s[0]);
                }
            }
            assert(seq![s[0]] + s.drop_first() == s);
        }
    }
}

} // verus!
