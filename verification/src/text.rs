//! Character-level text helpers: Unicode white space, trimming, prefixes,
//! decimal numbers.

use vstd::prelude::*;
use vstd::string::*;

verus! {

/// The Unicode `White_Space` property, as `char::is_whitespace` uses it.
pub open spec fn is_white_space(c: char) -> bool {
    let n = c as u32;
    ||| 0x9 <= n <= 0xd
    ||| n == 0x20
    ||| n == 0x85
    ||| n == 0xa0
    ||| n == 0x1680
    ||| 0x2000 <= n <= 0x200a
    ||| n == 0x2028
    ||| n == 0x2029
    ||| n == 0x202f
    ||| n == 0x205f
    ||| n == 0x3000
}

/// `s` without its leading white space.
pub open spec fn trim_start(s: Seq<char>) -> Seq<char>
    decreases s.len(),
{
    if s.len() > 0 && is_white_space(s[0]) {
        trim_start(s.drop_first())
    } else {
        s
    }
}

/// `s` without its trailing white space.
pub open spec fn trim_end(s: Seq<char>) -> Seq<char>
    decreases s.len(),
{
    if s.len() > 0 && is_white_space(s.last()) {
        trim_end(s.drop_last())
    } else {
        s
    }
}

/// `s` without leading and trailing white space (what `str::trim` gives).
pub open spec fn trimmed(s: Seq<char>) -> Seq<char> {
    trim_end(trim_start(s))
}

proof fn lemma_trim_start_shape(s: Seq<char>)
    ensures
        trim_start(s).len() > 0 ==> !is_white_space(trim_start(s)[0]),
    decreases s.len(),
{
    if s.len() > 0 && is_white_space(s[0]) {
        lemma_trim_start_shape(s.drop_first());
    }
}

proof fn lemma_trim_end_shape(s: Seq<char>)
    ensures
        trim_end(s).len() <= s.len(),
        trim_end(s) == s.take(trim_end(s).len() as int),
        trim_end(s).len() > 0 ==> !is_white_space(trim_end(s).last()),
    decreases s.len(),
{
    if s.len() > 0 && is_white_space(s.last()) {
        lemma_trim_end_shape(s.drop_last());
        assert(s.drop_last().take(trim_end(s).len() as int) =~= s.take(trim_end(s).len() as int));
    } else {
        assert(s.take(s.len() as int) =~= s);
    }
}

proof fn lemma_trim_start_suffix(s: Seq<char>)
    ensures
        trim_start(s).len() <= s.len(),
        trim_start(s) == s.skip(s.len() - trim_start(s).len()),
    decreases s.len(),
{
    if s.len() > 0 && is_white_space(s[0]) {
        lemma_trim_start_suffix(s.drop_first());
        assert(s.drop_first().skip(s.len() - 1 - trim_start(s).len()) =~= s.skip(
            s.len() - trim_start(s).len(),
        ));
    } else {
        assert(s.skip(0) =~= s);
    }
}

/// Trimming keeps one contiguous stretch of the text.
pub proof fn law_trim_is_a_slice(s: Seq<char>)
    ensures
        exists|i: int, j: int| 0 <= i <= j <= s.len() && trimmed(s) == s.subrange(i, j),
{
    lemma_trim_start_suffix(s);
    let t = trim_start(s);
    lemma_trim_end_shape(t);
    let i = s.len() - t.len();
    let m = trim_end(t).len() as int;
    assert(trimmed(s) =~= s.subrange(i, i + m));
}

/// Trimming a trimmed text changes nothing.
pub proof fn law_trim_idempotent(s: Seq<char>)
    ensures
        trimmed(trimmed(s)) == trimmed(s),
{
    let t = trimmed(s);
    lemma_trim_start_shape(s);
    lemma_trim_end_shape(trim_start(s));
    if t.len() > 0 {
        assert(t[0] == trim_start(s)[0]);
        assert(trim_start(t) == t);
        assert(trim_end(t) == t);
    } else {
        assert(trim_start(t) == t);
        assert(trim_end(t) == t);
    }
}

pub fn white_space(c: char) -> (r: bool)
    ensures
        r == is_white_space(c),
{
    let n: u32 = c as u32;
    (0x9 <= n && n <= 0xd) || n == 0x20 || n == 0x85 || n == 0xa0 || n == 0x1680 || (0x2000 <= n
        && n <= 0x200a) || n == 0x2028 || n == 0x2029 || n == 0x202f || n == 0x205f || n == 0x3000
}

/// The slice of `s` between its leading and its trailing white space.
pub fn trim(s: &str) -> (r: &str)
    ensures
        r@ == trimmed(s@),
{
    let n: usize = s.unicode_len();
    let mut start: usize = 0;
    proof {
        assert(s@.subrange(0, n as int) =~= s@);
    }
    while start < n && white_space(s.get_char(start))
        invariant
            start <= n,
            n == s@.len(),
            trim_start(s@) == trim_start(s@.subrange(start as int, n as int)),
        decreases n - start,
    {
        proof {
            assert(s@.subrange(start as int, n as int).drop_first() =~= s@.subrange(
                start + 1,
                n as int,
            ));
        }
        start = start + 1;
    }
    assert(trim_start(s@) == s@.subrange(start as int, n as int));
    let mut end: usize = n;
    while end > start && white_space(s.get_char(end - 1))
        invariant
            start <= end <= n,
            n == s@.len(),
            trim_start(s@) == s@.subrange(start as int, n as int),
            trimmed(s@) == trim_end(s@.subrange(start as int, end as int)),
        decreases end - start,
    {
        proof {
            assert(s@.subrange(start as int, end as int).drop_last() =~= s@.subrange(
                start as int,
                end - 1,
            ));
        }
        end = end - 1;
    }
    assert(trimmed(s@) == s@.subrange(start as int, end as int));
    s.substring_char(start, end)
}


/// Whether `s` begins with `p`.
pub open spec fn starts_with(s: Seq<char>, p: Seq<char>) -> bool {
    p.len() <= s.len() && s.take(p.len() as int) == p
}

pub fn has_prefix(s: &str, p: &str) -> (r: bool)
    ensures
        r == starts_with(s@, p@),
{
    let n: usize = s.unicode_len();
    let m: usize = p.unicode_len();
    if m > n {
        return false;
    }
    let mut i: usize = 0;
    while i < m
        invariant
            i <= m <= n,
            n == s@.len(),
            m == p@.len(),
            forall|k: int| 0 <= k < i ==> s@[k] == p@[k],
        decreases m - i,
    {
        if s.get_char(i) != p.get_char(i) {
            assert(s@.take(m as int)[i as int] != p@[i as int]);
            return false;
        }
        i = i + 1;
    }
    assert(s@.take(m as int) =~= p@);
    true
}

/// An ASCII decimal digit.
pub open spec fn is_digit(c: char) -> bool {
    48 <= (c as u32) <= 57
}

pub open spec fn digit_value(c: char) -> nat {
    ((c as u32) - 48) as nat
}

pub open spec fn all_digits(s: Seq<char>) -> bool {
    forall|i: int| 0 <= i < s.len() ==> is_digit(#[trigger] s[i])
}

/// The number that a string of decimal digits writes.
pub open spec fn decimal_value(s: Seq<char>) -> nat
    decreases s.len(),
{
    if s.len() == 0 {
        0
    } else {
        decimal_value(s.drop_last()) * 10 + digit_value(s.last())
    }
}

/// What `str::parse` reads as an unsigned integer, before the range of the
/// target type is checked: an optional `+`, then one or more decimal digits.
pub open spec fn parse_unsigned(s: Seq<char>) -> Option<nat> {
    let digits = if s.len() > 0 && s[0] == '+' {
        s.drop_first()
    } else {
        s
    };
    if digits.len() > 0 && all_digits(digits) {
        Some(decimal_value(digits))
    } else {
        None
    }
}

/// What `str::parse::<usize>` accepts, and the value it gives.
pub open spec fn parse_usize_spec(s: Seq<char>) -> Option<usize> {
    match parse_unsigned(s) {
        Some(v) => if v <= usize::MAX {
            Some(v as usize)
        } else {
            None
        },
        None => None,
    }
}

proof fn lemma_decimal_prefix_le(s: Seq<char>, k: int)
    requires
        0 <= k <= s.len(),
    ensures
        decimal_value(s.take(k)) <= decimal_value(s),
    decreases s.len(),
{
    if k == s.len() {
        assert(s.take(k) =~= s);
    } else {
        lemma_decimal_prefix_le(s.drop_last(), k);
        assert(s.drop_last().take(k) =~= s.take(k));
    }
}

/// Reads an unsigned decimal number as `str::parse::<usize>` does.
pub fn parse_usize(s: &str) -> (r: Option<usize>)
    ensures
        r == parse_usize_spec(s@),
{
    let n: usize = s.unicode_len();
    if n == 0 {
        return None;
    }
    let mut i: usize = 0;
    if s.get_char(0) == '+' {
        i = 1;
    }
    let ghost digits = s@.subrange(i as int, n as int);
    assert(digits =~= (if s@.len() > 0 && s@[0] == '+' {
        s@.drop_first()
    } else {
        s@
    }));
    if i == n {
        return None;
    }
    let mut acc: usize = 0;
    let mut j: usize = i;
    assert(s@.subrange(i as int, i as int) =~= Seq::<char>::empty());
    while j < n
        invariant
            i <= j <= n,
            i < n,
            n == s@.len(),
            digits == s@.subrange(i as int, n as int),
            parse_unsigned(s@) == (if digits.len() > 0 && all_digits(digits) {
                Some(decimal_value(digits))
            } else {
                None::<nat>
            }),
            all_digits(s@.subrange(i as int, j as int)),
            acc == decimal_value(s@.subrange(i as int, j as int)),
        decreases n - j,
    {
        let c = s.get_char(j);
        let code: u32 = c as u32;
        if code < 48 || code > 57 {
            assert(!is_digit(digits[j - i]));
            return None;
        }
        let d: usize = (code - 48) as usize;
        let ghost next = s@.subrange(i as int, j + 1);
        assert(next.drop_last() =~= s@.subrange(i as int, j as int));
        assert(next.last() == c);
        assert(digits.take(j + 1 - i) =~= next);
        match acc.checked_mul(10) {
            None => {
                proof {
                    if all_digits(digits) {
                        lemma_decimal_prefix_le(digits, j + 1 - i);
                    }
                }
                return None;
            },
            Some(t) => match t.checked_add(d) {
                None => {
                    proof {
                        if all_digits(digits) {
                            lemma_decimal_prefix_le(digits, j + 1 - i);
                        }
                    }
                    return None;
                },
                Some(v) => {
                    acc = v;
                },
            },
        }
        j = j + 1;
    }
    assert(s@.subrange(i as int, n as int) == digits);
    Some(acc)
}


/// Whether `p` is the only position of `c` in `s`.
pub open spec fn only_at(s: Seq<char>, c: char, p: int) -> bool {
    &&& 0 <= p < s.len()
    &&& s[p] == c
    &&& forall|k: int| 0 <= k < s.len() && k != p ==> s[k] != c
}

/// The two pieces of `s` around its only `c`, if `c` occurs exactly once
/// (what `split(c)` gives when it yields exactly two pieces).
pub open spec fn split_once_exactly(s: Seq<char>, c: char) -> Option<(Seq<char>, Seq<char>)> {
    if exists|p: int| only_at(s, c, p) {
        let p = choose|p: int| only_at(s, c, p);
        Some((s.take(p), s.skip(p + 1)))
    } else {
        None
    }
}

/// Splits `s` around `c` where `c` occurs exactly once in it.
pub fn split_at_only<'a>(s: &'a str, c: char) -> (r: Option<(&'a str, &'a str)>)
    ensures
        match split_once_exactly(s@, c) {
            Some((a, b)) => r matches Some((x, y)) && x@ == a && y@ == b,
            None => r is None,
        },
{
    let n: usize = s.unicode_len();
    let mut p: usize = 0;
    while p < n && s.get_char(p) != c
        invariant
            p <= n,
            n == s@.len(),
            forall|k: int| 0 <= k < p ==> s@[k] != c,
        decreases n - p,
    {
        p = p + 1;
    }
    if p == n {
        assert(!exists|q: int| only_at(s@, c, q));
        return None;
    }
    let mut q: usize = p + 1;
    while q < n
        invariant
            p < q <= n,
            n == s@.len(),
            s@[p as int] == c,
            forall|k: int| 0 <= k < p ==> s@[k] != c,
            forall|k: int| p < k < q ==> s@[k] != c,
        decreases n - q,
    {
        if s.get_char(q) == c {
            assert forall|x: int| !only_at(s@, c, x) by {
                if only_at(s@, c, x) {
                    assert(x == p as int);
                    assert(s@[q as int] == c);
                }
            }
            return None;
        }
        q = q + 1;
    }
    assert(only_at(s@, c, p as int));
    assert forall|x: int| only_at(s@, c, x) implies x == p as int by {
        if x != p as int {
            assert(s@[p as int] == c);
        }
    }
    let a = s.substring_char(0, p);
    let b = s.substring_char(p + 1, n);
    assert(a@ =~= s@.take(p as int));
    assert(b@ =~= s@.skip(p + 1));
    Some((a, b))
}


/// The ASCII character of the digit `d`.
pub open spec fn digit_char(d: nat) -> char {
    (d + 48) as char
}

/// The decimal notation of `n`, without leading zeros.
pub open spec fn decimal_text(n: nat) -> Seq<char>
    decreases n,
{
    if n < 10 {
        seq![digit_char(n)]
    } else {
        decimal_text(n / 10).push(digit_char(n % 10))
    }
}

/// The decimal notation of a number is made of digits and reads back as
/// that number.
pub proof fn lemma_decimal_text(n: nat)
    ensures
        decimal_text(n).len() > 0,
        all_digits(decimal_text(n)),
        decimal_value(decimal_text(n)) == n,
    decreases n,
{
    if n >= 10 {
        lemma_decimal_text(n / 10);
        let t = decimal_text(n);
        assert(t.drop_last() =~= decimal_text(n / 10));
        assert forall|i: int| 0 <= i < t.len() implies is_digit(#[trigger] t[i]) by {
            if i < t.len() - 1 {
                assert(t[i] == decimal_text(n / 10)[i]);
            }
        }
        assert(t.last() == digit_char(n % 10));
        assert(digit_value(digit_char(n % 10)) == n % 10);
        assert((n / 10) * 10 + n % 10 == n) by (nonlinear_arith);
    } else {
        let t = decimal_text(n);
        assert(t.drop_last() =~= Seq::<char>::empty());
        assert(decimal_value(t.drop_last()) == 0);
        assert(t.last() == digit_char(n));
        assert(digit_value(digit_char(n)) == n);
    }
}

/// What `str::parse::<usize>` reads from the decimal notation of `n`.
pub proof fn lemma_parse_decimal(n: usize)
    ensures
        parse_usize_spec(decimal_text(n as nat)) == Some(n),
{
    lemma_decimal_text(n as nat);
    let t = decimal_text(n as nat);
    assert(is_digit(t[0]));
    assert(t[0] != '+');
}

fn digit_str(d: u64) -> (r: &'static str)
    requires
        d < 10,
    ensures
        r@ == seq![digit_char(d as nat)],
{
    if d == 0 {
        proof {
            reveal_strlit("0");
        }
        "0"
    } else if d == 1 {
        proof {
            reveal_strlit("1");
        }
        "1"
    } else if d == 2 {
        proof {
            reveal_strlit("2");
        }
        "2"
    } else if d == 3 {
        proof {
            reveal_strlit("3");
        }
        "3"
    } else if d == 4 {
        proof {
            reveal_strlit("4");
        }
        "4"
    } else if d == 5 {
        proof {
            reveal_strlit("5");
        }
        "5"
    } else if d == 6 {
        proof {
            reveal_strlit("6");
        }
        "6"
    } else if d == 7 {
        proof {
            reveal_strlit("7");
        }
        "7"
    } else if d == 8 {
        proof {
            reveal_strlit("8");
        }
        "8"
    } else {
        proof {
            reveal_strlit("9");
        }
        "9"
    }
}

/// The decimal notation of `n`, as `n.to_string()` writes it.
pub fn decimal_string(n: u64) -> (r: String)
    ensures
        r@ == decimal_text(n as nat),
    decreases n,
{
    if n < 10 {
        String::from_str(digit_str(n))
    } else {
        let mut s = decimal_string(n / 10);
        s.append(digit_str(n % 10));
        s
    }
}

} // verus!
