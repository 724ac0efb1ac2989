//! Verified string utilities: comparison, substring search, and decimal
//! printing, all specified over `Seq<char>` views.

use vstd::prelude::*;

verus! {

/// Whether the views of `a` and `b` are the same character sequence.
pub fn str_eq(a: &str, b: &str) -> (r: bool)
    ensures
        r == (a@ == b@),
{
    let n = a.unicode_len();
    let m = b.unicode_len();
    if n != m {
        return false;
    }
    let mut i: usize = 0;
    while i < n
        invariant
            i <= n,
            n == a@.len(),
            n == b@.len(),
            forall|j: int| 0 <= j < i ==> a@[j] == b@[j],
        decreases n - i,
    {
        if a.get_char(i) != b.get_char(i) {
            return false;
        }
        i += 1;
    }
    proof {
        assert(a@ =~= b@);
    }
    true
}

/// `needle` occurs in `hay` starting at character position `i`.
pub open spec fn spec_match_at(hay: Seq<char>, needle: Seq<char>, i: int) -> bool {
    &&& 0 <= i
    &&& i + needle.len() <= hay.len()
    &&& hay.subrange(i, i + needle.len()) == needle
}

/// `needle` occurs somewhere in `hay`.
pub open spec fn spec_contains(hay: Seq<char>, needle: Seq<char>) -> bool {
    exists|i: int| spec_match_at(hay, needle, i)
}

/// Whether `needle` occurs in `hay` starting at position `i`.
pub fn match_at(hay: &str, needle: &str, i: usize) -> (r: bool)
    requires
        i + needle@.len() <= hay@.len(),
    ensures
        r == spec_match_at(hay@, needle@, i as int),
{
    let n = hay.unicode_len();
    let m = needle.unicode_len();
    let mut k: usize = 0;
    while k < m
        invariant
            i + m <= n,
            n == hay@.len(),
            m == needle@.len(),
            k <= m,
            forall|t: int| 0 <= t < k ==> hay@[i + t] == needle@[t],
        decreases m - k,
    {
        if hay.get_char(i + k) != needle.get_char(k) {
            proof {
                assert(hay@.subrange(i as int, i + m as int)[k as int] == hay@[i + k]);
            }
            return false;
        }
        k += 1;
    }
    proof {
        assert(hay@.subrange(i as int, i + m as int) =~= needle@);
    }
    true
}

/// The position of the first occurrence of `needle` in `hay`, if any.
pub fn find_sub(hay: &str, needle: &str) -> (r: Option<usize>)
    ensures
        match r {
            Some(i) => spec_match_at(hay@, needle@, i as int) && (forall|j: int|
                0 <= j < i ==> !spec_match_at(hay@, needle@, j)),
            None => !spec_contains(hay@, needle@),
        },
{
    let n = hay.unicode_len();
    let m = needle.unicode_len();
    if m > n {
        return None;
    }
    if m == 0 {
        proof {
            assert(hay@.subrange(0, 0) =~= needle@);
        }
        return Some(0);
    }
    let mut i: usize = 0;
    while i <= n - m
        invariant
            0 < m <= n,
            n == hay@.len(),
            m == needle@.len(),
            i <= n - m + 1,
            forall|j: int| 0 <= j < i ==> !spec_match_at(hay@, needle@, j),
        decreases n - i,
    {
        if match_at(hay, needle, i) {
            return Some(i);
        }
        i += 1;
    }
    None
}

/// Whether `needle` occurs anywhere in `hay`.
pub fn contains_sub(hay: &str, needle: &str) -> (r: bool)
    ensures
        r == spec_contains(hay@, needle@),
{
    find_sub(hay, needle).is_some()
}

/// Whether `hay` starts with `prefix`.
pub fn starts_with_sub(hay: &str, prefix: &str) -> (r: bool)
    ensures
        r == spec_match_at(hay@, prefix@, 0),
{
    let n = hay.unicode_len();
    let m = prefix.unicode_len();
    if m > n {
        return false;
    }
    match_at(hay, prefix, 0)
}

/// The position of the first occurrence of `needle` in `hay` at or after
/// `i`, if any.
pub open spec fn spec_find_from(hay: Seq<char>, needle: Seq<char>, i: int) -> Option<int>
    decreases hay.len() - i + 1,
{
    if i < 0 || i + needle.len() > hay.len() {
        None
    } else if spec_match_at(hay, needle, i) {
        Some(i)
    } else {
        spec_find_from(hay, needle, i + 1)
    }
}

/// What `spec_find_from` returns is the first match at or after `i`.
pub proof fn lemma_find_from_correct(hay: Seq<char>, needle: Seq<char>, i: int)
    requires
        0 <= i,
    ensures
        match spec_find_from(hay, needle, i) {
            Some(p) => i <= p && spec_match_at(hay, needle, p) && (forall|j: int|
                i <= j < p ==> !spec_match_at(hay, needle, j)),
            None => forall|j: int| j >= i ==> !spec_match_at(hay, needle, j),
        },
    decreases hay.len() - i + 1,
{
    if i + needle.len() > hay.len() {
    } else if spec_match_at(hay, needle, i) {
    } else {
        lemma_find_from_correct(hay, needle, i + 1);
    }
}

/// The position of the first occurrence of `needle` in `hay`, as the
/// specification function gives it.
pub fn find_first(hay: &str, needle: &str) -> (r: Option<usize>)
    ensures
        match r {
            Some(p) => spec_find_from(hay@, needle@, 0) == Some(p as int),
            None => spec_find_from(hay@, needle@, 0) is None,
        },
{
    let r = find_sub(hay, needle);
    proof {
        lemma_find_from_correct(hay@, needle@, 0);
        match r {
            Some(p) => {
                match spec_find_from(hay@, needle@, 0) {
                    Some(q) => {
                        assert(!(q < p)) by {
                            if q < p {
                                assert(spec_match_at(hay@, needle@, q));
                            }
                        }
                        assert(!(p < q));
                    },
                    None => {
                        assert(spec_match_at(hay@, needle@, p as int));
                    },
                }
            },
            None => {
                match spec_find_from(hay@, needle@, 0) {
                    Some(q) => {
                        assert(spec_match_at(hay@, needle@, q));
                        assert(spec_contains(hay@, needle@));
                    },
                    None => {},
                }
            },
        }
    }
    r
}

/// The prefix of `s` holding its first `k` characters, all of `s` when it
/// is shorter.
pub fn take_chars<'a>(s: &'a str, k: usize) -> (r: &'a str)
    ensures
        r@ == s@.take(vstd::math::min(k as int, s@.len() as int)),
{
    let n = s.unicode_len();
    let m = if n < k {
        n
    } else {
        k
    };
    let r = s.substring_char(0, m);
    proof {
        assert(r@ =~= s@.take(vstd::math::min(k as int, s@.len() as int)));
    }
    r
}

/// `s` cut to `max_chars` characters, with an ellipsis when it was cut.
pub open spec fn spec_truncate(s: Seq<char>, max_chars: int) -> Seq<char> {
    if s.len() <= max_chars {
        s
    } else {
        s.take(max_chars) + "..."@
    }
}

/// Cuts `s` to at most `max_chars` characters, marking a cut with an
/// ellipsis.
pub fn truncate_str(s: &str, max_chars: usize) -> (r: String)
    ensures
        r@ == spec_truncate(s@, max_chars as int),
{
    let n = s.unicode_len();
    if n <= max_chars {
        String::from_str(s)
    } else {
        let mut out = String::from_str(s.substring_char(0, max_chars));
        out.append("...");
        proof {
            assert(out@ =~= spec_truncate(s@, max_chars as int));
        }
        out
    }
}

/// The position of the last occurrence of `c` in `s`, if any.
pub open spec fn spec_rfind_char(s: Seq<char>, c: char) -> Option<int>
    decreases s.len(),
{
    if s.len() == 0 {
        None
    } else if s.last() == c {
        Some(s.len() - 1)
    } else {
        spec_rfind_char(s.drop_last(), c)
    }
}

/// What `spec_rfind_char` returns is the last occurrence.
pub proof fn lemma_rfind_char_correct(s: Seq<char>, c: char)
    ensures
        match spec_rfind_char(s, c) {
            Some(p) => 0 <= p < s.len() && s[p] == c && (forall|j: int|
                p < j < s.len() ==> s[j] != c),
            None => forall|j: int| 0 <= j < s.len() ==> s[j] != c,
        },
    decreases s.len(),
{
    if s.len() > 0 && s.last() != c {
        lemma_rfind_char_correct(s.drop_last(), c);
        assert forall|j: int| 0 <= j < s.len() - 1 implies s[j] == s.drop_last()[j] by {}
    }
}

/// The position of the last occurrence of `c` in `s`.
pub fn rfind_char(s: &str, c: char) -> (r: Option<usize>)
    ensures
        match r {
            Some(p) => spec_rfind_char(s@, c) == Some(p as int),
            None => spec_rfind_char(s@, c) is None,
        },
{
    let n = s.unicode_len();
    let mut b: usize = n;
    proof {
        assert(s@.take(n as int) =~= s@);
    }
    while b > 0
        invariant
            b <= n,
            n == s@.len(),
            spec_rfind_char(s@, c) == spec_rfind_char(s@.take(b as int), c),
        decreases b,
    {
        proof {
            assert(s@.take(b as int).last() == s@[b - 1]);
            assert(s@.take(b as int).drop_last() =~= s@.take(b - 1));
        }
        if s.get_char(b - 1) == c {
            proof {
                assert(spec_rfind_char(s@.take(b as int), c) == Some(b - 1));
            }
            return Some(b - 1);
        }
        b -= 1;
    }
    proof {
        assert(s@.take(0) =~= Seq::<char>::empty());
    }
    None
}

/// Whether every character of `s` is an ASCII digit.
pub open spec fn spec_all_digits(s: Seq<char>) -> bool {
    forall|j: int| 0 <= j < s.len() ==> '0' <= #[trigger] s[j] <= '9'
}

/// The value of a digit sequence read in decimal.
pub open spec fn spec_dec_val(s: Seq<char>) -> int
    decreases s.len(),
{
    if s.len() == 0 {
        0
    } else {
        spec_dec_val(s.drop_last()) * 10 + (s.last() as int - '0' as int)
    }
}

/// A digit sequence's value is nonnegative.
proof fn lemma_dec_val_nonneg(s: Seq<char>)
    requires
        spec_all_digits(s),
    ensures
        spec_dec_val(s) >= 0,
    decreases s.len(),
{
    if s.len() > 0 {
        assert(spec_all_digits(s.drop_last())) by {
            assert(forall|j: int| 0 <= j < s.len() - 1 ==> s.drop_last()[j] == s[j]);
        }
        lemma_dec_val_nonneg(s.drop_last());
    }
}

/// What `s` reads as when parsed as a 32-bit signed decimal: an optional
/// minus, digits, and the 32-bit range; anything else fails.
pub open spec fn spec_parse_i32(s: Seq<char>) -> Option<int> {
    let neg = s.len() > 0 && s[0] == '-';
    let d = if neg {
        s.drop_first()
    } else {
        s
    };
    if d.len() == 0 || !spec_all_digits(d) {
        None
    } else {
        let v = if neg {
            -spec_dec_val(d)
        } else {
            spec_dec_val(d)
        };
        if i32::MIN <= v <= i32::MAX {
            Some(v)
        } else {
            None
        }
    }
}

/// Parses a 32-bit signed decimal.
pub fn parse_i32(s: &str) -> (r: Option<i32>)
    ensures
        match r {
            Some(v) => spec_parse_i32(s@) == Some(v as int),
            None => spec_parse_i32(s@) is None,
        },
{
    let n = s.unicode_len();
    let neg = n > 0 && s.get_char(0) == '-';
    let start: usize = if neg {
        1
    } else {
        0
    };
    if n == start {
        return None;
    }
    let ghost d = if neg {
        s@.drop_first()
    } else {
        s@
    };
    let mut mag: u64 = 0;
    let mut over = false;
    let mut i: usize = start;
    proof {
        assert(d.take(0) =~= Seq::<char>::empty());
    }
    while i < n
        invariant
            start <= i <= n,
            n == s@.len(),
            neg == (s@.len() > 0 && s@[0] == '-'),
            start == (if neg {
                1int
            } else {
                0int
            }),
            d == (if neg {
                s@.drop_first()
            } else {
                s@
            }),
            d.len() == n - start,
            forall|j: int| 0 <= j < i - start ==> '0' <= #[trigger] d[j] <= '9',
            !over ==> mag <= 2147483648 && mag == spec_dec_val(d.take(i - start)),
            over ==> spec_dec_val(d.take(i - start)) > 2147483648,
        decreases n - i,
    {
        let c = s.get_char(i);
        if !('0' <= c && c <= '9') {
            proof {
                assert(d[i - start] == s@[i as int]);
                assert(0 <= i - start < d.len());
                assert(!('0' <= d[i - start] <= '9'));
                assert(!spec_all_digits(d));
                assert(d.len() != 0);
                assert(spec_parse_i32(s@) is None);
            }
            return None;
        }
        proof {
            assert(d[i - start] == s@[i as int]);
            assert(d.take(i + 1 - start) =~= d.take(i - start).push(d[i - start]));
            assert(d.take(i + 1 - start).drop_last() =~= d.take(i - start));
        }
        let digit = (c as u32 - '0' as u32) as u64;
        if !over {
            let next = mag * 10 + digit;
            if next > 2147483648 {
                over = true;
            } else {
                mag = next;
            }
            proof {
                if over {
                    assert(spec_dec_val(d.take(i + 1 - start)) > 2147483648);
                }
            }
        } else {
            proof {
                let prev = spec_dec_val(d.take(i - start));
                assert(spec_dec_val(d.take(i + 1 - start)) == prev * 10 + (d[i - start] as int
                    - '0' as int));
                assert(prev * 10 >= prev + prev) by (nonlinear_arith)
                    requires
                        prev > 2147483648,
                ;
            }
        }
        i += 1;
    }
    proof {
        assert(d.take(n - start) =~= d);
        assert(spec_all_digits(d));
    }
    if over {
        return None;
    }
    if neg {
        if mag > 2147483648 {
            None
        } else if mag == 2147483648 {
            Some(i32::MIN)
        } else {
            Some(-(mag as i32))
        }
    } else {
        if mag > 2147483647 {
            None
        } else {
            Some(mag as i32)
        }
    }
}

/// The decimal digit character for `d`.
pub open spec fn spec_digit(d: int) -> char {
    if d == 0 {
        '0'
    } else if d == 1 {
        '1'
    } else if d == 2 {
        '2'
    } else if d == 3 {
        '3'
    } else if d == 4 {
        '4'
    } else if d == 5 {
        '5'
    } else if d == 6 {
        '6'
    } else if d == 7 {
        '7'
    } else if d == 8 {
        '8'
    } else {
        '9'
    }
}

/// The decimal rendering of a nonnegative integer.
pub open spec fn spec_u64_dec(n: int) -> Seq<char>
    decreases n,
{
    if n < 10 {
        seq![spec_digit(n)]
    } else {
        spec_u64_dec(n / 10).push(spec_digit(n % 10))
    }
}

/// The one-character string for decimal digit `d`.
pub fn digit_str(d: u64) -> (r: &'static str)
    requires
        d < 10,
    ensures
        r@ == seq![spec_digit(d as int)],
{
    if d == 0 {
        proof {
            reveal_strlit("0");
        }
        assert("0"@ =~= seq![spec_digit(0)]);
        "0"
    } else if d == 1 {
        proof {
            reveal_strlit("1");
        }
        assert("1"@ =~= seq![spec_digit(1)]);
        "1"
    } else if d == 2 {
        proof {
            reveal_strlit("2");
        }
        assert("2"@ =~= seq![spec_digit(2)]);
        "2"
    } else if d == 3 {
        proof {
            reveal_strlit("3");
        }
        assert("3"@ =~= seq![spec_digit(3)]);
        "3"
    } else if d == 4 {
        proof {
            reveal_strlit("4");
        }
        assert("4"@ =~= seq![spec_digit(4)]);
        "4"
    } else if d == 5 {
        proof {
            reveal_strlit("5");
        }
        assert("5"@ =~= seq![spec_digit(5)]);
        "5"
    } else if d == 6 {
        proof {
            reveal_strlit("6");
        }
        assert("6"@ =~= seq![spec_digit(6)]);
        "6"
    } else if d == 7 {
        proof {
            reveal_strlit("7");
        }
        assert("7"@ =~= seq![spec_digit(7)]);
        "7"
    } else if d == 8 {
        proof {
            reveal_strlit("8");
        }
        assert("8"@ =~= seq![spec_digit(8)]);
        "8"
    } else {
        proof {
            reveal_strlit("9");
        }
        assert("9"@ =~= seq![spec_digit(9)]);
        "9"
    }
}

/// Appends the decimal rendering of `n` to `out`.
pub fn append_u64(out: &mut String, n: u64)
    ensures
        final(out)@ == old(out)@ + spec_u64_dec(n as int),
    decreases n,
{
    if n >= 10 {
        append_u64(out, n / 10);
        out.append(digit_str(n % 10));
        proof {
            assert(final(out)@ =~= old(out)@ + spec_u64_dec(n as int));
        }
    } else {
        out.append(digit_str(n));
        proof {
            assert(final(out)@ =~= old(out)@ + spec_u64_dec(n as int));
        }
    }
}

/// The whitespace characters that line trimming removes.
pub open spec fn spec_is_ws(c: char) -> bool {
    c == ' ' || c == '\t' || c == '\r' || c == '\n'
}

/// `s` without its leading whitespace.
pub open spec fn spec_trim_start(s: Seq<char>) -> Seq<char>
    decreases s.len(),
{
    if s.len() > 0 && spec_is_ws(s[0]) {
        spec_trim_start(s.drop_first())
    } else {
        s
    }
}

/// `s` without its trailing whitespace.
pub open spec fn spec_trim_end(s: Seq<char>) -> Seq<char>
    decreases s.len(),
{
    if s.len() > 0 && spec_is_ws(s.last()) {
        spec_trim_end(s.drop_last())
    } else {
        s
    }
}

/// `s` without leading and trailing whitespace.
pub open spec fn spec_trim(s: Seq<char>) -> Seq<char> {
    spec_trim_end(spec_trim_start(s))
}

/// Dropping a fully-whitespace prefix before the first non-whitespace
/// character is exactly what `spec_trim_start` does.
proof fn lemma_trim_start_skip(s: Seq<char>, k: int)
    requires
        0 <= k <= s.len(),
        forall|j: int| 0 <= j < k ==> spec_is_ws(s[j]),
        k == s.len() || !spec_is_ws(s[k]),
    ensures
        spec_trim_start(s) == s.skip(k),
    decreases k,
{
    if k == 0 {
        assert(s.skip(0) =~= s);
    } else {
        assert(spec_is_ws(s[0]));
        lemma_trim_start_skip(s.drop_first(), k - 1);
        assert(s.drop_first().skip(k - 1) =~= s.skip(k));
    }
}

/// Dropping a fully-whitespace suffix after the last non-whitespace
/// character is exactly what `spec_trim_end` does.
proof fn lemma_trim_end_take(s: Seq<char>, k: int)
    requires
        0 <= k <= s.len(),
        forall|j: int| k <= j < s.len() ==> spec_is_ws(s[j]),
        k == 0 || !spec_is_ws(s[k - 1]),
    ensures
        spec_trim_end(s) == s.take(k),
    decreases s.len(),
{
    if k == s.len() {
        assert(s.take(k) =~= s);
    } else {
        assert(spec_is_ws(s.last()));
        lemma_trim_end_take(s.drop_last(), k);
        assert(s.drop_last().take(k) =~= s.take(k));
    }
}

/// `s` with leading and trailing whitespace removed.
pub fn trim_str<'a>(s: &'a str) -> (r: &'a str)
    ensures
        r@ == spec_trim(s@),
{
    let n = s.unicode_len();
    let mut a: usize = 0;
    while a < n && is_ws_char(s.get_char(a))
        invariant
            a <= n,
            n == s@.len(),
            forall|j: int| 0 <= j < a ==> spec_is_ws(s@[j]),
        decreases n - a,
    {
        a += 1;
    }
    let mut b: usize = n;
    while b > a && is_ws_char(s.get_char(b - 1))
        invariant
            a <= b <= n,
            n == s@.len(),
            forall|j: int| 0 <= j < a ==> spec_is_ws(s@[j]),
            a == n || !spec_is_ws(s@[a as int]),
            forall|j: int| b <= j < n ==> spec_is_ws(s@[j]),
        decreases b,
    {
        b -= 1;
    }
    let r = s.substring_char(a, b);
    proof {
        lemma_trim_start_skip(s@, a as int);
        let t = s@.skip(a as int);
        assert forall|j: int| (b - a) <= j < t.len() implies spec_is_ws(t[j]) by {
            assert(t[j] == s@[j + a]);
        }
        if b > a {
            assert(t[b - a - 1] == s@[b - 1]);
        }
        lemma_trim_end_take(t, b - a);
        assert(r@ =~= t.take(b - a));
    }
    r
}

/// `s` with trailing whitespace removed.
pub fn trim_end_str<'a>(s: &'a str) -> (r: &'a str)
    ensures
        r@ == spec_trim_end(s@),
{
    let n = s.unicode_len();
    let mut b: usize = n;
    while b > 0 && is_ws_char(s.get_char(b - 1))
        invariant
            b <= n,
            n == s@.len(),
            forall|j: int| b <= j < n ==> spec_is_ws(s@[j]),
        decreases b,
    {
        b -= 1;
    }
    let r = s.substring_char(0, b);
    proof {
        lemma_trim_end_take(s@, b as int);
        assert(r@ =~= s@.take(b as int));
    }
    r
}

fn is_ws_char(c: char) -> (r: bool)
    ensures
        r == spec_is_ws(c),
{
    c == ' ' || c == '\t' || c == '\r' || c == '\n'
}

/// The decimal rendering of `n` as a fresh string.
pub fn u64_to_string(n: u64) -> (r: String)
    ensures
        r@ == spec_u64_dec(n as int),
{
    let mut out = String::new();
    append_u64(&mut out, n);
    proof {
        assert(out@ =~= spec_u64_dec(n as int));
    }
    out
}

} // verus!
