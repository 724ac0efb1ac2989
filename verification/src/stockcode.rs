//! Stock-code normalization: exchange-prefixed lower-case codes and bare
//! digit extraction.

use vstd::prelude::*;

use crate::text::{spec_match_at, spec_trim, starts_with_sub, trim_str};

verus! {

/// ASCII lower-casing of one character; other characters pass through.
pub open spec fn spec_lower_char(c: char) -> char {
    if c == 'A' {
        'a'
    } else if c == 'B' {
        'b'
    } else if c == 'C' {
        'c'
    } else if c == 'D' {
        'd'
    } else if c == 'E' {
        'e'
    } else if c == 'F' {
        'f'
    } else if c == 'G' {
        'g'
    } else if c == 'H' {
        'h'
    } else if c == 'I' {
        'i'
    } else if c == 'J' {
        'j'
    } else if c == 'K' {
        'k'
    } else if c == 'L' {
        'l'
    } else if c == 'M' {
        'm'
    } else if c == 'N' {
        'n'
    } else if c == 'O' {
        'o'
    } else if c == 'P' {
        'p'
    } else if c == 'Q' {
        'q'
    } else if c == 'R' {
        'r'
    } else if c == 'S' {
        's'
    } else if c == 'T' {
        't'
    } else if c == 'U' {
        'u'
    } else if c == 'V' {
        'v'
    } else if c == 'W' {
        'w'
    } else if c == 'X' {
        'x'
    } else if c == 'Y' {
        'y'
    } else if c == 'Z' {
        'z'
    } else {
        c
    }
}

/// ASCII lower-casing of a character sequence.
pub open spec fn spec_lower(s: Seq<char>) -> Seq<char> {
    Seq::new(s.len(), |i: int| spec_lower_char(s[i]))
}

fn lower_char_str(c: char) -> (r: Option<&'static str>)
    ensures
        match r {
            Some(t) => t@ == seq![spec_lower_char(c)] && c != spec_lower_char(c),
            None => spec_lower_char(c) == c,
        },
{
    let r: Option<&'static str> = if c == 'A' {
        Some("a")
    } else if c == 'B' {
        Some("b")
    } else if c == 'C' {
        Some("c")
    } else if c == 'D' {
        Some("d")
    } else if c == 'E' {
        Some("e")
    } else if c == 'F' {
        Some("f")
    } else if c == 'G' {
        Some("g")
    } else if c == 'H' {
        Some("h")
    } else if c == 'I' {
        Some("i")
    } else if c == 'J' {
        Some("j")
    } else if c == 'K' {
        Some("k")
    } else if c == 'L' {
        Some("l")
    } else if c == 'M' {
        Some("m")
    } else if c == 'N' {
        Some("n")
    } else if c == 'O' {
        Some("o")
    } else if c == 'P' {
        Some("p")
    } else if c == 'Q' {
        Some("q")
    } else if c == 'R' {
        Some("r")
    } else if c == 'S' {
        Some("s")
    } else if c == 'T' {
        Some("t")
    } else if c == 'U' {
        Some("u")
    } else if c == 'V' {
        Some("v")
    } else if c == 'W' {
        Some("w")
    } else if c == 'X' {
        Some("x")
    } else if c == 'Y' {
        Some("y")
    } else if c == 'Z' {
        Some("z")
    } else {
        None
    };
    proof {
        match r {
            Some(t) => {
                reveal_strlit("a");
                reveal_strlit("b");
                reveal_strlit("c");
                reveal_strlit("d");
                reveal_strlit("e");
                reveal_strlit("f");
                reveal_strlit("g");
                reveal_strlit("h");
                reveal_strlit("i");
                reveal_strlit("j");
                reveal_strlit("k");
                reveal_strlit("l");
                reveal_strlit("m");
                reveal_strlit("n");
                reveal_strlit("o");
                reveal_strlit("p");
                reveal_strlit("q");
                reveal_strlit("r");
                reveal_strlit("s");
                reveal_strlit("t");
                reveal_strlit("u");
                reveal_strlit("v");
                reveal_strlit("w");
                reveal_strlit("x");
                reveal_strlit("y");
                reveal_strlit("z");
                assert(t@ =~= seq![spec_lower_char(c)]);
            },
            None => {},
        }
    }
    r
}

/// ASCII-lower-cases `s`; characters outside `A`..`Z` pass through.
pub fn lower_str(s: &str) -> (r: String)
    ensures
        r@ == spec_lower(s@),
{
    let n = s.unicode_len();
    let mut out = String::new();
    let mut i: usize = 0;
    while i < n
        invariant
            i <= n,
            n == s@.len(),
            out@ =~= spec_lower(s@.take(i as int)),
        decreases n - i,
    {
        match lower_char_str(s.get_char(i)) {
            Some(t) => {
                out.append(t);
            },
            None => {
                let piece = s.substring_char(i, i + 1);
                out.append(piece);
                proof {
                    assert(s@.subrange(i as int, i + 1) =~= seq![s@[i as int]]);
                }
            },
        }
        proof {
            assert(out@ =~= spec_lower(s@.take(i + 1)));
        }
        i += 1;
    }
    proof {
        assert(s@.take(n as int) =~= s@);
    }
    out
}

/// The ASCII digits of `s`, in order.
pub open spec fn spec_digits_of(s: Seq<char>) -> Seq<char>
    decreases s.len(),
{
    if s.len() == 0 {
        Seq::empty()
    } else if '0' <= s.last() <= '9' {
        spec_digits_of(s.drop_last()).push(s.last())
    } else {
        spec_digits_of(s.drop_last())
    }
}

proof fn lemma_digits_push(s: Seq<char>, c: char)
    ensures
        spec_digits_of(s.push(c)) == if '0' <= c <= '9' {
            spec_digits_of(s).push(c)
        } else {
            spec_digits_of(s)
        },
{
    assert(s.push(c).drop_last() =~= s);
    assert(s.push(c).last() == c);
}

/// Extracts the ASCII digits of `code`, dropping everything else.
pub fn code_to_pure(code: &str) -> (r: String)
    ensures
        r@ == spec_digits_of(code@),
{
    let n = code.unicode_len();
    let mut out = String::new();
    let mut i: usize = 0;
    proof {
        assert(code@.take(0) =~= Seq::<char>::empty());
    }
    while i < n
        invariant
            i <= n,
            n == code@.len(),
            out@ == spec_digits_of(code@.take(i as int)),
        decreases n - i,
    {
        let c = code.get_char(i);
        if '0' <= c && c <= '9' {
            let piece = code.substring_char(i, i + 1);
            out.append(piece);
            proof {
                assert(code@.subrange(i as int, i + 1) =~= seq![code@[i as int]]);
            }
        }
        proof {
            assert(code@.take(i + 1) =~= code@.take(i as int).push(code@[i as int]));
            lemma_digits_push(code@.take(i as int), code@[i as int]);
            assert(out@ =~= spec_digits_of(code@.take(i + 1)));
        }
        i += 1;
    }
    proof {
        assert(code@.take(n as int) =~= code@);
    }
    out
}

/// The normalized exchange-prefixed form of a stock code: trimmed and
/// lower-cased; a code already prefixed `sh`/`sz`/`bj` stays; otherwise
/// its digits get a prefix from the leading digit, with `sz` for an
/// unrecognized one; a code without digits stays as it is.
pub open spec fn spec_format_stock_code(s: Seq<char>) -> Seq<char> {
    let t = spec_lower(spec_trim(s));
    if spec_match_at(t, "sh"@, 0) || spec_match_at(t, "sz"@, 0) || spec_match_at(t, "bj"@, 0) {
        t
    } else {
        let d = spec_digits_of(t);
        if d.len() == 0 {
            t
        } else if d[0] == '6' {
            "sh"@ + d
        } else if d[0] == '0' || d[0] == '3' {
            "sz"@ + d
        } else if d[0] == '8' || d[0] == '9' {
            "bj"@ + d
        } else {
            "sz"@ + d
        }
    }
}

/// Normalizes a stock code to its exchange-prefixed lower-case form.
pub fn format_stock_code(code: &str) -> (r: String)
    ensures
        r@ == spec_format_stock_code(code@),
{
    let t = lower_str(trim_str(code));
    if starts_with_sub(t.as_str(), "sh") || starts_with_sub(t.as_str(), "sz") || starts_with_sub(
        t.as_str(),
        "bj",
    ) {
        return t;
    }
    let digits = code_to_pure(t.as_str());
    if digits.as_str().unicode_len() == 0 {
        return t;
    }
    let first = digits.as_str().get_char(0);
    let mut out = String::new();
    if first == '6' {
        out.append("sh");
    } else if first == '0' || first == '3' {
        out.append("sz");
    } else if first == '8' || first == '9' {
        out.append("bj");
    } else {
        out.append("sz");
    }
    out.append(digits.as_str());
    proof {
        assert(out@ =~= spec_format_stock_code(code@));
    }
    out
}

} // verus!
