//! Text helpers used by the client and the tray: trimming, prefix
//! stripping and decimal rendering, each stated over `Seq<char>`.

use vstd::prelude::*;
use vstd::string::*;

verus! {

/// `s` with every trailing occurrence of `c` removed.
pub open spec fn trim_trailing(s: Seq<char>, c: char) -> Seq<char>
    decreases s.len(),
{
    if s.len() > 0 && s.last() == c {
        trim_trailing(s.drop_last(), c)
    } else {
        s
    }
}

/// Whether `c` separates path components on Windows: a backslash or a slash.
pub open spec fn is_path_separator(c: char) -> bool {
    c == '/' || c == '\\'
}

/// `s` without its trailing path separators, keeping the first character
/// (so a lone separator stays).
pub open spec fn trim_trailing_separators(s: Seq<char>) -> Seq<char>
    decreases s.len(),
{
    if s.len() > 1 && is_path_separator(s.last()) {
        trim_trailing_separators(s.drop_last())
    } else {
        s
    }
}

/// Whether `p` occurs in `s` at char position `at`.
pub open spec fn occurs_at(s: Seq<char>, p: Seq<char>, at: int) -> bool {
    0 <= at && at + p.len() <= s.len() && s.subrange(at, at + p.len()) == p
}

/// `s` with the prefix `p` removed as many times as it repeats at the start.
/// An empty `p` leaves `s` unchanged.
pub open spec fn strip_leading(s: Seq<char>, p: Seq<char>) -> Seq<char>
    decreases s.len(),
{
    if p.len() > 0 && occurs_at(s, p, 0) {
        strip_leading(s.skip(p.len() as int), p)
    } else {
        s
    }
}

/// The character of a single decimal digit.
pub open spec fn digit_char(d: nat) -> char {
    if d == 0 {
        '0'
    } else if d == 1 {
        '1'
    } else if d == 2 {
        '2'
    } else if d == 3 {
        '3'
    } else if d == 4 {
        '4'
    } else if d == 5 {
        '5'
    } else if d == 6 {
        '6'
    } else if d == 7 {
        '7'
    } else if d == 8 {
        '8'
    } else {
        '9'
    }
}

/// The decimal rendering of `n`, without sign or leading zeros.
pub open spec fn decimal(n: nat) -> Seq<char>
    decreases n,
{
    if n < 10 {
        seq![digit_char(n)]
    } else {
        decimal(n / 10) + seq![digit_char(n % 10)]
    }
}

/// Trimming leaves no trailing `c`.
pub proof fn law_trim_trailing_leaves_no_trailing(s: Seq<char>, c: char)
    ensures
        trim_trailing(s, c).len() == 0 || trim_trailing(s, c).last() != c,
    decreases s.len(),
{
    if s.len() > 0 && s.last() == c {
        law_trim_trailing_leaves_no_trailing(s.drop_last(), c);
    }
}

/// Trimming twice is trimming once.
pub proof fn law_trim_trailing_idempotent(s: Seq<char>, c: char)
    ensures
        trim_trailing(trim_trailing(s, c), c) == trim_trailing(s, c),
{
    law_trim_trailing_leaves_no_trailing(s, c);
}

proof fn lemma_trim_step(s: Seq<char>, end: int, c: char)
    requires
        0 < end <= s.len(),
        s[end - 1] == c,
    ensures
        trim_trailing(s.take(end), c) == trim_trailing(s.take(end - 1), c),
{
    assert(s.take(end).drop_last() =~= s.take(end - 1));
}

/// Removes every trailing `c` from `s`.
pub fn trim_trailing_char(s: &str, c: char) -> (r: String)
    ensures
        r@ == trim_trailing(s@, c),
{
    let n = s.unicode_len();
    let mut end = n;
    assert(s@.take(n as int) =~= s@);
    while end > 0 && s.get_char(end - 1) == c
        invariant
            end <= n,
            n == s@.len(),
            trim_trailing(s@, c) == trim_trailing(s@.take(end as int), c),
        decreases end,
    {
        proof {
            lemma_trim_step(s@, end as int, c);
        }
        end = end - 1;
    }
    let kept = s.substring_char(0, end);
    assert(kept@ =~= s@.take(end as int));
    String::from_str(kept)
}

/// Removes the trailing path separators of `s`, keeping its first character.
pub fn trim_trailing_separators_exec(s: &str) -> (r: String)
    ensures
        r@ == trim_trailing_separators(s@),
{
    let n = s.unicode_len();
    let mut end = n;
    assert(s@.take(n as int) =~= s@);
    while end > 1 && (s.get_char(end - 1) == '/' || s.get_char(end - 1) == '\\')
        invariant
            end <= n,
            n == s@.len(),
            trim_trailing_separators(s@) == trim_trailing_separators(s@.take(end as int)),
        decreases end,
    {
        assert(s@.take(end as int).drop_last() =~= s@.take(end - 1));
        end = end - 1;
    }
    let kept = s.substring_char(0, end);
    assert(kept@ =~= s@.take(end as int));
    String::from_str(kept)
}

/// Whether `p` occurs in `s` at char position `at`.
pub fn occurs_at_exec(s: &str, p: &str, at: usize) -> (b: bool)
    ensures
        b == occurs_at(s@, p@, at as int),
{
    let n = s.unicode_len();
    let m = p.unicode_len();
    if at > n || m > n - at {
        return false;
    }
    let mut i: usize = 0;
    while i < m
        invariant
            n == s@.len(),
            m == p@.len(),
            at + m <= n,
            i <= m,
            forall|j: int| 0 <= j < i ==> s@[at + j] == p@[j],
        decreases m - i,
    {
        if s.get_char(at + i) != p.get_char(i) {
            assert(s@.subrange(at as int, at + m)[i as int] != p@[i as int]);
            return false;
        }
        i = i + 1;
    }
    assert(s@.subrange(at as int, at + m) =~= p@);
    true
}

/// Removes the prefix `p` from `s` as many times as it repeats at the start.
pub fn strip_leading_repeated(s: &str, p: &str) -> (r: String)
    ensures
        r@ == strip_leading(s@, p@),
{
    let n = s.unicode_len();
    let m = p.unicode_len();
    if m == 0 {
        return String::from_str(s);
    }
    let mut start: usize = 0;
    assert(s@.skip(0) =~= s@);
    loop
        invariant
            n == s@.len(),
            m == p@.len(),
            m > 0,
            start <= n,
            strip_leading(s@, p@) == strip_leading(s@.skip(start as int), p@),
        ensures
            start <= n,
            strip_leading(s@, p@) == s@.skip(start as int),
        decreases n - start,
    {
        let hit = occurs_at_exec(s, p, start);
        proof {
            let rest = s@.skip(start as int);
            if hit {
                assert(rest.subrange(0, m as int) =~= s@.subrange(start as int, start + m));
                assert(rest.skip(m as int) =~= s@.skip(start + m));
            } else {
                if occurs_at(rest, p@, 0) {
                    assert(rest.subrange(0, m as int) =~= s@.subrange(start as int, start + m));
                }
                assert(!occurs_at(rest, p@, 0));
                assert(strip_leading(rest, p@) == rest);
            }
        }
        if !hit {
            break;
        }
        start = start + m;
    }
    let kept = s.substring_char(start, n);
    assert(kept@ =~= s@.skip(start as int));
    String::from_str(kept)
}

/// The one-character string of digit `d`.
fn digit_str(d: u16) -> (r: &'static str)
    requires
        d < 10,
    ensures
        r@ == seq![digit_char(d as nat)],
{
    proof {
        reveal_strlit("0");
        reveal_strlit("1");
        reveal_strlit("2");
        reveal_strlit("3");
        reveal_strlit("4");
        reveal_strlit("5");
        reveal_strlit("6");
        reveal_strlit("7");
        reveal_strlit("8");
        reveal_strlit("9");
    }
    let r = if d == 0 {
        "0"
    } else if d == 1 {
        "1"
    } else if d == 2 {
        "2"
    } else if d == 3 {
        "3"
    } else if d == 4 {
        "4"
    } else if d == 5 {
        "5"
    } else if d == 6 {
        "6"
    } else if d == 7 {
        "7"
    } else if d == 8 {
        "8"
    } else {
        "9"
    };
    assert(r@ =~= seq![digit_char(d as nat)]);
    r
}

/// The decimal rendering of `n`, as `u16`'s `Display` writes it.
pub fn decimal_string(n: u16) -> (r: String)
    ensures
        r@ == decimal(n as nat),
    decreases n,
{
    if n < 10 {
        String::from_str(digit_str(n))
    } else {
        let mut r = decimal_string(n / 10);
        r.append(digit_str(n % 10));
        r
    }
}

} // verus!
