//! Character sequences: the line splitting, trimming and searching that the
//! message parser is built from, each with its mathematical definition.

use vstd::prelude::*;
use vstd::string::StringExecFns;

verus! {

/// Whether `c` has the Unicode `White_Space` property, as
/// `char::is_whitespace` reports it.
pub uninterp spec fn char_is_whitespace(c: char) -> bool;

/// Whether `c` belongs to one of the Unicode general categories for numbers,
/// as `char::is_numeric` reports it.
pub uninterp spec fn char_is_numeric(c: char) -> bool;

/// `char::is_whitespace`. Nothing is proved of it, and nothing is claimed but
/// that the answer depends on the character alone.
pub assume_specification[ char::is_whitespace ](c: char) -> (res: bool)
    ensures
        res == char_is_whitespace(c),
;

/// `char::is_numeric`. Nothing is proved of it, and nothing is claimed but
/// that the answer depends on the character alone.
pub assume_specification[ char::is_numeric ](c: char) -> (res: bool)
    ensures
        res == char_is_numeric(c),
;

/// A text that may be absent, as a character sequence.
pub open spec fn optional_view(text: Option<&str>) -> Option<Seq<char>> {
    match text {
        Some(text) => Some(text@),
        None => None,
    }
}

/// The number of elements at the front of `s` that satisfy `p`.
pub open spec fn leading_run(s: Seq<char>, p: spec_fn(char) -> bool) -> nat
    decreases s.len(),
{
    if s.len() > 0 && p(s[0]) {
        1 + leading_run(s.drop_first(), p)
    } else {
        0
    }
}

/// The number of elements at the back of `s` that satisfy `p`.
pub open spec fn trailing_run(s: Seq<char>, p: spec_fn(char) -> bool) -> nat
    decreases s.len(),
{
    if s.len() > 0 && p(s.last()) {
        1 + trailing_run(s.drop_last(), p)
    } else {
        0
    }
}

/// `s` without its leading and trailing white space.
pub open spec fn trimmed(s: Seq<char>) -> Seq<char> {
    let rest = s.skip(leading_run(s, |c: char| char_is_whitespace(c)) as int);
    rest.take(rest.len() - trailing_run(rest, |c: char| char_is_whitespace(c)))
}

/// The characters of `s`, in order.
pub fn chars_of(s: &str) -> (chars: Vec<char>)
    ensures
        chars@ == s@,
{
    let mut chars: Vec<char> = Vec::new();
    for c in it: s.chars()
        invariant
            chars@ == it.seq().take(it.index() as int),
            it.seq() == s@,
    {
        chars.push(c);
    }
    chars
}

/// A run is exactly the longest prefix all of whose elements satisfy `p`.
pub proof fn lemma_leading_run(s: Seq<char>, p: spec_fn(char) -> bool, n: int)
    requires
        0 <= n <= s.len(),
        forall|i: int| 0 <= i < n ==> p(#[trigger] s[i]),
        n == s.len() || !p(s[n]),
    ensures
        leading_run(s, p) == n,
    decreases n,
{
    if n > 0 {
        let rest = s.drop_first();
        assert forall|i: int| 0 <= i < n - 1 implies p(#[trigger] rest[i]) by {
            assert(rest[i] == s[i + 1]);
        }
        if n - 1 < rest.len() {
            assert(rest[n - 1] == s[n]);
        }
        lemma_leading_run(rest, p, n - 1);
    }
}

/// A run is exactly the longest suffix all of whose elements satisfy `p`.
pub proof fn lemma_trailing_run(s: Seq<char>, p: spec_fn(char) -> bool, n: int)
    requires
        0 <= n <= s.len(),
        forall|i: int| s.len() - n <= i < s.len() ==> p(#[trigger] s[i]),
        n == s.len() || !p(s[s.len() - n - 1]),
    ensures
        trailing_run(s, p) == n,
    decreases n,
{
    if n > 0 {
        let rest = s.drop_last();
        assert forall|i: int| rest.len() - (n - 1) <= i < rest.len() implies p(
            #[trigger] rest[i],
        ) by {
            assert(rest[i] == s[i]);
        }
        if n - 1 < rest.len() {
            assert(rest[rest.len() - (n - 1) - 1] == s[s.len() - n - 1]);
        }
        lemma_trailing_run(rest, p, n - 1);
    }
}

/// `s` without its leading and trailing white space.
pub fn trim<'a>(s: &'a str) -> (res: &'a str)
    ensures
        res@ == trimmed(s@),
{
    let chars = chars_of(s);
    let n: usize = chars.len();
    let mut start: usize = 0;
    while start < n && chars[start].is_whitespace()
        invariant
            start <= n,
            n == chars@.len(),
            forall|i: int| 0 <= i < start ==> char_is_whitespace(#[trigger] chars@[i]),
        decreases n - start,
    {
        start += 1;
    }
    let mut end: usize = n;
    while end > start && chars[end - 1].is_whitespace()
        invariant
            start <= end <= n,
            n == chars@.len(),
            forall|i: int| end <= i < n ==> char_is_whitespace(#[trigger] chars@[i]),
        decreases end,
    {
        end -= 1;
    }
    proof {
        let ws = |c: char| char_is_whitespace(c);
        lemma_leading_run(chars@, ws, start as int);
        let rest = chars@.skip(start as int);
        assert forall|i: int| rest.len() - (n - end) <= i < rest.len() implies ws(
            #[trigger] rest[i],
        ) by {
            assert(rest[i] == chars@[i + start]);
        }
        if end > start {
            assert(rest[rest.len() - (n - end) - 1] == chars@[end - 1]);
        }
        lemma_trailing_run(rest, ws, (n - end) as int);
        assert(rest.take(rest.len() - (n - end)) == chars@.subrange(start as int, end as int));
    }
    s.substring_char(start, end)
}

/// The views of a vector of string slices, in order.
pub open spec fn views(lines: Seq<&str>) -> Seq<Seq<char>> {
    lines.map_values(|line: &str| line@)
}

/// The views of a vector of strings, in order.
pub open spec fn texts(lines: Seq<String>) -> Seq<Seq<char>> {
    lines.map_values(|line: String| line@)
}

/// `s` cut at every line feed; the line feeds themselves are dropped. A text
/// without a line feed is one line, and a trailing line feed is followed by an
/// empty last line.
pub open spec fn split_lines(s: Seq<char>) -> Seq<Seq<char>>
    decreases s.len(),
{
    let i = leading_run(s, |c: char| c != '\n');
    if i >= s.len() {
        seq![s]
    } else {
        seq![s.take(i as int)] + split_lines(s.skip(i as int + 1))
    }
}

/// Whether `pattern` occurs in `s` as a contiguous run.
pub open spec fn contains_run(s: Seq<char>, pattern: Seq<char>) -> bool {
    exists|i: int|
        0 <= i && i + pattern.len() <= s.len() && #[trigger] s.subrange(i, i + pattern.len())
            == pattern
}

/// The lines of `text`, cut at line feeds.
pub fn lines_of<'a>(text: &'a str) -> (lines: Vec<&'a str>)
    ensures
        views(lines@) == split_lines(text@),
{
    let chars = chars_of(text);
    let n: usize = chars.len();
    let mut lines: Vec<&'a str> = Vec::new();
    let mut start: usize = 0;
    let mut i: usize = 0;
    proof {
        assert(text@.skip(0) == text@);
        assert(views(lines@) + split_lines(text@) == split_lines(text@));
    }
    while i < n
        invariant
            start <= i <= n,
            n == chars@.len(),
            chars@ == text@,
            forall|j: int| start <= j < i ==> #[trigger] chars@[j] != '\n',
            split_lines(text@) == views(lines@) + split_lines(text@.skip(start as int)),
        decreases n - i,
    {
        if chars[i] == '\n' {
            let line = text.substring_char(start, i);
            proof {
                let rest = text@.skip(start as int);
                assert(rest[i - start] == chars@[i as int]);
                assert forall|j: int| 0 <= j < i - start implies rest[j] != '\n' by {
                    assert(rest[j] == chars@[j + start]);
                }
                lemma_leading_run(rest, |c: char| c != '\n', i - start);
                assert(rest.take(i - start) == line@);
                assert(rest.skip(i - start + 1) == text@.skip(i + 1));
                assert(views(lines@.push(line)) == views(lines@).push(line@));
            }
            lines.push(line);
            start = i + 1;
        }
        i += 1;
    }
    let line = text.substring_char(start, n);
    proof {
        let rest = text@.skip(start as int);
        assert forall|j: int| 0 <= j < n - start implies rest[j] != '\n' by {
            assert(rest[j] == chars@[j + start]);
        }
        lemma_leading_run(rest, |c: char| c != '\n', n - start);
        assert(rest == line@);
        assert(views(lines@.push(line)) == views(lines@).push(line@));
    }
    lines.push(line);
    lines
}

/// Whether `c` occurs in `s`.
pub fn contains_char(s: &str, c: char) -> (res: bool)
    ensures
        res == s@.contains(c),
{
    let chars = chars_of(s);
    let n: usize = chars.len();
    let mut i: usize = 0;
    while i < n
        invariant
            i <= n,
            n == chars@.len(),
            chars@ == s@,
            forall|j: int| 0 <= j < i ==> #[trigger] chars@[j] != c,
        decreases n - i,
    {
        if chars[i] == c {
            return true;
        }
        i += 1;
    }
    false
}

/// Whether `pattern` occurs in `s` as a contiguous run of characters.
pub fn contains_text(s: &str, pattern: &str) -> (res: bool)
    ensures
        res == contains_run(s@, pattern@),
{
    let chars = chars_of(s);
    let wanted = chars_of(pattern);
    let n: usize = chars.len();
    let m: usize = wanted.len();
    if m > n {
        return false;
    }
    let mut i: usize = 0;
    while i <= n - m
        invariant
            m <= n,
            i <= n - m + 1,
            n == chars@.len(),
            m == wanted@.len(),
            chars@ == s@,
            wanted@ == pattern@,
            forall|j: int| 0 <= j < i ==> #[trigger] chars@.subrange(j, j + m) != wanted@,
        decreases n - m + 1 - i,
    {
        let mut k: usize = 0;
        while k < m && chars[i + k] == wanted[k]
            invariant
                k <= m,
                i + m <= n,
                n == chars@.len(),
                m == wanted@.len(),
                forall|j: int| 0 <= j < k ==> #[trigger] chars@[i + j] == wanted@[j],
            decreases m - k,
        {
            k += 1;
        }
        if k == m {
            proof {
                let window = chars@.subrange(i as int, i + m);
                assert forall|j: int| 0 <= j < m implies window[j] == wanted@[j] by {
                    assert(window[j] == chars@[i + j]);
                }
                assert(window == wanted@);
            }
            return true;
        }
        proof {
            let window = chars@.subrange(i as int, i + m);
            assert(window[k as int] == chars@[i + k]);
        }
        i += 1;
    }
    false
}

/// The decimal digit that stands for `d`, which is less than ten.
pub open spec fn digit(d: nat) -> Seq<char> {
    if d == 0 {
        "0"@
    } else if d == 1 {
        "1"@
    } else if d == 2 {
        "2"@
    } else if d == 3 {
        "3"@
    } else if d == 4 {
        "4"@
    } else if d == 5 {
        "5"@
    } else if d == 6 {
        "6"@
    } else if d == 7 {
        "7"@
    } else if d == 8 {
        "8"@
    } else {
        "9"@
    }
}

/// `n` written in decimal, without leading zeros.
pub open spec fn decimal(n: nat) -> Seq<char>
    decreases n,
{
    if n < 10 {
        digit(n)
    } else {
        decimal(n / 10) + digit(n % 10)
    }
}

fn digit_text(d: u8) -> (res: &'static str)
    requires
        d < 10,
    ensures
        res@ == digit(d as nat),
{
    if d == 0 {
        "0"
    } else if d == 1 {
        "1"
    } else if d == 2 {
        "2"
    } else if d == 3 {
        "3"
    } else if d == 4 {
        "4"
    } else if d == 5 {
        "5"
    } else if d == 6 {
        "6"
    } else if d == 7 {
        "7"
    } else if d == 8 {
        "8"
    } else {
        "9"
    }
}

/// `n` written in decimal, without leading zeros.
pub fn decimal_text(n: u8) -> (res: String)
    ensures
        res@ == decimal(n as nat),
{
    if n < 10 {
        String::from_str(digit_text(n))
    } else if n < 100 {
        assert(decimal((n / 10) as nat) == digit((n / 10) as nat));
        String::from_str(digit_text(n / 10)).concat(digit_text(n % 10))
    } else {
        assert(decimal((n / 100) as nat) == digit((n / 100) as nat));
        assert(decimal((n / 10) as nat) == decimal((n / 100) as nat) + digit(
            ((n / 10) % 10) as nat,
        ));
        String::from_str(digit_text(n / 100)).concat(digit_text((n / 10) % 10)).concat(
            digit_text(n % 10),
        )
    }
}

} // verus!
