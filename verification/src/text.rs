//! Splitting and trimming of text, as the path of a request and a pattern of segments need it.

use vstd::prelude::*;

verus! {

/// The offset of the first `sep` in `p`, or the length of `p` if it has none.
pub open spec fn first_index(p: Seq<char>, sep: char) -> int
    decreases p.len(),
{
    if p.len() == 0 || p[0] == sep {
        0
    } else {
        1 + first_index(p.drop_first(), sep)
    }
}

/// The parts of `p` between its separators: one more part than `p` has separators.
pub open spec fn split_on(p: Seq<char>, sep: char) -> Seq<Seq<char>>
    decreases p.len(),
{
    let i = first_index(p, sep);
    if 0 <= i < p.len() {
        seq![p.subrange(0, i)] + split_on(p.subrange(i + 1, p.len() as int), sep)
    } else {
        seq![p]
    }
}

/// The first separator stands at an offset inside the text or at its end, and no separator
/// stands before it.
pub proof fn lemma_first_index(p: Seq<char>, sep: char)
    ensures
        0 <= first_index(p, sep) <= p.len(),
        first_index(p, sep) < p.len() ==> p[first_index(p, sep)] == sep,
        forall|j: int| 0 <= j < first_index(p, sep) ==> p[j] != sep,
    decreases p.len(),
{
    if p.len() == 0 || p[0] == sep {
    } else {
        let q = p.drop_first();
        lemma_first_index(q, sep);
        assert forall|j: int| 0 <= j < first_index(p, sep) implies p[j] != sep by {
            if j > 0 {
                assert(q[j - 1] == p[j]);
            }
        }
    }
}

/// An offset that no separator precedes, and that holds one or is the end, is the first index.
pub proof fn lemma_first_index_at(p: Seq<char>, sep: char, i: int)
    requires
        0 <= i <= p.len(),
        forall|j: int| 0 <= j < i ==> p[j] != sep,
        i < p.len() ==> p[i] == sep,
    ensures
        first_index(p, sep) == i,
{
    lemma_first_index(p, sep);
}

/// The offset of the last `sep` in `p`, or -1 if it has none.
pub open spec fn last_index(p: Seq<char>, sep: char) -> int
    decreases p.len(),
{
    if p.len() == 0 {
        -1
    } else if p.last() == sep {
        p.len() - 1
    } else {
        last_index(p.drop_last(), sep)
    }
}

/// The last separator stands at an offset inside the text, and no separator stands behind
/// it; where the text has none, the offset is -1.
pub proof fn lemma_last_index(p: Seq<char>, sep: char)
    ensures
        -1 <= last_index(p, sep) < p.len(),
        last_index(p, sep) >= 0 ==> p[last_index(p, sep)] == sep,
        forall|j: int| last_index(p, sep) < j < p.len() ==> p[j] != sep,
    decreases p.len(),
{
    if p.len() == 0 || p.last() == sep {
    } else {
        let q = p.drop_last();
        lemma_last_index(q, sep);
        assert forall|j: int| last_index(p, sep) < j < p.len() implies p[j] != sep by {
            if j < p.len() - 1 {
                assert(q[j] == p[j]);
            }
        }
    }
}

/// An offset that holds a separator or is -1, and behind which no separator stands, is the
/// last index.
pub proof fn lemma_last_index_at(p: Seq<char>, sep: char, i: int)
    requires
        -1 <= i < p.len(),
        i >= 0 ==> p[i] == sep,
        forall|j: int| i < j < p.len() ==> p[j] != sep,
    ensures
        last_index(p, sep) == i,
{
    lemma_last_index(p, sep);
}

/// Whether `c` is white space in the sense of Unicode's property White_Space.
pub open spec fn is_white_space(c: char) -> bool {
    let n = c as u32;
    ||| 0x09 <= n <= 0x0d
    ||| n == 0x20
    ||| n == 0x85
    ||| n == 0xa0
    ||| n == 0x1680
    ||| 0x2000 <= n <= 0x200a
    ||| n == 0x2028
    ||| n == 0x2029
    ||| n == 0x202f
    ||| n == 0x205f
    ||| n == 0x3000
}

/// The number of characters at the start of `s` that satisfy `skip`.
pub open spec fn leading(s: Seq<char>, skip: spec_fn(char) -> bool) -> int
    decreases s.len(),
{
    if s.len() == 0 || !skip(s[0]) {
        0
    } else {
        1 + leading(s.drop_first(), skip)
    }
}

/// The number of characters at the end of `s` that satisfy `skip`.
pub open spec fn trailing(s: Seq<char>, skip: spec_fn(char) -> bool) -> int
    decreases s.len(),
{
    if s.len() == 0 || !skip(s.last()) {
        0
    } else {
        1 + trailing(s.drop_last(), skip)
    }
}

/// `s` without the characters at its start and at its end that satisfy `skip`.
pub open spec fn stripped(s: Seq<char>, skip: spec_fn(char) -> bool) -> Seq<char> {
    let a = leading(s, skip);
    let rest = s.subrange(a, s.len() as int);
    rest.subrange(0, rest.len() - trailing(rest, skip))
}

/// `s` without the white space around it.
pub open spec fn trimmed(s: Seq<char>) -> Seq<char> {
    stripped(s, |c: char| is_white_space(c))
}

/// `s` without the slashes around it.
pub open spec fn without_slashes(s: Seq<char>) -> Seq<char> {
    stripped(s, |c: char| c == '/')
}

/// The characters counted at the start satisfy `skip`, and the one behind them does not.
pub proof fn lemma_leading(s: Seq<char>, skip: spec_fn(char) -> bool)
    ensures
        0 <= leading(s, skip) <= s.len(),
        forall|j: int| 0 <= j < leading(s, skip) ==> skip(s[j]),
        leading(s, skip) < s.len() ==> !skip(s[leading(s, skip)]),
    decreases s.len(),
{
    if s.len() == 0 || !skip(s[0]) {
    } else {
        let q = s.drop_first();
        lemma_leading(q, skip);
        assert forall|j: int| 0 <= j < leading(s, skip) implies skip(s[j]) by {
            if j > 0 {
                assert(q[j - 1] == s[j]);
            }
        }
    }
}

/// A stretch at the start whose characters satisfy `skip`, and behind which stands one that
/// does not or nothing, is what `leading` counts.
pub proof fn lemma_leading_at(s: Seq<char>, skip: spec_fn(char) -> bool, i: int)
    requires
        0 <= i <= s.len(),
        forall|j: int| 0 <= j < i ==> skip(s[j]),
        i < s.len() ==> !skip(s[i]),
    ensures
        leading(s, skip) == i,
{
    lemma_leading(s, skip);
}

/// The characters counted at the end satisfy `skip`, and the one before them does not.
pub proof fn lemma_trailing(s: Seq<char>, skip: spec_fn(char) -> bool)
    ensures
        0 <= trailing(s, skip) <= s.len(),
        forall|j: int| s.len() - trailing(s, skip) <= j < s.len() ==> skip(s[j]),
        trailing(s, skip) < s.len() ==> !skip(s[s.len() - trailing(s, skip) - 1]),
    decreases s.len(),
{
    if s.len() == 0 || !skip(s.last()) {
    } else {
        let q = s.drop_last();
        lemma_trailing(q, skip);
        assert forall|j: int| s.len() - trailing(s, skip) <= j < s.len() implies skip(s[j]) by {
            if j < s.len() - 1 {
                assert(q[j] == s[j]);
            }
        }
    }
}

/// A stretch at the end whose characters satisfy `skip`, and before which stands one that
/// does not or nothing, is what `trailing` counts.
pub proof fn lemma_trailing_at(s: Seq<char>, skip: spec_fn(char) -> bool, k: int)
    requires
        0 <= k <= s.len(),
        forall|j: int| s.len() - k <= j < s.len() ==> skip(s[j]),
        k < s.len() ==> !skip(s[s.len() - k - 1]),
    ensures
        trailing(s, skip) == k,
{
    lemma_trailing(s, skip);
}

/// Whether `c` is white space.
pub fn is_space(c: char) -> (r: bool)
    ensures
        r == is_white_space(c),
{
    let n: u32 = c as u32;
    (0x09 <= n && n <= 0x0d) || n == 0x20 || n == 0x85 || n == 0xa0 || n == 0x1680 || (0x2000 <= n
        && n <= 0x200a) || n == 0x2028 || n == 0x2029 || n == 0x202f || n == 0x205f || n == 0x3000
}

/// The offset of the first `sep` of `s` at or after `start`, or the length of `s`.
pub fn find(s: &str, sep: char, start: usize) -> (i: usize)
    requires
        start <= s@.len(),
    ensures
        i == start + first_index(s@.subrange(start as int, s@.len() as int), sep),
        start <= i <= s@.len(),
{
    let n = s.unicode_len();
    let mut i: usize = start;
    while i < n && s.get_char(i) != sep
        invariant
            n == s@.len(),
            start <= i <= n,
            forall|j: int| start <= j < i ==> s@[j] != sep,
        decreases n - i,
    {
        i = i + 1;
    }
    proof {
        let p = s@.subrange(start as int, n as int);
        lemma_first_index_at(p, sep, i - start);
    }
    i
}

/// The offset of the last `sep` of `s`, if it has one.
pub fn find_last(s: &str, sep: char) -> (r: Option<usize>)
    ensures
        r is Some <==> last_index(s@, sep) >= 0,
        r is None ==> last_index(s@, sep) == -1,
        r matches Some(i) ==> i == last_index(s@, sep) && i < s@.len(),
{
    let n = s.unicode_len();
    let mut i: usize = n;
    while i > 0
        invariant
            n == s@.len(),
            i <= n,
            forall|j: int| i <= j < n ==> s@[j] != sep,
        decreases i,
    {
        if s.get_char(i - 1) == sep {
            proof {
                lemma_last_index_at(s@, sep, i - 1);
            }
            return Some(i - 1);
        }
        i = i - 1;
    }
    proof {
        lemma_last_index_at(s@, sep, -1);
    }
    None
}

/// The parts of `s` between its separators.
pub fn split(s: &str, sep: char) -> (parts: Vec<String>)
    ensures
        parts.len() == split_on(s@, sep).len(),
        forall|k: int| 0 <= k < parts.len() ==> (#[trigger] parts[k])@ == split_on(s@, sep)[k],
{
    let n = s.unicode_len();
    let mut parts: Vec<String> = Vec::new();
    let mut start: usize = 0;
    let mut done = false;
    let ghost mut found: Seq<Seq<char>> = Seq::empty();
    proof {
        assert(s@.subrange(0, n as int) == s@);
    }
    while !done
        invariant
            n == s@.len(),
            start <= n,
            found.len() == parts.len(),
            forall|k: int| 0 <= k < parts.len() ==> (#[trigger] parts[k])@ == found[k],
            done ==> split_on(s@, sep) == found,
            !done ==> split_on(s@, sep) == found + split_on(
                s@.subrange(start as int, n as int),
                sep,
            ),
        decreases n - start + (if done { 0int } else { 1int }),
    {
        let ghost rest = s@.subrange(start as int, n as int);
        let i = find(s, sep, start);
        let part = s.substring_char(start, i).to_owned();
        proof {
            assert(part@ == rest.subrange(0, i - start));
        }
        parts.push(part);
        proof {
            if i < n {
                let tail = rest.subrange(i - start + 1, rest.len() as int);
                assert(tail == s@.subrange(i + 1, n as int));
            }
            found = found.push(part@);
        }
        if i < n {
            start = i + 1;
        } else {
            done = true;
        }
    }
    parts
}

/// The offsets between which `s` holds no white space at either end.
pub fn trim_bounds(s: &str, from: usize, to: usize) -> (r: (usize, usize))
    requires
        from <= to <= s@.len(),
    ensures
        from <= r.0 <= r.1 <= to,
        s@.subrange(r.0 as int, r.1 as int) == trimmed(s@.subrange(from as int, to as int)),
{
    let mut a: usize = from;
    while a < to && is_space(s.get_char(a))
        invariant
            from <= a <= to <= s@.len(),
            forall|j: int| from <= j < a ==> is_white_space(s@[j]),
        decreases to - a,
    {
        a = a + 1;
    }
    let mut b: usize = to;
    while a < b && is_space(s.get_char(b - 1))
        invariant
            from <= a <= b <= to <= s@.len(),
            forall|j: int| b <= j < to ==> is_white_space(s@[j]),
        decreases b - a,
    {
        b = b - 1;
    }
    proof {
        let skip = |c: char| is_white_space(c);
        let whole = s@.subrange(from as int, to as int);
        lemma_leading_at(whole, skip, a - from);
        let rest = whole.subrange(a - from, whole.len() as int);
        lemma_trailing_at(rest, skip, to - b);
    }
    (a, b)
}

/// The offsets between which `s` holds no slash at either end.
pub fn slash_bounds(s: &str, from: usize, to: usize) -> (r: (usize, usize))
    requires
        from <= to <= s@.len(),
    ensures
        from <= r.0 <= r.1 <= to,
        s@.subrange(r.0 as int, r.1 as int) == without_slashes(
            s@.subrange(from as int, to as int),
        ),
{
    let mut a: usize = from;
    while a < to && s.get_char(a) == '/'
        invariant
            from <= a <= to <= s@.len(),
            forall|j: int| from <= j < a ==> s@[j] == '/',
        decreases to - a,
    {
        a = a + 1;
    }
    let mut b: usize = to;
    while a < b && s.get_char(b - 1) == '/'
        invariant
            from <= a <= b <= to <= s@.len(),
            forall|j: int| b <= j < to ==> s@[j] == '/',
        decreases b - a,
    {
        b = b - 1;
    }
    proof {
        let skip = |c: char| c == '/';
        let whole = s@.subrange(from as int, to as int);
        lemma_leading_at(whole, skip, a - from);
        let rest = whole.subrange(a - from, whole.len() as int);
        lemma_trailing_at(rest, skip, to - b);
    }
    (a, b)
}

/// `s` without the white space around it.
pub fn trim(s: &str) -> (r: String)
    ensures
        r@ == trimmed(s@),
{
    let n = s.unicode_len();
    let (a, b) = trim_bounds(s, 0, n);
    proof {
        assert(s@.subrange(0, n as int) == s@);
    }
    s.substring_char(a, b).to_owned()
}

/// The character that writes the digit `d`.
pub open spec fn digit_char(d: nat) -> char {
    if d == 0 {
        '0'
    } else if d == 1 {
        '1'
    } else if d == 2 {
        '2'
    } else if d == 3 {
        '3'
    } else if d == 4 {
        '4'
    } else if d == 5 {
        '5'
    } else if d == 6 {
        '6'
    } else if d == 7 {
        '7'
    } else if d == 8 {
        '8'
    } else {
        '9'
    }
}

/// The number `n` written in decimal digits, without a sign and without a zero in front.
pub open spec fn decimal_text(n: nat) -> Seq<char>
    decreases n,
{
    if n < 10 {
        seq![digit_char(n)]
    } else {
        decimal_text(n / 10).push(digit_char(n % 10))
    }
}

/// The text of one decimal digit.
fn digit(d: u64) -> (r: &'static str)
    requires
        d < 10,
    ensures
        r@ == seq![digit_char(d as nat)],
{
    proof {
        reveal_strlit("0");
        reveal_strlit("1");
        reveal_strlit("2");
        reveal_strlit("3");
        reveal_strlit("4");
        reveal_strlit("5");
        reveal_strlit("6");
        reveal_strlit("7");
        reveal_strlit("8");
        reveal_strlit("9");
    }
    let r = if d == 0 {
        "0"
    } else if d == 1 {
        "1"
    } else if d == 2 {
        "2"
    } else if d == 3 {
        "3"
    } else if d == 4 {
        "4"
    } else if d == 5 {
        "5"
    } else if d == 6 {
        "6"
    } else if d == 7 {
        "7"
    } else if d == 8 {
        "8"
    } else {
        "9"
    };
    r
}

/// The number `n` written in decimal digits.
pub fn decimal(n: u64) -> (r: String)
    ensures
        r@ == decimal_text(n as nat),
    decreases n,
{
    if n < 10 {
        digit(n).to_owned()
    } else {
        let mut text = decimal(n / 10);
        text.append(digit(n % 10));
        text
    }
}

} // verus!
