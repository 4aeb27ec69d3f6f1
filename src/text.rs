//! Character-level helpers on strings: trimming, comparison ignoring ASCII
//! case, substring search and decimal number parsing.
use vstd::prelude::*;

verus! {

/// Unicode `White_Space` characters, the set that `char::is_whitespace` tests.
pub open spec fn is_white(c: char) -> bool {
    c == '\t' || c == '\n' || c == '\u{0B}' || c == '\u{0C}' || c == '\r' || c == ' '
        || c == '\u{85}' || c == '\u{A0}' || c == '\u{1680}'
        || ('\u{2000}' <= c && c <= '\u{200A}')
        || c == '\u{2028}' || c == '\u{2029}' || c == '\u{202F}' || c == '\u{205F}'
        || c == '\u{3000}'
}

/// Whether `c` is white space.
pub fn is_white_exec(c: char) -> (r: bool)
    ensures
        r == is_white(c),
{
    c == '\t' || c == '\n' || c == '\u{0B}' || c == '\u{0C}' || c == '\r' || c == ' '
        || c == '\u{85}' || c == '\u{A0}' || c == '\u{1680}'
        || ('\u{2000}' <= c && c <= '\u{200A}')
        || c == '\u{2028}' || c == '\u{2029}' || c == '\u{202F}' || c == '\u{205F}'
        || c == '\u{3000}'
}

/// Index of the first character at or after `i` that is not white space.
pub open spec fn front_end(s: Seq<char>, i: int) -> int
    decreases s.len() - i,
{
    if i < 0 || i >= s.len() {
        s.len() as int
    } else if is_white(s[i]) {
        front_end(s, i + 1)
    } else {
        i
    }
}

/// End of the text once white space is dropped from the back, looking no
/// further left than `lo`.
pub open spec fn back_end(s: Seq<char>, j: int, lo: int) -> int
    decreases j - lo,
{
    if j <= lo {
        lo
    } else if is_white(s[j - 1]) {
        back_end(s, j - 1, lo)
    } else {
        j
    }
}

/// `s` without leading and trailing white space.
pub open spec fn trim_of(s: Seq<char>) -> Seq<char> {
    let a = front_end(s, 0);
    s.subrange(a, back_end(s, s.len() as int, a))
}

/// Removes leading and trailing white space.
pub fn trim(s: &str) -> (r: String)
    ensures
        r@ == trim_of(s@),
{
    let n = s.unicode_len();
    let mut a: usize = 0;
    while a < n && is_white_exec(s.get_char(a))
        invariant
            a <= n,
            n == s@.len(),
            front_end(s@, a as int) == front_end(s@, 0),
        decreases n - a,
    {
        a = a + 1;
    }
    let mut b: usize = n;
    while b > a && is_white_exec(s.get_char(b - 1))
        invariant
            a <= b <= n,
            n == s@.len(),
            a == front_end(s@, 0),
            back_end(s@, b as int, a as int) == back_end(s@, n as int, a as int),
        decreases b - a,
    {
        b = b - 1;
    }
    String::from_str(s.substring_char(a, b))
}

/// Whether two strings are equal.
pub fn str_eq(x: &str, y: &str) -> (r: bool)
    ensures
        r == (x@ == y@),
{
    let n = x.unicode_len();
    let m = y.unicode_len();
    if n != m {
        return false;
    }
    let mut i: usize = 0;
    while i < n
        invariant
            i <= n,
            n == x@.len(),
            m == y@.len(),
            n == m,
            x@.subrange(0, i as int) == y@.subrange(0, i as int),
        decreases n - i,
    {
        if x.get_char(i) != y.get_char(i) {
            assert(x@[i as int] != y@[i as int]);
            return false;
        }
        assert(x@.subrange(0, i + 1) =~= x@.subrange(0, i as int).push(x@[i as int]));
        assert(y@.subrange(0, i + 1) =~= y@.subrange(0, i as int).push(y@[i as int]));
        i = i + 1;
    }
    assert(x@ =~= x@.subrange(0, n as int));
    assert(y@ =~= y@.subrange(0, n as int));
    true
}

/// ASCII upper-case letters mapped to lower case, every other character kept.
pub open spec fn ascii_lower(c: char) -> char {
    if 'A' <= c && c <= 'Z' {
        (((c as u8) + 32) as u8) as char
    } else {
        c
    }
}

/// `c` with an ASCII upper-case letter made lower case.
pub fn ascii_lower_exec(c: char) -> (r: char)
    ensures
        r == ascii_lower(c),
{
    if 'A' <= c && c <= 'Z' {
        ((c as u8) + 32) as char
    } else {
        c
    }
}

/// `x` and `y` agree character by character once ASCII case is ignored.
pub open spec fn eq_ignore_case(x: Seq<char>, y: Seq<char>) -> bool {
    x.len() == y.len() && forall|i: int| 0 <= i < x.len() ==> ascii_lower(#[trigger] x[i]) == ascii_lower(y[i])
}

/// Whether `x` and `y` are equal when ASCII letters are compared without case.
pub fn eq_ignore_ascii_case(x: &str, y: &str) -> (r: bool)
    ensures
        r == eq_ignore_case(x@, y@),
{
    let n = x.unicode_len();
    let m = y.unicode_len();
    if n != m {
        return false;
    }
    let mut i: usize = 0;
    while i < n
        invariant
            i <= n,
            n == x@.len(),
            m == y@.len(),
            n == m,
            forall|k: int| 0 <= k < i ==> ascii_lower(#[trigger] x@[k]) == ascii_lower(y@[k]),
        decreases n - i,
    {
        if ascii_lower_exec(x.get_char(i)) != ascii_lower_exec(y.get_char(i)) {
            return false;
        }
        i = i + 1;
    }
    true
}

/// `needle` occurs in `hay` at position `p`, ignoring ASCII case.
pub open spec fn occurs_at(hay: Seq<char>, needle: Seq<char>, p: int) -> bool {
    0 <= p && p + needle.len() <= hay.len() && eq_ignore_case(
        hay.subrange(p, p + needle.len()),
        needle,
    )
}

/// `needle` occurs somewhere in `hay`, ignoring ASCII case.
pub open spec fn contains_ignore_case(hay: Seq<char>, needle: Seq<char>) -> bool {
    exists|p: int| occurs_at(hay, needle, p)
}

fn occurs_at_exec(hay: &str, needle: &str, p: usize) -> (r: bool)
    requires
        p + needle@.len() <= hay@.len(),
    ensures
        r == occurs_at(hay@, needle@, p as int),
{
    let n = hay.unicode_len();
    let m = needle.unicode_len();
    let mut i: usize = 0;
    while i < m
        invariant
            i <= m,
            m == needle@.len(),
            n == hay@.len(),
            p + m <= hay@.len(),
            forall|k: int| 0 <= k < i ==> ascii_lower(#[trigger] hay@[p + k]) == ascii_lower(needle@[k]),
        decreases m - i,
    {
        if ascii_lower_exec(hay.get_char(p + i)) != ascii_lower_exec(needle.get_char(i)) {
            let ghost sub = hay@.subrange(p as int, p + m);
            assert(sub[i as int] == hay@[p + i]);
            return false;
        }
        i = i + 1;
    }
    let ghost sub = hay@.subrange(p as int, p + m);
    assert forall|k: int| 0 <= k < sub.len() implies ascii_lower(#[trigger] sub[k]) == ascii_lower(needle@[k]) by {
        assert(sub[k] == hay@[p + k]);
    }
    true
}

/// Whether `needle` occurs in `hay` when ASCII letters are compared without case.
pub fn contains_ascii_ci(hay: &str, needle: &str) -> (r: bool)
    ensures
        r == contains_ignore_case(hay@, needle@),
{
    let n = hay.unicode_len();
    let m = needle.unicode_len();
    if m > n {
        assert forall|p: int| !occurs_at(hay@, needle@, p) by {}
        return false;
    }
    let mut p: usize = 0;
    while p <= n - m
        invariant
            m <= n,
            n == hay@.len(),
            m == needle@.len(),
            forall|q: int| 0 <= q < p ==> !occurs_at(hay@, needle@, q),
        decreases n - m + 1 - p,
    {
        if occurs_at_exec(hay, needle, p) {
            return true;
        }
        p = p + 1;
    }
    assert forall|q: int| !occurs_at(hay@, needle@, q) by {
        if 0 <= q < p {
        }
    }
    false
}

/// An ASCII decimal digit.
pub open spec fn is_digit(c: char) -> bool {
    '0' <= c && c <= '9'
}

/// Value of a string of decimal digits.
pub open spec fn digits_value(s: Seq<char>) -> int
    decreases s.len(),
{
    if s.len() == 0 {
        0
    } else {
        digits_value(s.drop_last()) * 10 + (s.last() as int - '0' as int)
    }
}

/// The digits of a number with an optional leading `+`.
pub open spec fn unsigned_digits(s: Seq<char>) -> Seq<char> {
    if s.len() > 0 && s[0] == '+' {
        s.drop_first()
    } else {
        s
    }
}

/// The `usize` written in `s` in the way `str::parse` accepts it: an optional
/// `+`, then one or more decimal digits, with a value that fits.
pub open spec fn usize_of(s: Seq<char>) -> Option<usize> {
    let d = unsigned_digits(s);
    if d.len() > 0 && (forall|i: int| 0 <= i < d.len() ==> is_digit(#[trigger] d[i]))
        && digits_value(d) <= usize::MAX {
        Some(digits_value(d) as usize)
    } else {
        None
    }
}

proof fn lemma_digits_value_grows(s: Seq<char>, i: int)
    requires
        0 <= i <= s.len(),
        forall|k: int| 0 <= k < s.len() ==> is_digit(#[trigger] s[k]),
    ensures
        0 <= digits_value(s.subrange(0, i)) <= digits_value(s),
    decreases s.len(),
{
    if s.len() == 0 {
        assert(s.subrange(0, i) =~= s);
    } else if i == s.len() {
        assert(s.subrange(0, i) =~= s);
        lemma_digits_value_grows(s.drop_last(), i - 1);
        assert(s.drop_last().subrange(0, i - 1) =~= s.drop_last());
    } else {
        lemma_digits_value_grows(s.drop_last(), i);
        assert(s.drop_last().subrange(0, i) =~= s.subrange(0, i));
        lemma_digits_value_grows(s.drop_last(), s.len() - 1);
        assert(s.drop_last().subrange(0, s.len() - 1) =~= s.drop_last());
    }
}

/// Parses a non-negative decimal number as `str::parse::<usize>` does.
pub fn parse_usize(s: &str) -> (r: Option<usize>)
    ensures
        r == usize_of(s@),
{
    let n = s.unicode_len();
    let st: usize = if n > 0 && s.get_char(0) == '+' { 1 } else { 0 };
    let ghost d = unsigned_digits(s@);
    assert(d =~= s@.subrange(st as int, n as int));
    if st == n {
        return None;
    }
    let mut v: usize = 0;
    let mut over = false;
    let mut i: usize = st;
    while i < n
        invariant
            st <= i <= n,
            n == s@.len(),
            d =~= s@.subrange(st as int, n as int),
            d == unsigned_digits(s@),
            forall|k: int| st <= k < i ==> is_digit(#[trigger] s@[k]),
            !over ==> v == digits_value(d.subrange(0, i - st)),
            over ==> digits_value(d.subrange(0, i - st)) > usize::MAX,
        decreases n - i,
    {
        let c = s.get_char(i);
        if !('0' <= c && c <= '9') {
            assert(d[i - st] == c);
            assert(!is_digit(d[i - st]));
            return None;
        }
        let ghost pre = d.subrange(0, i - st);
        let ghost nxt = d.subrange(0, i + 1 - st);
        assert(nxt.drop_last() =~= pre);
        assert(nxt.last() == c);
        assert(digits_value(nxt) == digits_value(pre) * 10 + (c as int - '0' as int));
        let dg: usize = (c as u32 - '0' as u32) as usize;
        if over {
            assert(digits_value(nxt) > usize::MAX) by (nonlinear_arith)
                requires
                    digits_value(nxt) == digits_value(pre) * 10 + dg,
                    digits_value(pre) > usize::MAX,
                    dg >= 0,
            {}
        } else if v > (usize::MAX - dg) / 10 {
            assert(digits_value(nxt) > usize::MAX) by (nonlinear_arith)
                requires
                    digits_value(nxt) == v * 10 + dg,
                    v > (usize::MAX - dg) / 10,
                    dg <= 9,
            {}
            over = true;
        } else {
            assert(v * 10 + dg <= usize::MAX) by (nonlinear_arith)
                requires
                    v <= (usize::MAX - dg) / 10,
                    dg <= 9,
            {}
            v = v * 10 + dg;
        }
        i = i + 1;
    }
    assert(d.subrange(0, n - st) =~= d);
    assert forall|k: int| 0 <= k < d.len() implies is_digit(#[trigger] d[k]) by {
        assert(d[k] == s@[k + st]);
    }
    if over {
        proof {
            lemma_digits_value_grows(d, d.len() as int);
        }
        return None;
    }
    Some(v)
}

/// The pieces of `s` between the characters `a` and `b`, as
/// `str::split` gives them: one piece more than there are separators.
pub open spec fn split_on(s: Seq<char>, a: char, b: char) -> Seq<Seq<char>>
    decreases s.len(),
{
    if s.len() == 0 {
        seq![Seq::empty()]
    } else {
        let p = split_on(s.drop_last(), a, b);
        let c = s.last();
        if c == a || c == b {
            p.push(Seq::empty())
        } else {
            p.update(p.len() - 1, p.last().push(c))
        }
    }
}

proof fn lemma_split_on_nonempty(s: Seq<char>, a: char, b: char)
    ensures
        split_on(s, a, b).len() >= 1,
    decreases s.len(),
{
    if s.len() > 0 {
        lemma_split_on_nonempty(s.drop_last(), a, b);
    }
}

/// Splits `s` at every `a` and every `b`.
pub fn split_at_chars(s: &str, a: char, b: char) -> (r: Vec<String>)
    ensures
        r.deep_view() == split_on(s@, a, b),
{
    let n = s.unicode_len();
    let mut pieces: Vec<String> = Vec::new();
    let mut start: usize = 0;
    let mut i: usize = 0;
    assert(pieces.deep_view() =~= Seq::<Seq<char>>::empty());
    assert(s@.subrange(0, 0) =~= Seq::<char>::empty());
    assert(split_on(s@.subrange(0, 0), a, b) =~= pieces.deep_view().push(s@.subrange(0, 0)));
    while i < n
        invariant
            start <= i <= n,
            n == s@.len(),
            split_on(s@.subrange(0, i as int), a, b) == pieces.deep_view().push(
                s@.subrange(start as int, i as int),
            ),
        decreases n - i,
    {
        let c = s.get_char(i);
        let ghost pre = s@.subrange(0, i as int);
        assert(s@.subrange(0, i + 1).drop_last() =~= pre);
        proof {
            lemma_split_on_nonempty(pre, a, b);
        }
        if c == a || c == b {
            let piece = String::from_str(s.substring_char(start, i));
            let ghost old_dv = pieces.deep_view();
            pieces.push(piece);
            assert(pieces.deep_view() =~= old_dv.push(s@.subrange(start as int, i as int)));
            assert(s@.subrange(i + 1, i + 1) =~= Seq::<char>::empty());
            start = i + 1;
        } else {
            assert(s@.subrange(start as int, i + 1) =~= s@.subrange(start as int, i as int).push(c));
            assert(split_on(s@.subrange(0, i + 1), a, b) =~= pieces.deep_view().push(
                s@.subrange(start as int, i + 1),
            ));
        }
        i = i + 1;
    }
    let last = String::from_str(s.substring_char(start, n));
    let ghost old_dv = pieces.deep_view();
    pieces.push(last);
    assert(pieces.deep_view() =~= old_dv.push(s@.subrange(start as int, n as int)));
    assert(s@.subrange(0, n as int) =~= s@);
    pieces
}

/// `pat` occurs in `hay` at position `p`, character for character.
pub open spec fn found_at(hay: Seq<char>, pat: Seq<char>, p: int) -> bool {
    0 <= p && p + pat.len() <= hay.len() && hay.subrange(p, p + pat.len()) == pat
}

/// Position of the first occurrence of `pat` in `hay`.
pub open spec fn is_first_at(hay: Seq<char>, pat: Seq<char>, p: int) -> bool {
    found_at(hay, pat, p) && forall|q: int| #[trigger] found_at(hay, pat, q) ==> p <= q
}

/// Position of the last occurrence of `pat` in `hay`.
pub open spec fn is_last_at(hay: Seq<char>, pat: Seq<char>, p: int) -> bool {
    found_at(hay, pat, p) && forall|q: int| #[trigger] found_at(hay, pat, q) ==> q <= p
}

/// The text before the first occurrence of `pat`, or all of `hay` where it
/// does not occur: the first piece of `str::split`.
pub open spec fn before_first(hay: Seq<char>, pat: Seq<char>) -> Seq<char> {
    if exists|p: int| found_at(hay, pat, p) {
        hay.subrange(0, choose|p: int| is_first_at(hay, pat, p))
    } else {
        hay
    }
}

/// The text after the last occurrence of `pat`, or all of `hay` where it
/// does not occur: the last piece of `str::split` for a pattern that cannot
/// overlap itself.
pub open spec fn after_last(hay: Seq<char>, pat: Seq<char>) -> Seq<char> {
    if exists|p: int| found_at(hay, pat, p) {
        let p = choose|p: int| is_last_at(hay, pat, p);
        hay.subrange(p + pat.len(), hay.len() as int)
    } else {
        hay
    }
}

fn found_at_exec(hay: &str, pat: &str, p: usize, m: usize) -> (r: bool)
    requires
        m == pat@.len(),
        p + m <= hay@.len(),
    ensures
        r == found_at(hay@, pat@, p as int),
{
    let n = hay.unicode_len();
    str_eq(hay.substring_char(p, p + m), pat)
}

/// The text of `hay` before the first occurrence of `pat`.
pub fn text_before_first(hay: &str, pat: &str) -> (r: String)
    ensures
        r@ == before_first(hay@, pat@),
{
    let n = hay.unicode_len();
    let m = pat.unicode_len();
    if m == 0 {
        assert(hay@.subrange(0, 0) =~= pat@);
        assert(is_first_at(hay@, pat@, 0));
        let ghost c = choose|q: int| is_first_at(hay@, pat@, q);
        assert(c == 0);
        return String::new();
    }
    if m <= n {
        let mut p: usize = 0;
        while p <= n - m
            invariant
                1 <= m <= n,
                n == hay@.len(),
                m == pat@.len(),
                forall|q: int| 0 <= q < p ==> !found_at(hay@, pat@, q),
            decreases n - m + 1 - p,
        {
            if found_at_exec(hay, pat, p, m) {
                assert(is_first_at(hay@, pat@, p as int));
                let ghost c = choose|q: int| is_first_at(hay@, pat@, q);
                assert(c == p);
                return String::from_str(hay.substring_char(0, p));
            }
            p = p + 1;
        }
    }
    assert forall|q: int| !found_at(hay@, pat@, q) by {}
    String::from_str(hay)
}

/// The text of `hay` after the last occurrence of `pat`.
pub fn text_after_last(hay: &str, pat: &str) -> (r: String)
    ensures
        r@ == after_last(hay@, pat@),
{
    let n = hay.unicode_len();
    let m = pat.unicode_len();
    if m == 0 {
        assert(hay@.subrange(n as int, n as int) =~= pat@);
        assert(is_last_at(hay@, pat@, n as int));
        let ghost c = choose|q: int| is_last_at(hay@, pat@, q);
        assert(c == n);
        return String::new();
    }
    if m <= n {
        let mut p: usize = n - m + 1;
        while p > 0
            invariant
                m <= n,
                p <= n - m + 1,
                n == hay@.len(),
                m == pat@.len(),
                forall|q: int| p <= q ==> !found_at(hay@, pat@, q),
            decreases p,
        {
            if found_at_exec(hay, pat, p - 1, m) {
                assert(is_last_at(hay@, pat@, p - 1));
                let ghost c = choose|q: int| is_last_at(hay@, pat@, q);
                assert(c == p - 1);
                return String::from_str(hay.substring_char(p - 1 + m, n));
            }
            p = p - 1;
        }
    }
    assert forall|q: int| !found_at(hay@, pat@, q) by {}
    String::from_str(hay)
}

} // verus!
