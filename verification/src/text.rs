//! Character-level text handling: white space, trimming, `.`-separated
//! fields, unsigned decimal numbers.
use vstd::prelude::*;

verus! {

/// Unicode `White_Space` (the set `char::is_whitespace` and `str::trim` use).
pub open spec fn is_white_space(c: char) -> bool {
    let n = c as u32;
    ||| 0x09 <= n <= 0x0D
    ||| n == 0x20
    ||| n == 0x85
    ||| n == 0xA0
    ||| n == 0x1680
    ||| 0x2000 <= n <= 0x200A
    ||| n == 0x2028
    ||| n == 0x2029
    ||| n == 0x202F
    ||| n == 0x205F
    ||| n == 0x3000
}

/// Index of the first character at or after `i` that is not white space
/// (`s.len()` when there is none).
pub open spec fn skip_white(s: Seq<char>, i: int) -> int
    decreases s.len() - i,
{
    if i < 0 || i >= s.len() {
        s.len() as int
    } else if !is_white_space(s[i]) {
        i
    } else {
        skip_white(s, i + 1)
    }
}

/// End (exclusive) of `s.take(j)` once trailing white space is dropped.
pub open spec fn back_white(s: Seq<char>, j: int) -> int
    decreases j,
{
    if j <= 0 || j > s.len() {
        0
    } else if !is_white_space(s[j - 1]) {
        j
    } else {
        back_white(s, j - 1)
    }
}

/// Start of the trimmed text.
pub open spec fn trim_start(s: Seq<char>) -> int {
    skip_white(s, 0)
}

/// End (exclusive) of the trimmed text.
pub open spec fn trim_end(s: Seq<char>) -> int {
    if trim_start(s) >= s.len() {
        trim_start(s)
    } else {
        back_white(s, s.len() as int)
    }
}

/// `s` without leading and trailing white space (what `str::trim` gives).
pub open spec fn trimmed(s: Seq<char>) -> Seq<char> {
    s.subrange(trim_start(s), trim_end(s))
}

proof fn lemma_skip_white_bounds(s: Seq<char>, i: int)
    requires
        0 <= i <= s.len(),
    ensures
        i <= skip_white(s, i) <= s.len(),
        skip_white(s, i) < s.len() ==> !is_white_space(s[skip_white(s, i)]),
        forall|k: int| i <= k < skip_white(s, i) ==> is_white_space(#[trigger] s[k]),
    decreases s.len() - i,
{
    if i < s.len() && is_white_space(s[i]) {
        lemma_skip_white_bounds(s, i + 1);
    }
}

proof fn lemma_back_white_bounds(s: Seq<char>, j: int, lo: int)
    requires
        0 <= lo < j <= s.len(),
        !is_white_space(s[lo]),
    ensures
        lo < back_white(s, j) <= j,
        !is_white_space(s[back_white(s, j) - 1]),
        forall|k: int| back_white(s, j) <= k < j ==> is_white_space(#[trigger] s[k]),
    decreases j,
{
    if is_white_space(s[j - 1]) {
        lemma_back_white_bounds(s, j - 1, lo);
    }
}

/// The bounds of the trimmed text are in order and inside `s`.
pub proof fn lemma_trim_bounds(s: Seq<char>)
    ensures
        0 <= trim_start(s) <= trim_end(s) <= s.len(),
        forall|k: int| 0 <= k < trim_start(s) ==> is_white_space(#[trigger] s[k]),
        forall|k: int| trim_end(s) <= k < s.len() ==> is_white_space(#[trigger] s[k]),
        trim_start(s) < trim_end(s) ==> !is_white_space(s[trim_start(s)]) && !is_white_space(
            s[trim_end(s) - 1],
        ),
{
    lemma_skip_white_bounds(s, 0);
    if trim_start(s) < s.len() {
        lemma_back_white_bounds(s, s.len() as int, trim_start(s));
    }
}

/// Whether `c` is Unicode white space.
pub fn is_white_space_char(c: char) -> (r: bool)
    ensures
        r == is_white_space(c),
{
    let n = c as u32;
    (0x09 <= n && n <= 0x0D) || n == 0x20 || n == 0x85 || n == 0xA0 || n == 0x1680 || (0x2000
        <= n && n <= 0x200A) || n == 0x2028 || n == 0x2029 || n == 0x202F || n == 0x205F || n
        == 0x3000
}

/// The bounds `(start, end)` of `s[from..to]` with white space trimmed at
/// both ends.
pub fn trim_range(s: &Vec<char>, from: usize, to: usize) -> (r: (usize, usize))
    requires
        from <= to <= s.len(),
    ensures
        r.0 as int == trim_start(s@.subrange(from as int, to as int)) + from,
        r.1 as int == trim_end(s@.subrange(from as int, to as int)) + from,
        from <= r.0 <= r.1 <= to,
{
    let ghost t = s@.subrange(from as int, to as int);
    let mut i = from;
    while i < to && is_white_space_char(s[i])
        invariant
            from <= i <= to <= s.len(),
            t == s@.subrange(from as int, to as int),
            skip_white(t, (i - from) as int) == skip_white(t, 0),
        decreases to - i,
    {
        i = i + 1;
    }
    proof {
        lemma_trim_bounds(t);
    }
    if i >= to {
        return (i, i);
    }
    let mut j = to;
    while j > i && is_white_space_char(s[j - 1])
        invariant
            from <= i < to,
            i <= j <= to <= s.len(),
            t == s@.subrange(from as int, to as int),
            trim_start(t) == i - from,
            back_white(t, (j - from) as int) == back_white(t, t.len() as int),
            !is_white_space(s@[i as int]),
            j > i,
        decreases j,
    {
        j = j - 1;
    }
    proof {
        assert(t[(j - from) - 1] == s@[j - 1]);
        assert(back_white(t, (j - from) as int) == (j - from));
    }
    (i, j)
}

/// Index of the first `c` at or after `i` (`s.len()` when there is none).
pub open spec fn find_from(s: Seq<char>, c: char, i: int) -> int
    decreases s.len() - i,
{
    if i < 0 || i >= s.len() {
        s.len() as int
    } else if s[i] == c {
        i
    } else {
        find_from(s, c, i + 1)
    }
}

pub proof fn lemma_find_from_bounds(s: Seq<char>, c: char, i: int)
    requires
        0 <= i <= s.len(),
    ensures
        i <= find_from(s, c, i) <= s.len(),
        find_from(s, c, i) < s.len() ==> s[find_from(s, c, i)] == c,
        forall|k: int| i <= k < find_from(s, c, i) ==> #[trigger] s[k] != c,
    decreases s.len() - i,
{
    if i < s.len() && s[i] != c {
        lemma_find_from_bounds(s, c, i + 1);
    }
}

/// Index of the first `c` in `s[from..to]`, or `to` when there is none.
pub fn find_char(s: &Vec<char>, c: char, from: usize, to: usize) -> (r: usize)
    requires
        from <= to <= s.len(),
    ensures
        r as int == find_from(s@.subrange(0, to as int), c, from as int),
        from <= r <= to,
{
    let ghost t = s@.subrange(0, to as int);
    let mut i = from;
    while i < to && s[i] != c
        invariant
            from <= i <= to <= s.len(),
            t == s@.subrange(0, to as int),
            find_from(t, c, i as int) == find_from(t, c, from as int),
        decreases to - i,
    {
        i = i + 1;
    }
    proof {
        lemma_find_from_bounds(t, c, from as int);
    }
    i
}

/// The `k`-th field of `s` when split at `.` (what `str::split('.')` yields
/// as its `k`-th item), or `None` when `s` has fewer fields.
pub open spec fn dot_field(s: Seq<char>, k: nat) -> Option<Seq<char>>
    decreases s.len(), k,
{
    let d = find_from(s, '.', 0);
    if k == 0 {
        Some(s.take(d))
    } else if d >= s.len() || d < 0 {
        None
    } else {
        dot_field(s.skip(d + 1), (k - 1) as nat)
    }
}

/// Value of the decimal digit `c`.
pub open spec fn digit_value(c: char) -> int {
    (c as u32) - ('0' as u32)
}

pub open spec fn is_digit(c: char) -> bool {
    '0' <= c <= '9'
}

/// Value of a string of decimal digits.
pub open spec fn digits_value(d: Seq<char>) -> int
    decreases d.len(),
{
    if d.len() == 0 {
        0
    } else {
        digits_value(d.drop_last()) * 10 + digit_value(d.last())
    }
}

/// `s` without one leading `+`, if it has one.
pub open spec fn unsigned_digits(s: Seq<char>) -> Seq<char> {
    if s.len() > 0 && s[0] == '+' {
        s.drop_first()
    } else {
        s
    }
}

pub open spec fn all_digits(d: Seq<char>) -> bool {
    forall|i: int| 0 <= i < d.len() ==> is_digit(#[trigger] d[i])
}

/// What `s.parse::<u32>()` gives, as an `Option`: an optional `+`, then one or
/// more decimal digits whose value fits in a `u32`.
pub open spec fn parse_u32(s: Seq<char>) -> Option<u32> {
    let d = unsigned_digits(s);
    if d.len() > 0 && all_digits(d) && digits_value(d) <= u32::MAX {
        Some(digits_value(d) as u32)
    } else {
        None
    }
}

proof fn lemma_digits_value_nonneg(d: Seq<char>)
    requires
        forall|i: int| 0 <= i < d.len() ==> is_digit(#[trigger] d[i]),
    ensures
        digits_value(d) >= 0,
    decreases d.len(),
{
    if d.len() > 0 {
        lemma_digits_value_nonneg(d.drop_last());
    }
}

/// Parses `s[from..to]` as a `u32` the way `str::parse::<u32>` does.
pub fn parse_u32_range(s: &Vec<char>, from: usize, to: usize) -> (r: Option<u32>)
    requires
        from <= to <= s.len(),
    ensures
        r == parse_u32(s@.subrange(from as int, to as int)),
{
    let ghost t = s@.subrange(from as int, to as int);
    let mut start = from;
    if from < to && s[from] == '+' {
        start = from + 1;
    }
    let ghost d = s@.subrange(start as int, to as int);
    assert(d == unsigned_digits(t));
    if start >= to {
        assert(d.len() == 0);
        return None;
    }
    // `acc` is the value so far, saturated at 2^32.
    let mut acc: u64 = 0;
    let mut i = start;
    while i < to
        invariant
            from <= start <= i <= to <= s.len(),
            d == s@.subrange(start as int, to as int),
            t == s@.subrange(from as int, to as int),
            d == unsigned_digits(t),
            forall|k: int| start <= k < i ==> is_digit(#[trigger] s@[k]),
            acc as int == if digits_value(s@.subrange(start as int, i as int)) < 0x1_0000_0000 {
                digits_value(s@.subrange(start as int, i as int))
            } else {
                0x1_0000_0000
            },
        decreases to - i,
    {
        let c = s[i];
        if !('0' <= c && c <= '9') {
            proof {
                assert(d[i - start] == c);
                assert(!is_digit(d[i - start]));
            }
            return None;
        }
        let dv = (c as u32 - '0' as u32) as u64;
        let ghost prev = s@.subrange(start as int, i as int);
        let ghost next = s@.subrange(start as int, i + 1);
        proof {
            assert(next.drop_last() == prev);
            assert(next.last() == c);
            assert(forall|k: int| 0 <= k < prev.len() ==> is_digit(#[trigger] prev[k])) by {
                assert(forall|k: int| 0 <= k < prev.len() ==> prev[k] == s@[start + k]);
            }
            lemma_digits_value_nonneg(prev);
            let v = digits_value(prev);
            assert(digits_value(next) == v * 10 + dv);
            if v >= 0x1_0000_0000 {
                assert(v * 10 + dv >= 0x1_0000_0000) by (nonlinear_arith)
                    requires
                        v >= 0x1_0000_0000,
                        dv >= 0,
                ;
            }
        }
        let grown = acc * 10 + dv;
        if grown < 0x1_0000_0000 {
            acc = grown;
        } else {
            acc = 0x1_0000_0000;
        }
        i = i + 1;
    }
    proof {
        assert(s@.subrange(start as int, to as int) == d);
        assert(forall|k: int| 0 <= k < d.len() ==> is_digit(#[trigger] d[k])) by {
            assert(forall|k: int| 0 <= k < d.len() ==> d[k] == s@[start + k]);
        }
    }
    if acc < 0x1_0000_0000 {
        Some(acc as u32)
    } else {
        None
    }
}

/// The characters of `s`, in order.
pub fn chars_of(s: &str) -> (v: Vec<char>)
    ensures
        v@ == s@,
{
    let mut v: Vec<char> = Vec::new();
    for c in it: s.chars()
        invariant
            it.seq() == s@,
            v@ == it.seq().take(it.index() as int),
    {
        v.push(c);
    }
    v
}

/// Whether `a[from..to]` holds the same characters as `b`.
pub fn range_equals(a: &Vec<char>, from: usize, to: usize, b: &Vec<char>) -> (r: bool)
    requires
        from <= to <= a.len(),
    ensures
        r == (a@.subrange(from as int, to as int) == b@),
{
    if to - from != b.len() {
        return false;
    }
    let mut i: usize = 0;
    while i < b.len()
        invariant
            to - from == b.len(),
            from <= to <= a.len(),
            i <= b.len(),
            forall|k: int| 0 <= k < i ==> a@[from + k] == b@[k],
        decreases b.len() - i,
    {
        if a[from + i] != b[i] {
            proof {
                assert(a@.subrange(from as int, to as int)[i as int] != b@[i as int]);
            }
            return false;
        }
        i = i + 1;
    }
    proof {
        assert(a@.subrange(from as int, to as int) =~= b@);
    }
    true
}

/// Whether `text` with white space trimmed at both ends is `expected`.
pub fn trimmed_equals(text: &str, expected: &str) -> (r: bool)
    ensures
        r == (trimmed(text@) == expected@),
{
    let t = chars_of(text);
    let e = chars_of(expected);
    let (a, b) = trim_range(&t, 0, t.len());
    proof {
        assert(t@.subrange(0, t@.len() as int) =~= t@);
        assert(t@.subrange(a as int, b as int) =~= trimmed(text@));
    }
    range_equals(&t, a, b, &e)
}

/// Searching `s[0..b]` from `i` finds what searching `s[a..b]` from `i - a`
/// finds, shifted by `a`.
pub proof fn lemma_find_from_shift(s: Seq<char>, c: char, a: int, b: int, i: int)
    requires
        0 <= a <= i <= b <= s.len(),
    ensures
        find_from(s.subrange(0, b), c, i) == a + find_from(s.subrange(a, b), c, i - a),
    decreases b - i,
{
    if i < b && s[i] != c {
        lemma_find_from_shift(s, c, a, b, i + 1);
    }
}

/// The first `c` from `i` on is at `j` when `s[j]` is `c` and none comes before.
pub proof fn lemma_find_first(s: Seq<char>, c: char, i: int, j: int)
    requires
        0 <= i <= j < s.len(),
        s[j] == c,
        forall|k: int| i <= k < j ==> s[k] != c,
    ensures
        find_from(s, c, i) == j,
    decreases j - i,
{
    if i < j {
        lemma_find_first(s, c, i + 1, j);
    }
}

/// White space added at the end does not change the trimmed text.
pub proof fn lemma_trimmed_push_white(t: Seq<char>, w: char)
    requires
        is_white_space(w),
    ensures
        trimmed(t.push(w)) == trimmed(t),
{
    let s = t.push(w);
    lemma_trim_bounds(t);
    lemma_trim_bounds(s);
    let ts = trim_start(t);
    let te = trim_end(t);
    let ss = trim_start(s);
    let se = trim_end(s);
    assert(s[t.len() as int] == w);
    assert forall|k: int| 0 <= k < t.len() implies s[k] == t[k] by {}
    if ts < te {
        assert(!is_white_space(s[ts]));
        assert(!is_white_space(s[te - 1]));
        assert(ss <= ts);
        if ss == se {
            assert(is_white_space(s[ts]));
        }
        assert(ss == ts);
        assert(se >= te);
        if se > te {
            assert(is_white_space(s[se - 1]));
        }
        assert(se == te);
        assert(trimmed(s) =~= trimmed(t));
    } else {
        assert forall|k: int| 0 <= k < s.len() implies is_white_space(#[trigger] s[k]) by {
            if k < t.len() {
                assert(s[k] == t[k]);
                if k >= ts {
                    assert(k >= te);
                }
            }
        }
        if ss < se {
            assert(is_white_space(s[ss]));
        }
        assert(trimmed(s) =~= Seq::<char>::empty());
        assert(trimmed(t) =~= Seq::<char>::empty());
    }
}

} // verus!
