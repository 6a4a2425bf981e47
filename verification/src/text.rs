//! Character-sequence utilities shared by the request builder and the
//! highlighter: character classes, searching, trimming, splitting, and the
//! conversions between `&str`, `Vec<char>` and `String`.

use vstd::prelude::*;

verus! {

/// Whitespace as the trimming operations understand it.
pub open spec fn is_space_char(c: char) -> bool {
    c == ' ' || c == '\t' || c == '\n' || c == '\r'
}

pub fn is_space(c: char) -> (b: bool)
    ensures
        b == is_space_char(c),
{
    c == ' ' || c == '\t' || c == '\n' || c == '\r'
}

/// Decimal digits, `'0'` through `'9'`.
pub open spec fn is_digit_char(c: char) -> bool {
    48 <= c as u32 <= 57
}

pub fn is_digit(c: char) -> (b: bool)
    ensures
        b == is_digit_char(c),
{
    let u = c as u32;
    48 <= u && u <= 57
}

/// Index of the first occurrence of `c` in `s` at or after `i`, if any.
pub open spec fn find_from(s: Seq<char>, c: char, i: int) -> Option<int>
    decreases s.len() - i,
{
    if i < 0 || i >= s.len() {
        Option::None
    } else if s[i] == c {
        Option::Some(i)
    } else {
        find_from(s, c, i + 1)
    }
}

/// What `find_from` returns: the least index of `c` at or after `i`, with
/// `c` absent before it, or nothing when `c` does not occur from `i` on.
pub proof fn lemma_find_from(s: Seq<char>, c: char, i: int)
    requires
        0 <= i <= s.len(),
    ensures
        match find_from(s, c, i) {
            Option::Some(j) => i <= j < s.len() && s[j] == c && (forall|k: int|
                i <= k < j ==> s[k] != c),
            Option::None => forall|k: int| i <= k < s.len() ==> s[k] != c,
        },
    decreases s.len() - i,
{
    if i < s.len() && s[i] != c {
        lemma_find_from(s, c, i + 1);
    }
}

/// Linear search for `c` in `s` starting at `start`.
pub fn find_char_from(s: &Vec<char>, c: char, start: usize) -> (r: Option<usize>)
    requires
        start <= s@.len(),
    ensures
        match r {
            Option::Some(j) => start <= j < s@.len() && find_from(s@, c, start as int)
                == Option::Some(j as int),
            Option::None => find_from(s@, c, start as int) is None,
        },
{
    let mut i: usize = start;
    while i < s.len()
        invariant
            start <= i <= s@.len(),
            find_from(s@, c, start as int) == find_from(s@, c, i as int),
        decreases s@.len() - i,
    {
        if s[i] == c {
            return Some(i);
        }
        i = i + 1;
    }
    None
}

/// Copy of `s[a..b]`.
pub fn sub_vec(s: &Vec<char>, a: usize, b: usize) -> (r: Vec<char>)
    requires
        a <= b <= s@.len(),
    ensures
        r@ == s@.subrange(a as int, b as int),
{
    let mut r: Vec<char> = Vec::new();
    let mut i: usize = a;
    while i < b
        invariant
            a <= i <= b <= s@.len(),
            r@ == s@.subrange(a as int, i as int),
        decreases b - i,
    {
        r.push(s[i]);
        assert(r@ =~= s@.subrange(a as int, i + 1 as int));
        i = i + 1;
    }
    r
}

/// First index at or after `i` holding a non-space character (or the length).
pub open spec fn trim_start_idx(s: Seq<char>, i: int) -> int
    decreases s.len() - i,
{
    if 0 <= i < s.len() && is_space_char(s[i]) {
        trim_start_idx(s, i + 1)
    } else {
        i
    }
}

/// One past the last non-space character strictly before `j` (or zero).
pub open spec fn trim_end_idx(s: Seq<char>, j: int) -> int
    decreases j,
{
    if 0 < j <= s.len() && is_space_char(s[j - 1]) {
        trim_end_idx(s, j - 1)
    } else {
        j
    }
}

/// `s` without leading and trailing whitespace.
pub open spec fn trim_spec(s: Seq<char>) -> Seq<char> {
    let a = trim_start_idx(s, 0);
    let b = trim_end_idx(s, s.len() as int);
    if a <= b {
        s.subrange(a, b)
    } else {
        Seq::empty()
    }
}

proof fn lemma_trim_start_idx_bounds(s: Seq<char>, i: int)
    requires
        0 <= i <= s.len(),
    ensures
        i <= trim_start_idx(s, i) <= s.len(),
    decreases s.len() - i,
{
    if i < s.len() && is_space_char(s[i]) {
        lemma_trim_start_idx_bounds(s, i + 1);
    }
}

proof fn lemma_trim_end_idx_bounds(s: Seq<char>, j: int)
    requires
        0 <= j <= s.len(),
    ensures
        0 <= trim_end_idx(s, j) <= j,
    decreases j,
{
    if 0 < j && is_space_char(s[j - 1]) {
        lemma_trim_end_idx_bounds(s, j - 1);
    }
}

/// Remove leading and trailing whitespace.
pub fn trim_chars(s: &Vec<char>) -> (r: Vec<char>)
    ensures
        r@ == trim_spec(s@),
{
    let n = s.len();
    let mut a: usize = 0;
    while a < n && is_space(s[a])
        invariant
            0 <= a <= n == s@.len(),
            trim_start_idx(s@, 0) == trim_start_idx(s@, a as int),
        decreases n - a,
    {
        a = a + 1;
    }
    assert(trim_start_idx(s@, a as int) == a as int);
    let mut b: usize = n;
    while b > a && is_space(s[b - 1])
        invariant
            a <= b <= n == s@.len(),
            trim_end_idx(s@, n as int) == trim_end_idx(s@, b as int),
        decreases b,
    {
        b = b - 1;
    }
    if b == a {
        // Only whitespace from `a` on; the trimmed result is empty either way.
        proof {
            if a as int != trim_end_idx(s@, b as int) {
                lemma_trim_end_idx_bounds(s@, b as int);
            }
            assert(Seq::<char>::empty() =~= s@.subrange(a as int, a as int));
        }
        Vec::new()
    } else {
        assert(trim_end_idx(s@, b as int) == b as int);
        sub_vec(s, a, b)
    }
}

/// The characters of `s` as a vector.
pub fn str_to_chars(s: &str) -> (r: Vec<char>)
    ensures
        r@ == s@,
{
    let n = s.unicode_len();
    let mut r: Vec<char> = Vec::new();
    let mut i: usize = 0;
    while i < n
        invariant
            0 <= i <= n == s@.len(),
            r@ == s@.subrange(0, i as int),
        decreases n - i,
    {
        r.push(s.get_char(i));
        assert(r@ =~= s@.subrange(0, i + 1 as int));
        i = i + 1;
    }
    assert(r@ =~= s@);
    r
}

/// The views of a sequence of character vectors.
pub open spec fn views_of(r: Seq<Vec<char>>) -> Seq<Seq<char>> {
    r.map_values(|v: Vec<char>| v@)
}

/// Segments of `s` between occurrences of `sep`, in order; an `s` without
/// `sep` (the empty sequence included) yields the single segment `s`, as
/// `str::split` does.
pub open spec fn split_on(s: Seq<char>, sep: char) -> Seq<Seq<char>>
    decreases s.len(),
    via split_on_decreases
{
    match find_from(s, sep, 0) {
        Option::None => seq![s],
        Option::Some(i) => seq![s.subrange(0, i)] + split_on(
            s.subrange(i + 1, s.len() as int),
            sep,
        ),
    }
}

#[via_fn]
proof fn split_on_decreases(s: Seq<char>, sep: char) {
    lemma_find_from(s, sep, 0);
}

/// Searching from `k + i` in `s` is searching from `i` in `s.skip(k)`,
/// shifted by `k`.
pub proof fn lemma_find_from_skip(s: Seq<char>, c: char, k: int, i: int)
    requires
        0 <= k <= s.len(),
        0 <= i,
    ensures
        find_from(s, c, k + i) == match find_from(s.skip(k), c, i) {
            Option::Some(j) => Option::Some(j + k),
            Option::None => Option::None::<int>,
        },
    decreases s.len() - k - i,
{
    if k + i < s.len() {
        assert(s.skip(k)[i] == s[k + i]);
        if s[k + i] != c {
            lemma_find_from_skip(s, c, k, i + 1);
        }
    }
}

/// Split `s` at every occurrence of `sep`.
pub fn split_chars(s: &Vec<char>, sep: char) -> (r: Vec<Vec<char>>)
    ensures
        views_of(r@) == split_on(s@, sep),
{
    let n = s.len();
    let mut r: Vec<Vec<char>> = Vec::new();
    let mut pos: usize = 0;
    let mut finished = false;
    proof {
        assert(s@.skip(0) =~= s@);
        assert(views_of(r@) =~= Seq::<Seq<char>>::empty());
        assert(views_of(r@) + split_on(s@, sep) =~= split_on(s@, sep));
    }
    while !finished
        invariant
            pos <= s@.len() == n,
            !finished ==> split_on(s@, sep) == views_of(r@) + split_on(s@.skip(pos as int), sep),
            finished ==> split_on(s@, sep) == views_of(r@),
        decreases (if finished { 0int } else { s@.len() - pos + 1 }),
    {
        match find_char_from(s, sep, pos) {
            Some(j) => {
                let seg = sub_vec(s, pos, j);
                proof {
                    lemma_find_from(s@, sep, pos as int);
                    lemma_find_from_skip(s@, sep, pos as int, 0);
                    let tail = s@.skip(pos as int);
                    assert(tail.subrange(0, j - pos) =~= s@.subrange(pos as int, j as int));
                    assert(tail.subrange(j - pos + 1, tail.len() as int) =~= s@.skip(j + 1));
                    assert(views_of(r@.push(seg)) =~= views_of(r@).push(seg@));
                    assert(views_of(r@) + split_on(tail, sep) =~= views_of(r@.push(seg))
                        + split_on(s@.skip(j + 1), sep));
                }
                r.push(seg);
                pos = j + 1;
            },
            None => {
                let seg = sub_vec(s, pos, s.len());
                proof {
                    lemma_find_from_skip(s@, sep, pos as int, 0);
                    let tail = s@.skip(pos as int);
                    assert(tail =~= s@.subrange(pos as int, s@.len() as int));
                    assert(split_on(tail, sep) == seq![tail]);
                    assert(views_of(r@.push(seg)) =~= views_of(r@).push(seg@));
                    assert(views_of(r@) + split_on(tail, sep) =~= views_of(r@.push(seg)));
                }
                r.push(seg);
                finished = true;
            },
        }
    }
    r
}

/// Relies on `String`'s `FromIterator<char>` implementation (through
/// `Iterator::collect`): the resulting string holds exactly the characters
/// of the vector, in order.
#[verifier::external_body]
pub fn chars_to_string(v: &Vec<char>) -> (r: String)
    ensures
        r@ == v@,
{
    v.iter().collect()
}

} // verus!
