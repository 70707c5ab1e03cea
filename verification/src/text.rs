//! Small text helpers shared by the models and the pages.

use vstd::prelude::*;

verus! {

/// Whether two string slices hold the same characters.
pub(crate) fn str_eq(a: &str, b: &str) -> (r: bool)
    ensures
        r == (a@ == b@),
{
    let n = a.unicode_len();
    if n != b.unicode_len() {
        return false;
    }
    let mut i: usize = 0;
    while i < n
        invariant
            n == a@.len(),
            n == b@.len(),
            i <= n,
            forall|k: int| 0 <= k < i ==> a@[k] == b@[k],
        decreases n - i,
    {
        if a.get_char(i) != b.get_char(i) {
            return false;
        }
        i = i + 1;
    }
    assert(a@ =~= b@);
    true
}

/// The Unicode `White_Space` property: U+0009..U+000D, U+0020, U+0085,
/// U+00A0, U+1680, U+2000..U+200A, U+2028, U+2029, U+202F, U+205F, U+3000.
pub open spec fn is_white_space(c: char) -> bool {
    let v = c as u32;
    ||| 0x9 <= v <= 0xD
    ||| v == 0x20
    ||| v == 0x85
    ||| v == 0xA0
    ||| v == 0x1680
    ||| 0x2000 <= v <= 0x200A
    ||| v == 0x2028
    ||| v == 0x2029
    ||| v == 0x202F
    ||| v == 0x205F
    ||| v == 0x3000
}

/// `s` without its leading white space.
pub open spec fn trim_start_chars(s: Seq<char>) -> Seq<char>
    decreases s.len(),
{
    if s.len() > 0 && is_white_space(s[0]) {
        trim_start_chars(s.drop_first())
    } else {
        s
    }
}

/// `s` without its trailing white space.
pub open spec fn trim_end_chars(s: Seq<char>) -> Seq<char>
    decreases s.len(),
{
    if s.len() > 0 && is_white_space(s.last()) {
        trim_end_chars(s.drop_last())
    } else {
        s
    }
}

/// `s` without its leading and trailing white space.
pub open spec fn trimmed(s: Seq<char>) -> Seq<char> {
    trim_end_chars(trim_start_chars(s))
}

proof fn lemma_trim_start_chars(s: Seq<char>)
    ensures
        exists|a: int|
            0 <= a <= s.len() && trim_start_chars(s) == s.subrange(a, s.len() as int) && (forall|k: int|
                0 <= k < a ==> is_white_space(#[trigger] s[k])) && (a < s.len() ==> !is_white_space(s[a])),
    decreases s.len(),
{
    if s.len() > 0 && is_white_space(s[0]) {
        let t = s.drop_first();
        lemma_trim_start_chars(t);
        let a = choose|a: int|
            0 <= a <= t.len() && trim_start_chars(t) == t.subrange(a, t.len() as int) && (forall|k: int|
                0 <= k < a ==> is_white_space(#[trigger] t[k])) && (a < t.len() ==> !is_white_space(t[a]));
        assert(t.subrange(a, t.len() as int) =~= s.subrange(a + 1, s.len() as int));
        assert forall|k: int| 0 <= k < a + 1 implies is_white_space(#[trigger] s[k]) by {
            if k > 0 {
                assert(s[k] == t[k - 1]);
            }
        }
        if a + 1 < s.len() {
            assert(s[a + 1] == t[a]);
        }
    } else {
        assert(s.subrange(0, s.len() as int) =~= s);
    }
}

proof fn lemma_trim_end_chars(s: Seq<char>)
    ensures
        exists|b: int|
            0 <= b <= s.len() && trim_end_chars(s) == s.subrange(0, b) && (forall|k: int|
                b <= k < s.len() ==> is_white_space(#[trigger] s[k])) && (b > 0 ==> !is_white_space(s[b - 1])),
    decreases s.len(),
{
    if s.len() > 0 && is_white_space(s.last()) {
        let t = s.drop_last();
        lemma_trim_end_chars(t);
        let b = choose|b: int|
            0 <= b <= t.len() && trim_end_chars(t) == t.subrange(0, b) && (forall|k: int|
                b <= k < t.len() ==> is_white_space(#[trigger] t[k])) && (b > 0 ==> !is_white_space(t[b - 1]));
        assert(t.subrange(0, b) =~= s.subrange(0, b));
        assert forall|k: int| b <= k < s.len() implies is_white_space(#[trigger] s[k]) by {
            if k < s.len() - 1 {
                assert(s[k] == t[k]);
            }
        }
        if b > 0 {
            assert(s[b - 1] == t[b - 1]);
        }
    } else {
        assert(s.subrange(0, s.len() as int) =~= s);
    }
}

/// Trimming cuts `s` down to one stretch `s[a..b]`: everything cut away is
/// white space, and the stretch, when not empty, starts and ends with a
/// character that is not.
pub proof fn lemma_trimmed_is_inner_stretch(s: Seq<char>)
    ensures
        exists|a: int, b: int|
            0 <= a <= b <= s.len() && trimmed(s) == s.subrange(a, b) && (forall|k: int|
                0 <= k < a ==> is_white_space(#[trigger] s[k])) && (forall|k: int|
                b <= k < s.len() ==> is_white_space(#[trigger] s[k])) && (a < b ==> !is_white_space(s[a])
                && !is_white_space(s[b - 1])),
{
    lemma_trim_start_chars(s);
    let a = choose|a: int|
        0 <= a <= s.len() && trim_start_chars(s) == s.subrange(a, s.len() as int) && (forall|k: int|
            0 <= k < a ==> is_white_space(#[trigger] s[k])) && (a < s.len() ==> !is_white_space(s[a]));
    let u = s.subrange(a, s.len() as int);
    lemma_trim_end_chars(u);
    let b = choose|b: int|
        0 <= b <= u.len() && trim_end_chars(u) == u.subrange(0, b) && (forall|k: int|
            b <= k < u.len() ==> is_white_space(#[trigger] u[k])) && (b > 0 ==> !is_white_space(u[b - 1]));
    assert(u.subrange(0, b) =~= s.subrange(a, a + b));
    assert forall|k: int| a + b <= k < s.len() implies is_white_space(#[trigger] s[k]) by {
        assert(s[k] == u[k - a]);
    }
    if b > 0 {
        assert(s[a] == u[0]);
        assert(s[a + b - 1] == u[b - 1]);
    }
    assert(trimmed(s) == s.subrange(a, a + b));
}

/// Whether `c` has the Unicode `White_Space` property.
pub(crate) fn is_white_space_char(c: char) -> (b: bool)
    ensures
        b == is_white_space(c),
{
    let v = c as u32;
    (0x9 <= v && v <= 0xD) || v == 0x20 || v == 0x85 || v == 0xA0 || v == 0x1680 || (0x2000 <= v
        && v <= 0x200A) || v == 0x2028 || v == 0x2029 || v == 0x202F || v == 0x205F || v == 0x3000
}

/// The slice of `s` without leading and trailing white space.
pub(crate) fn trim(s: &str) -> (t: &str)
    ensures
        t@ == trimmed(s@),
{
    let n = s.unicode_len();
    let mut start: usize = 0;
    assert(s@.subrange(0, n as int) =~= s@);
    while start < n && is_white_space_char(s.get_char(start))
        invariant
            n == s@.len(),
            start <= n,
            trim_start_chars(s@) == trim_start_chars(s@.subrange(start as int, n as int)),
        decreases n - start,
    {
        let ghost sub = s@.subrange(start as int, n as int);
        assert(sub.drop_first() =~= s@.subrange(start as int + 1, n as int));
        start = start + 1;
    }
    let ghost front = s@.subrange(start as int, n as int);
    assert(trim_start_chars(front) == front);
    let mut end: usize = n;
    while end > start && is_white_space_char(s.get_char(end - 1))
        invariant
            n == s@.len(),
            start <= end <= n,
            front == s@.subrange(start as int, n as int),
            trim_end_chars(front) == trim_end_chars(s@.subrange(start as int, end as int)),
        decreases end,
    {
        let ghost sub = s@.subrange(start as int, end as int);
        assert(sub.drop_last() =~= s@.subrange(start as int, end as int - 1));
        end = end - 1;
    }
    let t = s.substring_char(start, end);
    assert(trim_end_chars(t@) == t@);
    t
}

/// Whether `s` holds something other than white space.
pub(crate) fn has_content(s: &str) -> (b: bool)
    ensures
        b == (trimmed(s@).len() > 0),
{
    !trim(s).is_empty()
}

} // verus!
