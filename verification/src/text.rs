//! Character-level helpers on strings: whitespace, trimming, searching.

use vstd::prelude::*;

verus! {

/// Whether `c` has the Unicode property `White_Space`.
pub open spec fn is_whitespace(c: char) -> bool {
    let n = c as u32;
    ||| 0x09 <= n <= 0x0D
    ||| n == 0x20
    ||| n == 0x85
    ||| n == 0xA0
    ||| n == 0x1680
    ||| 0x2000 <= n <= 0x200A
    ||| n == 0x2028
    ||| n == 0x2029
    ||| n == 0x202F
    ||| n == 0x205F
    ||| n == 0x3000
}

/// Number of whitespace characters at the front of `s`.
pub open spec fn leading_whitespace(s: Seq<char>) -> nat
    decreases s.len(),
{
    if s.len() > 0 && is_whitespace(s[0]) {
        1 + leading_whitespace(s.drop_first())
    } else {
        0
    }
}

/// Number of whitespace characters at the back of `s`.
pub open spec fn trailing_whitespace(s: Seq<char>) -> nat
    decreases s.len(),
{
    if s.len() > 0 && is_whitespace(s.last()) {
        1 + trailing_whitespace(s.drop_last())
    } else {
        0
    }
}

/// `s` without its leading and trailing whitespace.
pub open spec fn trimmed(s: Seq<char>) -> Seq<char> {
    let front = s.skip(leading_whitespace(s) as int);
    front.take(front.len() - trailing_whitespace(front))
}

/// Position of the first `c` in `s`, or `s.len()` where `s` holds none.
pub open spec fn position_of(s: Seq<char>, c: char) -> nat
    decreases s.len(),
{
    if s.len() == 0 || s[0] == c {
        0
    } else {
        1 + position_of(s.drop_first(), c)
    }
}

/// `leading_whitespace(s)` is the one `k` such that the first `k` characters
/// are whitespace and the next one, if any, is not.
pub proof fn lemma_leading_whitespace(s: Seq<char>, k: int)
    requires
        0 <= k <= s.len(),
        forall|j: int| 0 <= j < k ==> is_whitespace(#[trigger] s[j]),
        k < s.len() ==> !is_whitespace(s[k]),
    ensures
        leading_whitespace(s) == k,
    decreases s.len(),
{
    if k > 0 {
        let rest = s.drop_first();
        assert forall|j: int| 0 <= j < k - 1 implies is_whitespace(#[trigger] rest[j]) by {
            assert(rest[j] == s[j + 1]);
        }
        lemma_leading_whitespace(rest, k - 1);
    }
}

/// `trailing_whitespace(s)` is the one `k` such that the last `k` characters
/// are whitespace and the one before them, if any, is not.
pub proof fn lemma_trailing_whitespace(s: Seq<char>, k: int)
    requires
        0 <= k <= s.len(),
        forall|j: int| s.len() - k <= j < s.len() ==> is_whitespace(#[trigger] s[j]),
        k < s.len() ==> !is_whitespace(s[s.len() - k - 1]),
    ensures
        trailing_whitespace(s) == k,
    decreases s.len(),
{
    if k > 0 {
        let rest = s.drop_last();
        assert forall|j: int| rest.len() - (k - 1) <= j < rest.len() implies is_whitespace(
            #[trigger] rest[j],
        ) by {
            assert(rest[j] == s[j]);
        }
        lemma_trailing_whitespace(rest, k - 1);
    }
}

/// `position_of(s, c)` is the one `k` such that no `c` stands before `k` and
/// `k` is either the length of `s` or the place of a `c`.
pub proof fn lemma_position_of(s: Seq<char>, c: char, k: int)
    requires
        0 <= k <= s.len(),
        forall|j: int| 0 <= j < k ==> #[trigger] s[j] != c,
        k < s.len() ==> s[k] == c,
    ensures
        position_of(s, c) == k,
    decreases s.len(),
{
    if k > 0 {
        let rest = s.drop_first();
        assert forall|j: int| 0 <= j < k - 1 implies #[trigger] rest[j] != c by {
            assert(rest[j] == s[j + 1]);
        }
        lemma_position_of(rest, c, k - 1);
    }
}

/// `position_of` finds the first occurrence, and reaches the end exactly
/// where there is none.
pub proof fn lemma_position_of_first(s: Seq<char>, c: char)
    ensures
        position_of(s, c) <= s.len(),
        forall|j: int| 0 <= j < position_of(s, c) ==> #[trigger] s[j] != c,
        position_of(s, c) < s.len() ==> s[position_of(s, c) as int] == c,
        position_of(s, c) < s.len() <==> s.contains(c),
    decreases s.len(),
{
    if s.len() == 0 || s[0] == c {
        if s.len() > 0 {
            assert(s.contains(c));
        }
    } else {
        let rest = s.drop_first();
        lemma_position_of_first(rest, c);
        let p = position_of(rest, c);
        assert forall|j: int| 0 <= j < p + 1 implies #[trigger] s[j] != c by {
            if j > 0 {
                assert(rest[j - 1] == s[j]);
            }
        }
        if p < rest.len() {
            assert(rest[p as int] == s[p as int + 1]);
            assert(s.contains(c));
        }
        if s.contains(c) {
            let i = choose|i: int| 0 <= i < s.len() && s[i] == c;
            assert(rest[i - 1] == c);
            assert(rest.contains(c));
        }
    }
}

/// Whether `c` is whitespace.
pub fn char_is_whitespace(c: char) -> (r: bool)
    ensures
        r == is_whitespace(c),
{
    let n: u32 = c as u32;
    (0x09 <= n && n <= 0x0D) || n == 0x20 || n == 0x85 || n == 0xA0 || n == 0x1680 || (0x2000 <= n
        && n <= 0x200A) || n == 0x2028 || n == 0x2029 || n == 0x202F || n == 0x205F || n == 0x3000
}

/// The slice of `s` between its leading and its trailing whitespace.
pub fn trim(s: &str) -> (r: &str)
    ensures
        r@ == trimmed(s@),
{
    let n: usize = s.unicode_len();
    let mut start: usize = 0;
    while start < n
        invariant
            n == s@.len(),
            start <= n,
            forall|j: int| 0 <= j < start ==> is_whitespace(#[trigger] s@[j]),
        ensures
            start < n ==> !is_whitespace(s@[start as int]),
        decreases n - start,
    {
        if !char_is_whitespace(s.get_char(start)) {
            break ;
        }
        start += 1;
    }
    let mut end: usize = n;
    while end > start
        invariant
            n == s@.len(),
            start <= end <= n,
            forall|j: int| end <= j < n ==> is_whitespace(#[trigger] s@[j]),
        ensures
            start < end ==> !is_whitespace(s@[end - 1]),
        decreases end,
    {
        if !char_is_whitespace(s.get_char(end - 1)) {
            break ;
        }
        end -= 1;
    }
    proof {
        lemma_leading_whitespace(s@, start as int);
        let front = s@.skip(start as int);
        assert forall|j: int| front.len() - (n - end) <= j < front.len() implies is_whitespace(
            #[trigger] front[j],
        ) by {
            assert(front[j] == s@[j + start]);
        }
        lemma_trailing_whitespace(front, n - end);
        assert(trimmed(s@) =~= s@.subrange(start as int, end as int));
    }
    s.substring_char(start, end)
}

/// Splits `s` at its first `c`: what stands before it and what stands after.
pub fn split_once(s: &str, c: char) -> (r: Option<(&str, &str)>)
    ensures
        r is Some <==> s@.contains(c),
        r matches Some((head, tail)) ==> {
            &&& head@ == s@.take(position_of(s@, c) as int)
            &&& tail@ == s@.skip(position_of(s@, c) as int + 1)
        },
{
    let n: usize = s.unicode_len();
    let mut at: usize = 0;
    while at < n
        invariant
            n == s@.len(),
            at <= n,
            forall|j: int| 0 <= j < at ==> #[trigger] s@[j] != c,
        ensures
            at < n ==> s@[at as int] == c,
        decreases n - at,
    {
        if s.get_char(at) == c {
            break ;
        }
        at += 1;
    }
    proof {
        lemma_position_of(s@, c, at as int);
        lemma_position_of_first(s@, c);
    }
    if at < n {
        let head = s.substring_char(0, at);
        let tail = s.substring_char(at + 1, n);
        assert(head@ =~= s@.take(at as int));
        assert(tail@ =~= s@.skip(at + 1));
        Some((head, tail))
    } else {
        None
    }
}

/// Whether two strings hold the same characters.
pub fn same_text(a: &str, b: &str) -> (r: bool)
    ensures
        r == (a@ == b@),
{
    let n: usize = a.unicode_len();
    if n != b.unicode_len() {
        return false;
    }
    let mut i: usize = 0;
    while i < n
        invariant
            n == a@.len(),
            n == b@.len(),
            i <= n,
            forall|j: int| 0 <= j < i ==> a@[j] == b@[j],
        decreases n - i,
    {
        if a.get_char(i) != b.get_char(i) {
            return false;
        }
        i += 1;
    }
    assert(a@ =~= b@);
    true
}

} // verus!
