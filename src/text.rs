//! Comparisons on text that the routing and the stored labels need.
use vstd::prelude::*;

verus! {

pub open spec fn has_prefix(s: Seq<char>, p: Seq<char>) -> bool {
    p.len() <= s.len() && s.subrange(0, p.len() as int) == p
}

pub open spec fn has_infix(s: Seq<char>, p: Seq<char>) -> bool {
    exists|i: int| 0 <= i <= s.len() - p.len() && #[trigger] s.subrange(i, i + p.len()) == p
}

/// `s` with every leading repetition of `p` taken off.
pub open spec fn trim_prefix_all(s: Seq<char>, p: Seq<char>) -> Seq<char>
    decreases s.len(),
{
    if p.len() > 0 && has_prefix(s, p) {
        trim_prefix_all(s.subrange(p.len() as int, s.len() as int), p)
    } else {
        s
    }
}

/// Whether `s` and `p` agree on the characters of `p` from `at` on.
fn matches_at(s: &str, p: &str, at: usize) -> (r: bool)
    requires
        at + p@.len() <= s@.len(),
    ensures
        r == (s@.subrange(at as int, at + p@.len()) == p@),
{
    let n = p.unicode_len();
    let sl = s.unicode_len();
    let mut i: usize = 0;
    while i < n
        invariant
            n == p@.len(),
            sl == s@.len(),
            at + n <= s@.len(),
            i <= n,
            s@.subrange(at as int, at + i) == p@.subrange(0, i as int),
        decreases n - i,
    {
        if s.get_char(at + i) != p.get_char(i) {
            assert(s@.subrange(at as int, at + n)[i as int] != p@[i as int]);
            return false;
        }
        assert(s@.subrange(at as int, at + i + 1) =~= s@.subrange(at as int, at + i).push(
            s@[at + i],
        ));
        assert(p@.subrange(0, i + 1) =~= p@.subrange(0, i as int).push(p@[i as int]));
        i = i + 1;
    }
    assert(p@.subrange(0, n as int) =~= p@);
    true
}

/// Whether the two texts hold the same characters.
pub fn same_text(a: &str, b: &str) -> (r: bool)
    ensures
        r == (a@ == b@),
{
    if a.unicode_len() != b.unicode_len() {
        return false;
    }
    let r = matches_at(a, b, 0);
    assert(a@.subrange(0, b@.len() as int) =~= a@);
    r
}

/// Whether `s` begins with `p`.
pub fn starts_with_text(s: &str, p: &str) -> (r: bool)
    ensures
        r == has_prefix(s@, p@),
{
    if p.unicode_len() > s.unicode_len() {
        return false;
    }
    matches_at(s, p, 0)
}

/// Whether `p` occurs in `s`.
pub fn contains_text(s: &str, p: &str) -> (r: bool)
    ensures
        r == has_infix(s@, p@),
{
    let n = s.unicode_len();
    let m = p.unicode_len();
    if m > n {
        return false;
    }
    let mut i: usize = 0;
    while i <= n - m
        invariant
            n == s@.len(),
            m == p@.len(),
            m <= n,
            i <= n - m + 1,
            forall|j: int| 0 <= j < i ==> #[trigger] s@.subrange(j, j + m) != p@,
        decreases n - m + 1 - i,
    {
        if matches_at(s, p, i) {
            return true;
        }
        if i == n - m {
            return false;
        }
        i = i + 1;
    }
    false
}

/// `s` with every leading repetition of `p` taken off, as
/// `str::trim_start_matches` does with a text pattern.
pub fn trim_prefix(s: &str, p: &str) -> (r: String)
    ensures
        r@ == trim_prefix_all(s@, p@),
{
    let n = s.unicode_len();
    let m = p.unicode_len();
    let mut start: usize = 0;
    if m > 0 {
        while m <= n - start && matches_at(s, p, start)
            invariant
                n == s@.len(),
                m == p@.len(),
                m > 0,
                start <= n,
                trim_prefix_all(s@, p@) == trim_prefix_all(
                    s@.subrange(start as int, n as int),
                    p@,
                ),
            decreases n - start,
        {
            let ghost rest = s@.subrange(start as int, n as int);
            assert(rest.subrange(0, m as int) =~= s@.subrange(start as int, start + m));
            assert(rest.subrange(m as int, rest.len() as int) =~= s@.subrange(
                start + m,
                n as int,
            ));
            start = start + m;
        }
        let ghost rest = s@.subrange(start as int, n as int);
        if m <= n - start {
            assert(rest.subrange(0, m as int) =~= s@.subrange(start as int, start + m));
        }
    } else {
        assert(s@.subrange(0, n as int) =~= s@);
    }
    String::from_str(s.substring_char(start, n))
}

} // verus!
