//! Whitespace trimming for raw sensor file contents.
//!
//! Sysfs-style channel files report a decimal string followed by a newline;
//! device name files may carry surrounding blanks as well. Every value the
//! library stores is first stripped of leading and trailing whitespace.

use vstd::prelude::*;
use vstd::string::StrSliceExecFns;
use vstd::string::StringExecFns;

verus! {

/// The whitespace characters stripped from raw file contents.
pub open spec fn is_ws(c: char) -> bool {
    c == ' ' || c == '\t' || c == '\n' || c == '\r'
}

/// Index of the first character that is not whitespace; `s.len()` if all of
/// `s` is whitespace.
pub open spec fn first_non_ws(s: Seq<char>) -> int
    decreases s.len(),
{
    if s.len() == 0 {
        0
    } else if !is_ws(s[0]) {
        0
    } else {
        1 + first_non_ws(s.subrange(1, s.len() as int))
    }
}

/// One past the index of the last character that is not whitespace; 0 if all
/// of `s` is whitespace.
pub open spec fn end_non_ws(s: Seq<char>) -> int
    decreases s.len(),
{
    if s.len() == 0 {
        0
    } else if !is_ws(s[s.len() - 1]) {
        s.len() as int
    } else {
        end_non_ws(s.subrange(0, s.len() - 1))
    }
}

/// `s` with leading and trailing whitespace removed.
pub open spec fn trim_spec(s: Seq<char>) -> Seq<char> {
    if first_non_ws(s) < end_non_ws(s) {
        s.subrange(first_non_ws(s), end_non_ws(s))
    } else {
        Seq::empty()
    }
}

proof fn lemma_first_non_ws(s: Seq<char>)
    ensures
        0 <= first_non_ws(s) <= s.len(),
        forall|j: int| 0 <= j < first_non_ws(s) ==> is_ws(s[j]),
        first_non_ws(s) < s.len() ==> !is_ws(s[first_non_ws(s)]),
    decreases s.len(),
{
    if s.len() > 0 && is_ws(s[0]) {
        let t = s.subrange(1, s.len() as int);
        lemma_first_non_ws(t);
        assert(forall|j: int| 0 <= j < t.len() ==> t[j] == s[j + 1]);
        assert(forall|j: int| 1 <= j < first_non_ws(s) ==> is_ws(#[trigger] s[j])) by {
            assert(forall|j: int| 1 <= j < first_non_ws(s) ==> #[trigger] s[j] == t[j - 1]);
        }
    }
}

proof fn lemma_end_non_ws(s: Seq<char>)
    ensures
        0 <= end_non_ws(s) <= s.len(),
        forall|j: int| end_non_ws(s) <= j < s.len() ==> is_ws(s[j]),
        end_non_ws(s) > 0 ==> !is_ws(s[end_non_ws(s) - 1]),
    decreases s.len(),
{
    if s.len() > 0 && is_ws(s[s.len() - 1]) {
        let t = s.subrange(0, s.len() - 1);
        lemma_end_non_ws(t);
        assert(forall|j: int| 0 <= j < t.len() ==> t[j] == s[j]);
        assert(forall|j: int| end_non_ws(s) <= j < s.len() - 1 ==> is_ws(#[trigger] s[j])) by {
            assert(forall|j: int| end_non_ws(s) <= j < s.len() - 1 ==> #[trigger] s[j] == t[j]);
        }
    }
}

/// Whether `c` is one of the whitespace characters the library strips.
pub fn is_ws_char(c: char) -> (r: bool)
    ensures
        r == is_ws(c),
{
    c == ' ' || c == '\t' || c == '\n' || c == '\r'
}

/// Returns `s` with leading and trailing whitespace removed.
pub fn trim_ws(s: &str) -> (r: String)
    ensures
        r@ == trim_spec(s@),
{
    proof {
        lemma_first_non_ws(s@);
        lemma_end_non_ws(s@);
    }
    let n = s.unicode_len();
    let mut start: usize = 0;
    while start < n && is_ws_char(s.get_char(start))
        invariant
            n == s@.len(),
            0 <= start <= n,
            forall|j: int| 0 <= j < start ==> is_ws(s@[j]),
        decreases n - start,
    {
        start = start + 1;
    }
    let mut end: usize = n;
    while end > start && is_ws_char(s.get_char(end - 1))
        invariant
            n == s@.len(),
            start <= end <= n,
            forall|j: int| end <= j < n ==> is_ws(s@[j]),
        decreases end,
    {
        end = end - 1;
    }
    proof {
        if start < end {
            assert(start == first_non_ws(s@));
            assert(end == end_non_ws(s@));
        } else {
            assert(first_non_ws(s@) >= end_non_ws(s@));
        }
    }
    let out = s.substring_char(start, end);
    String::from_str(out)
}

} // verus!
