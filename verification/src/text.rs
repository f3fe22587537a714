//! Verified text utilities: substring search and whitespace trimming over
//! character sequences.

use vstd::prelude::*;
use vstd::string::StrSliceExecFns;

verus! {

/// Whether `c` carries the Unicode `White_Space` property; the character set
/// that trimming removes at either end.
pub open spec fn is_space(c: char) -> bool {
    ||| c as u32 == 0x9
    ||| c as u32 == 0xA
    ||| c as u32 == 0xB
    ||| c as u32 == 0xC
    ||| c as u32 == 0xD
    ||| c as u32 == 0x20
    ||| c as u32 == 0x85
    ||| c as u32 == 0xA0
    ||| c as u32 == 0x1680
    ||| (0x2000 <= c as u32 && c as u32 <= 0x200A)
    ||| c as u32 == 0x2028
    ||| c as u32 == 0x2029
    ||| c as u32 == 0x202F
    ||| c as u32 == 0x205F
    ||| c as u32 == 0x3000
}

fn is_space_char(c: char) -> (r: bool)
    ensures
        r == is_space(c),
{
    let u = c as u32;
    u == 0x9 || u == 0xA || u == 0xB || u == 0xC || u == 0xD || u == 0x20 || u == 0x85
        || u == 0xA0 || u == 0x1680 || (0x2000 <= u && u <= 0x200A) || u == 0x2028 || u == 0x2029
        || u == 0x202F || u == 0x205F || u == 0x3000
}

/// The pattern `pat` occurs in `s` starting at position `i`.
pub open spec fn match_at(s: Seq<char>, pat: Seq<char>, i: int) -> bool {
    &&& 0 <= i
    &&& i + pat.len() <= s.len()
    &&& s.subrange(i, i + pat.len()) == pat
}

/// Position of the first occurrence of `pat` in `s` at or after `from`,
/// `None` if there is none.
pub open spec fn find_from_spec(s: Seq<char>, pat: Seq<char>, from: int) -> Option<int>
    decreases s.len() - from + 1,
{
    if from < 0 || from + pat.len() > s.len() {
        None
    } else if match_at(s, pat, from) {
        Some(from)
    } else {
        find_from_spec(s, pat, from + 1)
    }
}

/// A found position is a real occurrence at or after the start of the search.
pub proof fn lemma_find_from_spec_some(s: Seq<char>, pat: Seq<char>, from: int, i: int)
    requires
        find_from_spec(s, pat, from) == Some(i),
    ensures
        from <= i,
        match_at(s, pat, i),
    decreases s.len() - from + 1,
{
    if !(from < 0 || from + pat.len() > s.len()) && !match_at(s, pat, from) {
        lemma_find_from_spec_some(s, pat, from + 1, i);
    }
}

/// A found position is the first: no occurrence of the pattern starts
/// between the start of the search and it.
pub proof fn lemma_find_from_spec_first(s: Seq<char>, pat: Seq<char>, from: int, i: int)
    requires
        find_from_spec(s, pat, from) == Some(i),
    ensures
        forall|j: int| from <= j < i ==> !match_at(s, pat, j),
    decreases s.len() - from + 1,
{
    if !(from < 0 || from + pat.len() > s.len()) && !match_at(s, pat, from) {
        lemma_find_from_spec_first(s, pat, from + 1, i);
    }
}

/// An empty answer means the pattern occurs nowhere at or after the start of
/// the search.
pub proof fn lemma_find_from_spec_none(s: Seq<char>, pat: Seq<char>, from: int)
    requires
        0 <= from,
        find_from_spec(s, pat, from) is None,
    ensures
        forall|j: int| from <= j ==> !match_at(s, pat, j),
    decreases s.len() - from + 1,
{
    if !(from + pat.len() > s.len()) {
        lemma_find_from_spec_none(s, pat, from + 1);
    }
}

fn matches_at(s: &str, pat: &str, i: usize, n: usize, m: usize) -> (r: bool)
    requires
        n == s@.len(),
        m == pat@.len(),
        i + m <= n,
    ensures
        r == match_at(s@, pat@, i as int),
{
    let mut j: usize = 0;
    while j < m
        invariant
            n == s@.len(),
            m == pat@.len(),
            i + m <= n,
            j <= m,
            forall|k: int| 0 <= k < j ==> s@[i + k] == pat@[k],
        decreases m - j,
    {
        let cs = s.get_char(i + j);
        let cp = pat.get_char(j);
        if cs != cp {
            proof {
                if match_at(s@, pat@, i as int) {
                    assert(pat@[j as int] == s@.subrange(i as int, i + m as int)[j as int]);
                }
            }
            return false;
        }
        j += 1;
    }
    proof {
        assert(s@.subrange(i as int, i + m as int) =~= pat@);
    }
    true
}

/// First occurrence of `pat` in `s` at or after character position `from`.
pub fn find_from(s: &str, pat: &str, from: usize) -> (r: Option<usize>)
    requires
        from <= s@.len(),
    ensures
        match r {
            Some(i) => find_from_spec(s@, pat@, from as int) == Some(i as int),
            None => find_from_spec(s@, pat@, from as int) is None,
        },
{
    let n = s.unicode_len();
    let m = pat.unicode_len();
    if m == 0 {
        proof {
            assert(s@.subrange(from as int, from as int) =~= pat@);
        }
        return Some(from);
    }
    if m > n || from > n - m {
        return None;
    }
    let mut i = from;
    while i <= n - m
        invariant
            n == s@.len(),
            m == pat@.len(),
            1 <= m <= n,
            from <= i <= n - m + 1,
            find_from_spec(s@, pat@, from as int) == find_from_spec(s@, pat@, i as int),
        decreases n - m + 1 - i,
    {
        if matches_at(s, pat, i, n, m) {
            return Some(i);
        }
        proof {
            assert(find_from_spec(s@, pat@, i as int) == find_from_spec(s@, pat@, i + 1));
        }
        i += 1;
    }
    None
}

/// Position of the first character at or after `i` that is not whitespace
/// (`s.len()` if every character from `i` on is whitespace).
pub open spec fn trim_start_index(s: Seq<char>, i: int) -> int
    decreases s.len() - i,
{
    if i < 0 || i >= s.len() {
        i
    } else if is_space(s[i]) {
        trim_start_index(s, i + 1)
    } else {
        i
    }
}

/// Position just past the last character before `j` that is not whitespace
/// (`0` if every character before `j` is whitespace).
pub open spec fn trim_end_index(s: Seq<char>, j: int) -> int
    decreases j,
{
    if j <= 0 || j > s.len() {
        j
    } else if is_space(s[j - 1]) {
        trim_end_index(s, j - 1)
    } else {
        j
    }
}

/// `s` with leading and trailing whitespace removed.
pub open spec fn trimmed(s: Seq<char>) -> Seq<char> {
    let a = trim_start_index(s, 0);
    let b = trim_end_index(s, s.len() as int);
    if a <= b {
        s.subrange(a, b)
    } else {
        Seq::empty()
    }
}

proof fn lemma_trim_start_props(s: Seq<char>, i: int)
    requires
        0 <= i <= s.len(),
    ensures
        ({
            let r = trim_start_index(s, i);
            &&& i <= r <= s.len()
            &&& (r < s.len() ==> !is_space(s[r]))
            &&& forall|j: int| i <= j < r ==> is_space(s[j])
        }),
    decreases s.len() - i,
{
    if i < s.len() && is_space(s[i]) {
        lemma_trim_start_props(s, i + 1);
    }
}

proof fn lemma_trim_end_props(s: Seq<char>, j: int)
    requires
        0 <= j <= s.len(),
    ensures
        ({
            let r = trim_end_index(s, j);
            &&& 0 <= r <= j
            &&& (0 < r ==> !is_space(s[r - 1]))
            &&& forall|k: int| r <= k < j ==> is_space(s[k])
        }),
    decreases j,
{
    if 0 < j && is_space(s[j - 1]) {
        lemma_trim_end_props(s, j - 1);
    }
}

/// Positions `a` and `b` witness that trimming `s` dropped whitespace and
/// nothing else: the result is the slice between them, everything outside
/// them is whitespace, and the slice neither starts nor ends with whitespace.
pub open spec fn trim_witness(s: Seq<char>, a: int, b: int) -> bool {
    &&& 0 <= a <= b <= s.len()
    &&& trimmed(s) == s.subrange(a, b)
    &&& (forall|j: int| 0 <= j < a ==> is_space(s[j]))
    &&& (forall|j: int| b <= j < s.len() ==> is_space(s[j]))
    &&& (a < b ==> !is_space(s[a]) && !is_space(s[b - 1]))
}

/// Law: the trimmed text is a contiguous slice of the original text —
/// whitespace and nothing else is dropped, at the ends only.
pub proof fn lemma_trimmed_shape(s: Seq<char>)
    ensures
        exists|a: int, b: int| trim_witness(s, a, b),
{
    let a0 = trim_start_index(s, 0);
    let b0 = trim_end_index(s, s.len() as int);
    lemma_trim_start_props(s, 0);
    lemma_trim_end_props(s, s.len() as int);
    if a0 <= b0 {
        assert(trim_witness(s, a0, b0));
    } else {
        assert(a0 == s.len());
        assert(s.subrange(0, 0) =~= Seq::<char>::empty());
        assert(trim_witness(s, 0, 0));
    }
}

/// A copy of `s` with leading and trailing whitespace removed.
pub fn trim_copy(s: &str) -> (r: String)
    ensures
        r@ == trimmed(s@),
{
    let n = s.unicode_len();
    let mut a: usize = 0;
    while a < n && is_space_char(s.get_char(a))
        invariant
            n == s@.len(),
            a <= n,
            trim_start_index(s@, 0) == trim_start_index(s@, a as int),
        decreases n - a,
    {
        a += 1;
    }
    if a == n {
        proof {
            lemma_trim_end_props(s@, n as int);
        }
        return String::new();
    }
    let mut b: usize = n;
    while b > a && is_space_char(s.get_char(b - 1))
        invariant
            n == s@.len(),
            a < n,
            !is_space(s@[a as int]),
            a < b <= n,
            trim_end_index(s@, n as int) == trim_end_index(s@, b as int),
        decreases b,
    {
        b -= 1;
    }
    s.substring_char(a, b).to_owned()
}

} // verus!
