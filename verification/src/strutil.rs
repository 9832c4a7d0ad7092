//! Verified string helpers: joining argument vectors with spaces, string
//! comparison, suffix tests, and extraction of a path's final component.

use vstd::prelude::*;
use vstd::string::StrSliceExecFns;
use vstd::string::StringExecFns;

verus! {

/// The views of a sequence of strings.
pub open spec fn views_of(parts: Seq<String>) -> Seq<Seq<char>> {
    parts.map_values(|s: String| s@)
}

/// The parts joined with a single space between neighbours; no separator
/// is added before the first part or after the last.
pub open spec fn spec_join_spaces(parts: Seq<Seq<char>>) -> Seq<char>
    decreases parts.len(),
{
    if parts.len() == 0 {
        Seq::empty()
    } else if parts.len() == 1 {
        parts.last()
    } else {
        spec_join_spaces(parts.drop_last()) + seq![' '] + parts.last()
    }
}

/// Joins the strings from index `start` onwards with single spaces.
pub fn join_spaces_from(parts: &Vec<String>, start: usize) -> (r: String)
    requires
        start <= parts@.len(),
    ensures
        r@ == spec_join_spaces(views_of(parts@.skip(start as int))),
{
    let mut r = String::new();
    let n = parts.len();
    let ghost views = views_of(parts@.skip(start as int));
    for i in start..n
        invariant
            n == parts@.len(),
            start <= i <= n,
            views == views_of(parts@.skip(start as int)),
            r@ == spec_join_spaces(views.take(i - start)),
    {
        if i > start {
            r.append(" ");
        }
        r.append(parts[i].as_str());
        proof {
            reveal_strlit(" ");
            assert(views.take(i - start + 1).drop_last() =~= views.take(i - start));
            assert(views.take(i - start + 1).last() == views[i - start]);
            assert(views[i - start] == parts@[i as int]@);
            if i == start {
                assert(r@ =~= spec_join_spaces(views.take(i - start + 1)));
            } else {
                assert(" "@ =~= seq![' ']);
                assert(views.take(i - start + 1).len() >= 2);
                assert(r@ =~= spec_join_spaces(views.take(i - start + 1)));
            }
        }
    }
    proof {
        assert(views.take(n - start) =~= views);
    }
    r
}

/// Joins the given strings with single spaces.
pub fn join_spaces(parts: &Vec<String>) -> (r: String)
    ensures
        r@ == spec_join_spaces(views_of(parts@)),
{
    let r = join_spaces_from(parts, 0);
    proof {
        assert(parts@.skip(0) =~= parts@);
    }
    r
}

/// True exactly when the two strings hold the same characters.
pub fn str_eq(a: &str, b: &str) -> (r: bool)
    ensures
        r == (a@ == b@),
{
    let na = a.unicode_len();
    let nb = b.unicode_len();
    if na != nb {
        assert(a@ != b@) by {
            assert(a@.len() != b@.len());
        }
        return false;
    }
    for i in 0..na
        invariant
            na == a@.len(),
            na == b@.len(),
            forall|j: int| 0 <= j < i ==> a@[j] == b@[j],
    {
        if a.get_char(i) != b.get_char(i) {
            return false;
        }
    }
    proof {
        assert(a@ =~= b@);
    }
    true
}

/// True exactly when `suffix` is a suffix of `s`.
pub open spec fn spec_ends_with(s: Seq<char>, suffix: Seq<char>) -> bool {
    s.len() >= suffix.len() && s.subrange(s.len() - suffix.len(), s.len() as int) == suffix
}

/// Tests whether the string ends with the given suffix.
pub fn str_ends_with(s: &str, suffix: &str) -> (r: bool)
    ensures
        r == spec_ends_with(s@, suffix@),
{
    let n = s.unicode_len();
    let m = suffix.unicode_len();
    if m > n {
        return false;
    }
    let offset = n - m;
    for i in 0..m
        invariant
            n == s@.len(),
            m == suffix@.len(),
            offset == n - m,
            forall|j: int| 0 <= j < i ==> s@[offset + j] == suffix@[j],
    {
        if s.get_char(offset + i) != suffix.get_char(i) {
            assert(s@.subrange(n - m, n as int)[i as int] != suffix@[i as int]);
            return false;
        }
    }
    proof {
        assert(s@.subrange(n - m, n as int) =~= suffix@);
    }
    true
}

/// The final component of a path: everything after the last `/`, or the
/// whole string when it holds no `/`.
pub open spec fn spec_file_name(s: Seq<char>) -> Seq<char>
    decreases s.len(),
{
    if s.len() == 0 {
        s
    } else if s.last() == '/' {
        Seq::empty()
    } else {
        if exists|j: int| 0 <= j < s.len() && s[j] == '/' {
            spec_file_name(s.drop_last()).push(s.last())
        } else {
            s
        }
    }
}

/// Extracts the final component of a path string.
pub fn file_name_of(s: &str) -> (r: String)
    ensures
        r@ == spec_file_name(s@),
{
    let n = s.unicode_len();
    // Find the index one past the last '/', or 0 when there is none.
    let mut start: usize = 0;
    let mut k: usize = 0;
    while k < n
        invariant
            n == s@.len(),
            0 <= start <= k <= n,
            start > 0 ==> s@[start - 1] == '/',
            forall|j: int| start <= j < k ==> s@[j] != '/',
            start == 0 ==> forall|j: int| 0 <= j < k ==> s@[j] != '/',
        decreases n - k,
    {
        if s.get_char(k) == '/' {
            start = k + 1;
        }
        k += 1;
    }
    let tail = s.substring_char(start, n);
    proof {
        lemma_file_name_tail(s@, start as int);
    }
    tail.to_owned()
}

/// After the last `/` of `s` (or from the start when there is none), the
/// remainder of the string is exactly its file name.
proof fn lemma_file_name_tail(s: Seq<char>, start: int)
    requires
        0 <= start <= s.len(),
        start > 0 ==> s[start - 1] == '/',
        forall|j: int| start <= j < s.len() ==> s[j] != '/',
        start == 0 ==> forall|j: int| 0 <= j < s.len() ==> s[j] != '/',
    ensures
        spec_file_name(s) == s.subrange(start, s.len() as int),
    decreases s.len(),
{
    if s.len() == 0 {
        assert(s.subrange(0, 0) =~= s);
    } else if s.last() == '/' {
        // The last character is '/', so start must be s.len().
        assert(start == s.len());
        assert(s.subrange(start, s.len() as int) =~= Seq::<char>::empty());
    } else {
        if exists|j: int| 0 <= j < s.len() && s[j] == '/' {
            assert(start > 0);
            assert(start < s.len());
            lemma_file_name_tail(s.drop_last(), start);
            assert(s.subrange(start, s.len() as int) =~= s.drop_last().subrange(
                start,
                s.drop_last().len() as int,
            ).push(s.last()));
        } else {
            assert(start == 0) by {
                if start > 0 {
                    assert(s[start - 1] == '/');
                }
            }
            assert(s.subrange(0, s.len() as int) =~= s);
        }
    }
}

} // verus!
