//! Splitting text at the first occurrence of a separator.

use vstd::prelude::*;
use vstd::std_specs::iter::IteratorSpec;
use vstd::string::StrSliceExecFns;

verus! {

/// The least index at which `sep` stands in `s`; `s.len()` if it stands nowhere.
pub open spec fn first_index(s: Seq<char>, sep: char) -> int
    decreases s.len(),
{
    if s.len() == 0 || s[0] == sep {
        0
    } else {
        1 + first_index(s.drop_first(), sep)
    }
}

/// What stands before the first `sep` in `s` and what stands after it, or
/// `None` where `s` holds no `sep`.
pub open spec fn split_at_first(s: Seq<char>, sep: char) -> Option<(Seq<char>, Seq<char>)> {
    let i = first_index(s, sep);
    if i < s.len() {
        Some((s.take(i), s.skip(i + 1)))
    } else {
        None
    }
}

/// `first_index` is in range, points at `sep` unless it is the length, and
/// nothing before it is `sep`.
pub proof fn lemma_first_index(s: Seq<char>, sep: char)
    ensures
        0 <= first_index(s, sep) <= s.len(),
        first_index(s, sep) < s.len() ==> s[first_index(s, sep)] == sep,
        forall|j: int| 0 <= j < first_index(s, sep) ==> s[j] != sep,
        first_index(s, sep) < s.len() <==> s.contains(sep),
    decreases s.len(),
{
    if s.len() == 0 || s[0] == sep {
    } else {
        let t = s.drop_first();
        lemma_first_index(t, sep);
        assert forall|j: int| 0 <= j < first_index(s, sep) implies s[j] != sep by {
            if j > 0 {
                assert(s[j] == t[j - 1]);
            }
        }
        if first_index(s, sep) < s.len() {
            assert(s[first_index(s, sep)] == t[first_index(t, sep)]);
        }
        if s.contains(sep) {
            let k = choose|k: int| 0 <= k < s.len() && s[k] == sep;
            assert(t[k - 1] == sep);
        }
    }
}

/// An index that points at `sep`, or is the length, with no `sep` before it
/// is the first index.
pub proof fn lemma_first_index_unique(s: Seq<char>, sep: char, i: int)
    requires
        0 <= i <= s.len(),
        i < s.len() ==> s[i] == sep,
        forall|j: int| 0 <= j < i ==> s[j] != sep,
    ensures
        first_index(s, sep) == i,
{
    lemma_first_index(s, sep);
}

/// A text splits into `head` and `tail` exactly when it is `head`, the
/// separator and `tail` in a row and `head` is free of the separator; it does
/// not split exactly when it holds no separator.
pub proof fn lemma_split_at_first(s: Seq<char>, sep: char, head: Seq<char>, tail: Seq<char>)
    ensures
        split_at_first(s, sep) == Some((head, tail)) <==> s == head + seq![sep] + tail
            && !head.contains(sep),
        split_at_first(s, sep) is None <==> !s.contains(sep),
{
    lemma_first_index(s, sep);
    let i = first_index(s, sep);
    if split_at_first(s, sep) == Some((head, tail)) {
        assert(s =~= s.take(i) + seq![sep] + s.skip(i + 1));
        if head.contains(sep) {
            let k = choose|k: int| 0 <= k < head.len() && head[k] == sep;
            assert(s[k] == head[k]);
        }
    }
    if s == head + seq![sep] + tail && !head.contains(sep) {
        let n = head.len() as int;
        assert(s[n] == sep);
        assert forall|j: int| 0 <= j < n implies s[j] != sep by {
            assert(s[j] == head[j]);
        }
        lemma_first_index_unique(s, sep, n);
        assert(s.take(n) =~= head);
        assert(s.skip(n + 1) =~= tail);
    }
}

/// Counts the characters of `s` that stand before the first `sep`.
pub(crate) fn find_first(s: &str, sep: char) -> (i: usize)
    ensures
        i == first_index(s@, sep),
        i <= s@.len(),
{
    let n = s.unicode_len();
    let mut it = s.chars();
    let mut i: usize = 0;
    proof {
        vstd::string::axiom_spec_iter(s);
    }
    loop
        invariant
            n == s@.len(),
            i <= n,
            it.remaining() == s@.skip(i as int),
            forall|j: int| 0 <= j < i ==> s@[j] != sep,
        decreases n - i,
    {
        let ghost before = it;
        let next = it.next();
        proof {
            vstd::string::next_postcondition(&before, &it, next);
        }
        match next {
            Some(c) => {
                assert(c == s@[i as int]);
                assert(it.remaining() =~= s@.skip(i + 1));
                if c == sep {
                    proof {
                        lemma_first_index_unique(s@, sep, i as int);
                    }
                    return i;
                }
                i = i + 1;
            },
            None => {
                proof {
                    lemma_first_index_unique(s@, sep, i as int);
                }
                return i;
            },
        }
    }
}

/// Splits `s` at its first `sep`, which goes to neither part.
pub(crate) fn split_first(s: &str, sep: char) -> (r: Option<(String, String)>)
    ensures
        r.deep_view() == split_at_first(s@, sep),
{
    let n = s.unicode_len();
    let i = find_first(s, sep);
    if i < n {
        let head = s.substring_char(0, i).to_owned();
        let tail = s.substring_char(i + 1, n).to_owned();
        assert(head@ =~= s@.take(i as int));
        assert(tail@ =~= s@.skip(i + 1));
        Some((head, tail))
    } else {
        None
    }
}

} // verus!
