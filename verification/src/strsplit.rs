//! Splitting a string at every occurrence of a delimiter.
//!
//! The delimiter is anything that can point out its next occurrence in a
//! text; a literal substring is provided. The splitter yields the pieces
//! between occurrences, in order, including empty pieces between adjacent
//! occurrences and after a trailing one.

use vstd::prelude::*;
use vstd::string::StrSliceExecFns;

verus! {

/// Whether the needle occurs in the haystack starting at position i.
pub open spec fn match_at<T>(hay: Seq<T>, needle: Seq<T>, i: int) -> bool {
    &&& 0 <= i
    &&& i + needle.len() <= hay.len()
    &&& hay.subrange(i, i + needle.len() as int) == needle
}

/// Something that can find the next occurrence of itself in a text.
pub trait Delimeter: Sized {
    /// Where an implementation claims its occurrences begin and end.
    spec fn spec_find(&self, s: Seq<char>) -> Option<(int, int)>;

    /// The start and end of the first occurrence of this delimiter in s, or
    /// nothing when it does not occur. The reported range lies inside s and
    /// is in order.
    fn find_next(&self, s: &str) -> (r: Option<(usize, usize)>)
        ensures
            match (r, self.spec_find(s@)) {
                (Some(bounds), Some(spec_bounds)) => {
                    &&& bounds.0 as int == spec_bounds.0
                    &&& bounds.1 as int == spec_bounds.1
                    &&& 0 <= bounds.0 <= bounds.1 <= s@.len()
                },
                (None, None) => true,
                _ => false,
            },
    ;
}

/// Whether the needle occurs in the haystack at position i, checked one
/// character at a time.
fn matches_prefix_at(hay: &str, needle: &str, i: usize) -> (b: bool)
    requires
        i + needle@.len() <= hay@.len(),
        hay@.len() <= usize::MAX,
    ensures
        b == match_at(hay@, needle@, i as int),
{
    let m = needle.unicode_len();
    let mut k: usize = 0;
    while k < m
        invariant
            k <= m,
            m == needle@.len(),
            i + m <= hay@.len(),
            hay@.len() <= usize::MAX,
            forall|j: int| 0 <= j < k ==> hay@[i + j] == needle@[j],
        decreases m - k,
    {
        if hay.get_char(i + k) != needle.get_char(k) {
            proof {
                assert(hay@.subrange(i as int, i + needle@.len() as int)[k as int] == hay@[i + k]);
            }
            return false;
        }
        k = k + 1;
    }
    proof {
        assert(hay@.subrange(i as int, i + needle@.len() as int) =~= needle@);
    }
    true
}

impl Delimeter for &str {
    /// The first occurrence of this literal substring: no occurrence begins
    /// earlier, and the end is the start plus the substring's length.
    open spec fn spec_find(&self, s: Seq<char>) -> Option<(int, int)> {
        if exists|i: int| match_at(s, self@, i) {
            Some(
                {
                    let first = choose|i: int|
                        match_at(s, self@, i) && forall|j: int|
                            0 <= j < i ==> !match_at(s, self@, j);
                    (first, first + self@.len())
                },
            )
        } else {
            None
        }
    }

    fn find_next(&self, s: &str) -> (r: Option<(usize, usize)>) {
        let n = s.unicode_len();
        let m = self.unicode_len();
        if m > n {
            proof {
                assert(forall|i: int| !match_at(s@, self@, i));
            }
            return None;
        }
        if m == 0 {
            proof {
                assert(s@.subrange(0, 0) =~= self@);
                assert(match_at(s@, self@, 0));
            }
            return Some((0, 0));
        }
        let mut i: usize = 0;
        while i <= n - m
            invariant
                i <= n - m + 1,
                0 < m <= n,
                n == s@.len(),
                m == self@.len(),
                forall|j: int| 0 <= j < i ==> !match_at(s@, self@, j),
            decreases n - i,
        {
            if matches_prefix_at(s, self, i) {
                proof {
                    let first = choose|k: int|
                        match_at(s@, self@, k) && forall|j: int|
                            0 <= j < k ==> !match_at(s@, self@, j);
                    assert(match_at(s@, self@, i as int) && forall|j: int|
                        0 <= j < i ==> !match_at(s@, self@, j));
                    assert(first == i as int);
                }
                return Some((i, i + m));
            }
            i = i + 1;
        }
        proof {
            assert(forall|j: int| match_at(s@, self@, j) ==> j + m <= n && 0 <= j < i);
        }
        None
    }
}

/// An iterator over the pieces of a text between occurrences of a delimiter.
pub struct StrSplit<'haystack, D> {
    remainder: Option<&'haystack str>,
    delimeter: D,
}

impl<'haystack, D> StrSplit<'haystack, D> {
    /// What is left to split, if anything.
    pub closed spec fn remainder_view(&self) -> Option<Seq<char>> {
        match self.remainder {
            Some(r) => Some(r@),
            None => None,
        }
    }

    /// The delimiter being split on.
    pub closed spec fn delimeter_view(&self) -> D {
        self.delimeter
    }

    /// A splitter over the whole haystack.
    pub fn new(haystack: &'haystack str, delimeter: D) -> (s: Self)
        ensures
            s.remainder_view() == Some(haystack@),
            s.delimeter_view() == delimeter,
    {
        Self { remainder: Some(haystack), delimeter }
    }
}

impl<'haystack, D: Delimeter> StrSplit<'haystack, D> {
    /// The next piece: the text up to the next occurrence of the delimiter,
    /// whose tail is kept for later calls, or the whole leftover when the
    /// delimiter no longer occurs, or nothing once that was yielded.
    pub fn next(&mut self) -> (r: Option<&'haystack str>)
        ensures
            final(self).delimeter_view() == old(self).delimeter_view(),
            match old(self).remainder_view() {
                None => r is None && final(self).remainder_view() is None,
                Some(rem) => match old(self).delimeter_view().spec_find(rem) {
                    Some(bounds) => {
                        &&& r matches Some(piece) && piece@ == rem.subrange(0, bounds.0)
                        &&& final(self).remainder_view() == Some(rem.skip(bounds.1))
                    },
                    None => {
                        &&& r matches Some(piece) && piece@ == rem
                        &&& final(self).remainder_view() is None
                    },
                },
            },
    {
        match self.remainder {
            None => None,
            Some(remainder) => {
                match self.delimeter.find_next(remainder) {
                    Some((delim_start, delim_end)) => {
                        let until_delimeter = remainder.substring_char(0, delim_start);
                        let n = remainder.unicode_len();
                        self.remainder = Some(remainder.substring_char(delim_end, n));
                        proof {
                            let bounds = old(self).delimeter_view().spec_find(remainder@)->0;
                            assert(self.remainder->0@ =~= remainder@.skip(bounds.1));
                        }
                        Some(until_delimeter)
                    },
                    None => {
                        self.remainder = None;
                        Some(remainder)
                    },
                }
            },
        }
    }
}

} // verus!
