//! C-style tokenizing: take the text before the first delimiter, leave the
//! text after it.

use vstd::prelude::*;
use vstd::string::StrSliceExecFns;

verus! {

/// Where the character first occurs in the text, if it does.
pub fn find_char(s: &str, c: char) -> (r: Option<usize>)
    ensures
        match r {
            Some(i) => {
                &&& i < s@.len()
                &&& s@[i as int] == c
                &&& forall|j: int| 0 <= j < i ==> s@[j] != c
            },
            None => forall|j: int| 0 <= j < s@.len() ==> s@[j] != c,
        },
{
    let n = s.unicode_len();
    let mut i: usize = 0;
    while i < n
        invariant
            i <= n,
            n == s@.len(),
            forall|j: int| 0 <= j < i ==> s@[j] != c,
        decreases n - i,
    {
        if s.get_char(i) == c {
            return Some(i);
        }
        i = i + 1;
    }
    None
}

/// The text before the first occurrence of the delimiter, with the text
/// after it left behind: the returned prefix is delimiter-free, and when a
/// delimiter was found the leftover starts right after it. Without one, the
/// whole text is returned and nothing is left.
pub fn strtok<'a>(s: &'a mut &'a str, delimiter: char) -> (prefix: &'a str)
    ensures
        prefix@.len() <= old(s)@.len(),
        prefix@ == old(s)@.subrange(0, prefix@.len() as int),
        forall|j: int| 0 <= j < prefix@.len() ==> old(s)@[j] != delimiter,
        prefix@.len() < old(s)@.len() ==> {
            &&& old(s)@[prefix@.len() as int] == delimiter
            &&& final(s)@ == old(s)@.skip(prefix@.len() as int + 1)
        },
        prefix@.len() == old(s)@.len() ==> final(s)@.len() == 0,
{
    let current: &str = *s;
    let n = current.unicode_len();
    match find_char(current, delimiter) {
        Some(i) => {
            let prefix = current.substring_char(0, i);
            *s = current.substring_char(i + 1, n);
            proof {
                assert(s@ =~= old(s)@.skip(i as int + 1));
            }
            prefix
        },
        None => {
            *s = current.substring_char(n, n);
            proof {
                assert(current@ =~= old(s)@.subrange(0, current@.len() as int));
            }
            current
        },
    }
}

} // verus!
