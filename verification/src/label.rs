//! Matching of textual labels without regard to ASCII case.

use vstd::prelude::*;
use vstd::string::*;

verus! {

/// A character with an ASCII capital replaced by its small letter.
pub open spec fn spec_ascii_lower(c: char) -> char {
    if 'A' <= c && c <= 'Z' {
        ((c as u32) + 32) as char
    } else {
        c
    }
}

/// A text with each ASCII capital replaced by its small letter.
pub open spec fn spec_folded(s: Seq<char>) -> Seq<char> {
    Seq::new(s.len(), |i: int| spec_ascii_lower(s[i]))
}

/// Whether two texts are equal once ASCII case is disregarded.
pub open spec fn spec_same_label(a: Seq<char>, b: Seq<char>) -> bool {
    spec_folded(a) == spec_folded(b)
}

/// A character with an ASCII capital replaced by its small letter.
pub fn ascii_lower(c: char) -> (lower: char)
    ensures
        lower == spec_ascii_lower(c),
{
    if 'A' <= c && c <= 'Z' {
        let code: u8 = c as u8;
        (code + 32) as char
    } else {
        c
    }
}

/// Whether two texts are equal once ASCII case is disregarded.
pub fn same_label(a: &str, b: &str) -> (same: bool)
    ensures
        same == spec_same_label(a@, b@),
{
    let n: usize = a.unicode_len();
    if n != b.unicode_len() {
        assert(spec_folded(a@).len() != spec_folded(b@).len());
        return false;
    }
    let mut i: usize = 0;
    while i < n
        invariant
            n == a@.len(),
            n == b@.len(),
            i <= n,
            forall|j: int| 0 <= j < i ==> spec_ascii_lower(a@[j]) == spec_ascii_lower(b@[j]),
        decreases n - i,
    {
        if ascii_lower(a.get_char(i)) != ascii_lower(b.get_char(i)) {
            assert(spec_folded(a@)[i as int] != spec_folded(b@)[i as int]);
            return false;
        }
        i += 1;
    }
    assert(spec_folded(a@) =~= spec_folded(b@));
    true
}

} // verus!
