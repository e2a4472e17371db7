//! Deciding from a module listing whether the driver is loaded.
//!
//! The application obtains the kernel's module listing as text; the
//! driver counts as loaded exactly when its name occurs somewhere in
//! that text. This module provides the verified occurrence check.

use vstd::prelude::*;

verus! {

/// Whether `needle` occurs in `haystack` starting at position `i`.
pub open spec fn occurs_at(haystack: Seq<u8>, needle: Seq<u8>, i: int) -> bool {
    0 <= i && i + needle.len() <= haystack.len() && haystack.subrange(
        i,
        i + needle.len(),
    ) == needle
}

/// Whether `needle` occurs anywhere in `haystack`.
pub open spec fn spec_contains(haystack: Seq<u8>, needle: Seq<u8>) -> bool {
    exists|i: int| occurs_at(haystack, needle, i)
}

/// Whether the listing mentions `needle` — in particular, whether a
/// module listing mentions the driver's name.
pub fn listing_mentions(haystack: &Vec<u8>, needle: &Vec<u8>) -> (r: bool)
    ensures
        r == spec_contains(haystack@, needle@),
{
    if needle.len() == 0 {
        proof {
            assert(haystack@.subrange(0, 0) =~= needle@);
            assert(occurs_at(haystack@, needle@, 0));
        }
        return true;
    }
    if needle.len() > haystack.len() {
        proof {
            assert(forall|i: int| !occurs_at(haystack@, needle@, i));
        }
        return false;
    }
    let mut i: usize = 0;
    while i <= haystack.len() - needle.len()
        invariant
            1 <= needle.len() <= haystack.len(),
            0 <= i <= haystack.len() - needle.len() + 1,
            forall|p: int| 0 <= p < i ==> !occurs_at(haystack@, needle@, p),
        decreases haystack.len() - needle.len() + 1 - i,
    {
        let mut j: usize = 0;
        let mut mismatch = false;
        while j < needle.len()
            invariant
                needle.len() <= haystack.len(),
                0 <= i <= haystack.len() - needle.len(),
                0 <= j <= needle.len(),
                !mismatch ==> forall|k: int| 0 <= k < j ==> haystack@[i + k] == needle@[k],
                mismatch ==> !occurs_at(haystack@, needle@, i as int),
            decreases needle.len() - j,
        {
            if haystack[i + j] != needle[j] {
                proof {
                    if occurs_at(haystack@, needle@, i as int) {
                        assert(haystack@.subrange(
                            i as int,
                            i + needle@.len(),
                        )[j as int] == needle@[j as int]);
                    }
                }
                mismatch = true;
                j = needle.len();
            } else {
                j = j + 1;
            }
        }
        if !mismatch {
            proof {
                assert(haystack@.subrange(i as int, i + needle@.len()) =~= needle@);
                assert(occurs_at(haystack@, needle@, i as int));
            }
            return true;
        }
        i = i + 1;
    }
    proof {
        assert(forall|p: int| occurs_at(haystack@, needle@, p) ==> 0 <= p <= haystack@.len()
            - needle@.len());
    }
    false
}

} // verus!
