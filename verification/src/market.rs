//! Structural admission checks on a market slice.
//!
//! A calibration works on the quotes of exactly one expiry. Each quote carries
//! an integer expiry tag; the slice is admissible only when it is non-empty
//! and every tag agrees. The caller extracts the tags from its quote records
//! and the check here decides, with a proof that a slice holding two distinct
//! tags is always refused.

use vstd::prelude::*;

verus! {

/// The tag shared by every element of `tags`, when the slice is non-empty and
/// uniform; `None` otherwise.
pub open spec fn spec_single_tag(tags: Seq<i64>) -> Option<i64> {
    if tags.len() > 0 && (forall|i: int| 0 <= i < tags.len() ==> #[trigger] tags[i] == tags[0]) {
        Some(tags[0])
    } else {
        None
    }
}

/// Decides whether a slice of expiry tags is admissible for a single-expiry
/// calibration, returning the common tag when it is.
pub fn single_expiration_tag(tags: &Vec<i64>) -> (r: Option<i64>)
    ensures
        r == spec_single_tag(tags@),
{
    if tags.len() == 0 {
        return None;
    }
    let first: i64 = tags[0];
    let mut i: usize = 1;
    while i < tags.len()
        invariant
            1 <= i <= tags.len(),
            tags.len() > 0,
            first == tags@[0],
            forall|k: int| 0 <= k < i ==> #[trigger] tags@[k] == tags@[0],
        decreases tags.len() - i,
    {
        if tags[i] != first {
            return None;
        }
        i = i + 1;
    }
    Some(first)
}

/// A slice whose tags disagree anywhere is never admitted: two distinct tags
/// force the single-expiry check to refuse the whole slice.
pub proof fn lemma_mixed_tags_rejected(tags: Seq<i64>, i: int, j: int)
    requires
        0 <= i < tags.len(),
        0 <= j < tags.len(),
        tags[i] != tags[j],
    ensures
        spec_single_tag(tags) is None,
{
    if spec_single_tag(tags) is Some {
        assert(tags[i] == tags[0]);
        assert(tags[j] == tags[0]);
    }
}

} // verus!
