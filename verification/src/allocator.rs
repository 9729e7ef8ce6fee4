//! The identifier allocator: the smallest free id at or above a
//! requested one.
//!
//! Used where identities are caller-supplied; superseded where the host
//! assigns them.  The probe is bounded by the top of the id space, and
//! exhaustion is an explicit error rather than an endless search.

use vstd::prelude::*;

verus! {

/// Allocation failure: every id from the requested one up to the top of
/// the id space is already taken.
#[derive(Clone, Copy, Debug, PartialEq, Eq, Structural)]
pub enum AllocError {
    Exhausted,
}

/// Whether `v` occurs among the existing ids.
pub(crate) fn contains_id(ids: &Vec<u64>, v: u64) -> (r: bool)
    ensures
        r == ids@.contains(v),
{
    let n = ids.len();
    let mut i: usize = 0;
    while i < n
        invariant
            n == ids.len(),
            0 <= i <= n,
            forall|j: int| 0 <= j < i ==> ids@[j] != v,
        decreases n - i,
    {
        if ids[i] == v {
            proof {
                assert(ids@[i as int] == v);
            }
            return true;
        }
        i = i + 1;
    }
    false
}

/// Returns the smallest id at or above `requested_id` that is absent
/// from `existing_ids`, probing upward; `Err` exactly when every id from
/// `requested_id` to the top of the id space is taken.
pub fn allocate(requested_id: u64, existing_ids: &Vec<u64>) -> (r: Result<u64, AllocError>)
    ensures
        r matches Ok(id) ==> {
            &&& requested_id <= id
            &&& !existing_ids@.contains(id)
            &&& forall|k: u64| requested_id <= k < id ==> existing_ids@.contains(k)
        },
        r is Err <==> (forall|k: u64| requested_id <= k ==> existing_ids@.contains(k)),
{
    let mut cur: u64 = requested_id;
    loop
        invariant
            requested_id <= cur,
            forall|k: u64| requested_id <= k < cur ==> existing_ids@.contains(k),
        decreases u64::MAX - cur,
    {
        if !contains_id(existing_ids, cur) {
            return Ok(cur);
        }
        if cur == u64::MAX {
            return Err(AllocError::Exhausted);
        }
        cur = cur + 1;
    }
}

} // verus!

