//! A plain-value model of queue-family capabilities, and the selection
//! rule that picks the family the runtime submits to.
//!
//! The runtime selects the lowest-indexed family whose capability set
//! includes graphics. Strict Vulkan does not promise that a graphics
//! family can also execute compute work, so the selection here demands
//! both flags; a family that could not run a dispatch is never chosen.

use vstd::prelude::*;

verus! {

/// The capabilities of one queue family, read out of the device's
/// reported properties as plain values.
#[derive(Clone, Copy, Debug, PartialEq, Eq, Structural)]
pub struct QueueFamilyCaps {
    /// The family can execute graphics operations.
    pub graphics: bool,
    /// The family can execute compute operations.
    pub compute: bool,
    /// The number of queues available in the family.
    pub queue_count: u32,
}

/// A family is usable for this library when it can run both the
/// graphics work of the offscreen helpers and a compute dispatch.
pub open spec fn family_usable(c: QueueFamilyCaps) -> bool {
    c.graphics && c.compute
}

/// `i` is the index the runtime must select from `caps`: the lowest
/// index whose family is usable.
pub open spec fn is_selected_family(caps: Seq<QueueFamilyCaps>, i: int) -> bool {
    &&& 0 <= i < caps.len()
    &&& family_usable(caps[i])
    &&& forall|j: int| 0 <= j < i ==> !family_usable(caps[j])
}

/// No family of `caps` is usable.
pub open spec fn no_usable_family(caps: Seq<QueueFamilyCaps>) -> bool {
    forall|j: int| 0 <= j < caps.len() ==> !family_usable(caps[j])
}

/// Picks the queue family the runtime will use: the lowest-indexed
/// family whose capability set includes graphics (and compute, see the
/// module note). Returns `None` exactly when no family qualifies.
pub fn select_queue_family(caps: &Vec<QueueFamilyCaps>) -> (r: Option<usize>)
    ensures
        match r {
            Some(i) => is_selected_family(caps@, i as int),
            None => no_usable_family(caps@),
        },
{
    let mut i: usize = 0;
    while i < caps.len()
        invariant
            i <= caps.len(),
            forall|j: int| 0 <= j < i ==> !family_usable(caps@[j]),
        decreases caps.len() - i,
    {
        if caps[i].graphics && caps[i].compute {
            return Some(i);
        }
        i = i + 1;
    }
    None
}

/// At most one index can be the selected family: the selection rule is
/// deterministic over the reported capability list.
pub proof fn lemma_selected_family_unique(caps: Seq<QueueFamilyCaps>, i: int, j: int)
    requires
        is_selected_family(caps, i),
        is_selected_family(caps, j),
    ensures
        i == j,
{
}

/// The selected family always advertises graphics capability, whatever
/// the device reports: the invariant every constructed runtime carries.
pub proof fn lemma_selected_family_has_graphics(caps: Seq<QueueFamilyCaps>, i: int)
    requires
        is_selected_family(caps, i),
    ensures
        caps[i].graphics,
        caps[i].compute,
{
}

/// Which family is selected depends on the usability flags alone; the
/// queue counts and any other reported property play no part.
pub proof fn lemma_selection_depends_on_flags(
    c1: Seq<QueueFamilyCaps>,
    c2: Seq<QueueFamilyCaps>,
    i: int,
)
    requires
        c1.len() == c2.len(),
        forall|k: int| 0 <= k < c1.len() ==> family_usable(c1[k]) == family_usable(c2[k]),
        is_selected_family(c1, i),
    ensures
        is_selected_family(c2, i),
{
}

} // verus!
