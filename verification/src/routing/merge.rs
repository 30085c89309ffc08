//! The two rules by which a patch is merged into a configuration.

use vstd::prelude::*;

verus! {

/// Last write wins: a value that the patch holds replaces the base value, and
/// a value that the patch lacks leaves the base value alone.
pub open spec fn pick<T>(base: Option<T>, patch: Option<T>) -> Option<T> {
    if patch is Some {
        patch
    } else {
        base
    }
}

/// Applying the same patch value twice is the same as applying it once.
pub proof fn lemma_pick_idempotent<T>(base: Option<T>, patch: Option<T>)
    ensures
        pick(pick(base, patch), patch) == pick(base, patch),
        pick(base, None) == base,
        patch is Some ==> pick(base, patch) == patch,
{
}

} // verus!
