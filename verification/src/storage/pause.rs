//! The pause flag.
use vstd::prelude::*;
use super::{Storage, StorageModel};

verus! {

/// Sets the pause flag.
pub fn set(st: &mut Storage, paused: bool)
    requires
        old(st).wf(),
    ensures
        final(st).wf(),
        final(st)@ == (StorageModel { paused, ..old(st)@ }),
{
    st.paused = paused;
}

/// Whether the contract is paused; it is not until paused.
pub fn is_paused(st: &Storage) -> (r: bool)
    requires
        st.wf(),
    ensures
        r == st@.paused,
{
    st.paused
}

} // verus!
