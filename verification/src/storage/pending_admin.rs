//! The entry for an admin transfer that has been proposed and not yet accepted.
use vstd::prelude::*;
use super::{Storage, StorageModel};
use crate::types::{copy_opt_address, opt_address_view, Address};

verus! {

/// Records the proposed admin.
pub fn set(st: &mut Storage, candidate: &Address)
    requires
        old(st).wf(),
    ensures
        final(st).wf(),
        final(st)@ == (StorageModel { pending_admin: Some(candidate@), ..old(st)@ }),
{
    st.pending_admin = Some(candidate.duplicate());
}

/// The proposed admin, if any.
pub fn get(st: &Storage) -> (r: Option<Address>)
    requires
        st.wf(),
    ensures
        opt_address_view(r) == st@.pending_admin,
{
    copy_opt_address(&st.pending_admin)
}

/// Forgets the proposed admin.
pub fn clear(st: &mut Storage)
    requires
        old(st).wf(),
    ensures
        final(st).wf(),
        final(st)@ == (StorageModel { pending_admin: None, ..old(st)@ }),
{
    st.pending_admin = None;
}

} // verus!
