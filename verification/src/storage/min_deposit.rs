//! The minimum deposit amount.
use vstd::prelude::*;
use super::{Storage, StorageModel};

verus! {

/// Records the minimum deposit amount.
pub fn set(st: &mut Storage, value: i128)
    requires
        old(st).wf(),
    ensures
        final(st).wf(),
        final(st)@ == (StorageModel { min_deposit: Some(value), ..old(st)@ }),
{
    st.min_deposit = Some(value);
}

/// The minimum deposit amount, if one has been recorded.
pub fn get(st: &Storage) -> (r: Option<i128>)
    requires
        st.wf(),
    ensures
        r == st@.min_deposit,
{
    st.min_deposit
}

} // verus!
