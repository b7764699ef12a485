//! The maximum deposit amount.
use vstd::prelude::*;
use super::{Storage, StorageModel};

verus! {

/// Records the maximum deposit amount.
pub fn set(st: &mut Storage, value: i128)
    requires
        old(st).wf(),
    ensures
        final(st).wf(),
        final(st)@ == (StorageModel { max_deposit: Some(value), ..old(st)@ }),
{
    st.max_deposit = Some(value);
}

/// The maximum deposit amount, if one has been recorded.
pub fn get(st: &Storage) -> (r: Option<i128>)
    requires
        st.wf(),
    ensures
        r == st@.max_deposit,
{
    st.max_deposit
}

} // verus!
