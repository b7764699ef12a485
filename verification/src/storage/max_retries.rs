//! The retry limit for failed deposits.
use vstd::prelude::*;
use super::{Storage, StorageModel};

verus! {

/// Records the retry limit for failed deposits.
pub fn set(st: &mut Storage, value: u32)
    requires
        old(st).wf(),
    ensures
        final(st).wf(),
        final(st)@ == (StorageModel { max_retries: Some(value), ..old(st)@ }),
{
    st.max_retries = Some(value);
}

/// The retry limit for failed deposits, if one has been recorded.
pub fn get(st: &Storage) -> (r: Option<u32>)
    requires
        st.wf(),
    ensures
        r == st@.max_retries,
{
    st.max_retries
}

} // verus!
