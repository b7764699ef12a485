//! The cap on the asset allowlist.
use vstd::prelude::*;
use super::{Storage, StorageModel};

verus! {

/// Records the cap on the asset allowlist.
pub fn set(st: &mut Storage, value: u32)
    requires
        old(st).wf(),
    ensures
        final(st).wf(),
        final(st)@ == (StorageModel { max_assets: Some(value), ..old(st)@ }),
{
    st.max_assets = Some(value);
}

/// The cap on the asset allowlist, if one has been recorded.
pub fn get(st: &Storage) -> (r: Option<u32>)
    requires
        st.wf(),
    ensures
        r == st@.max_assets,
{
    st.max_assets
}

} // verus!
