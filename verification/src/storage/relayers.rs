//! The set of relayers.
use vstd::prelude::*;
use super::{Storage, StorageModel};
use crate::bytes::copy_bytes;
use crate::types::Address;

verus! {

/// Makes the address a relayer.
pub fn add(st: &mut Storage, relayer: &Address)
    requires
        old(st).wf(),
    ensures
        final(st).wf(),
        final(st)@ == (StorageModel { relayers: old(st)@.relayers.insert(relayer@), ..old(st)@ }),
{
    st.relayers.insert(copy_bytes(&relayer.strkey), ());
    assert(st@.relayers =~= old(st)@.relayers.insert(relayer@));
}

/// Makes the address no longer a relayer.
pub fn remove(st: &mut Storage, relayer: &Address)
    requires
        old(st).wf(),
    ensures
        final(st).wf(),
        final(st)@ == (StorageModel { relayers: old(st)@.relayers.remove(relayer@), ..old(st)@ }),
{
    let _ = st.relayers.remove(&relayer.strkey);
    assert(st@.relayers =~= old(st)@.relayers.remove(relayer@));
}

/// Whether the address is a relayer.
pub fn has(st: &Storage, relayer: &Address) -> (r: bool)
    requires
        st.wf(),
    ensures
        r == st@.relayers.contains(relayer@),
{
    st.relayers.contains_key(&relayer.strkey)
}

} // verus!
