//! The counter that settlement ids are derived from.
use vstd::prelude::*;
use super::{Storage, StorageModel};

verus! {

/// Hands out the current value of the counter and advances it by one.
pub fn bump(st: &mut Storage) -> (n: u32)
    requires
        old(st).wf(),
        old(st)@.settlement_nonce < u32::MAX,
    ensures
        final(st).wf(),
        n == old(st)@.settlement_nonce,
        final(st)@ == (StorageModel { settlement_nonce: (n + 1) as u32, ..old(st)@ }),
{
    let n = st.settlement_nonce;
    st.settlement_nonce = n + 1;
    n
}

/// The current value of the counter.
pub fn get(st: &Storage) -> (n: u32)
    requires
        st.wf(),
    ensures
        n == st@.settlement_nonce,
{
    st.settlement_nonce
}

} // verus!
