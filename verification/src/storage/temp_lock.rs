//! Short-lived idempotency locks.
use vstd::prelude::*;
use super::{Storage, StorageModel};
use crate::bytes::copy_bytes;
use crate::error::ContractError;

verus! {

/// Takes the lock on a key; refused while it is held.
pub fn lock(st: &mut Storage, key: &Vec<u8>) -> (r: Result<(), ContractError>)
    requires
        old(st).wf(),
    ensures
        final(st).wf(),
        old(st)@.temp_locks.contains(key@) ==> r == Err::<(), ContractError>(ContractError::LockActive)
            && final(st)@ == old(st)@,
        !old(st)@.temp_locks.contains(key@) ==> r is Ok && final(st)@ == (StorageModel {
            temp_locks: old(st)@.temp_locks.insert(key@),
            ..old(st)@
        }),
{
    if st.temp_locks.contains_key(key) {
        return Err(ContractError::LockActive);
    }
    st.temp_locks.insert(copy_bytes(key), ());
    assert(st@.temp_locks =~= old(st)@.temp_locks.insert(key@));
    Ok(())
}

/// Releases the lock on a key.
pub fn unlock(st: &mut Storage, key: &Vec<u8>)
    requires
        old(st).wf(),
    ensures
        final(st).wf(),
        final(st)@ == (StorageModel { temp_locks: old(st)@.temp_locks.remove(key@), ..old(st)@ }),
{
    let _ = st.temp_locks.remove(key);
    assert(st@.temp_locks =~= old(st)@.temp_locks.remove(key@));
}

/// Whether the key is locked.
pub fn is_locked(st: &Storage, key: &Vec<u8>) -> (r: bool)
    requires
        st.wf(),
    ensures
        r == st@.temp_locks.contains(key@),
{
    st.temp_locks.contains_key(key)
}

} // verus!
