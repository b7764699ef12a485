//! The admin entry.
use vstd::prelude::*;
use super::{Storage, StorageModel};
use crate::error::ContractError;
use crate::types::Address;

verus! {

/// Records the admin.
pub fn set(st: &mut Storage, admin: &Address)
    requires
        old(st).wf(),
    ensures
        final(st).wf(),
        final(st)@ == (StorageModel { admin: Some(admin@), ..old(st)@ }),
{
    st.admin = Some(admin.duplicate());
}

/// The admin; refused while none has been recorded.
pub fn get(st: &Storage) -> (r: Result<Address, ContractError>)
    requires
        st.wf(),
    ensures
        match st@.admin {
            Some(a) => r matches Ok(x) && x@ == a,
            None => r == Err::<Address, ContractError>(ContractError::NotInitialised),
        },
{
    match &st.admin {
        Some(a) => Ok(a.duplicate()),
        None => Err(ContractError::NotInitialised),
    }
}

/// Whether an admin has been recorded.
pub fn has(st: &Storage) -> (r: bool)
    requires
        st.wf(),
    ensures
        r == st@.admin.is_some(),
{
    st.admin.is_some()
}

} // verus!
