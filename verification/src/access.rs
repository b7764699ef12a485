//! Who may do what: the admin, the relayers, the proposed admin, and the
//! pause switch.
use vstd::prelude::*;
use crate::error::ContractError;
use crate::model::{admin_check, relayer_check};
use crate::storage::{admin, pause, pending_admin, relayers, Storage, StorageModel};
use crate::types::Address;

verus! {

/// Refuses every call while the contract is paused.
pub fn require_not_paused(st: &Storage) -> (r: Result<(), ContractError>)
    requires
        st.wf(),
    ensures
        r == (if st@.paused {
            Err::<(), ContractError>(ContractError::ContractPaused)
        } else {
            Ok(())
        }),
{
    if pause::is_paused(st) {
        return Err(ContractError::ContractPaused);
    }
    Ok(())
}

/// Refuses a caller that is not the admin.
pub fn require_admin(st: &Storage, caller: &Address) -> (r: Result<(), ContractError>)
    requires
        st.wf(),
    ensures
        r == admin_check(st@, caller@),
{
    match admin::get(st) {
        Err(e) => Err(e),
        Ok(a) => if a.same_as(caller) {
            Ok(())
        } else {
            Err(ContractError::NotAdmin)
        },
    }
}

/// Refuses a caller that is not a relayer.
pub fn require_relayer(st: &Storage, caller: &Address) -> (r: Result<(), ContractError>)
    requires
        st.wf(),
    ensures
        r == relayer_check(st@, caller@),
{
    if !relayers::has(st, caller) {
        return Err(ContractError::NotRelayer);
    }
    Ok(())
}

/// The admin proposes a successor.
pub fn set_pending_admin(st: &mut Storage, caller: &Address, new_admin: &Address) -> (r: Result<
    (),
    ContractError,
>)
    requires
        old(st).wf(),
    ensures
        final(st).wf(),
        r == admin_check(old(st)@, caller@),
        r is Ok ==> final(st)@ == (StorageModel { pending_admin: Some(new_admin@), ..old(st)@ }),
        r is Err ==> final(st)@ == old(st)@,
{
    match require_admin(st, caller) {
        Err(e) => Err(e),
        Ok(()) => {
            pending_admin::set(st, new_admin);
            Ok(())
        },
    }
}

/// Why the caller may not take over as admin, if it may not.
pub open spec fn accept_check(s: StorageModel, caller: Seq<u8>) -> Result<(), ContractError> {
    match s.pending_admin {
        None => Err(ContractError::NoPendingAdmin),
        Some(p) => if p == caller {
            Ok(())
        } else {
            Err(ContractError::NotPendingAdmin)
        },
    }
}

/// The proposed admin takes over.
pub fn accept_pending_admin(st: &mut Storage, caller: &Address) -> (r: Result<(), ContractError>)
    requires
        old(st).wf(),
    ensures
        final(st).wf(),
        r == accept_check(old(st)@, caller@),
        r is Ok ==> final(st)@ == (StorageModel {
            admin: Some(caller@),
            pending_admin: None,
            ..old(st)@
        }),
        r is Err ==> final(st)@ == old(st)@,
{
    match pending_admin::get(st) {
        None => Err(ContractError::NoPendingAdmin),
        Some(p) => if p.same_as(caller) {
            admin::set(st, caller);
            pending_admin::clear(st);
            Ok(())
        } else {
            Err(ContractError::NotPendingAdmin)
        },
    }
}

} // verus!
