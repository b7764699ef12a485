//! Settlement records.
use vstd::prelude::*;
use super::{Storage, StorageModel};
use crate::bytes::copy_bytes;
use crate::error::ContractError;
use crate::types::Settlement;

verus! {

/// Stores the settlement under its id, replacing any earlier record.
pub fn save(st: &mut Storage, settlement: Settlement)
    requires
        old(st).wf(),
    ensures
        final(st).wf(),
        final(st)@ == (StorageModel {
            settlements: old(st)@.settlements.insert(settlement.id@, settlement@),
            ..old(st)@
        }),
{
    let key = copy_bytes(&settlement.id);
    st.settlements.insert(key, settlement);
}

/// The settlement with this id; refused if there is none.
pub fn get(st: &Storage, id: &Vec<u8>) -> (r: Result<Settlement, ContractError>)
    requires
        st.wf(),
    ensures
        match r {
            Ok(s) => st@.settlements.contains_key(id@) && s@ == st@.settlements[id@],
            Err(e) => !st@.settlements.contains_key(id@) && e == ContractError::SettlementNotFound,
        },
{
    match st.settlements.get(id) {
        Some(s) => Ok(s.duplicate()),
        None => Err(ContractError::SettlementNotFound),
    }
}

} // verus!
