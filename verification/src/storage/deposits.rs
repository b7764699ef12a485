//! Deposit records and the index from anchor transaction ids to deposit ids.
use vstd::prelude::*;
use super::{Storage, StorageModel};
use crate::bytes::copy_bytes;
use crate::error::ContractError;
use crate::types::Transaction;

verus! {

/// Stores the deposit under its id, replacing any earlier record.
pub fn save(st: &mut Storage, tx: Transaction)
    requires
        old(st).wf(),
    ensures
        final(st).wf(),
        final(st)@ == (StorageModel { txs: old(st)@.txs.insert(tx.id@, tx@), ..old(st)@ }),
{
    let key = copy_bytes(&tx.id);
    st.txs.insert(key, tx);
}

/// The deposit with this id; refused if there is none.
pub fn get(st: &Storage, id: &Vec<u8>) -> (r: Result<Transaction, ContractError>)
    requires
        st.wf(),
    ensures
        match r {
            Ok(tx) => st@.txs.contains_key(id@) && tx@ == st@.txs[id@] && tx.id@ == id@,
            Err(e) => !st@.txs.contains_key(id@) && e == ContractError::TxNotFound,
        },
{
    match st.txs.get(id) {
        Some(tx) => Ok(tx.duplicate()),
        None => Err(ContractError::TxNotFound),
    }
}

/// Records which deposit an anchor transaction id belongs to.
pub fn index_anchor_id(st: &mut Storage, anchor_id: &Vec<u8>, tx_id: &Vec<u8>)
    requires
        old(st).wf(),
    ensures
        final(st).wf(),
        final(st)@ == (StorageModel {
            anchor_index: old(st)@.anchor_index.insert(anchor_id@, tx_id@),
            ..old(st)@
        }),
{
    st.anchor_index.insert(copy_bytes(anchor_id), copy_bytes(tx_id));
}

/// The id of the deposit that an anchor transaction id belongs to, if any.
pub fn find_by_anchor_id(st: &Storage, anchor_id: &Vec<u8>) -> (r: Option<Vec<u8>>)
    requires
        st.wf(),
    ensures
        match r {
            Some(id) => st@.anchor_index.contains_key(anchor_id@) && id@ == st@.anchor_index[anchor_id@],
            None => !st@.anchor_index.contains_key(anchor_id@),
        },
{
    match st.anchor_index.get(anchor_id) {
        Some(id) => Some(copy_bytes(id)),
        None => None,
    }
}

} // verus!
