//! The dead-letter queue of failed deposits and the count of its entries.
use vstd::prelude::*;
use super::{Storage, StorageModel};
use crate::bytes::copy_bytes;
use crate::types::DlqEntry;

verus! {

/// The storage after putting an entry in the queue; the count grows only
/// when the deposit was not queued yet.
pub open spec fn push_spec(s: StorageModel, entry: crate::types::DlqEntryModel) -> StorageModel {
    StorageModel {
        dlq: s.dlq.insert(entry.tx_id, entry),
        dlq_count: if s.dlq.contains_key(entry.tx_id) { s.dlq_count } else { (s.dlq_count + 1) as i128 },
        ..s
    }
}

/// The storage after taking a deposit out of the queue; unchanged if it is
/// not queued.
pub open spec fn remove_spec(s: StorageModel, tx_id: Seq<u8>) -> StorageModel {
    if s.dlq.contains_key(tx_id) {
        StorageModel { dlq: s.dlq.remove(tx_id), dlq_count: (s.dlq_count - 1) as i128, ..s }
    } else {
        s
    }
}

/// Puts an entry in the queue, replacing any entry for the same deposit.
pub fn push(st: &mut Storage, entry: DlqEntry)
    requires
        old(st).wf(),
    ensures
        final(st).wf(),
        final(st)@ == push_spec(old(st)@, entry@),
{
    proof {
        st.dlq.lemma_len_bound();
    }
    let key = copy_bytes(&entry.tx_id);
    if !st.dlq.contains_key(&key) {
        st.dlq_count = st.dlq_count + 1;
    }
    st.dlq.insert(key, entry);
}

/// The queue entry of a deposit, if any.
pub fn get(st: &Storage, tx_id: &Vec<u8>) -> (r: Option<DlqEntry>)
    requires
        st.wf(),
    ensures
        match r {
            Some(e) => st@.dlq.contains_key(tx_id@) && e@ == st@.dlq[tx_id@],
            None => !st@.dlq.contains_key(tx_id@),
        },
{
    match st.dlq.get(tx_id) {
        Some(e) => Some(e.duplicate()),
        None => None,
    }
}

/// Takes a deposit out of the queue.
pub fn remove(st: &mut Storage, tx_id: &Vec<u8>)
    requires
        old(st).wf(),
    ensures
        final(st).wf(),
        final(st)@ == remove_spec(old(st)@, tx_id@),
{
    if !st.dlq.contains_key(tx_id) {
        return;
    }
    let _ = st.dlq.remove(tx_id);
    assert(old(st)@.dlq.dom().remove(tx_id@).len() == old(st)@.dlq.dom().len() - 1);
    st.dlq_count = st.dlq_count - 1;
    assert(st@.dlq.dom() =~= old(st)@.dlq.dom().remove(tx_id@));
}

/// How many deposits are queued.
pub fn get_count(st: &Storage) -> (r: i128)
    requires
        st.wf(),
    ensures
        r == st@.dlq_count,
        r == st@.dlq.dom().len(),
{
    st.dlq_count
}

/// Replaces the entry of a deposit that is queued.
pub fn update(st: &mut Storage, entry: DlqEntry)
    requires
        old(st).wf(),
        old(st)@.dlq.contains_key(entry.tx_id@),
    ensures
        final(st).wf(),
        final(st)@ == (StorageModel { dlq: old(st)@.dlq.insert(entry.tx_id@, entry@), ..old(st)@ }),
{
    let key = copy_bytes(&entry.tx_id);
    st.dlq.insert(key, entry);
    assert(st@.dlq.dom() =~= old(st)@.dlq.dom());
}

} // verus!
