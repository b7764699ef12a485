//! What each successful call that touches deposits leaves behind: the
//! records it writes, field by field in terms of its arguments and the
//! records it read, and the events it publishes.
use vstd::prelude::*;
use crate::crypto::{settlement_id_of, tx_id_of};
use crate::error::ContractError;
use crate::model::{
    accept_admin_spec, add_asset_spec, cancel_admin_transfer_spec, grant_relayer_spec,
    initialize_spec, pause_spec, propose_admin_spec, remove_asset_spec, revoke_relayer_spec,
    set_max_assets_spec, set_max_deposit_spec, set_max_retries_spec, set_min_deposit_spec,
    transfer_admin_spec, unpause_spec, cancel_transaction_spec, finalize_settlement_spec, mark_completed_spec, mark_failed_spec,
    mark_processing_spec, register_deposit_spec, retry_dlq_spec, retry_limit, sum_scan, settle_scan,
    lemma_settle_scan_passes,
};
use crate::rules::valid_asset_code;
use crate::storage::StorageModel;
use crate::types::{DlqEntryModel, EventModel, SettlementModel, TransactionModel, TransactionStatus};

verus! {

/// The sum of the amounts of the named deposits.
pub open spec fn amount_total(txs: Map<Seq<u8>, TransactionModel>, ids: Seq<Seq<u8>>) -> int
    decreases ids.len(),
{
    if ids.len() == 0 {
        0
    } else {
        amount_total(txs, ids.drop_last()) + txs[ids.last()].amount
    }
}

proof fn lemma_scanned_sum_is_total(txs: Map<Seq<u8>, TransactionModel>, ids: Seq<Seq<u8>>)
    requires
        sum_scan(txs, ids) is Ok,
    ensures
        sum_scan(txs, ids) == Ok::<int, ContractError>(amount_total(txs, ids)),
    decreases ids.len(),
{
    if ids.len() > 0 {
        lemma_scanned_sum_is_total(txs, ids.drop_last());
    }
}

/// The length of the dead-letter queue after taking a deposit out of it.
pub open spec fn dequeued_count(s: StorageModel, tx_id: Seq<u8>) -> i128 {
    if s.dlq.contains_key(tx_id) {
        (s.dlq_count - 1) as i128
    } else {
        s.dlq_count
    }
}

/// A new anchor transaction id gets a deposit stored under the hex SHA-256
/// id of the anchor id, holding exactly the details given: the depositor's
/// account, the calling relayer, the amount, the asset, the memo and memo
/// type as passed, pending, created and updated at the ledger of the call,
/// unsettled and never retried. The anchor id is indexed to it, nothing
/// else changes, and `DepositRegistered` names the id and the anchor id.
pub proof fn law_deposit_recorded_as_given(
    s: StorageModel,
    caller: Seq<u8>,
    anchor_transaction_id: Seq<u8>,
    stellar_account: Seq<u8>,
    amount: i128,
    asset_code: Seq<u8>,
    memo: Option<Seq<u8>>,
    memo_type: Option<Seq<u8>>,
    ledger: u32,
)
    requires
        !s.anchor_index.contains_key(anchor_transaction_id),
        register_deposit_spec(
            s,
            caller,
            anchor_transaction_id,
            stellar_account,
            amount,
            asset_code,
            memo,
            memo_type,
            ledger,
        ).1 is Ok,
    ensures
        ({
            let step = register_deposit_spec(
                s,
                caller,
                anchor_transaction_id,
                stellar_account,
                amount,
                asset_code,
                memo,
                memo_type,
                ledger,
            );
            let id = step.1->Ok_0.0;
            let s2 = step.0;
            let tx = TransactionModel {
                id,
                anchor_transaction_id,
                stellar_account,
                relayer: caller,
                amount,
                asset_code,
                memo,
                memo_type,
                callback_type: None,
                status: TransactionStatus::Pending,
                created_ledger: ledger,
                updated_ledger: ledger,
                settlement_id: Seq::empty(),
                retry_count: 0,
            };
            &&& id == tx_id_of(anchor_transaction_id)
            &&& s2 == StorageModel {
                txs: s.txs.insert(id, tx),
                anchor_index: s.anchor_index.insert(anchor_transaction_id, id),
                ..s
            }
            &&& step.1->Ok_0.1 == seq![EventModel::DepositRegistered(id, anchor_transaction_id)]
        }),
{
}

/// Starting to process a deposit makes it processing, updated at the
/// ledger of the call, with every other detail kept; it publishes the move
/// from pending to processing and changes nothing else.
pub proof fn law_processing_recorded(s: StorageModel, caller: Seq<u8>, tx_id: Seq<u8>, ledger: u32)
    requires
        mark_processing_spec(s, caller, tx_id, ledger).1 is Ok,
    ensures
        ({
            let step = mark_processing_spec(s, caller, tx_id, ledger);
            let tx = s.txs[tx_id];
            &&& s.txs.contains_key(tx_id)
            &&& tx.status == TransactionStatus::Pending
            &&& step.0 == StorageModel {
                txs: s.txs.insert(
                    tx_id,
                    TransactionModel { status: TransactionStatus::Processing, updated_ledger: ledger, ..tx },
                ),
                ..s
            }
            &&& step.1 == Ok::<Seq<EventModel>, ContractError>(
                seq![
                    EventModel::StatusUpdated(
                        tx_id,
                        TransactionStatus::Pending,
                        TransactionStatus::Processing,
                    ),
                ],
            )
        }),
{
}

/// Completing a deposit makes it completed, updated at the ledger of the
/// call, with every other detail kept, and takes it out of the dead-letter
/// queue; `TransactionCompleted` names the deposit's own account, amount
/// and asset.
pub proof fn law_completion_recorded(s: StorageModel, caller: Seq<u8>, tx_id: Seq<u8>, ledger: u32)
    requires
        mark_completed_spec(s, caller, tx_id, ledger).1 is Ok,
    ensures
        ({
            let step = mark_completed_spec(s, caller, tx_id, ledger);
            let tx = s.txs[tx_id];
            let s2 = step.0;
            &&& s.txs.contains_key(tx_id)
            &&& tx.status == TransactionStatus::Processing
            &&& s2 == StorageModel {
                txs: s.txs.insert(
                    tx_id,
                    TransactionModel { status: TransactionStatus::Completed, updated_ledger: ledger, ..tx },
                ),
                dlq: s.dlq.remove(tx_id),
                dlq_count: dequeued_count(s, tx_id),
                ..s
            }
            &&& step.1 == Ok::<Seq<EventModel>, ContractError>(
                seq![
                    EventModel::StatusUpdated(
                        tx_id,
                        TransactionStatus::Processing,
                        TransactionStatus::Completed,
                    ),
                    EventModel::TransactionCompleted(tx_id, tx.stellar_account, tx.amount, tx.asset_code),
                ],
            )
        }),
{
    if !s.dlq.contains_key(tx_id) {
        assert(s.dlq.remove(tx_id) =~= s.dlq);
    }
}

/// Failing a deposit makes it failed, updated at the ledger of the call,
/// with every other detail kept, and queues a dead-letter entry that holds
/// the reason given, was moved at the ledger of the call and has no retry
/// yet. `TransactionFailed` names the deposit's own account (not the
/// relayer's), its amount and asset, and the reason.
pub proof fn law_failure_recorded(
    s: StorageModel,
    caller: Seq<u8>,
    tx_id: Seq<u8>,
    error_reason: Seq<u8>,
    ledger: u32,
)
    requires
        mark_failed_spec(s, caller, tx_id, error_reason, ledger).1 is Ok,
    ensures
        ({
            let step = mark_failed_spec(s, caller, tx_id, error_reason, ledger);
            let tx = s.txs[tx_id];
            let s2 = step.0;
            &&& s.txs.contains_key(tx_id)
            &&& error_reason.len() > 0
            &&& tx.status == TransactionStatus::Pending || tx.status == TransactionStatus::Processing
            &&& s2 == StorageModel {
                txs: s.txs.insert(
                    tx_id,
                    TransactionModel { status: TransactionStatus::Failed, updated_ledger: ledger, ..tx },
                ),
                dlq: s.dlq.insert(
                    tx_id,
                    DlqEntryModel {
                        tx_id,
                        error_reason,
                        retry_count: 0,
                        moved_at_ledger: ledger,
                        last_retry_ledger: 0,
                    },
                ),
                dlq_count: if s.dlq.contains_key(tx_id) { s.dlq_count } else { (s.dlq_count + 1) as i128 },
                ..s
            }
            &&& step.1 == Ok::<Seq<EventModel>, ContractError>(
                seq![
                    EventModel::StatusUpdated(tx_id, tx.status, TransactionStatus::Failed),
                    EventModel::MovedToDlq(tx_id, error_reason),
                    EventModel::TransactionFailed(
                        tx_id,
                        tx.stellar_account,
                        tx.amount,
                        tx.asset_code,
                        error_reason,
                    ),
                ],
            )
        }),
{
}

/// A retry, by the admin or the relayer that registered the deposit and
/// below the retry limit, makes the deposit pending again, updated at the ledger of the
/// retry, with one more retry counted and every other detail kept, and
/// takes it out of the dead-letter queue.
pub proof fn law_retry_recorded(s: StorageModel, caller: Seq<u8>, tx_id: Seq<u8>, ledger: u32)
    requires
        retry_dlq_spec(s, caller, tx_id, ledger).1 is Ok,
    ensures
        ({
            let step = retry_dlq_spec(s, caller, tx_id, ledger);
            let tx = s.txs[tx_id];
            let s2 = step.0;
            &&& s.txs.contains_key(tx_id)
            &&& s.dlq.contains_key(tx_id)
            &&& !s.paused
            &&& (s.admin == Some(caller) || caller == tx.relayer)
            &&& tx.retry_count < retry_limit(s)
            &&& s2 == StorageModel {
                txs: s.txs.insert(
                    tx_id,
                    TransactionModel {
                        status: TransactionStatus::Pending,
                        updated_ledger: ledger,
                        retry_count: (tx.retry_count + 1) as u32,
                        ..tx
                    },
                ),
                dlq: s.dlq.remove(tx_id),
                dlq_count: (s.dlq_count - 1) as i128,
                ..s
            }
            &&& s2.txs[tx_id].updated_ledger == ledger
            &&& s2.txs[tx_id].retry_count == tx.retry_count + 1
            &&& step.1 == Ok::<Seq<EventModel>, (ContractError, Seq<EventModel>)>(
                seq![
                    EventModel::DlqRetried(tx_id),
                    EventModel::StatusUpdated(tx_id, tx.status, TransactionStatus::Pending),
                ],
            )
        }),
{
}

/// Cancelling a pending deposit makes it cancelled, updated at the ledger
/// of the call, with every other detail kept; `TransactionCancelled` names
/// the deposit's own account (not the relayer's), amount and asset.
pub proof fn law_cancellation_recorded(s: StorageModel, caller: Seq<u8>, tx_id: Seq<u8>, ledger: u32)
    requires
        cancel_transaction_spec(s, caller, tx_id, ledger).1 is Ok,
    ensures
        ({
            let step = cancel_transaction_spec(s, caller, tx_id, ledger);
            let tx = s.txs[tx_id];
            let s2 = step.0;
            &&& s.txs.contains_key(tx_id)
            &&& tx.status == TransactionStatus::Pending
            &&& s2 == StorageModel {
                txs: s.txs.insert(
                    tx_id,
                    TransactionModel { status: TransactionStatus::Cancelled, updated_ledger: ledger, ..tx },
                ),
                dlq: s.dlq.remove(tx_id),
                dlq_count: dequeued_count(s, tx_id),
                ..s
            }
            &&& step.1 == Ok::<Seq<EventModel>, ContractError>(
                seq![
                    EventModel::StatusUpdated(
                        tx_id,
                        TransactionStatus::Pending,
                        TransactionStatus::Cancelled,
                    ),
                    EventModel::TransactionCancelled(tx_id, tx.stellar_account, tx.amount, tx.asset_code),
                ],
            )
        }),
{
    if !s.dlq.contains_key(tx_id) {
        assert(s.dlq.remove(tx_id) =~= s.dlq);
    }
}

/// A settlement is stored under an id derived from the ledger timestamp,
/// the ledger sequence and the settlement counter, which advances by one
/// (the contract never settles with the counter at its maximum).
/// The record holds exactly the asset code, the ids, the total and the
/// period given, created at the ledger of the call. Each named deposit
/// carries the settlement id, updated at that ledger, with every other
/// detail kept; no other deposit changes. One `Settled` per deposit, in
/// the order given, is followed by `SettlementFinalized` with the asset
/// code and total.
pub proof fn law_settlement_recorded_as_given(
    s: StorageModel,
    caller: Seq<u8>,
    asset_code: Seq<u8>,
    tx_ids: Seq<Seq<u8>>,
    total_amount: i128,
    period_start: u64,
    period_end: u64,
    ledger: u32,
    timestamp: u64,
)
    requires
        finalize_settlement_spec(
            s,
            caller,
            asset_code,
            tx_ids,
            total_amount,
            period_start,
            period_end,
            ledger,
            timestamp,
        ).1 is Ok,
    ensures
        ({
            let step = finalize_settlement_spec(
                s,
                caller,
                asset_code,
                tx_ids,
                total_amount,
                period_start,
                period_end,
                ledger,
                timestamp,
            );
            let id = step.1->Ok_0.0;
            let events = step.1->Ok_0.1;
            let s2 = step.0;
            &&& id == settlement_id_of(timestamp, ledger, s.settlement_nonce)
            &&& total_amount == amount_total(s.txs, tx_ids)
            &&& period_start <= period_end
            &&& forall|j: int|
                0 <= j < tx_ids.len() ==> {
                    &&& s.txs.contains_key(#[trigger] tx_ids[j])
                    &&& s.txs[tx_ids[j]].status == TransactionStatus::Completed
                    &&& s.txs[tx_ids[j]].settlement_id.len() == 0
                    &&& !tx_ids.take(j).contains(tx_ids[j])
                }
            &&& s.settlement_nonce < u32::MAX ==> s2.settlement_nonce == s.settlement_nonce + 1
            &&& s2.settlements == s.settlements.insert(
                id,
                SettlementModel {
                    id,
                    asset_code,
                    tx_ids,
                    total_amount,
                    period_start,
                    period_end,
                    created_ledger: ledger,
                },
            )
            &&& s2.txs.dom() == s.txs.dom()
            &&& forall|k: Seq<u8>| #[trigger]
                s2.txs.contains_key(k) ==> s2.txs[k] == (if tx_ids.contains(k) {
                    TransactionModel { settlement_id: id, updated_ledger: ledger, ..s.txs[k] }
                } else {
                    s.txs[k]
                })
            &&& s2 == StorageModel {
                settlement_nonce: s2.settlement_nonce,
                txs: s2.txs,
                settlements: s2.settlements,
                ..s
            }
            &&& events.len() == tx_ids.len() + 1
            &&& forall|i: int| 0 <= i < tx_ids.len() ==> #[trigger] events[i] == EventModel::Settled(tx_ids[i], id)
            &&& events[tx_ids.len() as int] == EventModel::SettlementFinalized(id, asset_code, total_amount)
        }),
{
    let step = finalize_settlement_spec(
        s,
        caller,
        asset_code,
        tx_ids,
        total_amount,
        period_start,
        period_end,
        ledger,
        timestamp,
    );
    let id = step.1->Ok_0.0;
    let events = step.1->Ok_0.1;
    lemma_scanned_sum_is_total(s.txs, tx_ids);
    crate::model::lemma_sum_scan_ok_all_present(s.txs, tx_ids);
    lemma_settle_scan_passes(s.txs, tx_ids);
    assert forall|j: int| 0 <= j < tx_ids.len() implies tx_ids.contains(#[trigger] tx_ids[j]) by {}
    assert(step.0.txs.dom() =~= s.txs.dom());
    assert(id == settlement_id_of(timestamp, ledger, s.settlement_nonce));
    assert(events.len() == tx_ids.len() + 1);
    assert(forall|i: int| 0 <= i < tx_ids.len() ==> #[trigger] events[i] == EventModel::Settled(tx_ids[i], id));
    assert(events[tx_ids.len() as int] == EventModel::SettlementFinalized(id, asset_code, total_amount));
    assert(step.0.anchor_index == s.anchor_index);
    assert(step.0.dlq == s.dlq);
    assert(step.0.settlements == s.settlements.insert(
        id,
        SettlementModel {
            id,
            asset_code,
            tx_ids,
            total_amount,
            period_start,
            period_end,
            created_ledger: ledger,
        },
    ));
}

/// The events of a successful call, as a plain sequence.
pub open spec fn published(r: Result<Seq<EventModel>, ContractError>) -> Seq<EventModel> {
    r->Ok_0
}

/// `initialize` records the given admin and publishes `Initialized` for it.
pub proof fn law_initialize_recorded(s: StorageModel, admin: Seq<u8>)
    requires
        initialize_spec(s, admin).1 is Ok,
    ensures
        initialize_spec(s, admin).0 == (StorageModel { admin: Some(admin), ..s }),
        published(initialize_spec(s, admin).1) == seq![EventModel::Initialized(admin)],
{
}

/// Granting makes the given address a relayer, publishing `RelayerGranted`
/// for it; revoking takes the role from it, publishing `RelayerRevoked`.
pub proof fn law_relayer_roles_recorded(s: StorageModel, caller: Seq<u8>, relayer: Seq<u8>)
    ensures
        grant_relayer_spec(s, caller, relayer).1 is Ok ==> {
            &&& !s.relayers.contains(relayer)
            &&& grant_relayer_spec(s, caller, relayer).0 == (StorageModel {
                relayers: s.relayers.insert(relayer),
                ..s
            })
            &&& published(grant_relayer_spec(s, caller, relayer).1) == seq![
                EventModel::RelayerGranted(relayer),
            ]
        },
        revoke_relayer_spec(s, caller, relayer).1 is Ok ==> {
            &&& s.relayers.contains(relayer)
            &&& revoke_relayer_spec(s, caller, relayer).0 == (StorageModel {
                relayers: s.relayers.remove(relayer),
                ..s
            })
            &&& published(revoke_relayer_spec(s, caller, relayer).1) == seq![
                EventModel::RelayerRevoked(relayer),
            ]
        },
{
}

/// Proposing records the successor as pending and publishes the current
/// admin and the successor; cancelling clears the pending successor and
/// names it; accepting makes the caller, who must be the pending
/// successor, the admin and names the previous admin and the caller; a
/// direct transfer makes the new admin the admin at once.
pub proof fn law_admin_changes_recorded(s: StorageModel, caller: Seq<u8>, new_admin: Seq<u8>)
    ensures
        propose_admin_spec(s, caller, new_admin).1 is Ok ==> {
            &&& s.admin == Some(caller)
            &&& propose_admin_spec(s, caller, new_admin).0 == (StorageModel {
                pending_admin: Some(new_admin),
                ..s
            })
            &&& published(propose_admin_spec(s, caller, new_admin).1) == seq![
                EventModel::AdminTransferProposed(caller, new_admin),
            ]
        },
        cancel_admin_transfer_spec(s, caller).1 is Ok ==> {
            &&& s.admin == Some(caller)
            &&& s.pending_admin is Some
            &&& cancel_admin_transfer_spec(s, caller).0 == (StorageModel { pending_admin: None, ..s })
            &&& published(cancel_admin_transfer_spec(s, caller).1) == seq![
                EventModel::AdminTransferCancelled(s.pending_admin.unwrap()),
            ]
        },
        accept_admin_spec(s, caller).1 is Ok ==> {
            &&& s.admin is Some
            &&& s.pending_admin == Some(caller)
            &&& accept_admin_spec(s, caller).0 == (StorageModel {
                admin: Some(caller),
                pending_admin: None,
                ..s
            })
            &&& published(accept_admin_spec(s, caller).1) == seq![
                EventModel::AdminTransferred(s.admin.unwrap(), caller),
            ]
        },
        transfer_admin_spec(s, caller, new_admin).1 is Ok ==> {
            &&& s.admin == Some(caller)
            &&& transfer_admin_spec(s, caller, new_admin).0 == (StorageModel {
                admin: Some(new_admin),
                ..s
            })
            &&& published(transfer_admin_spec(s, caller, new_admin).1) == seq![
                EventModel::AdminTransferred(caller, new_admin),
            ]
        },
{
}

/// Pausing and unpausing set the pause flag and name the caller, who must
/// be the admin.
pub proof fn law_pause_recorded(s: StorageModel, caller: Seq<u8>)
    ensures
        pause_spec(s, caller).1 is Ok ==> {
            &&& s.admin == Some(caller)
            &&& pause_spec(s, caller).0 == (StorageModel { paused: true, ..s })
            &&& published(pause_spec(s, caller).1) == seq![EventModel::ContractPaused(caller)]
        },
        unpause_spec(s, caller).1 is Ok ==> {
            &&& s.admin == Some(caller)
            &&& unpause_spec(s, caller).0 == (StorageModel { paused: false, ..s })
            &&& published(unpause_spec(s, caller).1) == seq![EventModel::ContractUnpaused(caller)]
        },
{
}

/// Allowing an asset, which only the admin may do and only for a valid
/// code, puts the code on the allowlist, counting it once;
/// removing one takes it off and counts one fewer. Each names the code.
pub proof fn law_allowlist_recorded(s: StorageModel, caller: Seq<u8>, code: Seq<u8>)
    ensures
        add_asset_spec(s, caller, code).1 is Ok ==> {
            &&& s.admin == Some(caller)
            &&& valid_asset_code(code)
            &&& add_asset_spec(s, caller, code).0 == (if s.assets.contains(code) {
                s
            } else {
                (StorageModel {
                    assets: s.assets.insert(code),
                    asset_count: (s.asset_count + 1) as u32,
                    ..s
                })
            })
            &&& published(add_asset_spec(s, caller, code).1) == seq![EventModel::AssetAdded(code)]
        },
        remove_asset_spec(s, caller, code).1 is Ok ==> {
            &&& s.assets.contains(code)
            &&& remove_asset_spec(s, caller, code).0 == (StorageModel {
                assets: s.assets.remove(code),
                asset_count: (s.asset_count - 1) as u32,
                ..s
            })
            &&& published(remove_asset_spec(s, caller, code).1) == seq![EventModel::AssetRemoved(code)]
        },
{
}

/// Each limit is stored as given when the admin sets it to a positive
/// value, and refused otherwise; setting a limit publishes nothing.
pub proof fn law_limits_recorded(s: StorageModel, caller: Seq<u8>, amount: i128, count: u32)
    ensures
        set_min_deposit_spec(s, caller, amount).1 is Ok ==> amount > 0
            && set_min_deposit_spec(s, caller, amount).0 == (StorageModel { min_deposit: Some(amount), ..s })
            && published(set_min_deposit_spec(s, caller, amount).1) == Seq::<EventModel>::empty(),
        set_max_deposit_spec(s, caller, amount).1 is Ok ==> amount > 0
            && set_max_deposit_spec(s, caller, amount).0 == (StorageModel { max_deposit: Some(amount), ..s })
            && published(set_max_deposit_spec(s, caller, amount).1) == Seq::<EventModel>::empty(),
        set_max_retries_spec(s, caller, count).1 is Ok ==> count > 0
            && set_max_retries_spec(s, caller, count).0 == (StorageModel { max_retries: Some(count), ..s })
            && published(set_max_retries_spec(s, caller, count).1) == Seq::<EventModel>::empty(),
        set_max_assets_spec(s, caller, count).1 is Ok ==> count > 0
            && set_max_assets_spec(s, caller, count).0 == (StorageModel { max_assets: Some(count), ..s })
            && published(set_max_assets_spec(s, caller, count).1) == Seq::<EventModel>::empty(),
        amount <= 0 ==> set_min_deposit_spec(s, caller, amount).1 is Err && set_max_deposit_spec(
            s,
            caller,
            amount,
        ).1 is Err,
        count == 0 ==> set_max_retries_spec(s, caller, count).1 is Err && set_max_assets_spec(
            s,
            caller,
            count,
        ).1 is Err,
{
}

} // verus!
