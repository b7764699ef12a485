//! What each entry point of the contract does, stated over the storage
//! model: the storage afterwards, and either the events it publishes (with
//! any value it returns) or the reason it refuses the call. A refused call
//! leaves the storage as it was.
use vstd::prelude::*;
use crate::crypto::{settlement_id_of, tx_id_of};
use crate::error::ContractError;
use crate::rules::{valid_asset_code, valid_memo_type};
use crate::storage::{assets, dlq, StorageModel};
use crate::types::{
    new_dlq_entry_model, new_transaction_model, EventModel, SettlementModel, TransactionModel,
    TransactionStatus, MAX_RETRIES,
};

verus! {

/// The outcome of an entry point that returns nothing: the storage after
/// the call, and the events it publishes or the reason it is refused.
pub type Step = (StorageModel, Result<Seq<EventModel>, ContractError>);

/// The outcome of an entry point whose refusals may publish events before
/// the call is reverted: the storage after the call, and the events it
/// publishes or the reason it is refused with the events published first.
pub type RefusableStep = (StorageModel, Result<Seq<EventModel>, (ContractError, Seq<EventModel>)>);

/// The outcome of an entry point that returns an id.
pub type IdStep = (StorageModel, Result<(Seq<u8>, Seq<EventModel>), ContractError>);

/// The caller must be the admin.
pub open spec fn admin_check(s: StorageModel, caller: Seq<u8>) -> Result<(), ContractError> {
    match s.admin {
        None => Err(ContractError::NotInitialised),
        Some(a) => if a == caller {
            Ok(())
        } else {
            Err(ContractError::NotAdmin)
        },
    }
}

/// The caller must be a relayer.
pub open spec fn relayer_check(s: StorageModel, caller: Seq<u8>) -> Result<(), ContractError> {
    if s.relayers.contains(caller) {
        Ok(())
    } else {
        Err(ContractError::NotRelayer)
    }
}

/// Why an admin operation is refused before it starts, if it is: the
/// contract is paused, or the caller is not the admin.
pub open spec fn admin_guard(s: StorageModel, caller: Seq<u8>) -> Option<ContractError> {
    if s.paused {
        Some(ContractError::ContractPaused)
    } else {
        match admin_check(s, caller) {
            Err(e) => Some(e),
            Ok(_) => None,
        }
    }
}

/// Why a relayer operation is refused before it starts, if it is: the
/// contract is paused, or the caller is not a relayer.
pub open spec fn relayer_guard(s: StorageModel, caller: Seq<u8>) -> Option<ContractError> {
    if s.paused {
        Some(ContractError::ContractPaused)
    } else {
        match relayer_check(s, caller) {
            Err(e) => Some(e),
            Ok(_) => None,
        }
    }
}

/// The retry limit in force.
pub open spec fn retry_limit(s: StorageModel) -> u32 {
    match s.max_retries {
        Some(n) => n,
        None => MAX_RETRIES,
    }
}

/// A deposit record with a new status, updated at the given ledger.
pub open spec fn with_status(tx: TransactionModel, status: TransactionStatus, ledger: u32) -> TransactionModel {
    TransactionModel { status, updated_ledger: ledger, ..tx }
}

/// Records the first admin.
pub open spec fn initialize_spec(s: StorageModel, admin: Seq<u8>) -> Step {
    if s.admin is Some {
        (s, Err(ContractError::AlreadyInitialised))
    } else {
        (StorageModel { admin: Some(admin), ..s }, Ok(seq![EventModel::Initialized(admin)]))
    }
}

/// The admin makes an address that is not a relayer a relayer.
pub open spec fn grant_relayer_spec(s: StorageModel, caller: Seq<u8>, relayer: Seq<u8>) -> Step {
    match admin_guard(s, caller) {
        Some(e) => (s, Err(e)),
        None => if s.relayers.contains(relayer) {
            (s, Err(ContractError::RelayerAlreadyGranted))
        } else {
            (
                StorageModel { relayers: s.relayers.insert(relayer), ..s },
                Ok(seq![EventModel::RelayerGranted(relayer)]),
            )
        },
    }
}

/// The admin takes the relayer role from an address that has it.
pub open spec fn revoke_relayer_spec(s: StorageModel, caller: Seq<u8>, relayer: Seq<u8>) -> Step {
    match admin_guard(s, caller) {
        Some(e) => (s, Err(e)),
        None => if !s.relayers.contains(relayer) {
            (s, Err(ContractError::AddressNotRelayer))
        } else {
            (
                StorageModel { relayers: s.relayers.remove(relayer), ..s },
                Ok(seq![EventModel::RelayerRevoked(relayer)]),
            )
        },
    }
}

/// The admin proposes a successor, who must accept.
pub open spec fn propose_admin_spec(s: StorageModel, caller: Seq<u8>, new_admin: Seq<u8>) -> Step {
    match admin_guard(s, caller) {
        Some(e) => (s, Err(e)),
        None => (
            StorageModel { pending_admin: Some(new_admin), ..s },
            Ok(seq![EventModel::AdminTransferProposed(s.admin.unwrap(), new_admin)]),
        ),
    }
}

/// The admin withdraws a proposed transfer.
pub open spec fn cancel_admin_transfer_spec(s: StorageModel, caller: Seq<u8>) -> Step {
    match admin_guard(s, caller) {
        Some(e) => (s, Err(e)),
        None => match s.pending_admin {
            None => (s, Err(ContractError::NoPendingAdminTransfer)),
            Some(p) => (
                StorageModel { pending_admin: None, ..s },
                Ok(seq![EventModel::AdminTransferCancelled(p)]),
            ),
        },
    }
}

/// The proposed admin takes over.
pub open spec fn accept_admin_spec(s: StorageModel, caller: Seq<u8>) -> Step {
    if s.paused {
        (s, Err(ContractError::ContractPaused))
    } else if s.admin is None {
        (s, Err(ContractError::NotInitialised))
    } else if s.pending_admin is None {
        (s, Err(ContractError::NoPendingAdmin))
    } else if s.pending_admin.unwrap() != caller {
        (s, Err(ContractError::NotPendingAdmin))
    } else {
        (
            StorageModel { admin: Some(caller), pending_admin: None, ..s },
            Ok(seq![EventModel::AdminTransferred(s.admin.unwrap(), caller)]),
        )
    }
}

/// The admin hands the role over at once.
pub open spec fn transfer_admin_spec(s: StorageModel, caller: Seq<u8>, new_admin: Seq<u8>) -> Step {
    match admin_guard(s, caller) {
        Some(e) => (s, Err(e)),
        None => (
            StorageModel { admin: Some(new_admin), ..s },
            Ok(seq![EventModel::AdminTransferred(s.admin.unwrap(), new_admin)]),
        ),
    }
}

/// The admin pauses the contract; allowed while paused.
pub open spec fn pause_spec(s: StorageModel, caller: Seq<u8>) -> Step {
    match admin_check(s, caller) {
        Err(e) => (s, Err(e)),
        Ok(_) => (StorageModel { paused: true, ..s }, Ok(seq![EventModel::ContractPaused(caller)])),
    }
}

/// The admin unpauses the contract.
pub open spec fn unpause_spec(s: StorageModel, caller: Seq<u8>) -> Step {
    match admin_check(s, caller) {
        Err(e) => (s, Err(e)),
        Ok(_) => (StorageModel { paused: false, ..s }, Ok(seq![EventModel::ContractUnpaused(caller)])),
    }
}

/// The admin allows an asset code. Allowing an allowed asset changes
/// nothing but still publishes the event.
pub open spec fn add_asset_spec(s: StorageModel, caller: Seq<u8>, code: Seq<u8>) -> Step {
    match admin_guard(s, caller) {
        Some(e) => (s, Err(e)),
        None => if !valid_asset_code(code) {
            (s, Err(ContractError::InvalidAssetCode))
        } else {
            match assets::add_spec(s, code) {
                Err(e) => (s, Err(e)),
                Ok(s2) => (s2, Ok(seq![EventModel::AssetAdded(code)])),
            }
        },
    }
}

/// The admin removes an allowed asset code.
pub open spec fn remove_asset_spec(s: StorageModel, caller: Seq<u8>, code: Seq<u8>) -> Step {
    match admin_guard(s, caller) {
        Some(e) => (s, Err(e)),
        None => if !s.assets.contains(code) {
            (s, Err(ContractError::AssetNotInAllowlist))
        } else {
            (assets::remove_spec(s, code), Ok(seq![EventModel::AssetRemoved(code)]))
        },
    }
}

/// The admin sets the minimum deposit, which must be positive.
pub open spec fn set_min_deposit_spec(s: StorageModel, caller: Seq<u8>, amount: i128) -> Step {
    match admin_guard(s, caller) {
        Some(e) => (s, Err(e)),
        None => if amount <= 0 {
            (s, Err(ContractError::MinDepositNotPositive))
        } else {
            (StorageModel { min_deposit: Some(amount), ..s }, Ok(Seq::empty()))
        },
    }
}

/// The admin sets the maximum deposit, which must be positive.
pub open spec fn set_max_deposit_spec(s: StorageModel, caller: Seq<u8>, amount: i128) -> Step {
    match admin_guard(s, caller) {
        Some(e) => (s, Err(e)),
        None => if amount <= 0 {
            (s, Err(ContractError::MaxDepositNotPositive))
        } else {
            (StorageModel { max_deposit: Some(amount), ..s }, Ok(Seq::empty()))
        },
    }
}

/// The admin sets the retry limit, which must be positive.
pub open spec fn set_max_retries_spec(s: StorageModel, caller: Seq<u8>, max_retries: u32) -> Step {
    match admin_guard(s, caller) {
        Some(e) => (s, Err(e)),
        None => if max_retries == 0 {
            (s, Err(ContractError::MaxRetriesZero))
        } else {
            (StorageModel { max_retries: Some(max_retries), ..s }, Ok(Seq::empty()))
        },
    }
}

/// The admin sets the cap on the asset allowlist, which must be positive.
pub open spec fn set_max_assets_spec(s: StorageModel, caller: Seq<u8>, max_assets: u32) -> Step {
    match admin_guard(s, caller) {
        Some(e) => (s, Err(e)),
        None => if max_assets == 0 {
            (s, Err(ContractError::MaxAssetsZero))
        } else {
            (StorageModel { max_assets: Some(max_assets), ..s }, Ok(Seq::empty()))
        },
    }
}

/// Why a deposit is refused before the anchor index is consulted, if it is.
pub open spec fn deposit_refusal(
    s: StorageModel,
    caller: Seq<u8>,
    anchor_transaction_id: Seq<u8>,
    amount: i128,
    asset_code: Seq<u8>,
    memo_type: Option<Seq<u8>>,
) -> Option<ContractError> {
    match relayer_guard(s, caller) {
        Some(e) => Some(e),
        None => if anchor_transaction_id.len() == 0 {
            Some(ContractError::EmptyAnchorId)
        } else if !s.assets.contains(asset_code) {
            Some(ContractError::AssetNotAllowed)
        } else if amount <= 0 {
            Some(ContractError::AmountNotPositive)
        } else if s.min_deposit is Some && amount < s.min_deposit.unwrap() {
            Some(ContractError::AmountBelowMin)
        } else if s.max_deposit is Some && amount > s.max_deposit.unwrap() {
            Some(ContractError::AmountAboveMax)
        } else if memo_type is Some && !valid_memo_type(memo_type.unwrap()) {
            Some(ContractError::InvalidMemoType)
        } else {
            None
        },
    }
}

/// A relayer registers a deposit. An anchor transaction id that was
/// registered before gives back the same deposit id and changes nothing;
/// a new one gets a pending deposit whose id derives from it.
pub open spec fn register_deposit_spec(
    s: StorageModel,
    caller: Seq<u8>,
    anchor_transaction_id: Seq<u8>,
    stellar_account: Seq<u8>,
    amount: i128,
    asset_code: Seq<u8>,
    memo: Option<Seq<u8>>,
    memo_type: Option<Seq<u8>>,
    ledger: u32,
) -> IdStep {
    match deposit_refusal(s, caller, anchor_transaction_id, amount, asset_code, memo_type) {
        Some(e) => (s, Err(e)),
        None => if s.anchor_index.contains_key(anchor_transaction_id) {
            (s, Ok((s.anchor_index[anchor_transaction_id], Seq::empty())))
        } else {
            let id = tx_id_of(anchor_transaction_id);
            let tx = new_transaction_model(
                ledger,
                id,
                anchor_transaction_id,
                stellar_account,
                caller,
                amount,
                asset_code,
                memo,
                memo_type,
                None,
            );
            (
                StorageModel {
                    txs: s.txs.insert(id, tx),
                    anchor_index: s.anchor_index.insert(anchor_transaction_id, id),
                    ..s
                },
                Ok((id, seq![EventModel::DepositRegistered(id, anchor_transaction_id)])),
            )
        },
    }
}

/// A relayer starts processing a pending deposit.
pub open spec fn mark_processing_spec(s: StorageModel, caller: Seq<u8>, tx_id: Seq<u8>, ledger: u32) -> Step {
    match relayer_guard(s, caller) {
        Some(e) => (s, Err(e)),
        None => if !s.txs.contains_key(tx_id) {
            (s, Err(ContractError::TxNotFound))
        } else if s.txs[tx_id].status != TransactionStatus::Pending {
            (s, Err(ContractError::MustBePending))
        } else {
            (
                StorageModel {
                    txs: s.txs.insert(tx_id, with_status(s.txs[tx_id], TransactionStatus::Processing, ledger)),
                    ..s
                },
                Ok(seq![
                    EventModel::StatusUpdated(
                        tx_id,
                        TransactionStatus::Pending,
                        TransactionStatus::Processing,
                    ),
                ]),
            )
        },
    }
}

/// A relayer completes a processing deposit.
pub open spec fn mark_completed_spec(s: StorageModel, caller: Seq<u8>, tx_id: Seq<u8>, ledger: u32) -> Step {
    match relayer_guard(s, caller) {
        Some(e) => (s, Err(e)),
        None => if !s.txs.contains_key(tx_id) {
            (s, Err(ContractError::TxNotFound))
        } else if s.txs[tx_id].status != TransactionStatus::Processing {
            (s, Err(ContractError::MustBeProcessing))
        } else {
            let tx = s.txs[tx_id];
            (
                dlq::remove_spec(
                    StorageModel {
                        txs: s.txs.insert(tx_id, with_status(tx, TransactionStatus::Completed, ledger)),
                        ..s
                    },
                    tx_id,
                ),
                Ok(seq![
                    EventModel::StatusUpdated(
                        tx_id,
                        TransactionStatus::Processing,
                        TransactionStatus::Completed,
                    ),
                    EventModel::TransactionCompleted(tx_id, tx.stellar_account, tx.amount, tx.asset_code),
                ]),
            )
        },
    }
}

/// A relayer fails a pending or processing deposit, with a reason; the
/// deposit goes to the dead-letter queue.
pub open spec fn mark_failed_spec(
    s: StorageModel,
    caller: Seq<u8>,
    tx_id: Seq<u8>,
    error_reason: Seq<u8>,
    ledger: u32,
) -> Step {
    match relayer_guard(s, caller) {
        Some(e) => (s, Err(e)),
        None => if error_reason.len() == 0 {
            (s, Err(ContractError::EmptyErrorReason))
        } else if !s.txs.contains_key(tx_id) {
            (s, Err(ContractError::TxNotFound))
        } else if s.txs[tx_id].status == TransactionStatus::Completed {
            (s, Err(ContractError::CannotFailCompleted))
        } else if s.txs[tx_id].status != TransactionStatus::Pending && s.txs[tx_id].status
            != TransactionStatus::Processing {
            (s, Err(ContractError::MustBePendingOrProcessing))
        } else {
            let tx = s.txs[tx_id];
            (
                dlq::push_spec(
                    StorageModel {
                        txs: s.txs.insert(tx_id, with_status(tx, TransactionStatus::Failed, ledger)),
                        ..s
                    },
                    new_dlq_entry_model(ledger, tx_id, error_reason),
                ),
                Ok(seq![
                    EventModel::StatusUpdated(tx_id, tx.status, TransactionStatus::Failed),
                    EventModel::MovedToDlq(tx_id, error_reason),
                    EventModel::TransactionFailed(
                        tx_id,
                        tx.stellar_account,
                        tx.amount,
                        tx.asset_code,
                        error_reason,
                    ),
                ]),
            )
        },
    }
}

/// The admin or the relayer that registered a failed deposit sends it back
/// to pending, within the retry limit. At the limit the refusal publishes
/// `MaxRetriesExceeded` first.
pub open spec fn retry_dlq_spec(s: StorageModel, caller: Seq<u8>, tx_id: Seq<u8>, ledger: u32) -> RefusableStep {
    if s.paused {
        (s, Err((ContractError::ContractPaused, Seq::empty())))
    } else if !s.dlq.contains_key(tx_id) {
        (s, Err((ContractError::DlqEntryNotFound, Seq::empty())))
    } else if !s.txs.contains_key(tx_id) {
        (s, Err((ContractError::TxNotFound, Seq::empty())))
    } else if s.admin is None {
        (s, Err((ContractError::NotInitialised, Seq::empty())))
    } else if caller != s.admin.unwrap() && caller != s.txs[tx_id].relayer {
        (s, Err((ContractError::NotAdminOrDepositRelayer, Seq::empty())))
    } else if s.txs[tx_id].retry_count >= retry_limit(s) {
        (s, Err((ContractError::MaxRetriesExceeded, seq![EventModel::MaxRetriesExceeded(tx_id)])))
    } else {
        let tx = s.txs[tx_id];
        let retried = TransactionModel {
            retry_count: (tx.retry_count + 1) as u32,
            ..with_status(tx, TransactionStatus::Pending, ledger)
        };
        (
            dlq::remove_spec(StorageModel { txs: s.txs.insert(tx_id, retried), ..s }, tx_id),
            Ok(seq![
                EventModel::DlqRetried(tx_id),
                EventModel::StatusUpdated(tx_id, tx.status, TransactionStatus::Pending),
            ]),
        )
    }
}

/// The admin cancels a pending deposit.
pub open spec fn cancel_transaction_spec(s: StorageModel, caller: Seq<u8>, tx_id: Seq<u8>, ledger: u32) -> Step {
    match admin_guard(s, caller) {
        Some(e) => (s, Err(e)),
        None => if !s.txs.contains_key(tx_id) {
            (s, Err(ContractError::TxNotFound))
        } else if s.txs[tx_id].status != TransactionStatus::Pending {
            (s, Err(ContractError::OnlyPendingCancellable))
        } else {
            let tx = s.txs[tx_id];
            (
                dlq::remove_spec(
                    StorageModel {
                        txs: s.txs.insert(tx_id, with_status(tx, TransactionStatus::Cancelled, ledger)),
                        ..s
                    },
                    tx_id,
                ),
                Ok(seq![
                    EventModel::StatusUpdated(
                        tx_id,
                        TransactionStatus::Pending,
                        TransactionStatus::Cancelled,
                    ),
                    EventModel::TransactionCancelled(tx_id, tx.stellar_account, tx.amount, tx.asset_code),
                ]),
            )
        },
    }
}

/// Adds up the amounts of the deposits in order: refused at the first id
/// with no deposit, or at the first partial sum outside `i128`.
pub open spec fn sum_scan(txs: Map<Seq<u8>, TransactionModel>, ids: Seq<Seq<u8>>) -> Result<int, ContractError>
    decreases ids.len(),
{
    if ids.len() == 0 {
        Ok(0)
    } else {
        match sum_scan(txs, ids.drop_last()) {
            Err(e) => Err(e),
            Ok(p) => if !txs.contains_key(ids.last()) {
                Err(ContractError::TxNotFound)
            } else {
                let t = p + txs[ids.last()].amount;
                if i128::MIN <= t <= i128::MAX {
                    Ok(t)
                } else {
                    Err(ContractError::AmountOverflow)
                }
            },
        }
    }
}

/// Checks the deposits to settle in order: the first one that is settled
/// already, or named a second time, or not completed, refuses the batch.
pub open spec fn settle_scan(txs: Map<Seq<u8>, TransactionModel>, ids: Seq<Seq<u8>>) -> Option<ContractError>
    decreases ids.len(),
{
    if ids.len() == 0 {
        None
    } else {
        match settle_scan(txs, ids.drop_last()) {
            Some(e) => Some(e),
            None => {
                let id = ids.last();
                if txs[id].settlement_id.len() > 0 || ids.drop_last().contains(id) {
                    Some(ContractError::AlreadySettled)
                } else if txs[id].status != TransactionStatus::Completed {
                    Some(ContractError::NotCompleted)
                } else {
                    None
                }
            },
        }
    }
}

/// Once the scan of a prefix of the ids is refused, the scan of all of them
/// is refused for the same reason.
pub proof fn lemma_sum_scan_refusal_persists(
    txs: Map<Seq<u8>, TransactionModel>,
    ids: Seq<Seq<u8>>,
    k: int,
)
    requires
        0 <= k <= ids.len(),
        sum_scan(txs, ids.take(k)) is Err,
    ensures
        sum_scan(txs, ids) == sum_scan(txs, ids.take(k)),
    decreases ids.len() - k,
{
    if k == ids.len() {
        assert(ids.take(k) =~= ids);
    } else {
        assert(ids.take(k + 1).drop_last() =~= ids.take(k));
        lemma_sum_scan_refusal_persists(txs, ids, k + 1);
    }
}

/// When the amounts add up, every id names a deposit.
pub proof fn lemma_sum_scan_ok_all_present(txs: Map<Seq<u8>, TransactionModel>, ids: Seq<Seq<u8>>)
    requires
        sum_scan(txs, ids) is Ok,
    ensures
        forall|j: int| 0 <= j < ids.len() ==> txs.contains_key(#[trigger] ids[j]),
    decreases ids.len(),
{
    if ids.len() > 0 {
        lemma_sum_scan_ok_all_present(txs, ids.drop_last());
        assert forall|j: int| 0 <= j < ids.len() implies txs.contains_key(#[trigger] ids[j]) by {
            if j < ids.len() - 1 {
                assert(ids.drop_last()[j] == ids[j]);
            }
        }
    }
}

/// Once the check of a prefix of the ids is refused, the check of all of
/// them is refused for the same reason.
pub proof fn lemma_settle_scan_refusal_persists(
    txs: Map<Seq<u8>, TransactionModel>,
    ids: Seq<Seq<u8>>,
    k: int,
)
    requires
        0 <= k <= ids.len(),
        settle_scan(txs, ids.take(k)) is Some,
    ensures
        settle_scan(txs, ids) == settle_scan(txs, ids.take(k)),
    decreases ids.len() - k,
{
    if k == ids.len() {
        assert(ids.take(k) =~= ids);
    } else {
        assert(ids.take(k + 1).drop_last() =~= ids.take(k));
        lemma_settle_scan_refusal_persists(txs, ids, k + 1);
    }
}

/// When the check passes, each deposit is completed and unsettled, and no
/// id occurs twice.
pub proof fn lemma_settle_scan_passes(txs: Map<Seq<u8>, TransactionModel>, ids: Seq<Seq<u8>>)
    requires
        settle_scan(txs, ids) is None,
    ensures
        forall|j: int|
            0 <= j < ids.len() ==> {
                &&& txs[#[trigger] ids[j]].settlement_id.len() == 0
                &&& txs[ids[j]].status == TransactionStatus::Completed
                &&& !ids.take(j).contains(ids[j])
            },
    decreases ids.len(),
{
    if ids.len() > 0 {
        let n = ids.len() - 1;
        lemma_settle_scan_passes(txs, ids.drop_last());
        assert(ids.take(n) =~= ids.drop_last());
        assert forall|j: int| 0 <= j < ids.len() implies {
            &&& txs[#[trigger] ids[j]].settlement_id.len() == 0
            &&& txs[ids[j]].status == TransactionStatus::Completed
            &&& !ids.take(j).contains(ids[j])
        } by {
            if j < n {
                assert(ids.drop_last()[j] == ids[j]);
                assert(ids.drop_last().take(j) =~= ids.take(j));
            }
        }
    }
}

/// The deposits after the named ones are settled under `settlement_id` at
/// the given ledger.
pub open spec fn settle_all(
    txs: Map<Seq<u8>, TransactionModel>,
    ids: Seq<Seq<u8>>,
    settlement_id: Seq<u8>,
    ledger: u32,
) -> Map<Seq<u8>, TransactionModel> {
    Map::new(
        |k: Seq<u8>| txs.contains_key(k),
        |k: Seq<u8>|
            if ids.contains(k) {
                TransactionModel { settlement_id, updated_ledger: ledger, ..txs[k] }
            } else {
                txs[k]
            },
    )
}

/// The events of a settlement: one `Settled` per deposit, in order, then
/// `SettlementFinalized`.
pub open spec fn settlement_events(
    ids: Seq<Seq<u8>>,
    settlement_id: Seq<u8>,
    asset_code: Seq<u8>,
    total_amount: i128,
) -> Seq<EventModel> {
    Seq::new(ids.len(), |i: int| EventModel::Settled(ids[i], settlement_id)).push(
        EventModel::SettlementFinalized(settlement_id, asset_code, total_amount),
    )
}

/// A relayer settles a batch of completed deposits whose amounts add up to
/// the stated total, over a period that does not end before it starts.
pub open spec fn finalize_settlement_spec(
    s: StorageModel,
    caller: Seq<u8>,
    asset_code: Seq<u8>,
    tx_ids: Seq<Seq<u8>>,
    total_amount: i128,
    period_start: u64,
    period_end: u64,
    ledger: u32,
    timestamp: u64,
) -> IdStep {
    match relayer_guard(s, caller) {
        Some(e) => (s, Err(e)),
        None => if period_start > period_end {
            (s, Err(ContractError::PeriodOrder))
        } else {
            match sum_scan(s.txs, tx_ids) {
                Err(e) => (s, Err(e)),
                Ok(sum) => if sum != total_amount {
                    (s, Err(ContractError::TotalAmountMismatch))
                } else {
                    match settle_scan(s.txs, tx_ids) {
                        Some(e) => (s, Err(e)),
                        None => {
                            let id = settlement_id_of(timestamp, ledger, s.settlement_nonce);
                            let settlement = SettlementModel {
                                id,
                                asset_code,
                                tx_ids,
                                total_amount,
                                period_start,
                                period_end,
                                created_ledger: ledger,
                            };
                            (
                                StorageModel {
                                    settlement_nonce: (s.settlement_nonce + 1) as u32,
                                    txs: settle_all(s.txs, tx_ids, id, ledger),
                                    settlements: s.settlements.insert(id, settlement),
                                    ..s
                                },
                                Ok((id, settlement_events(tx_ids, id, asset_code, total_amount))),
                            )
                        },
                    }
                },
            }
        },
    }
}

/// A call of an entry point that changes the storage, with its arguments.
pub enum Call {
    Initialize { admin: Seq<u8> },
    GrantRelayer { caller: Seq<u8>, relayer: Seq<u8> },
    RevokeRelayer { caller: Seq<u8>, relayer: Seq<u8> },
    ProposeAdmin { caller: Seq<u8>, new_admin: Seq<u8> },
    CancelAdminTransfer { caller: Seq<u8> },
    AcceptAdmin { caller: Seq<u8> },
    TransferAdmin { caller: Seq<u8>, new_admin: Seq<u8> },
    Pause { caller: Seq<u8> },
    Unpause { caller: Seq<u8> },
    AddAsset { caller: Seq<u8>, code: Seq<u8> },
    RemoveAsset { caller: Seq<u8>, code: Seq<u8> },
    SetMinDeposit { caller: Seq<u8>, amount: i128 },
    SetMaxDeposit { caller: Seq<u8>, amount: i128 },
    SetMaxRetries { caller: Seq<u8>, max_retries: u32 },
    SetMaxAssets { caller: Seq<u8>, max_assets: u32 },
    RegisterDeposit {
        caller: Seq<u8>,
        anchor_transaction_id: Seq<u8>,
        stellar_account: Seq<u8>,
        amount: i128,
        asset_code: Seq<u8>,
        memo: Option<Seq<u8>>,
        memo_type: Option<Seq<u8>>,
        ledger: u32,
    },
    MarkProcessing { caller: Seq<u8>, tx_id: Seq<u8>, ledger: u32 },
    MarkCompleted { caller: Seq<u8>, tx_id: Seq<u8>, ledger: u32 },
    MarkFailed { caller: Seq<u8>, tx_id: Seq<u8>, error_reason: Seq<u8>, ledger: u32 },
    RetryDlq { caller: Seq<u8>, tx_id: Seq<u8>, ledger: u32 },
    CancelTransaction { caller: Seq<u8>, tx_id: Seq<u8>, ledger: u32 },
    FinalizeSettlement {
        caller: Seq<u8>,
        asset_code: Seq<u8>,
        tx_ids: Seq<Seq<u8>>,
        total_amount: i128,
        period_start: u64,
        period_end: u64,
        ledger: u32,
        timestamp: u64,
    },
}

/// Drops the id that an entry point returns, keeping its events.
pub open spec fn without_id(step: IdStep) -> Step {
    (step.0, match step.1 {
        Ok((_, events)) => Ok(events),
        Err(e) => Err(e),
    })
}

/// Drops the events that a refusal publishes, keeping its reason.
pub open spec fn without_refusal_events(step: RefusableStep) -> Step {
    (step.0, match step.1 {
        Ok(events) => Ok(events),
        Err((e, _)) => Err(e),
    })
}

/// What a call does, by the model of its entry point.
pub open spec fn apply(s: StorageModel, call: Call) -> Step {
    match call {
        Call::Initialize { admin } => initialize_spec(s, admin),
        Call::GrantRelayer { caller, relayer } => grant_relayer_spec(s, caller, relayer),
        Call::RevokeRelayer { caller, relayer } => revoke_relayer_spec(s, caller, relayer),
        Call::ProposeAdmin { caller, new_admin } => propose_admin_spec(s, caller, new_admin),
        Call::CancelAdminTransfer { caller } => cancel_admin_transfer_spec(s, caller),
        Call::AcceptAdmin { caller } => accept_admin_spec(s, caller),
        Call::TransferAdmin { caller, new_admin } => transfer_admin_spec(s, caller, new_admin),
        Call::Pause { caller } => pause_spec(s, caller),
        Call::Unpause { caller } => unpause_spec(s, caller),
        Call::AddAsset { caller, code } => add_asset_spec(s, caller, code),
        Call::RemoveAsset { caller, code } => remove_asset_spec(s, caller, code),
        Call::SetMinDeposit { caller, amount } => set_min_deposit_spec(s, caller, amount),
        Call::SetMaxDeposit { caller, amount } => set_max_deposit_spec(s, caller, amount),
        Call::SetMaxRetries { caller, max_retries } => set_max_retries_spec(s, caller, max_retries),
        Call::SetMaxAssets { caller, max_assets } => set_max_assets_spec(s, caller, max_assets),
        Call::RegisterDeposit {
            caller,
            anchor_transaction_id,
            stellar_account,
            amount,
            asset_code,
            memo,
            memo_type,
            ledger,
        } => without_id(
            register_deposit_spec(
                s,
                caller,
                anchor_transaction_id,
                stellar_account,
                amount,
                asset_code,
                memo,
                memo_type,
                ledger,
            ),
        ),
        Call::MarkProcessing { caller, tx_id, ledger } => mark_processing_spec(s, caller, tx_id, ledger),
        Call::MarkCompleted { caller, tx_id, ledger } => mark_completed_spec(s, caller, tx_id, ledger),
        Call::MarkFailed { caller, tx_id, error_reason, ledger } => mark_failed_spec(
            s,
            caller,
            tx_id,
            error_reason,
            ledger,
        ),
        Call::RetryDlq { caller, tx_id, ledger } => without_refusal_events(
            retry_dlq_spec(s, caller, tx_id, ledger),
        ),
        Call::CancelTransaction { caller, tx_id, ledger } => cancel_transaction_spec(
            s,
            caller,
            tx_id,
            ledger,
        ),
        Call::FinalizeSettlement {
            caller,
            asset_code,
            tx_ids,
            total_amount,
            period_start,
            period_end,
            ledger,
            timestamp,
        } => without_id(
            finalize_settlement_spec(
                s,
                caller,
                asset_code,
                tx_ids,
                total_amount,
                period_start,
                period_end,
                ledger,
                timestamp,
            ),
        ),
    }
}

} // verus!
