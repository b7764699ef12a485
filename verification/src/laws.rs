//! Laws of the contract, proved over the models of its entry points.
use vstd::prelude::*;
use crate::crypto::tx_id_of;
use crate::error::ContractError;
use crate::model::{
    accept_admin_spec, add_asset_spec, apply, deposit_refusal, finalize_settlement_spec, initialize_spec,
    propose_admin_spec, admin_guard, register_deposit_spec, retry_dlq_spec, retry_limit, sum_scan,
    settle_scan, relayer_guard, lemma_settle_scan_passes, lemma_sum_scan_ok_all_present, Call,
};
use crate::rules::valid_memo_type;
use crate::storage::assets::asset_cap;
use crate::storage::StorageModel;
use crate::types::{EventModel, TransactionStatus};

verus! {

/// A refused call leaves the storage as it was.
pub proof fn law_refusal_changes_nothing(s: StorageModel, call: Call)
    ensures
        apply(s, call).1 is Err ==> apply(s, call).0 == s,
{
}

/// Whether a call is one that a paused contract still takes: pausing,
/// unpausing, and the first `initialize`.
pub open spec fn allowed_while_paused(call: Call) -> bool {
    call is Pause || call is Unpause || call is Initialize
}

/// While the contract is paused, every other call is refused as paused.
pub proof fn law_paused_refuses(s: StorageModel, call: Call)
    requires
        s.paused,
        !allowed_while_paused(call),
    ensures
        apply(s, call) == (s, Err::<Seq<EventModel>, ContractError>(ContractError::ContractPaused)),
{
}

/// The moves that the deposit lifecycle allows a status to make in one
/// call: Pending to Processing, Processing to Completed, Pending or
/// Processing to Failed, Failed back to Pending, Pending to Cancelled; or
/// none.
pub open spec fn lifecycle_edge(from: TransactionStatus, to: TransactionStatus) -> bool {
    ||| from == to
    ||| from == TransactionStatus::Pending && to == TransactionStatus::Processing
    ||| from == TransactionStatus::Processing && to == TransactionStatus::Completed
    ||| (from == TransactionStatus::Pending || from == TransactionStatus::Processing) && to
        == TransactionStatus::Failed
    ||| from == TransactionStatus::Failed && to == TransactionStatus::Pending
    ||| from == TransactionStatus::Pending && to == TransactionStatus::Cancelled
}

/// A new deposit's id does not collide with the id of a different deposit
/// already stored (ids are SHA-256 digests of anchor transaction ids).
pub open spec fn no_id_collision(s: StorageModel, call: Call) -> bool {
    call matches Call::RegisterDeposit { anchor_transaction_id, .. } ==> (
    s.anchor_index.contains_key(anchor_transaction_id) || !s.txs.contains_key(
        tx_id_of(anchor_transaction_id),
    ))
}

/// Between two storages: no deposit is deleted, each status moves only
/// along the lifecycle, and new deposits are pending.
pub open spec fn statuses_follow_lifecycle(s: StorageModel, s2: StorageModel) -> bool {
    &&& forall|k: Seq<u8>| #[trigger]
        s.txs.contains_key(k) ==> s2.txs.contains_key(k) && lifecycle_edge(
            s.txs[k].status,
            s2.txs[k].status,
        )
    &&& forall|k: Seq<u8>| #[trigger]
        s2.txs.contains_key(k) && !s.txs.contains_key(k) ==> s2.txs[k].status
            == TransactionStatus::Pending
}

/// Deposits are never deleted; each status moves only along the
/// lifecycle, and new deposits start pending.
pub proof fn law_status_follows_lifecycle(s: StorageModel, call: Call)
    requires
        lifecycle_inv(s),
        no_id_collision(s, call),
    ensures
        statuses_follow_lifecycle(s, apply(s, call).0),
{
    match call {
        Call::Initialize { .. } => {
            assert(statuses_follow_lifecycle(s, apply(s, call).0));
        },
        Call::GrantRelayer { .. } => {
            assert(statuses_follow_lifecycle(s, apply(s, call).0));
        },
        Call::RevokeRelayer { .. } => {
            assert(statuses_follow_lifecycle(s, apply(s, call).0));
        },
        Call::ProposeAdmin { .. } => {
            assert(statuses_follow_lifecycle(s, apply(s, call).0));
        },
        Call::CancelAdminTransfer { .. } => {
            assert(statuses_follow_lifecycle(s, apply(s, call).0));
        },
        Call::AcceptAdmin { .. } => {
            assert(statuses_follow_lifecycle(s, apply(s, call).0));
        },
        Call::TransferAdmin { .. } => {
            assert(statuses_follow_lifecycle(s, apply(s, call).0));
        },
        Call::Pause { .. } => {
            assert(statuses_follow_lifecycle(s, apply(s, call).0));
        },
        Call::Unpause { .. } => {
            assert(statuses_follow_lifecycle(s, apply(s, call).0));
        },
        Call::AddAsset { .. } => {
            assert(statuses_follow_lifecycle(s, apply(s, call).0));
        },
        Call::RemoveAsset { .. } => {
            assert(statuses_follow_lifecycle(s, apply(s, call).0));
        },
        Call::SetMinDeposit { .. } => {
            assert(statuses_follow_lifecycle(s, apply(s, call).0));
        },
        Call::SetMaxDeposit { .. } => {
            assert(statuses_follow_lifecycle(s, apply(s, call).0));
        },
        Call::SetMaxRetries { .. } => {
            assert(statuses_follow_lifecycle(s, apply(s, call).0));
        },
        Call::SetMaxAssets { .. } => {
            assert(statuses_follow_lifecycle(s, apply(s, call).0));
        },
        Call::RegisterDeposit { .. } => {
            assert(statuses_follow_lifecycle(s, apply(s, call).0));
        },
        Call::MarkProcessing { .. } => {
            assert(statuses_follow_lifecycle(s, apply(s, call).0));
        },
        Call::MarkCompleted { .. } => {
            assert(statuses_follow_lifecycle(s, apply(s, call).0));
        },
        Call::MarkFailed { .. } => {
            assert(statuses_follow_lifecycle(s, apply(s, call).0));
        },
        Call::RetryDlq { .. } => {
            assert(statuses_follow_lifecycle(s, apply(s, call).0));
        },
        Call::CancelTransaction { .. } => {
            assert(statuses_follow_lifecycle(s, apply(s, call).0));
        },
        Call::FinalizeSettlement { .. } => {
            assert(statuses_follow_lifecycle(s, apply(s, call).0));
        },
    }
}

/// A deposit is in the dead-letter queue exactly when it is failed.
pub open spec fn failed_iff_queued(s: StorageModel) -> bool {
    forall|k: Seq<u8>| #[trigger]
        s.dlq.contains_key(k) <==> (s.txs.contains_key(k) && s.txs[k].status
            == TransactionStatus::Failed)
}

/// A deposit that carries a settlement id is completed.
pub open spec fn settled_are_completed(s: StorageModel) -> bool {
    forall|k: Seq<u8>| #[trigger]
        s.txs.contains_key(k) && s.txs[k].settlement_id.len() > 0 ==> s.txs[k].status
            == TransactionStatus::Completed
}

/// What the lifecycle keeps true of the storage in every reachable state.
pub open spec fn lifecycle_inv(s: StorageModel) -> bool {
    &&& failed_iff_queued(s)
    &&& settled_are_completed(s)
    &&& s.keys_agree()
}

/// Empty storage meets the lifecycle invariant.
pub proof fn law_lifecycle_inv_initially()
    ensures
        lifecycle_inv(StorageModel::empty()),
{
}

/// Every call keeps the lifecycle invariant.
pub proof fn law_lifecycle_inv_kept(s: StorageModel, call: Call)
    requires
        lifecycle_inv(s),
        no_id_collision(s, call),
    ensures
        lifecycle_inv(apply(s, call).0),
{
    match call {
        Call::Initialize { .. } => {
            assert(lifecycle_inv(apply(s, call).0));
        },
        Call::GrantRelayer { .. } => {
            assert(lifecycle_inv(apply(s, call).0));
        },
        Call::RevokeRelayer { .. } => {
            assert(lifecycle_inv(apply(s, call).0));
        },
        Call::ProposeAdmin { .. } => {
            assert(lifecycle_inv(apply(s, call).0));
        },
        Call::CancelAdminTransfer { .. } => {
            assert(lifecycle_inv(apply(s, call).0));
        },
        Call::AcceptAdmin { .. } => {
            assert(lifecycle_inv(apply(s, call).0));
        },
        Call::TransferAdmin { .. } => {
            assert(lifecycle_inv(apply(s, call).0));
        },
        Call::Pause { .. } => {
            assert(lifecycle_inv(apply(s, call).0));
        },
        Call::Unpause { .. } => {
            assert(lifecycle_inv(apply(s, call).0));
        },
        Call::AddAsset { .. } => {
            assert(lifecycle_inv(apply(s, call).0));
        },
        Call::RemoveAsset { .. } => {
            assert(lifecycle_inv(apply(s, call).0));
        },
        Call::SetMinDeposit { .. } => {
            assert(lifecycle_inv(apply(s, call).0));
        },
        Call::SetMaxDeposit { .. } => {
            assert(lifecycle_inv(apply(s, call).0));
        },
        Call::SetMaxRetries { .. } => {
            assert(lifecycle_inv(apply(s, call).0));
        },
        Call::SetMaxAssets { .. } => {
            assert(lifecycle_inv(apply(s, call).0));
        },
        Call::RegisterDeposit { .. } => {
            assert(lifecycle_inv(apply(s, call).0));
        },
        Call::MarkProcessing { .. } => {
            assert(lifecycle_inv(apply(s, call).0));
        },
        Call::MarkCompleted { .. } => {
            assert(lifecycle_inv(apply(s, call).0));
        },
        Call::MarkFailed { .. } => {
            assert(lifecycle_inv(apply(s, call).0));
        },
        Call::RetryDlq { .. } => {
            assert(lifecycle_inv(apply(s, call).0));
        },
        Call::CancelTransaction { .. } => {
            assert(lifecycle_inv(apply(s, call).0));
        },
        Call::FinalizeSettlement {
            caller,
            asset_code,
            tx_ids,
            total_amount,
            period_start,
            period_end,
            ledger,
            timestamp,
        } => {
            let s2 = apply(s, call).0;
            if relayer_guard(s, caller) is None && period_start <= period_end && sum_scan(
                s.txs,
                tx_ids,
            ) == Ok::<int, ContractError>(total_amount as int) && settle_scan(s.txs, tx_ids) is None {
                lemma_settle_scan_passes(s.txs, tx_ids);
                assert forall|k: Seq<u8>| #[trigger]
                    s2.txs.contains_key(k) && s2.txs[k].settlement_id.len() > 0 implies s2.txs[k].status
                    == TransactionStatus::Completed by {
                    if tx_ids.contains(k) {
                        let j = choose|j: int| 0 <= j < tx_ids.len() && tx_ids[j] == k;
                        assert(s.txs[tx_ids[j]].status == TransactionStatus::Completed);
                    }
                }
            }
            assert(lifecycle_inv(s2));
        },
    }
}

/// `initialize` succeeds once: after it, another `initialize` is refused.
pub proof fn law_initialize_once(s: StorageModel, admin: Seq<u8>, other: Seq<u8>)
    requires
        initialize_spec(s, admin).1 is Ok,
    ensures
        initialize_spec(initialize_spec(s, admin).0, other) == (
            initialize_spec(s, admin).0,
            Err::<Seq<EventModel>, ContractError>(ContractError::AlreadyInitialised),
        ),
{
}

/// A successor proposed by the admin who then accepts becomes the admin,
/// and no transfer is pending any more.
pub proof fn law_admin_handover(s: StorageModel, admin: Seq<u8>, new_admin: Seq<u8>)
    requires
        admin_guard(s, admin) is None,
    ensures
        accept_admin_spec(propose_admin_spec(s, admin, new_admin).0, new_admin) == (
            StorageModel { admin: Some(new_admin), pending_admin: None, ..s },
            Ok::<Seq<EventModel>, ContractError>(seq![EventModel::AdminTransferred(admin, new_admin)]),
        ),
{
}

/// Registering an anchor transaction id a second time, by any relayer and
/// with any otherwise acceptable details, gives back the deposit id of the
/// first registration and changes nothing.
pub proof fn law_register_idempotent(
    s: StorageModel,
    caller: Seq<u8>,
    anchor_transaction_id: Seq<u8>,
    stellar_account: Seq<u8>,
    amount: i128,
    asset_code: Seq<u8>,
    memo: Option<Seq<u8>>,
    memo_type: Option<Seq<u8>>,
    ledger: u32,
    caller2: Seq<u8>,
    stellar_account2: Seq<u8>,
    amount2: i128,
    asset_code2: Seq<u8>,
    memo2: Option<Seq<u8>>,
    memo_type2: Option<Seq<u8>>,
    ledger2: u32,
)
    requires
        register_deposit_spec(
            s,
            caller,
            anchor_transaction_id,
            stellar_account,
            amount,
            asset_code,
            memo,
            memo_type,
            ledger,
        ).1 is Ok,
        deposit_refusal(
            register_deposit_spec(
                s,
                caller,
                anchor_transaction_id,
                stellar_account,
                amount,
                asset_code,
                memo,
                memo_type,
                ledger,
            ).0,
            caller2,
            anchor_transaction_id,
            amount2,
            asset_code2,
            memo_type2,
        ) is None,
    ensures
        ({
            let first = register_deposit_spec(
                s,
                caller,
                anchor_transaction_id,
                stellar_account,
                amount,
                asset_code,
                memo,
                memo_type,
                ledger,
            );
            register_deposit_spec(
                first.0,
                caller2,
                anchor_transaction_id,
                stellar_account2,
                amount2,
                asset_code2,
                memo2,
                memo_type2,
                ledger2,
            ) == (first.0, Ok::<(Seq<u8>, Seq<EventModel>), ContractError>(
                (first.1->Ok_0.0, Seq::empty()),
            ))
        }),
{
}

/// A retry happens only below the retry limit; it makes the deposit
/// pending again with one more retry counted, and takes it out of the
/// dead-letter queue.
pub proof fn law_retry_within_limit(s: StorageModel, caller: Seq<u8>, tx_id: Seq<u8>, ledger: u32)
    requires
        retry_dlq_spec(s, caller, tx_id, ledger).1 is Ok,
    ensures
        ({
            let s2 = retry_dlq_spec(s, caller, tx_id, ledger).0;
            &&& s.txs[tx_id].retry_count < retry_limit(s)
            &&& s2.txs[tx_id].status == TransactionStatus::Pending
            &&& s2.txs[tx_id].retry_count == s.txs[tx_id].retry_count + 1
            &&& !s2.dlq.contains_key(tx_id)
        }),
{
}

/// A settlement is recorded under the id returned, with a total that is
/// the sum of the amounts of its deposits, each of which was completed and
/// now carries that settlement id.
pub proof fn law_settlement_records_batch(
    s: StorageModel,
    caller: Seq<u8>,
    asset_code: Seq<u8>,
    tx_ids: Seq<Seq<u8>>,
    total_amount: i128,
    period_start: u64,
    period_end: u64,
    ledger: u32,
    timestamp: u64,
)
    requires
        finalize_settlement_spec(
            s,
            caller,
            asset_code,
            tx_ids,
            total_amount,
            period_start,
            period_end,
            ledger,
            timestamp,
        ).1 is Ok,
    ensures
        ({
            let step = finalize_settlement_spec(
                s,
                caller,
                asset_code,
                tx_ids,
                total_amount,
                period_start,
                period_end,
                ledger,
                timestamp,
            );
            let id = step.1->Ok_0.0;
            let s2 = step.0;
            &&& sum_scan(s.txs, tx_ids) == Ok::<int, ContractError>(total_amount as int)
            &&& s2.settlements.contains_key(id)
            &&& s2.settlements[id].total_amount == total_amount
            &&& s2.settlements[id].tx_ids == tx_ids
            &&& forall|j: int|
                0 <= j < tx_ids.len() ==> {
                    &&& s.txs.contains_key(#[trigger] tx_ids[j])
                    &&& s.txs[tx_ids[j]].status == TransactionStatus::Completed
                    &&& s2.txs[tx_ids[j]].settlement_id == id
                }
        }),
{
    lemma_sum_scan_ok_all_present(s.txs, tx_ids);
    lemma_settle_scan_passes(s.txs, tx_ids);
    assert forall|j: int| 0 <= j < tx_ids.len() implies tx_ids.contains(#[trigger] tx_ids[j]) by {
    }
}

/// A deposit is recorded only while the contract runs, from a relayer, for
/// a non-empty anchor id, with an accepted memo type if one is given, and
/// for a positive amount of an allowed asset that lies within the
/// configured minimum and maximum; every other amount is refused and
/// changes nothing.
pub proof fn law_deposit_amount_accepted(
    s: StorageModel,
    caller: Seq<u8>,
    anchor_transaction_id: Seq<u8>,
    stellar_account: Seq<u8>,
    amount: i128,
    asset_code: Seq<u8>,
    memo: Option<Seq<u8>>,
    memo_type: Option<Seq<u8>>,
    ledger: u32,
)
    ensures
        ({
            let step = register_deposit_spec(
                s,
                caller,
                anchor_transaction_id,
                stellar_account,
                amount,
                asset_code,
                memo,
                memo_type,
                ledger,
            );
            &&& step.1 is Ok ==> {
                &&& !s.paused
                &&& s.relayers.contains(caller)
                &&& anchor_transaction_id.len() > 0
                &&& (memo_type is Some ==> valid_memo_type(memo_type.unwrap()))
                &&& amount > 0
                &&& s.assets.contains(asset_code)
                &&& (s.min_deposit is Some ==> amount >= s.min_deposit.unwrap())
                &&& (s.max_deposit is Some ==> amount <= s.max_deposit.unwrap())
            }
            &&& amount <= 0 ==> step.1 is Err && step.0 == s
        }),
{
}

/// A batch that names a deposit which already carries a settlement id, or
/// names one deposit twice, is refused and leaves the storage as it was,
/// whatever the other checks of the call decide.
pub proof fn law_settled_deposit_not_settled_again(
    s: StorageModel,
    caller: Seq<u8>,
    asset_code: Seq<u8>,
    tx_ids: Seq<Seq<u8>>,
    total_amount: i128,
    period_start: u64,
    period_end: u64,
    ledger: u32,
    timestamp: u64,
    j: int,
)
    requires
        0 <= j < tx_ids.len(),
        s.txs[tx_ids[j]].settlement_id.len() > 0 || tx_ids.take(j).contains(tx_ids[j]),
    ensures
        ({
            let step = finalize_settlement_spec(
                s,
                caller,
                asset_code,
                tx_ids,
                total_amount,
                period_start,
                period_end,
                ledger,
                timestamp,
            );
            &&& step.1 is Err
            &&& step.0 == s
        }),
{
    if settle_scan(s.txs, tx_ids) is None {
        lemma_settle_scan_passes(s.txs, tx_ids);
        assert(s.txs[tx_ids[j]].settlement_id.len() == 0);
    }
}

/// Allowing an asset never takes the allowlist beyond its cap, the one set
/// with `set_max_assets` or else the default: a call that grows the list
/// leaves at most as many assets as the cap allows.
pub proof fn law_asset_cap_respected(s: StorageModel, caller: Seq<u8>, code: Seq<u8>)
    requires
        s.inv(),
    ensures
        ({
            let s2 = add_asset_spec(s, caller, code).0;
            &&& s2.inv()
            &&& s2.assets.len() > s.assets.len() ==> s2.assets.len() <= asset_cap(s2)
        }),
{
}

/// The caller of a call, if it has one.
pub open spec fn caller_of(call: Call) -> Option<Seq<u8>> {
    match call {
        Call::Initialize { .. } => None,
        Call::GrantRelayer { caller, .. } => Some(caller),
        Call::RevokeRelayer { caller, .. } => Some(caller),
        Call::ProposeAdmin { caller, .. } => Some(caller),
        Call::CancelAdminTransfer { caller } => Some(caller),
        Call::AcceptAdmin { caller } => Some(caller),
        Call::TransferAdmin { caller, .. } => Some(caller),
        Call::Pause { caller } => Some(caller),
        Call::Unpause { caller } => Some(caller),
        Call::AddAsset { caller, .. } => Some(caller),
        Call::RemoveAsset { caller, .. } => Some(caller),
        Call::SetMinDeposit { caller, .. } => Some(caller),
        Call::SetMaxDeposit { caller, .. } => Some(caller),
        Call::SetMaxRetries { caller, .. } => Some(caller),
        Call::SetMaxAssets { caller, .. } => Some(caller),
        Call::RegisterDeposit { caller, .. } => Some(caller),
        Call::MarkProcessing { caller, .. } => Some(caller),
        Call::MarkCompleted { caller, .. } => Some(caller),
        Call::MarkFailed { caller, .. } => Some(caller),
        Call::RetryDlq { caller, .. } => Some(caller),
        Call::CancelTransaction { caller, .. } => Some(caller),
        Call::FinalizeSettlement { caller, .. } => Some(caller),
    }
}

/// The calls that only the admin may make.
pub open spec fn admin_only(call: Call) -> bool {
    ||| call is GrantRelayer
    ||| call is RevokeRelayer
    ||| call is ProposeAdmin
    ||| call is CancelAdminTransfer
    ||| call is TransferAdmin
    ||| call is Pause
    ||| call is Unpause
    ||| call is AddAsset
    ||| call is RemoveAsset
    ||| call is SetMinDeposit
    ||| call is SetMaxDeposit
    ||| call is SetMaxRetries
    ||| call is SetMaxAssets
    ||| call is CancelTransaction
}

/// The calls that only a relayer may make.
pub open spec fn relayer_only(call: Call) -> bool {
    ||| call is RegisterDeposit
    ||| call is MarkProcessing
    ||| call is MarkCompleted
    ||| call is MarkFailed
    ||| call is FinalizeSettlement
}

/// A call that only the admin may make succeeds only when the admin makes
/// it; one that only a relayer may make, only when a relayer makes it.
pub proof fn law_only_authorised_callers(s: StorageModel, call: Call)
    requires
        apply(s, call).1 is Ok,
    ensures
        admin_only(call) ==> s.admin == caller_of(call),
        relayer_only(call) ==> s.relayers.contains(caller_of(call).unwrap()),
{
    match call {
        Call::Initialize { .. } => {
            assert(admin_only(call) ==> s.admin == caller_of(call));
        },
        Call::GrantRelayer { .. } => {
            assert(admin_only(call) ==> s.admin == caller_of(call));
        },
        Call::RevokeRelayer { .. } => {
            assert(admin_only(call) ==> s.admin == caller_of(call));
        },
        Call::ProposeAdmin { .. } => {
            assert(admin_only(call) ==> s.admin == caller_of(call));
        },
        Call::CancelAdminTransfer { .. } => {
            assert(admin_only(call) ==> s.admin == caller_of(call));
        },
        Call::AcceptAdmin { .. } => {
            assert(admin_only(call) ==> s.admin == caller_of(call));
        },
        Call::TransferAdmin { .. } => {
            assert(admin_only(call) ==> s.admin == caller_of(call));
        },
        Call::Pause { .. } => {
            assert(admin_only(call) ==> s.admin == caller_of(call));
        },
        Call::Unpause { .. } => {
            assert(admin_only(call) ==> s.admin == caller_of(call));
        },
        Call::AddAsset { .. } => {
            assert(admin_only(call) ==> s.admin == caller_of(call));
        },
        Call::RemoveAsset { .. } => {
            assert(admin_only(call) ==> s.admin == caller_of(call));
        },
        Call::SetMinDeposit { .. } => {
            assert(admin_only(call) ==> s.admin == caller_of(call));
        },
        Call::SetMaxDeposit { .. } => {
            assert(admin_only(call) ==> s.admin == caller_of(call));
        },
        Call::SetMaxRetries { .. } => {
            assert(admin_only(call) ==> s.admin == caller_of(call));
        },
        Call::SetMaxAssets { .. } => {
            assert(admin_only(call) ==> s.admin == caller_of(call));
        },
        Call::RegisterDeposit { .. } => {
            assert(admin_only(call) ==> s.admin == caller_of(call));
        },
        Call::MarkProcessing { .. } => {
            assert(admin_only(call) ==> s.admin == caller_of(call));
        },
        Call::MarkCompleted { .. } => {
            assert(admin_only(call) ==> s.admin == caller_of(call));
        },
        Call::MarkFailed { .. } => {
            assert(admin_only(call) ==> s.admin == caller_of(call));
        },
        Call::RetryDlq { .. } => {
            assert(admin_only(call) ==> s.admin == caller_of(call));
        },
        Call::CancelTransaction { .. } => {
            assert(admin_only(call) ==> s.admin == caller_of(call));
        },
        Call::FinalizeSettlement { .. } => {
            assert(admin_only(call) ==> s.admin == caller_of(call));
        },
    }
}

/// Every status change from `s` to `s2` is published in `events`.
pub open spec fn status_changes_published(
    s: StorageModel,
    s2: StorageModel,
    events: Seq<EventModel>,
) -> bool {
    forall|k: Seq<u8>| #[trigger]
        s.txs.contains_key(k) && s2.txs.contains_key(k) && s.txs[k].status != s2.txs[k].status
            ==> events.contains(EventModel::StatusUpdated(k, s.txs[k].status, s2.txs[k].status))
}

proof fn lemma_single_change_published(
    s: StorageModel,
    s2: StorageModel,
    events: Seq<EventModel>,
    id: Seq<u8>,
    i: int,
)
    requires
        s2.txs == s.txs.insert(id, s2.txs[id]),
        0 <= i < events.len(),
        s.txs.contains_key(id) ==> events[i] == EventModel::StatusUpdated(
            id,
            s.txs[id].status,
            s2.txs[id].status,
        ),
    ensures
        status_changes_published(s, s2, events),
{
    assert forall|k: Seq<u8>| #[trigger]
        s.txs.contains_key(k) && s2.txs.contains_key(k) && s.txs[k].status != s2.txs[k].status
        implies events.contains(EventModel::StatusUpdated(k, s.txs[k].status, s2.txs[k].status)) by {
        assert(k == id);
    }
}

/// Every status change a call makes is published as a `StatusUpdated`
/// event naming the deposit and its old and new status.
pub proof fn law_status_changes_are_published(s: StorageModel, call: Call)
    requires
        apply(s, call).1 is Ok,
        no_id_collision(s, call),
    ensures
        status_changes_published(s, apply(s, call).0, apply(s, call).1->Ok_0),
{
    let r = apply(s, call);
    match call {
        Call::MarkProcessing { tx_id, .. } => {
            lemma_single_change_published(s, r.0, r.1->Ok_0, tx_id, 0);
        },
        Call::MarkCompleted { tx_id, .. } => {
            lemma_single_change_published(s, r.0, r.1->Ok_0, tx_id, 0);
        },
        Call::MarkFailed { tx_id, .. } => {
            lemma_single_change_published(s, r.0, r.1->Ok_0, tx_id, 0);
        },
        Call::RetryDlq { tx_id, .. } => {
            lemma_single_change_published(s, r.0, r.1->Ok_0, tx_id, 1);
        },
        Call::CancelTransaction { tx_id, .. } => {
            lemma_single_change_published(s, r.0, r.1->Ok_0, tx_id, 0);
        },
        Call::RegisterDeposit { .. } => {
            assert(status_changes_published(s, r.0, r.1->Ok_0));
        },
        Call::FinalizeSettlement { .. } => {
            assert(status_changes_published(s, r.0, r.1->Ok_0));
        },
        _ => {
            assert(r.0.txs == s.txs);
        },
    }
}

/// At the retry limit a retry is refused, publishing `MaxRetriesExceeded`
/// for the deposit and changing nothing; below it, the retry goes ahead.
pub proof fn law_retry_limit_refusal_published(
    s: StorageModel,
    caller: Seq<u8>,
    tx_id: Seq<u8>,
    ledger: u32,
)
    requires
        !s.paused,
        s.dlq.contains_key(tx_id),
        s.txs.contains_key(tx_id),
        s.admin is Some,
        caller == s.admin.unwrap() || caller == s.txs[tx_id].relayer,
    ensures
        s.txs[tx_id].retry_count >= retry_limit(s) ==> retry_dlq_spec(s, caller, tx_id, ledger) == (
            s,
            Err::<Seq<EventModel>, (ContractError, Seq<EventModel>)>(
                (ContractError::MaxRetriesExceeded, seq![EventModel::MaxRetriesExceeded(tx_id)]),
            ),
        ),
        s.txs[tx_id].retry_count < retry_limit(s) ==> retry_dlq_spec(s, caller, tx_id, ledger).1 is Ok,
{
}

/// Between two storages: a settlement id, once set on a deposit, stays.
pub open spec fn settlement_ids_kept(s: StorageModel, s2: StorageModel) -> bool {
    forall|k: Seq<u8>| #[trigger]
        s.txs.contains_key(k) && s.txs[k].settlement_id.len() > 0 ==> s2.txs.contains_key(k)
            && s2.txs[k].settlement_id == s.txs[k].settlement_id
}

/// A deposit's settlement id, once set, never changes, so each deposit is
/// in at most one settlement.
pub proof fn law_settlement_id_never_changes(s: StorageModel, call: Call)
    requires
        no_id_collision(s, call),
    ensures
        settlement_ids_kept(s, apply(s, call).0),
{
    match call {
        Call::Initialize { .. } => {
            assert(settlement_ids_kept(s, apply(s, call).0));
        },
        Call::GrantRelayer { .. } => {
            assert(settlement_ids_kept(s, apply(s, call).0));
        },
        Call::RevokeRelayer { .. } => {
            assert(settlement_ids_kept(s, apply(s, call).0));
        },
        Call::ProposeAdmin { .. } => {
            assert(settlement_ids_kept(s, apply(s, call).0));
        },
        Call::CancelAdminTransfer { .. } => {
            assert(settlement_ids_kept(s, apply(s, call).0));
        },
        Call::AcceptAdmin { .. } => {
            assert(settlement_ids_kept(s, apply(s, call).0));
        },
        Call::TransferAdmin { .. } => {
            assert(settlement_ids_kept(s, apply(s, call).0));
        },
        Call::Pause { .. } => {
            assert(settlement_ids_kept(s, apply(s, call).0));
        },
        Call::Unpause { .. } => {
            assert(settlement_ids_kept(s, apply(s, call).0));
        },
        Call::AddAsset { .. } => {
            assert(settlement_ids_kept(s, apply(s, call).0));
        },
        Call::RemoveAsset { .. } => {
            assert(settlement_ids_kept(s, apply(s, call).0));
        },
        Call::SetMinDeposit { .. } => {
            assert(settlement_ids_kept(s, apply(s, call).0));
        },
        Call::SetMaxDeposit { .. } => {
            assert(settlement_ids_kept(s, apply(s, call).0));
        },
        Call::SetMaxRetries { .. } => {
            assert(settlement_ids_kept(s, apply(s, call).0));
        },
        Call::SetMaxAssets { .. } => {
            assert(settlement_ids_kept(s, apply(s, call).0));
        },
        Call::RegisterDeposit { .. } => {
            assert(settlement_ids_kept(s, apply(s, call).0));
        },
        Call::MarkProcessing { .. } => {
            assert(settlement_ids_kept(s, apply(s, call).0));
        },
        Call::MarkCompleted { .. } => {
            assert(settlement_ids_kept(s, apply(s, call).0));
        },
        Call::MarkFailed { .. } => {
            assert(settlement_ids_kept(s, apply(s, call).0));
        },
        Call::RetryDlq { .. } => {
            assert(settlement_ids_kept(s, apply(s, call).0));
        },
        Call::CancelTransaction { .. } => {
            assert(settlement_ids_kept(s, apply(s, call).0));
        },
        Call::FinalizeSettlement {
            caller,
            asset_code,
            tx_ids,
            total_amount,
            period_start,
            period_end,
            ledger,
            timestamp,
        } => {
            let s2 = apply(s, call).0;
            if relayer_guard(s, caller) is None && period_start <= period_end && sum_scan(
                s.txs,
                tx_ids,
            ) == Ok::<int, ContractError>(total_amount as int) && settle_scan(s.txs, tx_ids) is None {
                lemma_settle_scan_passes(s.txs, tx_ids);
                assert forall|k: Seq<u8>| #[trigger]
                    s.txs.contains_key(k) && s.txs[k].settlement_id.len() > 0 implies s2.txs.contains_key(k)
                    && s2.txs[k].settlement_id == s.txs[k].settlement_id by {
                    if tx_ids.contains(k) {
                        let j = choose|j: int| 0 <= j < tx_ids.len() && tx_ids[j] == k;
                        assert(s.txs[tx_ids[j]].settlement_id.len() == 0);
                    }
                }
            }
            assert(settlement_ids_kept(s, s2));
        },
    }
}

} // verus!
