use synapse_contract::bytes::{copy_bytes, hex_encode_bytes};
use synapse_contract::crypto::{settlement_id_from, tx_id_from_anchor};
use synapse_contract::error::ContractError;
use synapse_contract::rules::{check_asset_code, check_memo_type};
use synapse_contract::storage::{dlq, temp_lock, Storage};
use synapse_contract::types::{Address, DlqEntry, Event, Transaction, TransactionStatus, MAX_RETRIES};
use synapse_contract::SynapseContract;
use soroban_sdk::testutils::EnvTestConfig;
use soroban_sdk::Env;

fn host() -> Env {
    Env::new_with_config(EnvTestConfig { capture_snapshot_at_drop: false })
}

const SEQ: u32 = 7;

fn who(name: &str) -> Address {
    Address::new(name.as_bytes().to_vec())
}

fn b(s: &str) -> Vec<u8> {
    s.as_bytes().to_vec()
}

fn fresh() -> (SynapseContract, Address, Address) {
    let mut c = SynapseContract::new();
    let admin = who("GADMIN");
    let relayer = who("GRELAYER");
    c.initialize(&admin).unwrap();
    c.grant_relayer(&admin, &relayer).unwrap();
    c.add_asset(&admin, &b("USD")).unwrap();
    (c, admin, relayer)
}

fn deposit(c: &mut SynapseContract, relayer: &Address, anchor: &str, amount: i128) -> Vec<u8> {
    c.register_deposit(&host(), relayer, &b(anchor), &who("GACCOUNT"), amount, &b("USD"), &None, &None, SEQ)
        .unwrap()
        .0
}

fn completed(c: &mut SynapseContract, relayer: &Address, anchor: &str, amount: i128) -> Vec<u8> {
    let id = deposit(c, relayer, anchor, amount);
    c.mark_processing(relayer, &id, SEQ).unwrap();
    c.mark_completed(relayer, &id, SEQ).unwrap();
    id
}

// Ids and encodings: exact values.

#[test]
fn hex_encoding_is_lowercase_two_digits_per_byte() {
    assert_eq!(hex_encode_bytes(&[0x00, 0x0f, 0xa5, 0xff], 4), b("000fa5ff"));
    assert_eq!(hex_encode_bytes(&[0xab, 0xcd], 1), b("ab"));
    assert_eq!(hex_encode_bytes(&[], 0), Vec::<u8>::new());
}

#[test]
fn tx_id_is_hex_of_sha256_of_anchor() {
    assert_eq!(
        tx_id_from_anchor(&host(), &b("anchor-132")),
        b("e41befe27d3ea03b57a00b531df58190fc4dc83d7d72812f95924131f53f5afc")
    );
    assert_eq!(
        tx_id_from_anchor(&host(), &b("a")),
        b("ca978112ca1bbdcafac231b39a23dc4da786eff8147c4e72b9807785afee48bb")
    );
}

#[test]
fn settlement_id_is_hex_of_first_half_of_digest() {
    assert_eq!(settlement_id_from(&host(), 1_700_000_000, 42, 0), b("afd50851bc79b52927cde1097f65ad8b"));
    assert_eq!(settlement_id_from(&host(), 0, 0, 0), b("374708fff7719dd5979ec875d56cd228"));
    assert_eq!(settlement_id_from(&host(), 0, 0, 1), b("7c3ccd10bb7ec37b46d37926ae627426"));
}

#[test]
fn register_deposit_returns_hashed_tx_id_and_records_it() {
    let (mut c, _admin, relayer) = fresh();
    let id = deposit(&mut c, &relayer, "anchor-132", 100_000_000);
    assert_eq!(id, b("e41befe27d3ea03b57a00b531df58190fc4dc83d7d72812f95924131f53f5afc"));
    let tx = c.get_transaction(&id).unwrap();
    assert_eq!(tx.id, id);
    assert_eq!(tx.anchor_transaction_id, b("anchor-132"));
    assert_eq!(tx.amount, 100_000_000);
    assert_eq!(tx.status, TransactionStatus::Pending);
    assert_eq!(tx.relayer, relayer);
    assert_eq!(tx.created_ledger, SEQ);
    assert_eq!(tx.updated_ledger, SEQ);
    assert!(tx.settlement_id.is_empty());
    assert_eq!(tx.retry_count, 0);
    assert_eq!(tx.callback_type, None);
}

// Laws on concrete values.

#[test]
fn register_deposit_is_idempotent() {
    let (mut c, _admin, relayer) = fresh();
    let id1 = deposit(&mut c, &relayer, "anchor-idem", 100);
    let (id2, events) = c
        .register_deposit(&host(), &relayer, &b("anchor-idem"), &who("GOTHER"), 555, &b("USD"), &None, &None, SEQ + 1)
        .unwrap();
    assert_eq!(id1, id2);
    assert!(events.is_empty());
    assert_eq!(c.get_transaction(&id1).unwrap().amount, 100);
}

#[test]
fn refused_call_changes_nothing() {
    let (mut c, _admin, relayer) = fresh();
    let id = deposit(&mut c, &relayer, "anchor-refused", 10);
    let before = c.get_transaction(&id).unwrap();
    assert_eq!(c.mark_completed(&relayer, &id, SEQ + 5).unwrap_err(), ContractError::MustBeProcessing);
    assert_eq!(c.get_transaction(&id).unwrap(), before);
    assert_eq!(c.get_dlq_count(), 0);
}

#[test]
fn paused_contract_refuses_and_unpause_restores() {
    let (mut c, admin, relayer) = fresh();
    let events = c.pause(&admin).unwrap();
    assert_eq!(events, vec![Event::ContractPaused(admin.duplicate())]);
    assert!(c.is_paused());
    let r = c.register_deposit(&host(), &relayer, &b("anchor-p"), &who("GACCOUNT"), 1, &b("USD"), &None, &None, SEQ);
    assert_eq!(r.unwrap_err(), ContractError::ContractPaused);
    assert_eq!(c.grant_relayer(&admin, &who("GX")).unwrap_err(), ContractError::ContractPaused);
    assert_eq!(c.retry_dlq(&admin, &b("x"), SEQ).unwrap_err().error, ContractError::ContractPaused);
    assert_eq!(c.pause(&admin).unwrap().len(), 1);
    c.unpause(&admin).unwrap();
    assert!(!c.is_paused());
    deposit(&mut c, &relayer, "anchor-p", 1);
}

#[test]
fn full_lifecycle_pending_to_completed() {
    let (mut c, _admin, relayer) = fresh();
    let id = deposit(&mut c, &relayer, "anchor-life", 42);
    c.mark_processing(&relayer, &id, SEQ + 1).unwrap();
    let events = c.mark_completed(&relayer, &id, SEQ + 2).unwrap();
    assert_eq!(
        events,
        vec![
            Event::StatusUpdated(id.clone(), TransactionStatus::Processing, TransactionStatus::Completed),
            Event::TransactionCompleted(id.clone(), who("GACCOUNT"), 42, b("USD")),
        ]
    );
    let tx = c.get_transaction(&id).unwrap();
    assert_eq!(tx.status, TransactionStatus::Completed);
    assert_eq!(tx.updated_ledger, SEQ + 2);
}

#[test]
fn failed_deposit_is_queued_and_retry_returns_it_to_pending() {
    let (mut c, admin, relayer) = fresh();
    let id = deposit(&mut c, &relayer, "anchor-retry", 5);
    c.mark_failed(&relayer, &id, &b("timeout"), SEQ).unwrap();
    assert_eq!(c.get_dlq_count(), 1);
    let entry = c.get_dlq_entry(&id).unwrap();
    assert_eq!(entry.tx_id, id);
    assert_eq!(entry.error_reason, b("timeout"));
    assert_eq!(entry.retry_count, 0);
    assert_eq!(entry.moved_at_ledger, SEQ);
    let events = c.retry_dlq(&admin, &id, SEQ + 3).unwrap();
    assert_eq!(
        events,
        vec![
            Event::DlqRetried(id.clone()),
            Event::StatusUpdated(id.clone(), TransactionStatus::Failed, TransactionStatus::Pending),
        ]
    );
    let tx = c.get_transaction(&id).unwrap();
    assert_eq!(tx.status, TransactionStatus::Pending);
    assert_eq!(tx.retry_count, 1);
    assert!(c.get_dlq_entry(&id).is_none());
    assert_eq!(c.get_dlq_count(), 0);
}

#[test]
fn dlq_count_tracks_entries() {
    let (mut c, _admin, relayer) = fresh();
    assert_eq!(c.get_dlq_count(), 0);
    let a = deposit(&mut c, &relayer, "anchor-d1", 1);
    let bb = deposit(&mut c, &relayer, "anchor-d2", 1);
    c.mark_failed(&relayer, &a, &b("e"), SEQ).unwrap();
    assert_eq!(c.get_dlq_count(), 1);
    c.mark_failed(&relayer, &bb, &b("e"), SEQ).unwrap();
    assert_eq!(c.get_dlq_count(), 2);
    c.retry_dlq(&relayer, &a, SEQ).unwrap();
    assert_eq!(c.get_dlq_count(), 1);
}

#[test]
fn retries_stop_at_the_limit() {
    let (mut c, admin, relayer) = fresh();
    c.set_max_retries(&admin, 2).unwrap();
    assert_eq!(c.get_max_retries(), 2);
    let id = deposit(&mut c, &relayer, "anchor-limit", 1);
    for _ in 0..2 {
        c.mark_failed(&relayer, &id, &b("e"), SEQ).unwrap();
        c.retry_dlq(&relayer, &id, SEQ).unwrap();
    }
    c.mark_failed(&relayer, &id, &b("e"), SEQ).unwrap();
    assert_eq!(c.retry_dlq(&relayer, &id, SEQ).unwrap_err().error, ContractError::MaxRetriesExceeded);
    assert_eq!(c.get_transaction(&id).unwrap().retry_count, 2);
    assert!(c.get_dlq_entry(&id).is_some());
}

#[test]
fn default_retry_limit_is_five() {
    let (c, _admin, _relayer) = fresh();
    assert_eq!(c.get_max_retries(), MAX_RETRIES);
    assert_eq!(MAX_RETRIES, 5);
}

#[test]
fn admin_handover_by_proposal_and_acceptance() {
    let (mut c, admin, _relayer) = fresh();
    let new_admin = who("GNEW");
    let events = c.propose_admin(&admin, &new_admin).unwrap();
    assert_eq!(events, vec![Event::AdminTransferProposed(admin.duplicate(), new_admin.duplicate())]);
    assert_eq!(c.get_pending_admin(), Some(new_admin.duplicate()));
    assert_eq!(c.accept_admin(&who("GWRONG")).unwrap_err(), ContractError::NotPendingAdmin);
    let events = c.accept_admin(&new_admin).unwrap();
    assert_eq!(events, vec![Event::AdminTransferred(admin.duplicate(), new_admin.duplicate())]);
    assert_eq!(c.get_admin().unwrap(), new_admin);
    assert_eq!(c.get_pending_admin(), None);
    assert_eq!(c.accept_admin(&new_admin).unwrap_err(), ContractError::NoPendingAdmin);
}

#[test]
fn transfer_admin_updates_admin() {
    let (mut c, admin, _relayer) = fresh();
    let new_admin = who("GNEXT");
    c.transfer_admin(&admin, &new_admin).unwrap();
    assert_eq!(c.get_admin().unwrap(), new_admin);
    assert_eq!(c.transfer_admin(&admin, &admin).unwrap_err(), ContractError::NotAdmin);
}

#[test]
fn initialize_only_once() {
    let mut c = SynapseContract::new();
    assert_eq!(c.get_admin().unwrap_err(), ContractError::NotInitialised);
    let events = c.initialize(&who("GA")).unwrap();
    assert_eq!(events, vec![Event::Initialized(who("GA"))]);
    assert_eq!(c.initialize(&who("GB")).unwrap_err(), ContractError::AlreadyInitialised);
    assert_eq!(c.get_admin().unwrap(), who("GA"));
}

#[test]
fn settlement_marks_every_deposit_and_records_total() {
    let (mut c, _admin, relayer) = fresh();
    let a = completed(&mut c, &relayer, "anchor-s1", 60_000_000);
    let bb = completed(&mut c, &relayer, "anchor-s2", 40_000_000);
    let ids = vec![a.clone(), bb.clone()];
    let (sid, events) = c.finalize_settlement(&host(), &relayer, &b("USD"), &ids, 100_000_000, 10, 20, SEQ, 1_700_000_000).unwrap();
    assert_eq!(sid, b("51662f69b371109415d722341c91021d"));
    assert_eq!(
        events,
        vec![
            Event::Settled(a.clone(), sid.clone()),
            Event::Settled(bb.clone(), sid.clone()),
            Event::SettlementFinalized(sid.clone(), b("USD"), 100_000_000),
        ]
    );
    let s = c.get_settlement(&sid).unwrap();
    assert_eq!(s.id, sid);
    assert_eq!(s.total_amount, 100_000_000);
    assert_eq!(s.tx_ids, ids);
    assert_eq!(s.period_start, 10);
    assert_eq!(s.period_end, 20);
    assert_eq!(s.created_ledger, SEQ);
    assert_eq!(c.get_transaction(&a).unwrap().settlement_id, sid);
    assert_eq!(c.get_transaction(&bb).unwrap().settlement_id, sid);
    let (sid2, _) = c.finalize_settlement(&host(), &relayer, &b("USD"), &vec![], 0, 10, 20, SEQ, 1_700_000_000).unwrap();
    assert_eq!(sid2, b("7a0db2ae206e5ab4760a5502c3c5a264"));
    assert_ne!(sid2, sid);
}

// Refusals: one input for each reason.

#[test]
fn settlement_refusals() {
    let (mut c, _admin, relayer) = fresh();
    let done = completed(&mut c, &relayer, "anchor-r1", 10);
    let pending = deposit(&mut c, &relayer, "anchor-r2", 10);
    let usd = b("USD");
    let r = c.finalize_settlement(&host(), &relayer, &usd, &vec![done.clone()], 10, 5, 4, SEQ, 0);
    assert_eq!(r.unwrap_err(), ContractError::PeriodOrder);
    let r = c.finalize_settlement(&host(), &relayer, &usd, &vec![b("missing")], 10, 0, 0, SEQ, 0);
    assert_eq!(r.unwrap_err(), ContractError::TxNotFound);
    let r = c.finalize_settlement(&host(), &relayer, &usd, &vec![done.clone()], 11, 0, 0, SEQ, 0);
    assert_eq!(r.unwrap_err(), ContractError::TotalAmountMismatch);
    let r = c.finalize_settlement(&host(), &relayer, &usd, &vec![pending.clone()], 10, 0, 0, SEQ, 0);
    assert_eq!(r.unwrap_err(), ContractError::NotCompleted);
    let r = c.finalize_settlement(&host(), &relayer, &usd, &vec![done.clone(), done.clone()], 20, 0, 0, SEQ, 0);
    assert_eq!(r.unwrap_err(), ContractError::AlreadySettled);
    let r = c.finalize_settlement(&host(), &who("GNOBODY"), &usd, &vec![done.clone()], 10, 0, 0, SEQ, 0);
    assert_eq!(r.unwrap_err(), ContractError::NotRelayer);
    assert!(c.get_transaction(&done).unwrap().settlement_id.is_empty());
    c.finalize_settlement(&host(), &relayer, &usd, &vec![done.clone()], 10, 0, 0, SEQ, 0).unwrap();
    let r = c.finalize_settlement(&host(), &relayer, &usd, &vec![done.clone()], 10, 0, 0, SEQ, 0);
    assert_eq!(r.unwrap_err(), ContractError::AlreadySettled);
    assert_eq!(c.get_settlement(&b("nope")).unwrap_err(), ContractError::SettlementNotFound);
}

#[test]
fn settlement_amount_overflow_is_refused() {
    let (mut c, _admin, relayer) = fresh();
    let a = completed(&mut c, &relayer, "anchor-o1", i128::MAX);
    let bb = completed(&mut c, &relayer, "anchor-o2", 1);
    let r = c.finalize_settlement(&host(), &relayer, &b("USD"), &vec![a, bb], 0, 0, 0, SEQ, 0);
    assert_eq!(r.unwrap_err(), ContractError::AmountOverflow);
}

#[test]
fn deposit_refusals() {
    let (mut c, admin, relayer) = fresh();
    let acct = who("GACCOUNT");
    let usd = b("USD");
    let r = c.register_deposit(&host(), &who("GX"), &b("a1"), &acct, 1, &usd, &None, &None, SEQ);
    assert_eq!(r.unwrap_err(), ContractError::NotRelayer);
    let r = c.register_deposit(&host(), &relayer, &b(""), &acct, 1, &usd, &None, &None, SEQ);
    assert_eq!(r.unwrap_err(), ContractError::EmptyAnchorId);
    let r = c.register_deposit(&host(), &relayer, &b("a1"), &acct, 1, &b("EUR"), &None, &None, SEQ);
    assert_eq!(r.unwrap_err(), ContractError::AssetNotAllowed);
    c.set_min_deposit(&admin, 100).unwrap();
    c.set_max_deposit(&admin, 500_000_000).unwrap();
    assert_eq!(c.get_min_deposit(), Some(100));
    assert_eq!(c.get_max_deposit(), 500_000_000);
    let r = c.register_deposit(&host(), &relayer, &b("a1"), &acct, 99, &usd, &None, &None, SEQ);
    assert_eq!(r.unwrap_err(), ContractError::AmountBelowMin);
    let r = c.register_deposit(&host(), &relayer, &b("a1"), &acct, 500_000_001, &usd, &None, &None, SEQ);
    assert_eq!(r.unwrap_err(), ContractError::AmountAboveMax);
    c.register_deposit(&host(), &relayer, &b("a-at-max"), &acct, 500_000_000, &usd, &None, &None, SEQ).unwrap();
    c.register_deposit(&host(), &relayer, &b("a-at-min"), &acct, 100, &usd, &None, &None, SEQ).unwrap();
    let r = c.register_deposit(&host(), &relayer, &b("a1"), &acct, 100, &usd, &None, &Some(b("memo")), SEQ);
    assert_eq!(r.unwrap_err(), ContractError::InvalidMemoType);
    let (id, _) = c
        .register_deposit(&host(), &relayer, &b("a1"), &acct, 100, &usd, &Some(b("1234567890")), &Some(b("id")), SEQ)
        .unwrap();
    let tx = c.get_transaction(&id).unwrap();
    assert_eq!(tx.memo, Some(b("1234567890")));
    assert_eq!(tx.memo_type, Some(b("id")));
}

#[test]
fn max_deposit_is_zero_before_set_and_settings_must_be_positive() {
    let (mut c, admin, _relayer) = fresh();
    assert_eq!(c.get_max_deposit(), 0);
    assert_eq!(c.get_min_deposit(), None);
    assert_eq!(c.set_max_deposit(&admin, 0).unwrap_err(), ContractError::MaxDepositNotPositive);
    assert_eq!(c.set_max_deposit(&admin, -1).unwrap_err(), ContractError::MaxDepositNotPositive);
    assert_eq!(c.set_min_deposit(&admin, 0).unwrap_err(), ContractError::MinDepositNotPositive);
    assert_eq!(c.set_max_retries(&admin, 0).unwrap_err(), ContractError::MaxRetriesZero);
    assert_eq!(c.set_max_assets(&admin, 0).unwrap_err(), ContractError::MaxAssetsZero);
    assert_eq!(c.set_max_deposit(&who("GX"), 5).unwrap_err(), ContractError::NotAdmin);
}

#[test]
fn status_refusals() {
    let (mut c, admin, relayer) = fresh();
    let id = deposit(&mut c, &relayer, "anchor-st", 1);
    assert_eq!(c.mark_processing(&relayer, &b("none"), SEQ).unwrap_err(), ContractError::TxNotFound);
    assert_eq!(c.mark_failed(&relayer, &id, &b(""), SEQ).unwrap_err(), ContractError::EmptyErrorReason);
    c.mark_processing(&relayer, &id, SEQ).unwrap();
    assert_eq!(c.mark_processing(&relayer, &id, SEQ).unwrap_err(), ContractError::MustBePending);
    c.mark_completed(&relayer, &id, SEQ).unwrap();
    assert_eq!(c.mark_failed(&relayer, &id, &b("e"), SEQ).unwrap_err(), ContractError::CannotFailCompleted);
    let other = deposit(&mut c, &relayer, "anchor-st2", 1);
    c.mark_failed(&relayer, &other, &b("e"), SEQ).unwrap();
    assert_eq!(
        c.mark_failed(&relayer, &other, &b("e"), SEQ).unwrap_err(),
        ContractError::MustBePendingOrProcessing
    );
    assert_eq!(c.retry_dlq(&relayer, &id, SEQ).unwrap_err().error, ContractError::DlqEntryNotFound);
    assert_eq!(
        c.retry_dlq(&who("GSTRANGER"), &other, SEQ).unwrap_err().error,
        ContractError::NotAdminOrDepositRelayer
    );
    c.retry_dlq(&admin, &other, SEQ).unwrap();
}

#[test]
fn relayer_and_asset_administration() {
    let (mut c, admin, relayer) = fresh();
    assert!(c.is_relayer(&relayer));
    assert_eq!(c.grant_relayer(&relayer, &who("GY")).unwrap_err(), ContractError::NotAdmin);
    let events = c.revoke_relayer(&admin, &relayer).unwrap();
    assert_eq!(events, vec![Event::RelayerRevoked(relayer.duplicate())]);
    assert!(!c.is_relayer(&relayer));
    assert_eq!(c.revoke_relayer(&admin, &relayer).unwrap_err(), ContractError::AddressNotRelayer);
    assert!(c.is_asset_allowed(&b("USD")));
    assert_eq!(c.add_asset(&admin, &b("usd")).unwrap_err(), ContractError::InvalidAssetCode);
    assert_eq!(c.add_asset(&admin, &b("")).unwrap_err(), ContractError::InvalidAssetCode);
    assert_eq!(c.add_asset(&admin, &b("ABCDEFGHIJKLM")).unwrap_err(), ContractError::InvalidAssetCode);
    c.add_asset(&admin, &b("ABCDEFGHIJ12")).unwrap();
    assert_eq!(c.asset_count(), 2);
    let events = c.add_asset(&admin, &b("USD")).unwrap();
    assert_eq!(events, vec![Event::AssetAdded(b("USD"))]);
    assert_eq!(c.asset_count(), 2);
    c.remove_asset(&admin, &b("USD")).unwrap();
    assert!(!c.is_asset_allowed(&b("USD")));
    assert_eq!(c.remove_asset(&admin, &b("USD")).unwrap_err(), ContractError::AssetNotInAllowlist);
}

#[test]
fn asset_code_and_memo_type_rules() {
    assert!(check_asset_code(&b("USDC")));
    assert!(check_asset_code(&b("X1")));
    assert!(!check_asset_code(&b("US D")));
    assert!(!check_asset_code(&b("")));
    for m in ["text", "id", "hash", "return"] {
        assert!(check_memo_type(&b(m)));
    }
    assert!(!check_memo_type(&b("TEXT")));
    assert!(!check_memo_type(&b("")));
}

#[test]
fn error_messages_match_the_contract_panics() {
    assert_eq!(ContractError::ContractPaused.message(), "contract paused");
    assert_eq!(ContractError::NotAdmin.message(), "not admin");
    assert_eq!(ContractError::AmountBelowMin.message(), "amount below min deposit");
    assert_eq!(ContractError::PeriodOrder.message(), "period_start must be <= period_end");
}

#[test]
fn storage_locks_and_dlq_entries() {
    let mut st = Storage::new();
    let key = b("k");
    assert!(!temp_lock::is_locked(&st, &key));
    temp_lock::lock(&mut st, &key).unwrap();
    assert!(temp_lock::is_locked(&st, &key));
    assert_eq!(temp_lock::lock(&mut st, &key).unwrap_err(), ContractError::LockActive);
    temp_lock::unlock(&mut st, &key);
    assert!(!temp_lock::is_locked(&st, &key));
    dlq::push(&mut st, DlqEntry::new(3, b("t"), b("r")));
    dlq::push(&mut st, DlqEntry::new(4, b("t"), b("r2")));
    assert_eq!(dlq::get_count(&st), 1);
    dlq::update(&mut st, DlqEntry::new(5, b("t"), b("r3")));
    assert_eq!(dlq::get(&st, &b("t")).unwrap().moved_at_ledger, 5);
    dlq::remove(&mut st, &b("t"));
    dlq::remove(&mut st, &b("t"));
    assert_eq!(dlq::get_count(&st), 0);
}

#[test]
fn records_copy_faithfully() {
    let tx = Transaction::new(
        9,
        b("id"),
        b("anchor"),
        who("GACC"),
        who("GREL"),
        77,
        b("USD"),
        Some(b("m")),
        None,
        None,
    );
    assert_eq!(tx.duplicate(), tx);
    assert_eq!(copy_bytes(&b("xyz")), b("xyz"));
}

#[test]
fn storage_parts_round_trip() {
    let (mut c, admin, relayer) = fresh();
    let a = completed(&mut c, &relayer, "anchor-rt1", 10);
    let f = deposit(&mut c, &relayer, "anchor-rt2", 20);
    c.mark_failed(&relayer, &f, &b("boom"), SEQ).unwrap();
    let (sid, _) = c.finalize_settlement(&host(), &relayer, &b("USD"), &vec![a.clone()], 10, 0, 1, SEQ, 5).unwrap();
    c.propose_admin(&admin, &who("GNEXT")).unwrap();
    let parts = c.into_parts();
    assert_eq!(parts.asset_count, 1);
    assert_eq!(parts.dlq_count, 1);
    assert_eq!(parts.txs.len(), 2);
    assert_eq!(parts.settlement_nonce, 1);
    let back = SynapseContract::from_parts(parts).unwrap();
    assert_eq!(back.get_admin().unwrap(), admin);
    assert_eq!(back.get_pending_admin(), Some(who("GNEXT")));
    assert!(back.is_relayer(&relayer));
    assert!(back.is_asset_allowed(&b("USD")));
    assert_eq!(back.get_transaction(&a).unwrap().settlement_id, sid);
    assert_eq!(back.get_dlq_entry(&f).unwrap().error_reason, b("boom"));
    assert_eq!(back.get_dlq_count(), 1);
    assert_eq!(back.get_settlement(&sid).unwrap().total_amount, 10);
}

#[test]
fn storage_parts_with_wrong_counts_are_refused() {
    let (c, _admin, _relayer) = fresh();
    let mut parts = c.into_parts();
    parts.asset_count = 3;
    assert!(SynapseContract::from_parts(parts).is_none());
    let (c2, _admin2, _relayer2) = fresh();
    let mut parts2 = c2.into_parts();
    parts2.dlq_count = 1;
    assert!(SynapseContract::from_parts(parts2).is_none());
}

#[test]
fn register_deposit_panics_when_amount_is_zero() {
    let (mut c, _admin, relayer) = fresh();
    let r = c.register_deposit(&host(), &relayer, &b("zero-amount"), &who("GACCOUNT"), 0, &b("USD"), &None, &None, SEQ);
    assert_eq!(r.unwrap_err(), ContractError::AmountNotPositive);
    assert_eq!(ContractError::AmountNotPositive.message(), "amount must be greater than zero");
    assert!(c.get_transaction(&tx_id_from_anchor(&host(), &b("zero-amount"))).is_err());
}

#[test]
fn register_deposit_panics_when_amount_is_negative() {
    let (mut c, _admin, relayer) = fresh();
    let r = c.register_deposit(&host(), &relayer, &b("negative-amount"), &who("GACCOUNT"), -1, &b("USD"), &None, &None, SEQ);
    assert_eq!(r.unwrap_err(), ContractError::AmountNotPositive);
}

#[test]
fn grant_existing_relayer_panics() {
    let (mut c, admin, relayer) = fresh();
    assert_eq!(c.grant_relayer(&admin, &relayer).unwrap_err(), ContractError::RelayerAlreadyGranted);
    assert_eq!(ContractError::RelayerAlreadyGranted.message(), "address is already a relayer");
    assert!(c.is_relayer(&relayer));
}

#[test]
fn max_retries_exceeded_emits_event() {
    let (mut c, admin, relayer) = fresh();
    let id = deposit(&mut c, &relayer, "max-retries-event", 50_000_000);
    c.mark_failed(&relayer, &id, &b("err"), SEQ).unwrap();
    for _ in 0..MAX_RETRIES {
        c.retry_dlq(&admin, &id, SEQ).unwrap();
        c.mark_failed(&relayer, &id, &b("err"), SEQ).unwrap();
    }
    let refusal = c.retry_dlq(&admin, &id, SEQ).unwrap_err();
    assert_eq!(refusal.error, ContractError::MaxRetriesExceeded);
    assert_eq!(refusal.events, vec![Event::MaxRetriesExceeded(id.clone())]);
    let tx = c.get_transaction(&id).unwrap();
    assert_eq!(tx.status, TransactionStatus::Failed);
    assert_eq!(tx.retry_count, 5);
    assert!(c.get_dlq_entry(&id).is_some());
}

#[test]
fn is_initialized_reflects_bootstrap_state() {
    let mut c = SynapseContract::new();
    assert!(!c.is_initialized());
    c.initialize(&who("GADMIN")).unwrap();
    assert!(c.is_initialized());
}

#[test]
fn cancel_admin_transfer_happy_path() {
    let (mut c, admin, _relayer) = fresh();
    let pending = who("GPENDING");
    c.propose_admin(&admin, &pending).unwrap();
    assert_eq!(c.get_pending_admin(), Some(pending.duplicate()));
    let events = c.cancel_admin_transfer(&admin).unwrap();
    assert_eq!(c.get_pending_admin(), None);
    assert_eq!(events, vec![Event::AdminTransferCancelled(pending)]);
}

#[test]
fn cancel_admin_transfer_refusals() {
    let (mut c, admin, _relayer) = fresh();
    assert_eq!(c.cancel_admin_transfer(&admin).unwrap_err(), ContractError::NoPendingAdminTransfer);
    let pending = who("GPENDING");
    c.propose_admin(&admin, &pending).unwrap();
    assert_eq!(c.cancel_admin_transfer(&pending).unwrap_err(), ContractError::NotAdmin);
    c.pause(&admin).unwrap();
    assert_eq!(c.cancel_admin_transfer(&admin).unwrap_err(), ContractError::ContractPaused);
    assert_eq!(c.get_pending_admin(), Some(pending));
}

#[test]
fn returned_ids_have_fixed_lengths() {
    let (mut c, _admin, relayer) = fresh();
    let id = completed(&mut c, &relayer, "anchor-len", 3);
    assert_eq!(id.len(), 64);
    let (sid, _) = c.finalize_settlement(&host(), &relayer, &b("USD"), &vec![id], 3, 0, 0, SEQ, 9).unwrap();
    assert_eq!(sid.len(), 32);
}

#[test]
fn derives_new_id_only_for_accepted_new_anchors() {
    let (mut c, admin, relayer) = fresh();
    let usd = b("USD");
    assert!(c.derives_new_id(&relayer, &b("fresh"), 10, &usd, &None));
    assert!(!c.derives_new_id(&relayer, &b("fresh"), 0, &usd, &None));
    assert!(!c.derives_new_id(&admin, &b("fresh"), 10, &usd, &None));
    assert!(!c.derives_new_id(&relayer, &b("fresh"), 10, &b("EUR"), &None));
    assert!(!c.derives_new_id(&relayer, &b("fresh"), 10, &usd, &Some(b("bogus"))));
    deposit(&mut c, &relayer, "fresh", 10);
    assert!(!c.derives_new_id(&relayer, &b("fresh"), 10, &usd, &None));
}

#[test]
fn batch_naming_a_deposit_twice_is_refused() {
    let (mut c, _admin, relayer) = fresh();
    let id = completed(&mut c, &relayer, "twice", 4);
    let r = c.finalize_settlement(&host(), &relayer, &b("USD"), &vec![id.clone(), id.clone()], 8, 0, 0, SEQ, 9);
    assert_eq!(r.unwrap_err(), ContractError::AlreadySettled);
    assert_eq!(c.get_transaction(&id).unwrap().settlement_id, Vec::<u8>::new());
}
