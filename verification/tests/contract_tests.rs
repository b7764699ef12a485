use synapse_contract::error::ContractError;
use synapse_contract::types::{Address, Event, TransactionStatus};
use synapse_contract::SynapseContract;
use soroban_sdk::testutils::EnvTestConfig;
use soroban_sdk::Env;

fn host() -> Env {
    Env::new_with_config(EnvTestConfig { capture_snapshot_at_drop: false })
}

const LEDGER: u32 = 100;

fn addr(name: &str) -> Address {
    Address::new(name.as_bytes().to_vec())
}

fn text(s: &str) -> Vec<u8> {
    s.as_bytes().to_vec()
}

fn usd() -> Vec<u8> {
    text("USD")
}

fn setup() -> (SynapseContract, Address) {
    let mut c = SynapseContract::new();
    let admin = addr("GADMIN");
    c.initialize(&admin).unwrap();
    (c, admin)
}

fn with_relayer_and_usd() -> (SynapseContract, Address, Address) {
    let (mut c, admin) = setup();
    let relayer = addr("GRELAYER");
    c.grant_relayer(&admin, &relayer).unwrap();
    c.add_asset(&admin, &usd()).unwrap();
    (c, admin, relayer)
}

fn register(c: &mut SynapseContract, relayer: &Address, anchor: &str, amount: i128) -> Vec<u8> {
    c.register_deposit(&host(), relayer, &text(anchor), &addr("GACCOUNT"), amount, &usd(), &None, &None, LEDGER)
        .unwrap()
        .0
}

fn has_status_updated(events: &[Event], tx_id: &[u8], to: TransactionStatus) -> bool {
    events.iter().any(|e| matches!(e, Event::StatusUpdated(id, _, s) if id.as_slice() == tx_id && *s == to))
}

// Deposits, events and the asset allowlist.

#[test]
fn cancel_pending_transaction_succeeds() {
    let (mut c, admin, relayer) = with_relayer_and_usd();
    let tx_id = register(&mut c, &relayer, "anchor-cancel-ok", 100_000_000);
    c.cancel_transaction(&admin, &tx_id, LEDGER).unwrap();
    let tx = c.get_transaction(&tx_id).unwrap();
    assert_eq!(tx.status, TransactionStatus::Cancelled);
}

#[test]
fn cancel_processing_transaction_panics() {
    let (mut c, admin, relayer) = with_relayer_and_usd();
    let tx_id = register(&mut c, &relayer, "anchor-cancel-proc", 100_000_000);
    c.mark_processing(&relayer, &tx_id, LEDGER).unwrap();
    let r = c.cancel_transaction(&admin, &tx_id, LEDGER);
    assert_eq!(r.unwrap_err(), ContractError::OnlyPendingCancellable);
    assert_eq!(ContractError::OnlyPendingCancellable.message(), "only Pending transactions can be cancelled");
}

#[test]
fn cancel_completed_transaction_panics() {
    let (mut c, admin, relayer) = with_relayer_and_usd();
    let tx_id = register(&mut c, &relayer, "anchor-cancel-done", 100_000_000);
    c.mark_processing(&relayer, &tx_id, LEDGER).unwrap();
    c.mark_completed(&relayer, &tx_id, LEDGER).unwrap();
    let r = c.cancel_transaction(&admin, &tx_id, LEDGER);
    assert_eq!(r.unwrap_err(), ContractError::OnlyPendingCancellable);
}

#[test]
fn deposit_registered_event_is_emitted() {
    let (mut c, _admin, relayer) = with_relayer_and_usd();
    let anchor_id = text("anchor-132");
    let (tx_id, events) = c
        .register_deposit(&host(), &relayer, &anchor_id, &addr("GACCOUNT"), 100_000_000, &usd(), &None, &None, LEDGER)
        .unwrap();
    let found = events.iter().any(|e| {
        matches!(e, Event::DepositRegistered(id, anchor) if *id == tx_id && *anchor == anchor_id)
    });
    assert!(found, "DepositRegistered event not emitted");
}

#[test]
fn settlement_finalized_event_is_emitted() {
    let (mut c, _admin, relayer) = with_relayer_and_usd();
    let tx_id = register(&mut c, &relayer, "anchor-133", 100_000_000);
    c.mark_processing(&relayer, &tx_id, LEDGER).unwrap();
    c.mark_completed(&relayer, &tx_id, LEDGER).unwrap();
    let (settlement_id, events) = c
        .finalize_settlement(&host(), &relayer, &usd(), &vec![tx_id.clone()], 100_000_000, 0, 1, LEDGER, 0)
        .unwrap();
    let found = events.iter().any(|e| {
        matches!(e, Event::SettlementFinalized(id, asset, total)
            if *id == settlement_id && *asset == usd() && *total == 100_000_000)
    });
    assert!(found, "SettlementFinalized event not emitted");
}

#[test]
fn dlq_entry_added_event_is_emitted_on_mark_failed() {
    let (mut c, _admin, relayer) = with_relayer_and_usd();
    let tx_id = register(&mut c, &relayer, "anchor-134", 50_000_000);
    let events = c.mark_failed(&relayer, &tx_id, &text("timeout"), LEDGER).unwrap();
    let found = events.iter().any(|e| {
        matches!(e, Event::MovedToDlq(id, reason) if *id == tx_id && *reason == text("timeout"))
    });
    assert!(found, "MovedToDlq event not emitted on mark_failed");
}

#[test]
fn status_updated_emitted_on_mark_processing() {
    let (mut c, _admin, relayer) = with_relayer_and_usd();
    let tx_id = register(&mut c, &relayer, "su-processing", 50_000_000);
    let events = c.mark_processing(&relayer, &tx_id, LEDGER).unwrap();
    assert!(has_status_updated(&events, &tx_id, TransactionStatus::Processing));
}

#[test]
fn status_updated_emitted_on_mark_completed() {
    let (mut c, _admin, relayer) = with_relayer_and_usd();
    let tx_id = register(&mut c, &relayer, "su-completed", 50_000_000);
    c.mark_processing(&relayer, &tx_id, LEDGER).unwrap();
    let events = c.mark_completed(&relayer, &tx_id, LEDGER).unwrap();
    assert!(has_status_updated(&events, &tx_id, TransactionStatus::Completed));
}

#[test]
fn status_updated_emitted_on_mark_failed() {
    let (mut c, _admin, relayer) = with_relayer_and_usd();
    let tx_id = register(&mut c, &relayer, "su-failed", 50_000_000);
    let events = c.mark_failed(&relayer, &tx_id, &text("err"), LEDGER).unwrap();
    assert!(has_status_updated(&events, &tx_id, TransactionStatus::Failed));
}

#[test]
fn status_updated_emitted_on_cancel_transaction() {
    let (mut c, admin, relayer) = with_relayer_and_usd();
    let tx_id = register(&mut c, &relayer, "su-cancelled", 50_000_000);
    let events = c.cancel_transaction(&admin, &tx_id, LEDGER).unwrap();
    assert!(has_status_updated(&events, &tx_id, TransactionStatus::Cancelled));
}

#[test]
fn test_transaction_failed_event_emitted() {
    let (mut c, _admin, relayer) = with_relayer_and_usd();
    let tx_id = register(&mut c, &relayer, "anchor-fail", 100_000_000);
    let error_reason = text("simulated failure");
    let events = c.mark_failed(&relayer, &tx_id, &error_reason, LEDGER).unwrap();
    let mut found_simplified = false;
    for e in events.iter() {
        if let Event::TransactionFailed(id, _, _, _, reason) = e {
            if *id == tx_id && *reason == error_reason {
                found_simplified = true;
            }
        }
    }
    assert!(found_simplified, "Simplified TransactionFailed event not found");
}

#[test]
fn test_asset_count_and_cap() {
    let (mut c, admin) = setup();
    assert_eq!(c.asset_count(), 0);
    c.add_asset(&admin, &text("USD")).unwrap();
    c.add_asset(&admin, &text("BTC")).unwrap();
    assert_eq!(c.asset_count(), 2);
    assert_eq!(c.get_max_assets(), 20);
    c.set_max_assets(&admin, 3).unwrap();
    assert_eq!(c.get_max_assets(), 3);
    c.add_asset(&admin, &text("ETH")).unwrap();
    assert_eq!(c.asset_count(), 3);
    let res = c.add_asset(&admin, &text("XLM"));
    assert!(res.is_err());
    assert_eq!(res.unwrap_err(), ContractError::AssetCapReached);
}

#[test]
fn test_remove_asset_decrements_count() {
    let (mut c, admin) = setup();
    let usd = text("USD");
    c.add_asset(&admin, &usd).unwrap();
    assert_eq!(c.asset_count(), 1);
    c.remove_asset(&admin, &usd).unwrap();
    assert_eq!(c.asset_count(), 0);
}
