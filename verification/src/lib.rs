//! The Synapse deposit contract as a verified state machine.
//!
//! Fiat deposits registered by relayers move through
//! Pending -> Processing -> Completed, or fail into a dead-letter queue from
//! which they may be retried, and completed deposits are settled in batches.
//! Every entry point of [`SynapseContract`] is proved to do exactly what its
//! model in [`model`] says: the storage afterwards, the events it publishes,
//! or the reason it refuses the call, in which case nothing changes.
pub mod access;
pub mod bytes;
pub mod crypto;
pub mod error;
pub mod laws;
pub mod model;
pub mod outcomes;
pub mod rules;
pub mod storage;
pub mod table;
pub mod types;

use vstd::prelude::*;
use crate::bytes::{bytes_list_view, copy_bytes, copy_bytes_list, opt_bytes_view};
use crate::crypto::{settlement_id_from, settlement_id_of, tx_id_from_anchor};
use soroban_sdk::Env;
use crate::error::ContractError;
use crate::model::{
    accept_admin_spec, add_asset_spec, cancel_admin_transfer_spec, admin_guard, cancel_transaction_spec, deposit_refusal,
    finalize_settlement_spec, grant_relayer_spec, initialize_spec, mark_completed_spec,
    mark_failed_spec, mark_processing_spec, pause_spec, propose_admin_spec, register_deposit_spec,
    relayer_guard, remove_asset_spec, retry_dlq_spec, revoke_relayer_spec, set_max_assets_spec,
    set_max_deposit_spec, set_max_retries_spec, set_min_deposit_spec, settle_all, settle_scan,
    settlement_events, sum_scan, transfer_admin_spec, unpause_spec, retry_limit,
    lemma_settle_scan_passes, lemma_settle_scan_refusal_persists, lemma_sum_scan_ok_all_present,
    lemma_sum_scan_refusal_persists,
};
use crate::rules::{check_asset_code, check_memo_type};
use crate::storage::{
    admin, assets, deposits, dlq, max_assets, max_deposit, max_retries, min_deposit, nonce, pause,
    parts_consistent, pending_admin, relayers, settlements, Storage, StorageModel, StorageParts,
    MAX_ASSETS,
};
use crate::types::{
    opt_address_view, Address, DlqEntry, Event, EventModel, Settlement, Transaction,
    TransactionStatus, events_view, MAX_RETRIES,
};

verus! {

/// A contract instance: its ledger storage, and the entry points that act on
/// it. Authorisation of the caller (`require_auth`) and the ledger's
/// sequence and timestamp come from the host; the entry points take them as
/// given.
pub struct SynapseContract {
    storage: Storage,
}

impl View for SynapseContract {
    type V = StorageModel;

    closed spec fn view(&self) -> StorageModel {
        self.storage@
    }
}

/// The model of what an entry point that returns nothing hands back.
pub open spec fn step_view(r: Result<Vec<Event>, ContractError>) -> Result<Seq<EventModel>, ContractError> {
    match r {
        Ok(v) => Ok(events_view(v@)),
        Err(e) => Err(e),
    }
}

/// The model of what an entry point that returns an id hands back.
pub open spec fn id_step_view(r: Result<(Vec<u8>, Vec<Event>), ContractError>) -> Result<
    (Seq<u8>, Seq<EventModel>),
    ContractError,
> {
    match r {
        Ok((id, v)) => Ok((id@, events_view(v@))),
        Err(e) => Err(e),
    }
}

/// A refusal that publishes events before the call is reverted.
#[derive(Debug, PartialEq, Eq)]
pub struct Refusal {
    pub error: ContractError,
    pub events: Vec<Event>,
}

impl Refusal {
    /// A refusal that publishes nothing.
    pub fn silent(error: ContractError) -> (r: Refusal)
        ensures
            r.error == error,
            events_view(r.events@) == Seq::<EventModel>::empty(),
    {
        Refusal { error, events: no_events() }
    }
}

/// The model of what an entry point whose refusals may publish events hands
/// back.
pub open spec fn refusable_step_view(r: Result<Vec<Event>, Refusal>) -> Result<
    Seq<EventModel>,
    (ContractError, Seq<EventModel>),
> {
    match r {
        Ok(v) => Ok(events_view(v@)),
        Err(f) => Err((f.error, events_view(f.events@))),
    }
}

/// Whether a deposit gets as far as deriving a new deposit id from its
/// anchor transaction id.
pub open spec fn deposit_derives_id(
    s: StorageModel,
    caller: Seq<u8>,
    anchor_transaction_id: Seq<u8>,
    amount: i128,
    asset_code: Seq<u8>,
    memo_type: Option<Seq<u8>>,
) -> bool {
    &&& deposit_refusal(s, caller, anchor_transaction_id, amount, asset_code, memo_type) is None
    &&& !s.anchor_index.contains_key(anchor_transaction_id)
}

/// Whether a settlement gets as far as advancing the settlement counter.
pub open spec fn settlement_advances_counter(
    s: StorageModel,
    caller: Seq<u8>,
    tx_ids: Seq<Seq<u8>>,
    total_amount: i128,
    period_start: u64,
    period_end: u64,
) -> bool {
    &&& relayer_guard(s, caller) is None
    &&& period_start <= period_end
    &&& sum_scan(s.txs, tx_ids) == Ok::<int, ContractError>(total_amount as int)
}

/// Why a deposit would be refused, if it would be.
fn deposit_refusal_check(
    st: &Storage,
    caller: &Address,
    anchor_transaction_id: &Vec<u8>,
    amount: i128,
    asset_code: &Vec<u8>,
    memo_type: &Option<Vec<u8>>,
) -> (r: Option<ContractError>)
    requires
        st.wf(),
    ensures
        r == deposit_refusal(
            st@,
            caller@,
            anchor_transaction_id@,
            amount,
            asset_code@,
            opt_bytes_view(*memo_type),
        ),
{
    if let Some(e) = relayer_guard_check(st, caller) {
        return Some(e);
    }
    if anchor_transaction_id.len() == 0 {
        return Some(ContractError::EmptyAnchorId);
    }
    if let Err(e) = assets::require_allowed(st, asset_code) {
        return Some(e);
    }
    if amount <= 0 {
        return Some(ContractError::AmountNotPositive);
    }
    if let Some(min) = min_deposit::get(st) {
        if amount < min {
            return Some(ContractError::AmountBelowMin);
        }
    }
    if let Some(max) = max_deposit::get(st) {
        if amount > max {
            return Some(ContractError::AmountAboveMax);
        }
    }
    if let Some(mt) = memo_type {
        if !check_memo_type(mt) {
            return Some(ContractError::InvalidMemoType);
        }
    }
    None
}

fn one_event(e: Event) -> (v: Vec<Event>)
    ensures
        events_view(v@) == seq![e@],
{
    let v = vec![e];
    assert(events_view(v@) =~= seq![v@[0]@]);
    v
}

fn two_events(e1: Event, e2: Event) -> (v: Vec<Event>)
    ensures
        events_view(v@) == seq![e1@, e2@],
{
    let v = vec![e1, e2];
    assert(events_view(v@) =~= seq![v@[0]@, v@[1]@]);
    v
}

fn three_events(e1: Event, e2: Event, e3: Event) -> (v: Vec<Event>)
    ensures
        events_view(v@) == seq![e1@, e2@, e3@],
{
    let v = vec![e1, e2, e3];
    assert(events_view(v@) =~= seq![v@[0]@, v@[1]@, v@[2]@]);
    v
}

fn no_events() -> (v: Vec<Event>)
    ensures
        events_view(v@) == Seq::<EventModel>::empty(),
{
    let v: Vec<Event> = Vec::new();
    assert(events_view(v@) =~= Seq::<EventModel>::empty());
    v
}

fn admin_guard_check(st: &Storage, caller: &Address) -> (r: Option<ContractError>)
    requires
        st.wf(),
    ensures
        r == admin_guard(st@, caller@),
{
    if let Err(e) = access::require_not_paused(st) {
        return Some(e);
    }
    match access::require_admin(st, caller) {
        Err(e) => Some(e),
        Ok(()) => None,
    }
}

fn relayer_guard_check(st: &Storage, caller: &Address) -> (r: Option<ContractError>)
    requires
        st.wf(),
    ensures
        r == relayer_guard(st@, caller@),
{
    if let Err(e) = access::require_not_paused(st) {
        return Some(e);
    }
    match access::require_relayer(st, caller) {
        Err(e) => Some(e),
        Ok(()) => None,
    }
}

/// Advances the settlement counter and derives a settlement id from its
/// earlier value and the ledger's timestamp and sequence.
fn next_id(env: &Env, st: &mut Storage, timestamp: u64, sequence: u32) -> (id: Vec<u8>)
    requires
        old(st).wf(),
        old(st)@.settlement_nonce < u32::MAX,
    ensures
        final(st).wf(),
        id@ == settlement_id_of(timestamp, sequence, old(st)@.settlement_nonce),
        id@.len() == 32,
        final(st)@ == (StorageModel {
            settlement_nonce: (old(st)@.settlement_nonce + 1) as u32,
            ..old(st)@
        }),
{
    let n = nonce::bump(st);
    settlement_id_from(env, timestamp, sequence, n)
}

/// Whether the id at position `i` occurs earlier in the list.
fn appears_before(ids: &Vec<Vec<u8>>, i: usize) -> (r: bool)
    requires
        i < ids@.len(),
    ensures
        r == bytes_list_view(ids@).take(i as int).contains(ids@[i as int]@),
{
    let ghost list = bytes_list_view(ids@);
    let mut j: usize = 0;
    while j < i
        invariant
            i < ids@.len(),
            j <= i,
            list == bytes_list_view(ids@),
            forall|k: int| 0 <= k < j ==> list[k] != ids@[i as int]@,
        decreases i - j,
    {
        if bytes::bytes_eq(&ids[j], &ids[i]) {
            assert(list.take(i as int)[j as int] == ids@[i as int]@);
            return true;
        }
        j = j + 1;
    }
    assert forall|k: int| 0 <= k < list.take(i as int).len() implies list.take(i as int)[k]
        != ids@[i as int]@ by {
        assert(list.take(i as int)[k] == list[k]);
    }
    false
}

impl SynapseContract {
    /// The contract's storage is well formed.
    pub closed spec fn wf(&self) -> bool {
        self.storage.wf()
    }

    /// A well-formed contract meets the storage invariant.
    pub proof fn lemma_inv(&self)
        requires
            self.wf(),
        ensures
            self@.inv(),
    {
        self.storage.lemma_inv();
    }

    /// A contract with empty storage, before `initialize`.
    pub fn new() -> (c: SynapseContract)
        ensures
            c.wf(),
            c@ == StorageModel::empty(),
    {
        SynapseContract { storage: Storage::new() }
    }

    /// A contract whose storage has the contents the parts describe;
    /// refused when the counters in them do not agree with what they count.
    pub fn from_parts(parts: StorageParts) -> (r: Option<SynapseContract>)
        ensures
            r is Some <==> parts_consistent(parts),
            r matches Some(c) ==> c.wf() && c@ == parts.model(),
    {
        match Storage::from_parts(parts) {
            Some(st) => Some(SynapseContract { storage: st }),
            None => None,
        }
    }

    /// The contents of the contract's storage, as parts; restoring them
    /// gives the same storage back.
    pub fn into_parts(self) -> (parts: StorageParts)
        requires
            self.wf(),
        ensures
            parts.model() == self@,
            parts_consistent(parts),
    {
        self.storage.into_parts()
    }

    /// The contract's storage.
    pub fn storage(&self) -> (st: &Storage)
        ensures
            st@ == self@,
            st.wf() == self.wf(),
    {
        &self.storage
    }

    /// Records the first admin; refused once an admin is recorded.
    pub fn initialize(&mut self, admin: &Address) -> (r: Result<Vec<Event>, ContractError>)
        requires
            old(self).wf(),
        ensures
            final(self).wf(),
            (final(self)@, step_view(r)) == initialize_spec(old(self)@, admin@),
    {
        if admin::has(&self.storage) {
            return Err(ContractError::AlreadyInitialised);
        }
        admin::set(&mut self.storage, admin);
        Ok(one_event(Event::Initialized(admin.duplicate())))
    }

    /// The admin makes an address a relayer.
    pub fn grant_relayer(&mut self, caller: &Address, relayer: &Address) -> (r: Result<
        Vec<Event>,
        ContractError,
    >)
        requires
            old(self).wf(),
        ensures
            final(self).wf(),
            (final(self)@, step_view(r)) == grant_relayer_spec(old(self)@, caller@, relayer@),
    {
        if let Some(e) = admin_guard_check(&self.storage, caller) {
            return Err(e);
        }
        if relayers::has(&self.storage, relayer) {
            return Err(ContractError::RelayerAlreadyGranted);
        }
        relayers::add(&mut self.storage, relayer);
        Ok(one_event(Event::RelayerGranted(relayer.duplicate())))
    }

    /// The admin takes the relayer role from an address.
    pub fn revoke_relayer(&mut self, caller: &Address, relayer: &Address) -> (r: Result<
        Vec<Event>,
        ContractError,
    >)
        requires
            old(self).wf(),
        ensures
            final(self).wf(),
            (final(self)@, step_view(r)) == revoke_relayer_spec(old(self)@, caller@, relayer@),
    {
        if let Some(e) = admin_guard_check(&self.storage, caller) {
            return Err(e);
        }
        if !relayers::has(&self.storage, relayer) {
            return Err(ContractError::AddressNotRelayer);
        }
        relayers::remove(&mut self.storage, relayer);
        Ok(one_event(Event::RelayerRevoked(relayer.duplicate())))
    }

    /// The admin proposes a successor.
    pub fn propose_admin(&mut self, caller: &Address, new_admin: &Address) -> (r: Result<
        Vec<Event>,
        ContractError,
    >)
        requires
            old(self).wf(),
        ensures
            final(self).wf(),
            (final(self)@, step_view(r)) == propose_admin_spec(old(self)@, caller@, new_admin@),
    {
        if let Err(e) = access::require_not_paused(&self.storage) {
            return Err(e);
        }
        let current = match admin::get(&self.storage) {
            Ok(a) => a,
            Err(e) => return Err(e),
        };
        if let Err(e) = access::set_pending_admin(&mut self.storage, caller, new_admin) {
            return Err(e);
        }
        Ok(one_event(Event::AdminTransferProposed(current, new_admin.duplicate())))
    }

    /// The admin withdraws a proposed transfer.
    pub fn cancel_admin_transfer(&mut self, caller: &Address) -> (r: Result<Vec<Event>, ContractError>)
        requires
            old(self).wf(),
        ensures
            final(self).wf(),
            (final(self)@, step_view(r)) == cancel_admin_transfer_spec(old(self)@, caller@),
    {
        if let Some(e) = admin_guard_check(&self.storage, caller) {
            return Err(e);
        }
        let pending = match pending_admin::get(&self.storage) {
            Some(p) => p,
            None => return Err(ContractError::NoPendingAdminTransfer),
        };
        pending_admin::clear(&mut self.storage);
        Ok(one_event(Event::AdminTransferCancelled(pending)))
    }

    /// Whether an admin has been recorded.
    pub fn is_initialized(&self) -> (r: bool)
        requires
            self.wf(),
        ensures
            r == self@.admin is Some,
    {
        admin::has(&self.storage)
    }

    /// The proposed admin takes over.
    pub fn accept_admin(&mut self, caller: &Address) -> (r: Result<Vec<Event>, ContractError>)
        requires
            old(self).wf(),
        ensures
            final(self).wf(),
            (final(self)@, step_view(r)) == accept_admin_spec(old(self)@, caller@),
    {
        if let Err(e) = access::require_not_paused(&self.storage) {
            return Err(e);
        }
        let old_admin = match admin::get(&self.storage) {
            Ok(a) => a,
            Err(e) => return Err(e),
        };
        if let Err(e) = access::accept_pending_admin(&mut self.storage, caller) {
            return Err(e);
        }
        let new_admin = match admin::get(&self.storage) {
            Ok(a) => a,
            Err(e) => return Err(e),
        };
        Ok(one_event(Event::AdminTransferred(old_admin, new_admin)))
    }

    /// The admin hands the role over at once.
    pub fn transfer_admin(&mut self, caller: &Address, new_admin: &Address) -> (r: Result<
        Vec<Event>,
        ContractError,
    >)
        requires
            old(self).wf(),
        ensures
            final(self).wf(),
            (final(self)@, step_view(r)) == transfer_admin_spec(old(self)@, caller@, new_admin@),
    {
        if let Some(e) = admin_guard_check(&self.storage, caller) {
            return Err(e);
        }
        let old_admin = match admin::get(&self.storage) {
            Ok(a) => a,
            Err(e) => return Err(e),
        };
        admin::set(&mut self.storage, new_admin);
        Ok(one_event(Event::AdminTransferred(old_admin, new_admin.duplicate())))
    }

    /// The proposed admin, if any.
    pub fn get_pending_admin(&self) -> (r: Option<Address>)
        requires
            self.wf(),
        ensures
            opt_address_view(r) == self@.pending_admin,
    {
        pending_admin::get(&self.storage)
    }

    /// The admin pauses the contract.
    pub fn pause(&mut self, caller: &Address) -> (r: Result<Vec<Event>, ContractError>)
        requires
            old(self).wf(),
        ensures
            final(self).wf(),
            (final(self)@, step_view(r)) == pause_spec(old(self)@, caller@),
    {
        if let Err(e) = access::require_admin(&self.storage, caller) {
            return Err(e);
        }
        pause::set(&mut self.storage, true);
        Ok(one_event(Event::ContractPaused(caller.duplicate())))
    }

    /// The admin unpauses the contract.
    pub fn unpause(&mut self, caller: &Address) -> (r: Result<Vec<Event>, ContractError>)
        requires
            old(self).wf(),
        ensures
            final(self).wf(),
            (final(self)@, step_view(r)) == unpause_spec(old(self)@, caller@),
    {
        if let Err(e) = access::require_admin(&self.storage, caller) {
            return Err(e);
        }
        pause::set(&mut self.storage, false);
        Ok(one_event(Event::ContractUnpaused(caller.duplicate())))
    }

    /// The admin allows an asset code.
    pub fn add_asset(&mut self, caller: &Address, asset_code: &Vec<u8>) -> (r: Result<
        Vec<Event>,
        ContractError,
    >)
        requires
            old(self).wf(),
        ensures
            final(self).wf(),
            (final(self)@, step_view(r)) == add_asset_spec(old(self)@, caller@, asset_code@),
    {
        if let Some(e) = admin_guard_check(&self.storage, caller) {
            return Err(e);
        }
        if !check_asset_code(asset_code) {
            return Err(ContractError::InvalidAssetCode);
        }
        if let Err(e) = assets::add(&mut self.storage, asset_code) {
            return Err(e);
        }
        Ok(one_event(Event::AssetAdded(copy_bytes(asset_code))))
    }

    /// The admin removes an allowed asset code.
    pub fn remove_asset(&mut self, caller: &Address, asset_code: &Vec<u8>) -> (r: Result<
        Vec<Event>,
        ContractError,
    >)
        requires
            old(self).wf(),
        ensures
            final(self).wf(),
            (final(self)@, step_view(r)) == remove_asset_spec(old(self)@, caller@, asset_code@),
    {
        if let Some(e) = admin_guard_check(&self.storage, caller) {
            return Err(e);
        }
        if !assets::is_allowed(&self.storage, asset_code) {
            return Err(ContractError::AssetNotInAllowlist);
        }
        assets::remove(&mut self.storage, asset_code);
        Ok(one_event(Event::AssetRemoved(copy_bytes(asset_code))))
    }

    /// Whether an asset code is allowed.
    pub fn is_asset_allowed(&self, asset_code: &Vec<u8>) -> (r: bool)
        requires
            self.wf(),
        ensures
            r == self@.assets.contains(asset_code@),
    {
        assets::is_allowed(&self.storage, asset_code)
    }

    /// How many asset codes are allowed.
    pub fn asset_count(&self) -> (r: u32)
        requires
            self.wf(),
        ensures
            r == self@.assets.len(),
    {
        assets::count(&self.storage)
    }

    /// The admin sets the cap on the asset allowlist.
    pub fn set_max_assets(&mut self, caller: &Address, max_assets: u32) -> (r: Result<
        Vec<Event>,
        ContractError,
    >)
        requires
            old(self).wf(),
        ensures
            final(self).wf(),
            (final(self)@, step_view(r)) == set_max_assets_spec(old(self)@, caller@, max_assets),
    {
        if let Some(e) = admin_guard_check(&self.storage, caller) {
            return Err(e);
        }
        if max_assets == 0 {
            return Err(ContractError::MaxAssetsZero);
        }
        max_assets::set(&mut self.storage, max_assets);
        Ok(no_events())
    }

    /// The cap on the asset allowlist; 20 until one is set.
    pub fn get_max_assets(&self) -> (r: u32)
        requires
            self.wf(),
        ensures
            r == assets::asset_cap(self@),
    {
        match max_assets::get(&self.storage) {
            Some(n) => n,
            None => MAX_ASSETS,
        }
    }

    /// The admin sets the minimum deposit.
    pub fn set_min_deposit(&mut self, caller: &Address, amount: i128) -> (r: Result<
        Vec<Event>,
        ContractError,
    >)
        requires
            old(self).wf(),
        ensures
            final(self).wf(),
            (final(self)@, step_view(r)) == set_min_deposit_spec(old(self)@, caller@, amount),
    {
        if let Some(e) = admin_guard_check(&self.storage, caller) {
            return Err(e);
        }
        if amount <= 0 {
            return Err(ContractError::MinDepositNotPositive);
        }
        min_deposit::set(&mut self.storage, amount);
        Ok(no_events())
    }

    /// The minimum deposit, if one is set.
    pub fn get_min_deposit(&self) -> (r: Option<i128>)
        requires
            self.wf(),
        ensures
            r == self@.min_deposit,
    {
        min_deposit::get(&self.storage)
    }

    /// The admin sets the maximum deposit.
    pub fn set_max_deposit(&mut self, caller: &Address, amount: i128) -> (r: Result<
        Vec<Event>,
        ContractError,
    >)
        requires
            old(self).wf(),
        ensures
            final(self).wf(),
            (final(self)@, step_view(r)) == set_max_deposit_spec(old(self)@, caller@, amount),
    {
        if let Some(e) = admin_guard_check(&self.storage, caller) {
            return Err(e);
        }
        if amount <= 0 {
            return Err(ContractError::MaxDepositNotPositive);
        }
        max_deposit::set(&mut self.storage, amount);
        Ok(no_events())
    }

    /// The maximum deposit; 0 until one is set.
    pub fn get_max_deposit(&self) -> (r: i128)
        requires
            self.wf(),
        ensures
            r == match self@.max_deposit {
                Some(m) => m,
                None => 0,
            },
    {
        match max_deposit::get(&self.storage) {
            Some(m) => m,
            None => 0,
        }
    }

    /// The admin sets the retry limit for failed deposits.
    pub fn set_max_retries(&mut self, caller: &Address, max_retries: u32) -> (r: Result<
        Vec<Event>,
        ContractError,
    >)
        requires
            old(self).wf(),
        ensures
            final(self).wf(),
            (final(self)@, step_view(r)) == set_max_retries_spec(old(self)@, caller@, max_retries),
    {
        if let Some(e) = admin_guard_check(&self.storage, caller) {
            return Err(e);
        }
        if max_retries == 0 {
            return Err(ContractError::MaxRetriesZero);
        }
        max_retries::set(&mut self.storage, max_retries);
        Ok(no_events())
    }

    /// The retry limit; 5 until one is set.
    pub fn get_max_retries(&self) -> (r: u32)
        requires
            self.wf(),
        ensures
            r == retry_limit(self@),
    {
        match max_retries::get(&self.storage) {
            Some(n) => n,
            None => MAX_RETRIES,
        }
    }

    /// Whether `register_deposit` with these arguments would pass its checks
    /// and derive a new deposit id from the anchor transaction id.
    pub fn derives_new_id(
        &self,
        caller: &Address,
        anchor_transaction_id: &Vec<u8>,
        amount: i128,
        asset_code: &Vec<u8>,
        memo_type: &Option<Vec<u8>>,
    ) -> (r: bool)
        requires
            self.wf(),
        ensures
            r == deposit_derives_id(
                self@,
                caller@,
                anchor_transaction_id@,
                amount,
                asset_code@,
                opt_bytes_view(*memo_type),
            ),
    {
        deposit_refusal_check(&self.storage, caller, anchor_transaction_id, amount, asset_code, memo_type)
            .is_none() && deposits::find_by_anchor_id(&self.storage, anchor_transaction_id).is_none()
    }

    /// A relayer registers a deposit at ledger sequence `ledger` and gets
    /// back its id, with the events published.
    pub fn register_deposit(
        &mut self,
        env: &Env,
        caller: &Address,
        anchor_transaction_id: &Vec<u8>,
        stellar_account: &Address,
        amount: i128,
        asset_code: &Vec<u8>,
        memo: &Option<Vec<u8>>,
        memo_type: &Option<Vec<u8>>,
        ledger: u32,
    ) -> (r: Result<(Vec<u8>, Vec<Event>), ContractError>)
        requires
            old(self).wf(),
            deposit_derives_id(
                old(self)@,
                caller@,
                anchor_transaction_id@,
                amount,
                asset_code@,
                opt_bytes_view(*memo_type),
            ) ==> anchor_transaction_id@.len() <= 256,
        ensures
            final(self).wf(),
            (final(self)@, id_step_view(r)) == register_deposit_spec(
                old(self)@,
                caller@,
                anchor_transaction_id@,
                stellar_account@,
                amount,
                asset_code@,
                opt_bytes_view(*memo),
                opt_bytes_view(*memo_type),
                ledger,
            ),
            !old(self)@.anchor_index.contains_key(anchor_transaction_id@) ==> (r matches Ok((id, _))
                ==> id@.len() == 64),
    {
        if let Some(e) = deposit_refusal_check(
            &self.storage,
            caller,
            anchor_transaction_id,
            amount,
            asset_code,
            memo_type,
        ) {
            return Err(e);
        }
        if let Some(existing) = deposits::find_by_anchor_id(&self.storage, anchor_transaction_id) {
            return Ok((existing, no_events()));
        }
        let tx_id = tx_id_from_anchor(env, anchor_transaction_id);
        let tx = Transaction::new(
            ledger,
            copy_bytes(&tx_id),
            copy_bytes(anchor_transaction_id),
            stellar_account.duplicate(),
            caller.duplicate(),
            amount,
            copy_bytes(asset_code),
            bytes::copy_opt_bytes(memo),
            bytes::copy_opt_bytes(memo_type),
            None,
        );
        deposits::save(&mut self.storage, tx);
        deposits::index_anchor_id(&mut self.storage, anchor_transaction_id, &tx_id);
        let events = one_event(
            Event::DepositRegistered(copy_bytes(&tx_id), copy_bytes(anchor_transaction_id)),
        );
        Ok((tx_id, events))
    }

    /// The deposit with this id.
    pub fn get_transaction(&self, tx_id: &Vec<u8>) -> (r: Result<Transaction, ContractError>)
        requires
            self.wf(),
        ensures
            match r {
                Ok(tx) => self@.txs.contains_key(tx_id@) && tx@ == self@.txs[tx_id@],
                Err(e) => !self@.txs.contains_key(tx_id@) && e == ContractError::TxNotFound,
            },
    {
        deposits::get(&self.storage, tx_id)
    }

    /// A relayer starts processing a pending deposit.
    pub fn mark_processing(&mut self, caller: &Address, tx_id: &Vec<u8>, ledger: u32) -> (r: Result<
        Vec<Event>,
        ContractError,
    >)
        requires
            old(self).wf(),
        ensures
            final(self).wf(),
            (final(self)@, step_view(r)) == mark_processing_spec(old(self)@, caller@, tx_id@, ledger),
    {
        if let Some(e) = relayer_guard_check(&self.storage, caller) {
            return Err(e);
        }
        let mut tx = match deposits::get(&self.storage, tx_id) {
            Ok(t) => t,
            Err(e) => return Err(e),
        };
        if tx.status != TransactionStatus::Pending {
            return Err(ContractError::MustBePending);
        }
        tx.status = TransactionStatus::Processing;
        tx.updated_ledger = ledger;
        deposits::save(&mut self.storage, tx);
        Ok(
            one_event(
                Event::StatusUpdated(
                    copy_bytes(tx_id),
                    TransactionStatus::Pending,
                    TransactionStatus::Processing,
                ),
            ),
        )
    }

    /// A relayer completes a processing deposit.
    pub fn mark_completed(&mut self, caller: &Address, tx_id: &Vec<u8>, ledger: u32) -> (r: Result<
        Vec<Event>,
        ContractError,
    >)
        requires
            old(self).wf(),
        ensures
            final(self).wf(),
            (final(self)@, step_view(r)) == mark_completed_spec(old(self)@, caller@, tx_id@, ledger),
    {
        if let Some(e) = relayer_guard_check(&self.storage, caller) {
            return Err(e);
        }
        let mut tx = match deposits::get(&self.storage, tx_id) {
            Ok(t) => t,
            Err(e) => return Err(e),
        };
        if tx.status != TransactionStatus::Processing {
            return Err(ContractError::MustBeProcessing);
        }
        let account = tx.stellar_account.duplicate();
        let amount = tx.amount;
        let asset = copy_bytes(&tx.asset_code);
        tx.status = TransactionStatus::Completed;
        tx.updated_ledger = ledger;
        deposits::save(&mut self.storage, tx);
        dlq::remove(&mut self.storage, tx_id);
        Ok(
            two_events(
                Event::StatusUpdated(
                    copy_bytes(tx_id),
                    TransactionStatus::Processing,
                    TransactionStatus::Completed,
                ),
                Event::TransactionCompleted(copy_bytes(tx_id), account, amount, asset),
            ),
        )
    }

    /// A relayer fails a pending or processing deposit and queues it in the
    /// dead-letter queue.
    pub fn mark_failed(
        &mut self,
        caller: &Address,
        tx_id: &Vec<u8>,
        error_reason: &Vec<u8>,
        ledger: u32,
    ) -> (r: Result<Vec<Event>, ContractError>)
        requires
            old(self).wf(),
        ensures
            final(self).wf(),
            (final(self)@, step_view(r)) == mark_failed_spec(
                old(self)@,
                caller@,
                tx_id@,
                error_reason@,
                ledger,
            ),
    {
        if let Some(e) = relayer_guard_check(&self.storage, caller) {
            return Err(e);
        }
        if error_reason.len() == 0 {
            return Err(ContractError::EmptyErrorReason);
        }
        let mut tx = match deposits::get(&self.storage, tx_id) {
            Ok(t) => t,
            Err(e) => return Err(e),
        };
        if tx.status == TransactionStatus::Completed {
            return Err(ContractError::CannotFailCompleted);
        }
        if tx.status != TransactionStatus::Pending && tx.status != TransactionStatus::Processing {
            return Err(ContractError::MustBePendingOrProcessing);
        }
        let old_status = tx.status;
        let account = tx.stellar_account.duplicate();
        let amount = tx.amount;
        let asset = copy_bytes(&tx.asset_code);
        tx.status = TransactionStatus::Failed;
        tx.updated_ledger = ledger;
        deposits::save(&mut self.storage, tx);
        dlq::push(&mut self.storage, DlqEntry::new(ledger, copy_bytes(tx_id), copy_bytes(error_reason)));
        Ok(
            three_events(
                Event::StatusUpdated(copy_bytes(tx_id), old_status, TransactionStatus::Failed),
                Event::MovedToDlq(copy_bytes(tx_id), copy_bytes(error_reason)),
                Event::TransactionFailed(
                    copy_bytes(tx_id),
                    account,
                    amount,
                    asset,
                    copy_bytes(error_reason),
                ),
            ),
        )
    }

    /// The admin or the relayer that registered a failed deposit sends it
    /// back to pending.
    pub fn retry_dlq(&mut self, caller: &Address, tx_id: &Vec<u8>, ledger: u32) -> (r: Result<
        Vec<Event>,
        Refusal,
    >)
        requires
            old(self).wf(),
        ensures
            final(self).wf(),
            (final(self)@, refusable_step_view(r)) == retry_dlq_spec(old(self)@, caller@, tx_id@, ledger),
    {
        if let Err(e) = access::require_not_paused(&self.storage) {
            return Err(Refusal::silent(e));
        }
        if dlq::get(&self.storage, tx_id).is_none() {
            return Err(Refusal::silent(ContractError::DlqEntryNotFound));
        }
        let mut tx = match deposits::get(&self.storage, tx_id) {
            Ok(t) => t,
            Err(e) => return Err(Refusal::silent(e)),
        };
        let current_admin = match admin::get(&self.storage) {
            Ok(a) => a,
            Err(e) => return Err(Refusal::silent(e)),
        };
        let is_admin = caller.same_as(&current_admin);
        let is_deposit_relayer = caller.same_as(&tx.relayer);
        if !is_admin && !is_deposit_relayer {
            return Err(Refusal::silent(ContractError::NotAdminOrDepositRelayer));
        }
        let limit = match max_retries::get(&self.storage) {
            Some(n) => n,
            None => MAX_RETRIES,
        };
        if tx.retry_count >= limit {
            return Err(
                Refusal {
                    error: ContractError::MaxRetriesExceeded,
                    events: one_event(Event::MaxRetriesExceeded(copy_bytes(tx_id))),
                },
            );
        }
        let old_status = tx.status;
        tx.status = TransactionStatus::Pending;
        tx.updated_ledger = ledger;
        tx.retry_count = tx.retry_count + 1;
        deposits::save(&mut self.storage, tx);
        dlq::remove(&mut self.storage, tx_id);
        Ok(
            two_events(
                Event::DlqRetried(copy_bytes(tx_id)),
                Event::StatusUpdated(copy_bytes(tx_id), old_status, TransactionStatus::Pending),
            ),
        )
    }

    /// The admin cancels a pending deposit.
    pub fn cancel_transaction(&mut self, caller: &Address, tx_id: &Vec<u8>, ledger: u32) -> (r:
        Result<Vec<Event>, ContractError>)
        requires
            old(self).wf(),
        ensures
            final(self).wf(),
            (final(self)@, step_view(r)) == cancel_transaction_spec(
                old(self)@,
                caller@,
                tx_id@,
                ledger,
            ),
    {
        if let Some(e) = admin_guard_check(&self.storage, caller) {
            return Err(e);
        }
        let mut tx = match deposits::get(&self.storage, tx_id) {
            Ok(t) => t,
            Err(e) => return Err(e),
        };
        if tx.status != TransactionStatus::Pending {
            return Err(ContractError::OnlyPendingCancellable);
        }
        let account = tx.stellar_account.duplicate();
        let amount = tx.amount;
        let asset = copy_bytes(&tx.asset_code);
        tx.status = TransactionStatus::Cancelled;
        tx.updated_ledger = ledger;
        deposits::save(&mut self.storage, tx);
        dlq::remove(&mut self.storage, tx_id);
        Ok(
            two_events(
                Event::StatusUpdated(
                    copy_bytes(tx_id),
                    TransactionStatus::Pending,
                    TransactionStatus::Cancelled,
                ),
                Event::TransactionCancelled(copy_bytes(tx_id), account, amount, asset),
            ),
        )
    }

    /// A relayer settles a batch of completed deposits at ledger sequence
    /// `ledger` and ledger timestamp `timestamp`, and gets back the id of
    /// the settlement, with the events published.
    pub fn finalize_settlement(
        &mut self,
        env: &Env,
        caller: &Address,
        asset_code: &Vec<u8>,
        tx_ids: &Vec<Vec<u8>>,
        total_amount: i128,
        period_start: u64,
        period_end: u64,
        ledger: u32,
        timestamp: u64,
    ) -> (r: Result<(Vec<u8>, Vec<Event>), ContractError>)
        requires
            old(self).wf(),
            settlement_advances_counter(
                old(self)@,
                caller@,
                bytes_list_view(tx_ids@),
                total_amount,
                period_start,
                period_end,
            ) ==> old(self)@.settlement_nonce < u32::MAX,
        ensures
            final(self).wf(),
            (final(self)@, id_step_view(r)) == finalize_settlement_spec(
                old(self)@,
                caller@,
                asset_code@,
                bytes_list_view(tx_ids@),
                total_amount,
                period_start,
                period_end,
                ledger,
                timestamp,
            ),
            r matches Ok((id, _)) ==> id@.len() == 32,
    {
        let ghost ids = bytes_list_view(tx_ids@);
        let ghost s0 = self@;
        if let Some(e) = relayer_guard_check(&self.storage, caller) {
            return Err(e);
        }
        if period_start > period_end {
            return Err(ContractError::PeriodOrder);
        }
        let n = tx_ids.len();
        let mut sum: i128 = 0;
        let mut i: usize = 0;
        assert(s0 == old(self)@);
        while i < n
            invariant
                self.storage.wf(),
                self@ == s0,
                s0 == old(self)@,
                relayer_guard(s0, caller@) is None,
                period_start <= period_end,
                ids == bytes_list_view(tx_ids@),
                n == tx_ids@.len(),
                i <= n,
                sum_scan(s0.txs, ids.take(i as int)) == Ok::<int, ContractError>(sum as int),
            decreases n - i,
        {
            assert(ids.take(i + 1).drop_last() =~= ids.take(i as int));
            assert(ids.take(i + 1).last() == tx_ids@[i as int]@);
            let tx = match deposits::get(&self.storage, &tx_ids[i]) {
                Ok(t) => t,
                Err(e) => {
                    proof {
                        lemma_sum_scan_refusal_persists(s0.txs, ids, i + 1);
                    }
                    return Err(e);
                },
            };
            match sum.checked_add(tx.amount) {
                Some(t) => {
                    sum = t;
                },
                None => {
                    proof {
                        lemma_sum_scan_refusal_persists(s0.txs, ids, i + 1);
                    }
                    return Err(ContractError::AmountOverflow);
                },
            }
            i = i + 1;
        }
        assert(ids.take(n as int) =~= ids);
        if sum != total_amount {
            return Err(ContractError::TotalAmountMismatch);
        }
        proof {
            lemma_sum_scan_ok_all_present(s0.txs, ids);
        }
        let mut i: usize = 0;
        while i < n
            invariant
                self.storage.wf(),
                self@ == s0,
                s0 == old(self)@,
                relayer_guard(s0, caller@) is None,
                period_start <= period_end,
                sum_scan(s0.txs, ids) == Ok::<int, ContractError>(total_amount as int),
                ids == bytes_list_view(tx_ids@),
                n == tx_ids@.len(),
                i <= n,
                forall|j: int| 0 <= j < ids.len() ==> s0.txs.contains_key(#[trigger] ids[j]),
                settle_scan(s0.txs, ids.take(i as int)) is None,
            decreases n - i,
        {
            assert(ids.take(i + 1).drop_last() =~= ids.take(i as int));
            assert(ids.take(i + 1).last() == ids[i as int]);
            assert(ids[i as int] == tx_ids@[i as int]@);
            let tx = match deposits::get(&self.storage, &tx_ids[i]) {
                Ok(t) => t,
                Err(e) => return Err(e),
            };
            if tx.settlement_id.len() > 0 || appears_before(tx_ids, i) {
                proof {
                    lemma_settle_scan_refusal_persists(s0.txs, ids, i + 1);
                }
                return Err(ContractError::AlreadySettled);
            }
            if tx.status != TransactionStatus::Completed {
                proof {
                    lemma_settle_scan_refusal_persists(s0.txs, ids, i + 1);
                }
                return Err(ContractError::NotCompleted);
            }
            i = i + 1;
        }
        assert(ids.take(n as int) =~= ids);
        proof {
            lemma_settle_scan_passes(s0.txs, ids);
        }
        let settlement_id = next_id(env, &mut self.storage, timestamp, ledger);
        let ghost s1 = self@;
        assert(settle_all(s0.txs, ids.take(0), settlement_id@, ledger) =~= s0.txs);
        assert(events_view(Seq::<Event>::empty()) =~= Seq::new(
            0,
            |j: int| EventModel::Settled(ids[j], settlement_id@),
        ));
        let mut events: Vec<Event> = Vec::new();
        let mut i: usize = 0;
        while i < n
            invariant
                self.storage.wf(),
                ids == bytes_list_view(tx_ids@),
                n == tx_ids@.len(),
                i <= n,
                forall|j: int| 0 <= j < ids.len() ==> s0.txs.contains_key(#[trigger] ids[j]),
                forall|j: int|
                    0 <= j < ids.len() ==> {
                        &&& s0.txs[#[trigger] ids[j]].settlement_id.len() == 0
                        &&& s0.txs[ids[j]].status == TransactionStatus::Completed
                        &&& !ids.take(j).contains(ids[j])
                    },
                s1 == (StorageModel { settlement_nonce: (s0.settlement_nonce + 1) as u32, ..s0 }),
                self@ == (StorageModel {
                    txs: settle_all(s0.txs, ids.take(i as int), settlement_id@, ledger),
                    ..s1
                }),
                events@.len() == i,
                events_view(events@) == Seq::new(
                    i as nat,
                    |j: int| EventModel::Settled(ids[j], settlement_id@),
                ),
            decreases n - i,
        {
            let ghost before = self@.txs;
            let ghost k = ids[i as int];
            assert(ids[i as int] == tx_ids@[i as int]@);
            assert(before.contains_key(k));
            assert(before[k] == s0.txs[k]);
            let mut tx = match deposits::get(&self.storage, &tx_ids[i]) {
                Ok(t) => t,
                Err(e) => return Err(e),
            };
            tx.settlement_id = copy_bytes(&settlement_id);
            tx.updated_ledger = ledger;
            deposits::save(&mut self.storage, tx);
            let ghost prev_events = events@;
            events.push(Event::Settled(copy_bytes(&tx_ids[i]), copy_bytes(&settlement_id)));
            i = i + 1;
            assert(self@.txs =~= settle_all(s0.txs, ids.take(i as int), settlement_id@, ledger)) by {
                let ghost longer = ids.take(i as int);
                let ghost shorter = ids.take(i - 1);
                assert(longer =~= shorter.push(k));
                assert forall|kk: Seq<u8>| #[trigger] longer.contains(kk) == (shorter.contains(kk)
                    || kk == k) by {
                    if longer.contains(kk) {
                        let j = choose|j: int| 0 <= j < longer.len() && #[trigger] longer[j] == kk;
                        if j < i - 1 {
                            assert(shorter[j] == kk);
                        }
                    }
                    if shorter.contains(kk) {
                        let j = choose|j: int| 0 <= j < shorter.len() && #[trigger] shorter[j] == kk;
                        assert(longer[j] == kk);
                    }
                    if kk == k {
                        assert(longer[i - 1] == kk);
                    }
                }
            }
            assert(events_view(events@) =~= Seq::new(
                i as nat,
                |j: int| EventModel::Settled(ids[j], settlement_id@),
            )) by {
                assert forall|j: int| 0 <= j < i implies #[trigger] events_view(events@)[j]
                    == EventModel::Settled(ids[j], settlement_id@) by {
                    if j < i - 1 {
                        assert(events@[j] == prev_events[j]);
                        assert(events_view(prev_events)[j] == EventModel::Settled(
                            ids[j],
                            settlement_id@,
                        ));
                    }
                }
            }
        }
        assert(ids.take(n as int) =~= ids);
        let settlement = Settlement::new(
            ledger,
            copy_bytes(&settlement_id),
            copy_bytes(asset_code),
            copy_bytes_list(tx_ids),
            total_amount,
            period_start,
            period_end,
        );
        settlements::save(&mut self.storage, settlement);
        let ghost prev_events = events@;
        events.push(Event::SettlementFinalized(copy_bytes(&settlement_id), copy_bytes(asset_code), total_amount));
        assert(events_view(events@) =~= settlement_events(ids, settlement_id@, asset_code@, total_amount)) by {
            assert(events@ == prev_events.push(events@[n as int]));
        }
        Ok((settlement_id, events))
    }

    /// The settlement with this id.
    pub fn get_settlement(&self, settlement_id: &Vec<u8>) -> (r: Result<Settlement, ContractError>)
        requires
            self.wf(),
        ensures
            match r {
                Ok(s) => self@.settlements.contains_key(settlement_id@) && s@
                    == self@.settlements[settlement_id@],
                Err(e) => !self@.settlements.contains_key(settlement_id@) && e
                    == ContractError::SettlementNotFound,
            },
    {
        settlements::get(&self.storage, settlement_id)
    }

    /// The dead-letter-queue entry of a deposit, if it is queued.
    pub fn get_dlq_entry(&self, tx_id: &Vec<u8>) -> (r: Option<DlqEntry>)
        requires
            self.wf(),
        ensures
            match r {
                Some(e) => self@.dlq.contains_key(tx_id@) && e@ == self@.dlq[tx_id@],
                None => !self@.dlq.contains_key(tx_id@),
            },
    {
        dlq::get(&self.storage, tx_id)
    }

    /// How many deposits are in the dead-letter queue.
    pub fn get_dlq_count(&self) -> (r: i128)
        requires
            self.wf(),
        ensures
            r == self@.dlq.dom().len(),
    {
        dlq::get_count(&self.storage)
    }

    /// The admin; refused before `initialize`.
    pub fn get_admin(&self) -> (r: Result<Address, ContractError>)
        requires
            self.wf(),
        ensures
            match self@.admin {
                Some(a) => r matches Ok(x) && x@ == a,
                None => r == Err::<Address, ContractError>(ContractError::NotInitialised),
            },
    {
        admin::get(&self.storage)
    }

    /// Whether the contract is paused.
    pub fn is_paused(&self) -> (r: bool)
        requires
            self.wf(),
        ensures
            r == self@.paused,
    {
        pause::is_paused(&self.storage)
    }

    /// Whether the address is a relayer.
    pub fn is_relayer(&self, address: &Address) -> (r: bool)
        requires
            self.wf(),
        ensures
            r == self@.relayers.contains(address@),
    {
        relayers::has(&self.storage, address)
    }
}

} // verus!
