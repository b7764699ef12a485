//! The records the contract keeps on the ledger and the events it publishes,
//! each with its mathematical model.
use vstd::prelude::*;
use crate::bytes::{
    bytes_eq, bytes_list_view, copy_bytes, copy_bytes_list, copy_opt_bytes, opt_bytes_view,
};

verus! {

/// How many times a failed deposit may be retried when no other limit is set.
pub const MAX_RETRIES: u32 = 5;

/// Where a deposit stands in its life:
/// Pending -> Processing -> Completed, with Failed and Cancelled on the side.
#[derive(Clone, Copy, Debug, PartialEq, Eq, Structural)]
pub enum TransactionStatus {
    Pending,
    Processing,
    Completed,
    Failed,
    Cancelled,
}

/// An account or contract address, held as the bytes of its strkey text.
#[derive(Debug, PartialEq, Eq)]
pub struct Address {
    pub strkey: Vec<u8>,
}

impl View for Address {
    type V = Seq<u8>;

    open spec fn view(&self) -> Seq<u8> {
        self.strkey@
    }
}

impl Address {
    /// The address whose strkey text has these bytes.
    pub fn new(strkey: Vec<u8>) -> (a: Address)
        ensures
            a@ == strkey@,
    {
        Address { strkey }
    }

    /// A fresh copy of this address.
    pub fn duplicate(&self) -> (a: Address)
        ensures
            a@ == self@,
    {
        Address { strkey: copy_bytes(&self.strkey) }
    }

    /// Whether two addresses are the same.
    pub fn same_as(&self, other: &Address) -> (r: bool)
        ensures
            r == (self@ == other@),
    {
        bytes_eq(&self.strkey, &other.strkey)
    }
}

/// The model of an optional address.
pub open spec fn opt_address_view(a: Option<Address>) -> Option<Seq<u8>> {
    match a {
        Some(x) => Some(x@),
        None => None,
    }
}

/// A fresh copy of an optional address.
pub fn copy_opt_address(a: &Option<Address>) -> (r: Option<Address>)
    ensures
        opt_address_view(r) == opt_address_view(*a),
{
    match a {
        Some(x) => Some(x.duplicate()),
        None => None,
    }
}

/// The model of a deposit record.
pub struct TransactionModel {
    pub id: Seq<u8>,
    pub anchor_transaction_id: Seq<u8>,
    pub stellar_account: Seq<u8>,
    pub relayer: Seq<u8>,
    pub amount: i128,
    pub asset_code: Seq<u8>,
    pub memo: Option<Seq<u8>>,
    pub memo_type: Option<Seq<u8>>,
    pub callback_type: Option<Seq<u8>>,
    pub status: TransactionStatus,
    pub created_ledger: u32,
    pub updated_ledger: u32,
    pub settlement_id: Seq<u8>,
    pub retry_count: u32,
}

/// A deposit registered by a relayer.
#[derive(Debug, PartialEq, Eq)]
pub struct Transaction {
    pub id: Vec<u8>,
    pub anchor_transaction_id: Vec<u8>,
    pub stellar_account: Address,
    pub relayer: Address,
    pub amount: i128,
    pub asset_code: Vec<u8>,
    pub memo: Option<Vec<u8>>,
    pub memo_type: Option<Vec<u8>>,
    pub callback_type: Option<Vec<u8>>,
    pub status: TransactionStatus,
    pub created_ledger: u32,
    pub updated_ledger: u32,
    pub settlement_id: Vec<u8>,
    pub retry_count: u32,
}

impl View for Transaction {
    type V = TransactionModel;

    open spec fn view(&self) -> TransactionModel {
        TransactionModel {
            id: self.id@,
            anchor_transaction_id: self.anchor_transaction_id@,
            stellar_account: self.stellar_account@,
            relayer: self.relayer@,
            amount: self.amount,
            asset_code: self.asset_code@,
            memo: opt_bytes_view(self.memo),
            memo_type: opt_bytes_view(self.memo_type),
            callback_type: opt_bytes_view(self.callback_type),
            status: self.status,
            created_ledger: self.created_ledger,
            updated_ledger: self.updated_ledger,
            settlement_id: self.settlement_id@,
            retry_count: self.retry_count,
        }
    }
}

/// The model of a freshly registered deposit: pending, unsettled, never
/// retried, created and updated at the given ledger.
pub open spec fn new_transaction_model(
    ledger: u32,
    id: Seq<u8>,
    anchor_transaction_id: Seq<u8>,
    stellar_account: Seq<u8>,
    relayer: Seq<u8>,
    amount: i128,
    asset_code: Seq<u8>,
    memo: Option<Seq<u8>>,
    memo_type: Option<Seq<u8>>,
    callback_type: Option<Seq<u8>>,
) -> TransactionModel {
    TransactionModel {
        id,
        anchor_transaction_id,
        stellar_account,
        relayer,
        amount,
        asset_code,
        memo,
        memo_type,
        callback_type,
        status: TransactionStatus::Pending,
        created_ledger: ledger,
        updated_ledger: ledger,
        settlement_id: Seq::empty(),
        retry_count: 0,
    }
}

impl Transaction {
    /// A new pending deposit, recorded at ledger sequence `ledger`.
    pub fn new(
        ledger: u32,
        id: Vec<u8>,
        anchor_transaction_id: Vec<u8>,
        stellar_account: Address,
        relayer: Address,
        amount: i128,
        asset_code: Vec<u8>,
        memo: Option<Vec<u8>>,
        memo_type: Option<Vec<u8>>,
        callback_type: Option<Vec<u8>>,
    ) -> (t: Transaction)
        ensures
            t@ == new_transaction_model(
                ledger,
                id@,
                anchor_transaction_id@,
                stellar_account@,
                relayer@,
                amount,
                asset_code@,
                opt_bytes_view(memo),
                opt_bytes_view(memo_type),
                opt_bytes_view(callback_type),
            ),
    {
        let t = Transaction {
            id,
            anchor_transaction_id,
            stellar_account,
            relayer,
            amount,
            asset_code,
            memo,
            memo_type,
            callback_type,
            status: TransactionStatus::Pending,
            created_ledger: ledger,
            updated_ledger: ledger,
            settlement_id: Vec::new(),
            retry_count: 0,
        };
        assert(t.settlement_id@ =~= Seq::<u8>::empty());
        t
    }

    /// A fresh copy of this record.
    pub fn duplicate(&self) -> (t: Transaction)
        ensures
            t@ == self@,
    {
        Transaction {
            id: copy_bytes(&self.id),
            anchor_transaction_id: copy_bytes(&self.anchor_transaction_id),
            stellar_account: self.stellar_account.duplicate(),
            relayer: self.relayer.duplicate(),
            amount: self.amount,
            asset_code: copy_bytes(&self.asset_code),
            memo: copy_opt_bytes(&self.memo),
            memo_type: copy_opt_bytes(&self.memo_type),
            callback_type: copy_opt_bytes(&self.callback_type),
            status: self.status,
            created_ledger: self.created_ledger,
            updated_ledger: self.updated_ledger,
            settlement_id: copy_bytes(&self.settlement_id),
            retry_count: self.retry_count,
        }
    }
}

/// The model of a settlement record.
pub struct SettlementModel {
    pub id: Seq<u8>,
    pub asset_code: Seq<u8>,
    pub tx_ids: Seq<Seq<u8>>,
    pub total_amount: i128,
    pub period_start: u64,
    pub period_end: u64,
    pub created_ledger: u32,
}

/// A batch of completed deposits settled together.
#[derive(Debug, PartialEq, Eq)]
pub struct Settlement {
    pub id: Vec<u8>,
    pub asset_code: Vec<u8>,
    pub tx_ids: Vec<Vec<u8>>,
    pub total_amount: i128,
    pub period_start: u64,
    pub period_end: u64,
    pub created_ledger: u32,
}

impl View for Settlement {
    type V = SettlementModel;

    open spec fn view(&self) -> SettlementModel {
        SettlementModel {
            id: self.id@,
            asset_code: self.asset_code@,
            tx_ids: bytes_list_view(self.tx_ids@),
            total_amount: self.total_amount,
            period_start: self.period_start,
            period_end: self.period_end,
            created_ledger: self.created_ledger,
        }
    }
}

impl Settlement {
    /// A settlement recorded at ledger sequence `ledger`.
    pub fn new(
        ledger: u32,
        id: Vec<u8>,
        asset_code: Vec<u8>,
        tx_ids: Vec<Vec<u8>>,
        total_amount: i128,
        period_start: u64,
        period_end: u64,
    ) -> (s: Settlement)
        ensures
            s@ == (SettlementModel {
                id: id@,
                asset_code: asset_code@,
                tx_ids: bytes_list_view(tx_ids@),
                total_amount,
                period_start,
                period_end,
                created_ledger: ledger,
            }),
    {
        Settlement {
            id,
            asset_code,
            tx_ids,
            total_amount,
            period_start,
            period_end,
            created_ledger: ledger,
        }
    }

    /// A fresh copy of this record.
    pub fn duplicate(&self) -> (s: Settlement)
        ensures
            s@ == self@,
    {
        Settlement {
            id: copy_bytes(&self.id),
            asset_code: copy_bytes(&self.asset_code),
            tx_ids: copy_bytes_list(&self.tx_ids),
            total_amount: self.total_amount,
            period_start: self.period_start,
            period_end: self.period_end,
            created_ledger: self.created_ledger,
        }
    }
}

/// The model of a dead-letter-queue entry.
pub struct DlqEntryModel {
    pub tx_id: Seq<u8>,
    pub error_reason: Seq<u8>,
    pub retry_count: u32,
    pub moved_at_ledger: u32,
    pub last_retry_ledger: u32,
}

/// A failed deposit waiting in the dead-letter queue.
#[derive(Debug, PartialEq, Eq)]
pub struct DlqEntry {
    pub tx_id: Vec<u8>,
    pub error_reason: Vec<u8>,
    pub retry_count: u32,
    pub moved_at_ledger: u32,
    pub last_retry_ledger: u32,
}

impl View for DlqEntry {
    type V = DlqEntryModel;

    open spec fn view(&self) -> DlqEntryModel {
        DlqEntryModel {
            tx_id: self.tx_id@,
            error_reason: self.error_reason@,
            retry_count: self.retry_count,
            moved_at_ledger: self.moved_at_ledger,
            last_retry_ledger: self.last_retry_ledger,
        }
    }
}

/// The model of the entry made when a deposit fails at ledger `ledger`.
pub open spec fn new_dlq_entry_model(ledger: u32, tx_id: Seq<u8>, error_reason: Seq<u8>) -> DlqEntryModel {
    DlqEntryModel { tx_id, error_reason, retry_count: 0, moved_at_ledger: ledger, last_retry_ledger: 0 }
}

impl DlqEntry {
    /// The entry for a deposit that failed at ledger sequence `ledger`.
    pub fn new(ledger: u32, tx_id: Vec<u8>, error_reason: Vec<u8>) -> (e: DlqEntry)
        ensures
            e@ == new_dlq_entry_model(ledger, tx_id@, error_reason@),
    {
        DlqEntry { tx_id, error_reason, retry_count: 0, moved_at_ledger: ledger, last_retry_ledger: 0 }
    }

    /// A fresh copy of this entry.
    pub fn duplicate(&self) -> (e: DlqEntry)
        ensures
            e@ == self@,
    {
        DlqEntry {
            tx_id: copy_bytes(&self.tx_id),
            error_reason: copy_bytes(&self.error_reason),
            retry_count: self.retry_count,
            moved_at_ledger: self.moved_at_ledger,
            last_retry_ledger: self.last_retry_ledger,
        }
    }
}

/// The model of an event.
pub enum EventModel {
    Initialized(Seq<u8>),
    AdminTransferred(Seq<u8>, Seq<u8>),
    AdminTransferProposed(Seq<u8>, Seq<u8>),
    AdminTransferCancelled(Seq<u8>),
    RelayerGranted(Seq<u8>),
    DepositRegistered(Seq<u8>, Seq<u8>),
    StatusUpdated(Seq<u8>, TransactionStatus, TransactionStatus),
    SettlementFinalized(Seq<u8>, Seq<u8>, i128),
    Settled(Seq<u8>, Seq<u8>),
    ContractPaused(Seq<u8>),
    ContractUnpaused(Seq<u8>),
    RelayerRevoked(Seq<u8>),
    MovedToDlq(Seq<u8>, Seq<u8>),
    DlqRetried(Seq<u8>),
    MaxRetriesExceeded(Seq<u8>),
    AssetAdded(Seq<u8>),
    AssetRemoved(Seq<u8>),
    TransactionCompleted(Seq<u8>, Seq<u8>, i128, Seq<u8>),
    TransactionFailed(Seq<u8>, Seq<u8>, i128, Seq<u8>, Seq<u8>),
    TransactionCancelled(Seq<u8>, Seq<u8>, i128, Seq<u8>),
}

/// An event of the audit trail. The host publishes each one under the
/// topic `synapse`, together with the ledger sequence.
#[derive(Debug, PartialEq, Eq)]
pub enum Event {
    Initialized(Address),
    AdminTransferred(Address, Address),
    AdminTransferProposed(Address, Address),
    AdminTransferCancelled(Address),
    RelayerGranted(Address),
    DepositRegistered(Vec<u8>, Vec<u8>),
    StatusUpdated(Vec<u8>, TransactionStatus, TransactionStatus),
    SettlementFinalized(Vec<u8>, Vec<u8>, i128),
    Settled(Vec<u8>, Vec<u8>),
    ContractPaused(Address),
    ContractUnpaused(Address),
    RelayerRevoked(Address),
    MovedToDlq(Vec<u8>, Vec<u8>),
    DlqRetried(Vec<u8>),
    MaxRetriesExceeded(Vec<u8>),
    AssetAdded(Vec<u8>),
    AssetRemoved(Vec<u8>),
    TransactionCompleted(Vec<u8>, Address, i128, Vec<u8>),
    TransactionFailed(Vec<u8>, Address, i128, Vec<u8>, Vec<u8>),
    TransactionCancelled(Vec<u8>, Address, i128, Vec<u8>),
}

impl View for Event {
    type V = EventModel;

    open spec fn view(&self) -> EventModel {
        match self {
            Event::Initialized(a) => EventModel::Initialized(a@),
            Event::AdminTransferred(a, b) => EventModel::AdminTransferred(a@, b@),
            Event::AdminTransferProposed(a, b) => EventModel::AdminTransferProposed(a@, b@),
            Event::AdminTransferCancelled(a) => EventModel::AdminTransferCancelled(a@),
            Event::RelayerGranted(a) => EventModel::RelayerGranted(a@),
            Event::DepositRegistered(a, b) => EventModel::DepositRegistered(a@, b@),
            Event::StatusUpdated(a, b, c) => EventModel::StatusUpdated(a@, *b, *c),
            Event::SettlementFinalized(a, b, c) => EventModel::SettlementFinalized(a@, b@, *c),
            Event::Settled(a, b) => EventModel::Settled(a@, b@),
            Event::ContractPaused(a) => EventModel::ContractPaused(a@),
            Event::ContractUnpaused(a) => EventModel::ContractUnpaused(a@),
            Event::RelayerRevoked(a) => EventModel::RelayerRevoked(a@),
            Event::MovedToDlq(a, b) => EventModel::MovedToDlq(a@, b@),
            Event::DlqRetried(a) => EventModel::DlqRetried(a@),
            Event::MaxRetriesExceeded(a) => EventModel::MaxRetriesExceeded(a@),
            Event::AssetAdded(a) => EventModel::AssetAdded(a@),
            Event::AssetRemoved(a) => EventModel::AssetRemoved(a@),
            Event::TransactionCompleted(a, b, c, d) => EventModel::TransactionCompleted(
                a@,
                b@,
                *c,
                d@,
            ),
            Event::TransactionFailed(a, b, c, d, e) => EventModel::TransactionFailed(
                a@,
                b@,
                *c,
                d@,
                e@,
            ),
            Event::TransactionCancelled(a, b, c, d) => EventModel::TransactionCancelled(
                a@,
                b@,
                *c,
                d@,
            ),
        }
    }
}

/// The models of a list of events.
pub open spec fn events_view(v: Seq<Event>) -> Seq<EventModel> {
    v.map_values(|e: Event| e@)
}

} // verus!
