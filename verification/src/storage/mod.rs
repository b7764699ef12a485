//! The contract's ledger storage and its typed accessors, one module per
//! kind of entry.
use vstd::prelude::*;
use crate::table::{entries_view, lemma_map_of_keyed, map_of, Table};
use crate::types::{
    opt_address_view, Address, DlqEntry, DlqEntryModel, Settlement, SettlementModel, Transaction,
    TransactionModel,
};
use crate::bytes::copy_bytes;

pub mod admin;
pub mod assets;
pub mod deposits;
pub mod dlq;
pub mod max_assets;
pub mod max_deposit;
pub mod max_retries;
pub mod min_deposit;
pub mod nonce;
pub mod pause;
pub mod pending_admin;
pub mod relayers;
pub mod settlements;
pub mod temp_lock;

verus! {

/// How many assets the allowlist may hold when no other cap is set.
pub const MAX_ASSETS: u32 = 20;

/// The model of the ledger storage.
pub struct StorageModel {
    pub admin: Option<Seq<u8>>,
    pub pending_admin: Option<Seq<u8>>,
    pub paused: bool,
    pub min_deposit: Option<i128>,
    pub max_deposit: Option<i128>,
    pub max_retries: Option<u32>,
    pub max_assets: Option<u32>,
    pub asset_count: u32,
    pub assets: Set<Seq<u8>>,
    pub relayers: Set<Seq<u8>>,
    /// Deposits by id.
    pub txs: Map<Seq<u8>, TransactionModel>,
    /// Deposit ids by anchor transaction id.
    pub anchor_index: Map<Seq<u8>, Seq<u8>>,
    /// Settlements by id.
    pub settlements: Map<Seq<u8>, SettlementModel>,
    /// Dead-letter-queue entries by deposit id.
    pub dlq: Map<Seq<u8>, DlqEntryModel>,
    pub dlq_count: i128,
    /// The counter that settlement ids are derived from.
    pub settlement_nonce: u32,
    pub temp_locks: Set<Seq<u8>>,
}

impl StorageModel {
    /// The storage of a contract that nothing has been done to yet.
    pub open spec fn empty() -> StorageModel {
        StorageModel {
            admin: None,
            pending_admin: None,
            paused: false,
            min_deposit: None,
            max_deposit: None,
            max_retries: None,
            max_assets: None,
            asset_count: 0,
            assets: Set::empty(),
            relayers: Set::empty(),
            txs: Map::empty(),
            anchor_index: Map::empty(),
            settlements: Map::empty(),
            dlq: Map::empty(),
            dlq_count: 0,
            settlement_nonce: 0,
            temp_locks: Set::empty(),
        }
    }

    /// The counters agree with what they count.
    pub open spec fn counts_agree(self) -> bool {
        &&& self.assets.finite()
        &&& self.asset_count == self.assets.len()
        &&& self.dlq.dom().finite()
        &&& self.dlq_count == self.dlq.dom().len()
    }

    /// Every record is stored under its own id.
    pub open spec fn keys_agree(self) -> bool {
        &&& forall|k: Seq<u8>| #[trigger] self.txs.contains_key(k) ==> self.txs[k].id == k
        &&& forall|k: Seq<u8>| #[trigger] self.settlements.contains_key(k) ==> self.settlements[k].id == k
        &&& forall|k: Seq<u8>| #[trigger] self.dlq.contains_key(k) ==> self.dlq[k].tx_id == k
    }

    /// What holds of the storage in every state the contract can reach.
    pub open spec fn inv(self) -> bool {
        self.counts_agree() && self.keys_agree()
    }
}

/// The contract's ledger storage.
pub struct Storage {
    admin: Option<Address>,
    pending_admin: Option<Address>,
    paused: bool,
    min_deposit: Option<i128>,
    max_deposit: Option<i128>,
    max_retries: Option<u32>,
    max_assets: Option<u32>,
    asset_count: u32,
    assets: Table<()>,
    relayers: Table<()>,
    txs: Table<Transaction>,
    anchor_index: Table<Vec<u8>>,
    settlements: Table<Settlement>,
    dlq: Table<DlqEntry>,
    dlq_count: i128,
    settlement_nonce: u32,
    temp_locks: Table<()>,
}

impl View for Storage {
    type V = StorageModel;

    closed spec fn view(&self) -> StorageModel {
        StorageModel {
            admin: opt_address_view(self.admin),
            pending_admin: opt_address_view(self.pending_admin),
            paused: self.paused,
            min_deposit: self.min_deposit,
            max_deposit: self.max_deposit,
            max_retries: self.max_retries,
            max_assets: self.max_assets,
            asset_count: self.asset_count,
            assets: self.assets@.dom(),
            relayers: self.relayers@.dom(),
            txs: self.txs@,
            anchor_index: self.anchor_index@,
            settlements: self.settlements@,
            dlq: self.dlq@,
            dlq_count: self.dlq_count,
            settlement_nonce: self.settlement_nonce,
            temp_locks: self.temp_locks@.dom(),
        }
    }
}

impl Storage {
    /// The storage is well formed: every table is, and the counters agree
    /// with what they count.
    pub closed spec fn wf(&self) -> bool {
        &&& self.assets.wf()
        &&& self.relayers.wf()
        &&& self.txs.wf()
        &&& self.anchor_index.wf()
        &&& self.settlements.wf()
        &&& self.dlq.wf()
        &&& self.temp_locks.wf()
        &&& self@.inv()
    }

    /// Well-formed storage meets the invariant.
    pub proof fn lemma_inv(&self)
        requires
            self.wf(),
        ensures
            self@.inv(),
    {
    }

    /// Empty storage.
    pub fn new() -> (st: Storage)
        ensures
            st.wf(),
            st@ == StorageModel::empty(),
    {
        let st = Storage {
            admin: None,
            pending_admin: None,
            paused: false,
            min_deposit: None,
            max_deposit: None,
            max_retries: None,
            max_assets: None,
            asset_count: 0,
            assets: Table::new(),
            relayers: Table::new(),
            txs: Table::new(),
            anchor_index: Table::new(),
            settlements: Table::new(),
            dlq: Table::new(),
            dlq_count: 0,
            settlement_nonce: 0,
            temp_locks: Table::new(),
        };
        assert(st@.assets =~= Set::<Seq<u8>>::empty());
        assert(st@.relayers =~= Set::<Seq<u8>>::empty());
        assert(st@.temp_locks =~= Set::<Seq<u8>>::empty());
        assert(st@ == StorageModel::empty());
        st
    }
}

/// Keys paired with nothing: the entries of a set.
pub open spec fn unit_entries(keys: Seq<Vec<u8>>) -> Seq<(Seq<u8>, ())> {
    keys.map_values(|k: Vec<u8>| (k@, ()))
}

/// A record stored under a key of its own.
pub trait Record: View + Sized {
    /// The key the record is stored under.
    spec fn record_key(&self) -> Seq<u8>;

    /// A fresh copy of the record's key.
    fn key(&self) -> (k: Vec<u8>)
        ensures
            k@ == self.record_key(),
    ;
}

impl Record for Transaction {
    open spec fn record_key(&self) -> Seq<u8> {
        self.id@
    }

    fn key(&self) -> (k: Vec<u8>) {
        copy_bytes(&self.id)
    }
}

impl Record for Settlement {
    open spec fn record_key(&self) -> Seq<u8> {
        self.id@
    }

    fn key(&self) -> (k: Vec<u8>) {
        copy_bytes(&self.id)
    }
}

impl Record for DlqEntry {
    open spec fn record_key(&self) -> Seq<u8> {
        self.tx_id@
    }

    fn key(&self) -> (k: Vec<u8>) {
        copy_bytes(&self.tx_id)
    }
}

/// Records paired with their keys.
pub open spec fn keyed_entries<T: Record>(records: Seq<T>) -> Seq<(Seq<u8>, T::V)> {
    records.map_values(|t: T| (t.record_key(), t@))
}

/// The contents of the storage as plain values and lists, in which form the
/// host keeps it on the ledger between calls.
pub struct StorageParts {
    pub admin: Option<Address>,
    pub pending_admin: Option<Address>,
    pub paused: bool,
    pub min_deposit: Option<i128>,
    pub max_deposit: Option<i128>,
    pub max_retries: Option<u32>,
    pub max_assets: Option<u32>,
    pub asset_count: u32,
    pub assets: Vec<Vec<u8>>,
    pub relayers: Vec<Vec<u8>>,
    pub txs: Vec<Transaction>,
    pub anchor_index: Vec<(Vec<u8>, Vec<u8>)>,
    pub settlements: Vec<Settlement>,
    pub dlq: Vec<DlqEntry>,
    pub dlq_count: i128,
    pub settlement_nonce: u32,
    pub temp_locks: Vec<Vec<u8>>,
}

impl StorageParts {
    /// The storage these parts describe; a later record for a key replaces
    /// an earlier one.
    pub open spec fn model(self) -> StorageModel {
        StorageModel {
            admin: opt_address_view(self.admin),
            pending_admin: opt_address_view(self.pending_admin),
            paused: self.paused,
            min_deposit: self.min_deposit,
            max_deposit: self.max_deposit,
            max_retries: self.max_retries,
            max_assets: self.max_assets,
            asset_count: self.asset_count,
            assets: map_of(unit_entries(self.assets@)).dom(),
            relayers: map_of(unit_entries(self.relayers@)).dom(),
            txs: map_of(keyed_entries(self.txs@)),
            anchor_index: map_of(entries_view(self.anchor_index@)),
            settlements: map_of(keyed_entries(self.settlements@)),
            dlq: map_of(keyed_entries(self.dlq@)),
            dlq_count: self.dlq_count,
            settlement_nonce: self.settlement_nonce,
            temp_locks: map_of(unit_entries(self.temp_locks@)).dom(),
        }
    }
}

fn with_unit_values(keys: Vec<Vec<u8>>) -> (entries: Vec<(Vec<u8>, ())>)
    ensures
        entries_view(entries@) == unit_entries(keys@),
{
    let ghost all = unit_entries(keys@);
    let ghost n = keys@.len();
    let mut rest = keys;
    let mut out: Vec<(Vec<u8>, ())> = Vec::new();
    while rest.len() > 0
        invariant
            out@.len() + rest@.len() == n,
            all.len() == n,
            entries_view(out@) == all.take(out@.len() as int),
            unit_entries(rest@) == all.skip(out@.len() as int),
        decreases rest@.len(),
    {
        let ghost before = rest@;
        let ghost done = out@.len() as int;
        assert(unit_entries(before)[0] == all[done]);
        let k = rest.remove(0);
        out.push((k, ()));
        assert(entries_view(out@) =~= all.take(done + 1)) by {
            assert(all.take(done + 1)[done] == all[done]);
        }
        assert(unit_entries(rest@) =~= all.skip(done + 1)) by {
            assert forall|j: int| 0 <= j < rest@.len() implies #[trigger] unit_entries(rest@)[j]
                == all.skip(done + 1)[j] by {
                assert(rest@[j] == before[j + 1]);
                assert(unit_entries(before)[j + 1] == all.skip(done)[j + 1]);
            }
        }
    }
    assert(all.take(n as int) =~= all);
    out
}

fn keys_only(entries: Vec<(Vec<u8>, ())>) -> (keys: Vec<Vec<u8>>)
    ensures
        unit_entries(keys@) == entries_view(entries@),
{
    let ghost all = entries_view(entries@);
    let ghost n = entries@.len();
    let mut rest = entries;
    let mut out: Vec<Vec<u8>> = Vec::new();
    while rest.len() > 0
        invariant
            out@.len() + rest@.len() == n,
            all.len() == n,
            unit_entries(out@) == all.take(out@.len() as int),
            entries_view(rest@) == all.skip(out@.len() as int),
        decreases rest@.len(),
    {
        let ghost before = rest@;
        let ghost done = out@.len() as int;
        assert(entries_view(before)[0] == all[done]);
        let (k, _) = rest.remove(0);
        out.push(k);
        assert(unit_entries(out@) =~= all.take(done + 1)) by {
            assert(all.take(done + 1)[done] == all[done]);
        }
        assert(entries_view(rest@) =~= all.skip(done + 1)) by {
            assert forall|j: int| 0 <= j < rest@.len() implies #[trigger] entries_view(rest@)[j]
                == all.skip(done + 1)[j] by {
                assert(rest@[j] == before[j + 1]);
                assert(entries_view(before)[j + 1] == all.skip(done)[j + 1]);
            }
        }
    }
    assert(all.take(n as int) =~= all);
    out
}

fn key_records<T: Record>(records: Vec<T>) -> (entries: Vec<(Vec<u8>, T)>)
    ensures
        entries_view(entries@) == keyed_entries(records@),
{
    let ghost all = keyed_entries(records@);
    let ghost n = records@.len();
    let mut rest = records;
    let mut out: Vec<(Vec<u8>, T)> = Vec::new();
    while rest.len() > 0
        invariant
            out@.len() + rest@.len() == n,
            all.len() == n,
            entries_view(out@) == all.take(out@.len() as int),
            keyed_entries(rest@) == all.skip(out@.len() as int),
        decreases rest@.len(),
    {
        let ghost before = rest@;
        let ghost done = out@.len() as int;
        assert(keyed_entries(before)[0] == all[done]);
        let r = rest.remove(0);
        let k = r.key();
        out.push((k, r));
        assert(entries_view(out@) =~= all.take(done + 1)) by {
            assert(all.take(done + 1)[done] == all[done]);
        }
        assert(keyed_entries(rest@) =~= all.skip(done + 1)) by {
            assert forall|j: int| 0 <= j < rest@.len() implies #[trigger] keyed_entries(rest@)[j]
                == all.skip(done + 1)[j] by {
                assert(rest@[j] == before[j + 1]);
                assert(keyed_entries(before)[j + 1] == all.skip(done)[j + 1]);
            }
        }
    }
    assert(all.take(n as int) =~= all);
    out
}

fn records_only<T: Record>(entries: Vec<(Vec<u8>, T)>) -> (records: Vec<T>)
    requires
        forall|i: int| 0 <= i < entries@.len() ==> #[trigger] entries@[i].0@ == entries@[i].1.record_key(),
    ensures
        keyed_entries(records@) == entries_view(entries@),
{
    let ghost all = entries_view(entries@);
    let ghost n = entries@.len();
    let ghost orig = entries@;
    let mut rest = entries;
    let mut out: Vec<T> = Vec::new();
    while rest.len() > 0
        invariant
            out@.len() + rest@.len() == n,
            all.len() == n,
            orig.len() == n,
            keyed_entries(out@) == all.take(out@.len() as int),
            rest@ == orig.skip(out@.len() as int),
            all == entries_view(orig),
            forall|i: int| 0 <= i < orig.len() ==> #[trigger] orig[i].0@ == orig[i].1.record_key(),
        decreases rest@.len(),
    {
        let ghost done = out@.len() as int;
        assert(rest@[0] == orig[done]);
        let (_, r) = rest.remove(0);
        out.push(r);
        assert(keyed_entries(out@) =~= all.take(done + 1)) by {
            assert(all.take(done + 1)[done] == all[done]);
            assert(orig[done].0@ == orig[done].1.record_key());
        }
        assert(rest@ =~= orig.skip(done + 1));
    }
    assert(all.take(n as int) =~= all);
    out
}

/// The parts describe well-formed storage: the counters agree with what
/// they count.
pub open spec fn parts_consistent(parts: StorageParts) -> bool {
    &&& parts.model().asset_count == parts.model().assets.len()
    &&& parts.model().dlq_count == parts.model().dlq.dom().len()
}

impl Storage {
    /// The contents of the storage, as parts.
    pub fn into_parts(self) -> (parts: StorageParts)
        requires
            self.wf(),
        ensures
            parts.model() == self@,
            parts_consistent(parts),
    {
        let ghost m = self@;
        let assets = keys_only(self.assets.into_entries());
        let relayers = keys_only(self.relayers.into_entries());
        let temp_locks = keys_only(self.temp_locks.into_entries());
        let anchor_index = self.anchor_index.into_entries();
        let tx_list = self.txs.into_entries();
        assert forall|i: int| 0 <= i < tx_list@.len() implies #[trigger] tx_list@[i].0@
            == tx_list@[i].1.record_key() by {
            assert(m.txs.contains_key(tx_list@[i].0@));
        }
        let txs = records_only(tx_list);
        let settlement_list = self.settlements.into_entries();
        assert forall|i: int| 0 <= i < settlement_list@.len() implies #[trigger] settlement_list@[i].0@
            == settlement_list@[i].1.record_key() by {
            assert(m.settlements.contains_key(settlement_list@[i].0@));
        }
        let settlements = records_only(settlement_list);
        let dlq_list = self.dlq.into_entries();
        assert forall|i: int| 0 <= i < dlq_list@.len() implies #[trigger] dlq_list@[i].0@
            == dlq_list@[i].1.record_key() by {
            assert(m.dlq.contains_key(dlq_list@[i].0@));
        }
        let dlq = records_only(dlq_list);
        let parts = StorageParts {
            admin: self.admin,
            pending_admin: self.pending_admin,
            paused: self.paused,
            min_deposit: self.min_deposit,
            max_deposit: self.max_deposit,
            max_retries: self.max_retries,
            max_assets: self.max_assets,
            asset_count: self.asset_count,
            assets,
            relayers,
            txs,
            anchor_index,
            settlements,
            dlq,
            dlq_count: self.dlq_count,
            settlement_nonce: self.settlement_nonce,
            temp_locks,
        };
        assert(parts.model() == m);
        parts
    }

    /// Storage with the contents the parts describe; refused when the
    /// counters do not agree with what they count.
    pub fn from_parts(parts: StorageParts) -> (r: Option<Storage>)
        ensures
            r is Some <==> parts_consistent(parts),
            r matches Some(st) ==> st.wf() && st@ == parts.model(),
    {
        let ghost m = parts.model();
        let ghost tx_keyed = keyed_entries(parts.txs@);
        let ghost settlement_keyed = keyed_entries(parts.settlements@);
        let ghost dlq_keyed = keyed_entries(parts.dlq@);
        proof {
            lemma_map_of_keyed(tx_keyed, |t: TransactionModel| t.id);
            lemma_map_of_keyed(settlement_keyed, |t: SettlementModel| t.id);
            lemma_map_of_keyed(dlq_keyed, |t: DlqEntryModel| t.tx_id);
        }
        let assets = Table::from_entries(with_unit_values(parts.assets));
        let relayers = Table::from_entries(with_unit_values(parts.relayers));
        let temp_locks = Table::from_entries(with_unit_values(parts.temp_locks));
        let anchor_index = Table::from_entries(parts.anchor_index);
        let txs = Table::from_entries(key_records(parts.txs));
        let settlements = Table::from_entries(key_records(parts.settlements));
        let dlq = Table::from_entries(key_records(parts.dlq));
        let asset_len = assets.len();
        let dlq_len = dlq.len();
        proof {
            assets.lemma_len_bound();
            dlq.lemma_len_bound();
        }
        if asset_len != parts.asset_count as usize || dlq_len as i128 != parts.dlq_count {
            return None;
        }
        let st = Storage {
            admin: parts.admin,
            pending_admin: parts.pending_admin,
            paused: parts.paused,
            min_deposit: parts.min_deposit,
            max_deposit: parts.max_deposit,
            max_retries: parts.max_retries,
            max_assets: parts.max_assets,
            asset_count: parts.asset_count,
            assets,
            relayers,
            txs,
            anchor_index,
            settlements,
            dlq,
            dlq_count: parts.dlq_count,
            settlement_nonce: parts.settlement_nonce,
            temp_locks,
        };
        assert(st@ == m);
        Some(st)
    }
}

} // verus!
