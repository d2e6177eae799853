//! Index entries: derived secondary keys made of a grouping key, a creation
//! timestamp and the id of the entity they refer to.

use crate::repository::{distinct_ids, stored_after, stored_under, Repository};
use crate::types::{Timestamp, UUID};
use vstd::prelude::*;

verus! {

broadcast use vstd::array::group_array_axioms;

pub type TransferId = UUID;

pub type WalletId = UUID;

pub type OperationId = UUID;

/// A transfer, as far as its indexes read it.
#[derive(Clone, Debug, PartialEq, Eq, Hash, PartialOrd, Ord)]
pub struct Transfer {
    pub id: TransferId,
    pub from_wallet: WalletId,
    pub to_address: String,
    pub created_timestamp: Timestamp,
    pub last_modification_timestamp: Timestamp,
}

/// The key under which a transfer is stored.
#[derive(Clone, Copy, Debug, PartialEq, Eq, Hash, PartialOrd, Ord)]
pub struct TransferKey {
    pub id: TransferId,
}

/// Represents a transfer list index in the system.
#[derive(Clone, Copy, Debug, PartialEq, Eq, Hash, PartialOrd, Ord)]
pub struct TransferWalletIndex {
    /// The wallet associated with the transfer.
    pub wallet_id: WalletId,
    /// The timestamp of the transfer creation.
    pub created_timestamp: Timestamp,
    /// The transfer associated with the wallet.
    pub transfer_id: TransferId,
}

#[derive(Clone, Debug)]
pub struct TransferWalletIndexCriteria {
    pub wallet_id: WalletId,
    pub from_dt: Option<Timestamp>,
    pub to_dt: Option<Timestamp>,
    pub status: Option<String>,
}

/// Finds the operations that refer to a transfer, by creation time.
#[derive(Clone, Copy, Debug, PartialEq, Eq, Hash, PartialOrd, Ord)]
pub struct OperationTransferIndex {
    /// The transfer that the operation refers to.
    pub transfer_id: TransferId,
    /// The timestamp of the operation creation.
    pub created_at: Timestamp,
    /// The operation.
    pub id: OperationId,
}

#[derive(Clone, Copy, Debug)]
pub struct OperationTransferIndexCriteria {
    pub transfer_id: TransferId,
    pub from_dt: Option<Timestamp>,
    pub to_dt: Option<Timestamp>,
}

/// The primary store of transfers. Its view is the entries in insertion
/// order, each a transfer id with the transfer stored under it, no id twice.
pub struct TransferRepository {
    store: Repository<Transfer>,
}

impl View for TransferRepository {
    type V = Seq<(TransferId, Transfer)>;

    closed spec fn view(&self) -> Seq<(TransferId, Transfer)> {
        self.store@
    }
}

impl TransferRepository {
    /// An empty store.
    pub fn new() -> (repository: TransferRepository)
        ensures
            repository@ == Seq::<(TransferId, Transfer)>::empty(),
    {
        TransferRepository { store: Repository::new() }
    }

    /// The transfer stored under `key`.
    pub fn get(&self, key: &TransferKey) -> (found: Option<&Transfer>)
        ensures
            match stored_under(self@, key.id) {
                Some(transfer) => found == Some(&transfer),
                None => found is None,
            },
    {
        self.store.get(&key.id)
    }

    /// Stores `value` under `key`, in place of what was stored under it or
    /// last where nothing was, and hands back what was stored under it.
    pub fn insert(&mut self, key: TransferKey, value: Transfer) -> (previous: Option<Transfer>)
        ensures
            previous == stored_under(old(self)@, key.id),
            final(self)@ == stored_after(old(self)@, key.id, value),
            distinct_ids(final(self)@),
    {
        self.store.insert(key.id, value)
    }
}

impl Transfer {
    /// The key for the transfer with the given id.
    pub fn key(id: TransferId) -> (key: TransferKey)
        ensures
            key.id == id,
    {
        TransferKey { id }
    }

    /// The entry that indexes this transfer by its source wallet.
    pub fn to_index_by_wallet(&self) -> (index: TransferWalletIndex)
        ensures
            index.wallet_id == self.from_wallet,
            index.created_timestamp == self.created_timestamp,
            index.transfer_id == self.id,
    {
        TransferWalletIndex {
            wallet_id: self.from_wallet,
            created_timestamp: self.created_timestamp,
            transfer_id: self.id,
        }
    }
}

impl TransferWalletIndex {
    /// The default criteria interval in nanoseconds (7 days).
    pub const DEFAULT_CRITERIA_INTERVAL_NS: u64 = 7 * 24 * 60 * 60 * 1_000_000_000;

    /// The transfer that the entry refers to. An entry whose transfer is
    /// gone breaks the consistency of index and store, so the transfer must
    /// be there.
    pub fn to_transfer<'a>(&self, transfers: &'a TransferRepository) -> (transfer: &'a Transfer)
        requires
            stored_under(transfers@, self.transfer_id) is Some,
        ensures
            Some(*transfer) == stored_under(transfers@, self.transfer_id),
    {
        transfers.get(&Transfer::key(self.transfer_id)).unwrap()
    }
}

} // verus!
