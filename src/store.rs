use vstd::prelude::*;
use crate::profile::User;

verus! {

/// Why a storage operation did not complete.
#[derive(Debug, Clone, Copy, PartialEq, Eq, Structural)]
pub enum StorageError {
    /// The host offers no persistent storage.
    StorageUnavailable,
    /// A stored record does not have the shape of a profile.
    SerializationError,
    /// The storage engine rejected a read or a write.
    TransactionError,
}

/// The kind of storage behind a [`ProfileStore`], chosen when it is built.
#[derive(Debug, Clone, Copy, PartialEq, Eq, Structural)]
pub enum Backend {
    /// Durable local storage.
    Persistent,
    /// No storage at all: opening fails, saves do nothing and loads find
    /// nothing, so that callers behave as they would on an empty store.
    Unavailable,
    /// Storage whose engine rejects every transaction.
    Faulty,
}

/// The local record store of profiles.
///
/// It holds the records of a single table. Every save clears the table before
/// it inserts, so the table never holds more than one record.
pub struct ProfileStore {
    backend: Backend,
    records: Vec<User>,
}

/// What opening a store of the given kind yields.
pub open spec fn open_outcome(backend: Backend) -> Result<(), StorageError> {
    match backend {
        Backend::Persistent => Ok(()),
        Backend::Unavailable => Err(StorageError::StorageUnavailable),
        Backend::Faulty => Ok(()),
    }
}

/// What a save on a store of the given kind returns.
pub open spec fn save_outcome(backend: Backend) -> Result<(), StorageError> {
    match backend {
        Backend::Faulty => Err(StorageError::TransactionError),
        _ => Ok(()),
    }
}

/// The records of a table after `user` was saved into it.
pub open spec fn records_after_save(backend: Backend, records: Seq<User>, user: User) -> Seq<User> {
    match backend {
        Backend::Persistent => seq![user],
        _ => records,
    }
}

/// What a load from a table with the given records returns.
pub open spec fn load_outcome(backend: Backend, records: Seq<User>) -> Result<Option<User>, StorageError> {
    match backend {
        Backend::Persistent => if records.len() == 0 {
            Ok(None)
        } else {
            Ok(Some(records[0]))
        },
        Backend::Unavailable => Ok(None),
        Backend::Faulty => Err(StorageError::TransactionError),
    }
}

impl ProfileStore {
    /// The kind of storage behind this store.
    pub closed spec fn kind(&self) -> Backend {
        self.backend
    }

    /// The records the table holds, in the order they were inserted.
    pub closed spec fn records(&self) -> Seq<User> {
        self.records@
    }

    /// The table holds at most one record.
    pub open spec fn wf(&self) -> bool {
        self.records().len() <= 1
    }

    /// A store of the given kind whose table is empty.
    pub fn new(backend: Backend) -> (r: ProfileStore)
        ensures
            r.kind() == backend,
            r.records() == Seq::<User>::empty(),
            r.wf(),
    {
        ProfileStore { backend, records: Vec::new() }
    }

    /// The kind of storage behind this store.
    pub fn backend(&self) -> (r: Backend)
        ensures
            r == self.kind(),
    {
        self.backend
    }

    /// The number of records in the table.
    pub fn record_count(&self) -> (r: usize)
        ensures
            r == self.records().len(),
    {
        self.records.len()
    }
}

/// Opens the store: fails with `StorageUnavailable` where the host has no
/// persistent storage.
pub fn init_db(store: &ProfileStore) -> (r: Result<(), StorageError>)
    ensures
        r == open_outcome(store.kind()),
{
    match store.backend {
        Backend::Unavailable => Err(StorageError::StorageUnavailable),
        _ => Ok(()),
    }
}

/// Saves `user` as the one profile record, replacing whatever the table held.
///
/// Without storage this is a successful no-op; a faulty engine leaves the
/// table as it was and reports `TransactionError`.
pub fn save_user(store: &mut ProfileStore, user: User) -> (r: Result<(), StorageError>)
    requires
        old(store).wf(),
    ensures
        final(store).wf(),
        final(store).kind() == old(store).kind(),
        final(store).records() == records_after_save(old(store).kind(), old(store).records(), user),
        r == save_outcome(old(store).kind()),
{
    match store.backend {
        Backend::Persistent => {
            store.records.clear();
            store.records.push(user);
            assert(store.records@ =~= seq![user]);
            Ok(())
        },
        Backend::Unavailable => Ok(()),
        Backend::Faulty => Err(StorageError::TransactionError),
    }
}

/// Loads the saved profile: `None` on an empty table or without storage,
/// otherwise the record the table holds.
pub fn get_user(store: &ProfileStore) -> (r: Result<Option<User>, StorageError>)
    requires
        store.wf(),
    ensures
        r == load_outcome(store.kind(), store.records()),
{
    match store.backend {
        Backend::Persistent => {
            if store.records.len() == 0 {
                Ok(None)
            } else {
                Ok(Some(store.records[0].duplicate()))
            }
        },
        Backend::Unavailable => Ok(None),
        Backend::Faulty => Err(StorageError::TransactionError),
    }
}

/// Saving the same profile twice leaves exactly that one profile to load.
pub proof fn lemma_save_idempotent(store: ProfileStore, user: User)
    requires
        store.wf(),
        store.kind() == Backend::Persistent,
    ensures
        ({
            let once = records_after_save(store.kind(), store.records(), user);
            let twice = records_after_save(store.kind(), once, user);
            &&& twice == once
            &&& twice.len() == 1
            &&& load_outcome(store.kind(), twice) == Ok::<Option<User>, StorageError>(Some(user))
        }),
{
}

/// A load after a save returns the saved profile unchanged.
pub proof fn lemma_load_after_save(store: ProfileStore, user: User)
    requires
        store.wf(),
        store.kind() == Backend::Persistent,
    ensures
        load_outcome(store.kind(), records_after_save(store.kind(), store.records(), user))
            == Ok::<Option<User>, StorageError>(Some(user)),
{
}

/// Of two successive saves only the second is kept: the table holds it alone.
pub proof fn lemma_save_replaces(store: ProfileStore, first: User, second: User)
    requires
        store.wf(),
        store.kind() == Backend::Persistent,
    ensures
        ({
            let after = records_after_save(
                store.kind(),
                records_after_save(store.kind(), store.records(), first),
                second,
            );
            &&& after == seq![second]
            &&& load_outcome(store.kind(), after) == Ok::<Option<User>, StorageError>(Some(second))
        }),
{
}

/// A freshly built store of any kind but a faulty one loads `None`, never an
/// error.
pub proof fn lemma_fresh_store_loads_none(backend: Backend)
    requires
        backend != Backend::Faulty,
    ensures
        load_outcome(backend, Seq::<User>::empty()) == Ok::<Option<User>, StorageError>(None),
{
}

} // verus!
