//! The durable side of the cache: a transactional URL -> body table.
//!
//! The table lives in a redb database. Verified code sees its contents only
//! through `store_map`, and reaches it only through the trusted wrappers
//! below, whose contracts state what redb's transactions do to the table.

use vstd::prelude::*;

verus! {

#[verifier::external_type_specification]
#[verifier::external_body]
pub struct ExDatabase(redb::Database);

/// The store could not open or commit a transaction (storage corrupt, I/O
/// failure, lock timeout). A key that is merely absent is not an error.
#[derive(Debug, Clone, Copy, PartialEq, Eq)]
pub enum StoreError {
    Unavailable,
}

/// A durable, transactional mapping from request URL to raw response body,
/// held in one named table of a redb database. The handle owns the database:
/// within one process, the table changes only through `write`.
pub struct CacheStore {
    db: redb::Database,
}

/// The contents of the store's one table, as a map from URL to body.
pub uninterp spec fn store_map(s: CacheStore) -> Map<Seq<char>, Seq<char>>;

impl CacheStore {
    /// Relies on redb::Database::builder().create_with_backend with a fresh
    /// redb::backends::InMemoryBackend: a new, empty backend holds no tables,
    /// so the table starts empty.
    #[verifier::external_body]
    pub fn in_memory() -> (r: Result<CacheStore, StoreError>)
        ensures
            (r matches Ok(s) ==> store_map(s) == Map::<Seq<char>, Seq<char>>::empty()),
    {
        let db = redb::Database::builder()
            .create_with_backend(redb::backends::InMemoryBackend::new())
            .map_err(|_| StoreError::Unavailable)?;
        Ok(CacheStore { db })
    }

    /// Relies on redb::Database::create: opens the database file at `path`,
    /// initializing it when absent or empty. The table holds whatever earlier
    /// runs committed, so nothing is promised of the contents.
    #[verifier::external_body]
    pub fn open(path: &str) -> (r: Result<CacheStore, StoreError>)
    {
        let db = redb::Database::create(path).map_err(|_| StoreError::Unavailable)?;
        Ok(CacheStore { db })
    }

    /// Relies on redb::ReadableDatabase::begin_read, ReadTransaction::open_table
    /// and ReadOnlyTable::get: a snapshot read returns the committed value for
    /// the key, and a table that was never created holds no keys.
    #[verifier::external_body]
    fn read_raw(&self, url: &str) -> (r: Result<Option<String>, StoreError>)
        ensures
            (r matches Ok(Some(b)) ==> store_map(*self).contains_key(url@)
                && b@ == store_map(*self)[url@]),
            (r matches Ok(None) ==> !store_map(*self).contains_key(url@)),
    {
        let txn = redb::ReadableDatabase::begin_read(&self.db)
            .map_err(|_| StoreError::Unavailable)?;
        let table = match txn.open_table(redb::TableDefinition::<&str, &str>::new("http_client")) {
            Ok(t) => t,
            Err(redb::TableError::TableDoesNotExist(_)) => return Ok(None),
            Err(_) => return Err(StoreError::Unavailable),
        };
        match table.get(url).map_err(|_| StoreError::Unavailable)? {
            Some(guard) => Ok(Some(guard.value().to_string())),
            None => Ok(None),
        }
    }

    /// Relies on redb::Database::begin_write, WriteTransaction::open_table,
    /// Table::insert and WriteTransaction::commit: a committed transaction
    /// makes exactly this one insertion durable, and a transaction that fails
    /// before or during commit is aborted and changes nothing.
    #[verifier::external_body]
    fn write_raw(&mut self, url: &str, body: &str) -> (r: Result<(), StoreError>)
        ensures
            (r is Ok ==> store_map(*final(self)) == store_map(*old(self)).insert(url@, body@)),
            store_map(*final(self)) == store_map(*old(self)).insert(url@, body@)
                || store_map(*final(self)) == store_map(*old(self)),
    {
        let txn = self.db.begin_write().map_err(|_| StoreError::Unavailable)?;
        {
            let mut table = txn
                .open_table(redb::TableDefinition::<&str, &str>::new("http_client"))
                .map_err(|_| StoreError::Unavailable)?;
            table.insert(url, body).map_err(|_| StoreError::Unavailable)?;
        }
        txn.commit().map_err(|_| StoreError::Unavailable)
    }

    /// Looks the URL up in a read transaction: `Ok(Some(body))` when present,
    /// `Ok(None)` when absent, `Err` when the store itself failed.
    pub fn read(&self, url: &str) -> (r: Result<Option<String>, StoreError>)
        ensures
            (r matches Ok(Some(b)) ==> store_map(*self).contains_key(url@)
                && b@ == store_map(*self)[url@]),
            (r matches Ok(None) ==> !store_map(*self).contains_key(url@)),
    {
        self.read_raw(url)
    }

    /// Inserts or overwrites the mapping in one committed write transaction.
    /// On failure the transaction is aborted, so either the whole insertion
    /// took effect or nothing did.
    pub fn write(&mut self, url: &str, body: &str) -> (r: Result<(), StoreError>)
        ensures
            (r is Ok ==> store_map(*final(self)) == store_map(*old(self)).insert(url@, body@)),
            store_map(*final(self)) == store_map(*old(self)).insert(url@, body@)
                || store_map(*final(self)) == store_map(*old(self)),
    {
        self.write_raw(url, body)
    }
}

} // verus!
