//! The quota store: a transactional key-value database with three tables —
//! `tokens` (bearer token -> user id), `groups` (user id -> comma-separated
//! group list) and `usage` (period-bucket key -> counter). The engine is redb;
//! each operation the gateway needs is one trusted item, and every contract
//! speaks of the three table contents named below.
use vstd::prelude::*;
use redb::ReadableDatabase;

verus! {

#[verifier::external_type_specification]
#[verifier::external_body]
pub struct ExDatabase(redb::Database);

/// The store failed to open, read or commit; the gateway fails the request.
#[derive(Clone, Copy, PartialEq, Eq, Structural, Debug)]
pub struct StoreError;

/// An open quota store.
pub struct Store {
    pub db: redb::Database,
}

/// Contents of the `tokens` table of `db`.
pub uninterp spec fn tokens_of(db: redb::Database) -> Map<Seq<char>, Seq<char>>;

/// Contents of the `groups` table of `db`.
pub uninterp spec fn groups_of(db: redb::Database) -> Map<Seq<char>, Seq<char>>;

/// Contents of the `usage` table of `db`.
pub uninterp spec fn usage_of(db: redb::Database) -> Map<Seq<char>, u64>;

impl Store {
    pub open spec fn tokens(self) -> Map<Seq<char>, Seq<char>> {
        tokens_of(self.db)
    }

    pub open spec fn groups(self) -> Map<Seq<char>, Seq<char>> {
        groups_of(self.db)
    }

    pub open spec fn usage(self) -> Map<Seq<char>, u64> {
        usage_of(self.db)
    }

    /// Relies on redb: `Database::create` opens or creates the database file at
    /// `path`, and `WriteTransaction::open_table` in one committed write
    /// transaction creates each missing table without touching existing rows.
    #[verifier::external_body]
    pub fn open(path: &str) -> (r: Result<Store, StoreError>) {
        let db = redb::Database::create(path).map_err(|_| StoreError)?;
        let txn = db.begin_write().map_err(|_| StoreError)?;
        txn.open_table(redb::TableDefinition::<&str, &str>::new("tokens")).map_err(|_| StoreError)?;
        txn.open_table(redb::TableDefinition::<&str, &str>::new("groups")).map_err(|_| StoreError)?;
        txn.open_table(redb::TableDefinition::<&str, u64>::new("usage")).map_err(|_| StoreError)?;
        txn.commit().map_err(|_| StoreError)?;
        Ok(Store { db })
    }

    /// Relies on redb: a database over a fresh `InMemoryBackend` starts empty.
    #[verifier::external_body]
    pub fn open_memory() -> (r: Result<Store, StoreError>)
        ensures
            match r {
                Ok(s) => tokens_of(s.db) == Map::<Seq<char>, Seq<char>>::empty() && groups_of(s.db)
                    == Map::<Seq<char>, Seq<char>>::empty() && usage_of(s.db) == Map::<
                    Seq<char>,
                    u64,
                >::empty(),
                Err(_) => true,
            },
    {
        let backend = redb::backends::InMemoryBackend::new();
        let db = redb::Database::builder().create_with_backend(backend).map_err(|_| StoreError)?;
        let txn = db.begin_write().map_err(|_| StoreError)?;
        txn.open_table(redb::TableDefinition::<&str, &str>::new("tokens")).map_err(|_| StoreError)?;
        txn.open_table(redb::TableDefinition::<&str, &str>::new("groups")).map_err(|_| StoreError)?;
        txn.open_table(redb::TableDefinition::<&str, u64>::new("usage")).map_err(|_| StoreError)?;
        txn.commit().map_err(|_| StoreError)?;
        Ok(Store { db })
    }

    /// Relies on redb: a read transaction sees the committed `tokens` table;
    /// `get` returns the value stored under the key, or `None`.
    #[verifier::external_body]
    pub fn token_get(&self, token: &str) -> (r: Result<Option<String>, StoreError>)
        ensures
            match r {
                Ok(Some(u)) => tokens_of(self.db).contains_key(token@) && tokens_of(self.db)[token@] == u@,
                Ok(None) => !tokens_of(self.db).contains_key(token@),
                Err(_) => true,
            },
    {
        let txn = self.db.begin_read().map_err(|_| StoreError)?;
        let tbl = txn.open_table(redb::TableDefinition::<&str, &str>::new("tokens")).map_err(
            |_| StoreError,
        )?;
        let got = tbl.get(token).map_err(|_| StoreError)?;
        Ok(got.map(|g| g.value().to_owned()))
    }

    /// Relies on redb: a read transaction sees the committed `groups` table.
    #[verifier::external_body]
    pub fn group_get(&self, user: &str) -> (r: Result<Option<String>, StoreError>)
        ensures
            match r {
                Ok(Some(g)) => groups_of(self.db).contains_key(user@) && groups_of(self.db)[user@] == g@,
                Ok(None) => !groups_of(self.db).contains_key(user@),
                Err(_) => true,
            },
    {
        let txn = self.db.begin_read().map_err(|_| StoreError)?;
        let tbl = txn.open_table(redb::TableDefinition::<&str, &str>::new("groups")).map_err(
            |_| StoreError,
        )?;
        let got = tbl.get(user).map_err(|_| StoreError)?;
        Ok(got.map(|g| g.value().to_owned()))
    }

    /// Relies on redb: a read transaction sees the committed `usage` table.
    #[verifier::external_body]
    pub fn usage_get(&self, key: &str) -> (r: Result<Option<u64>, StoreError>)
        ensures
            match r {
                Ok(Some(v)) => usage_of(self.db).contains_key(key@) && usage_of(self.db)[key@] == v,
                Ok(None) => !usage_of(self.db).contains_key(key@),
                Err(_) => true,
            },
    {
        let txn = self.db.begin_read().map_err(|_| StoreError)?;
        let tbl = txn.open_table(redb::TableDefinition::<&str, u64>::new("usage")).map_err(
            |_| StoreError,
        )?;
        let got = tbl.get(key).map_err(|_| StoreError)?;
        Ok(got.map(|g| g.value()))
    }

    /// Relies on redb: `insert` in a committed write transaction replaces the
    /// value under the key in the `tokens` table. A failure before the commit
    /// leaves the database unchanged; a failed commit applies the
    /// transaction's writes atomically, fully or not at all, and must not be
    /// assumed rolled back — so on error this table holds either its old
    /// contents or exactly the new row, and the untouched tables are as they
    /// were.
    #[verifier::external_body]
    pub fn token_put(&mut self, token: &str, user: &str) -> (r: Result<(), StoreError>)
        ensures
            match r {
                Ok(_) => tokens_of(final(self).db) == tokens_of(old(self).db).insert(token@, user@)
                    && groups_of(final(self).db) == groups_of(old(self).db)
                    && usage_of(final(self).db) == usage_of(old(self).db),
                Err(_) => (tokens_of(final(self).db) == tokens_of(old(self).db)
                    || tokens_of(final(self).db) == tokens_of(old(self).db).insert(
                    token@,
                    user@,
                )) && groups_of(final(self).db) == groups_of(old(self).db)
                    && usage_of(final(self).db) == usage_of(old(self).db),
            },
    {
        let txn = match self.db.begin_write() { Ok(t) => t, Err(_) => return Err(StoreError) };
        {
            let tdef = redb::TableDefinition::<&str, &str>::new("tokens");
            let mut tbl = match txn.open_table(tdef) { Ok(t) => t, Err(_) => return Err(StoreError) };
            if tbl.insert(token, user).is_err() {
                return Err(StoreError);
            }
        }
        txn.commit().map_err(|_| StoreError)
    }

    /// Relies on redb: `insert` in a committed write transaction replaces the
    /// value under the key in the `groups` table. As with `token_put`, a
    /// failed commit must not be assumed rolled back: on error this table is
    /// either as before or exactly as on success, the others untouched.
    #[verifier::external_body]
    pub fn group_put(&mut self, user: &str, groups: &str) -> (r: Result<(), StoreError>)
        ensures
            match r {
                Ok(_) => groups_of(final(self).db) == groups_of(old(self).db).insert(user@, groups@)
                    && tokens_of(final(self).db) == tokens_of(old(self).db)
                    && usage_of(final(self).db) == usage_of(old(self).db),
                Err(_) => (groups_of(final(self).db) == groups_of(old(self).db)
                    || groups_of(final(self).db) == groups_of(old(self).db).insert(
                    user@,
                    groups@,
                )) && tokens_of(final(self).db) == tokens_of(old(self).db)
                    && usage_of(final(self).db) == usage_of(old(self).db),
            },
    {
        let txn = match self.db.begin_write() { Ok(t) => t, Err(_) => return Err(StoreError) };
        {
            let tdef = redb::TableDefinition::<&str, &str>::new("groups");
            let mut tbl = match txn.open_table(tdef) { Ok(t) => t, Err(_) => return Err(StoreError) };
            if tbl.insert(user, groups).is_err() {
                return Err(StoreError);
            }
        }
        txn.commit().map_err(|_| StoreError)
    }

    /// Relies on redb: all listed counters are inserted into the `usage` table
    /// inside one write transaction. The transaction's writes apply
    /// atomically, fully or not at all; a failure before the commit changes
    /// nothing, but a failed commit must not be assumed rolled back — so on
    /// error the table holds either its old contents or exactly the new
    /// counters, and the other tables are untouched either way.
    #[verifier::external_body]
    pub fn usage_put_all(&mut self, entries: &Vec<(String, u64)>) -> (r: Result<
        (),
        StoreError,
    >)
        ensures
            match r {
                Ok(_) => usage_of(final(self).db) == spec_fold_insert(
                    usage_of(old(self).db),
                    entries@.map_values(|e: (String, u64)| (e.0@, e.1)),
                ) && tokens_of(final(self).db) == tokens_of(old(self).db)
                    && groups_of(final(self).db) == groups_of(old(self).db),
                Err(_) => (usage_of(final(self).db) == usage_of(old(self).db)
                    || usage_of(final(self).db) == spec_fold_insert(
                    usage_of(old(self).db),
                    entries@.map_values(|e: (String, u64)| (e.0@, e.1)),
                )) && tokens_of(final(self).db) == tokens_of(old(self).db)
                    && groups_of(final(self).db) == groups_of(old(self).db),
            },
    {
        let txn = match self.db.begin_write() { Ok(t) => t, Err(_) => return Err(StoreError) };
        {
            let tdef = redb::TableDefinition::<&str, u64>::new("usage");
            let mut tbl = match txn.open_table(tdef) { Ok(t) => t, Err(_) => return Err(StoreError) };
            for (k, v) in entries.iter() {
                if tbl.insert(k.as_str(), *v).is_err() {
                    return Err(StoreError);
                }
            }
        }
        txn.commit().map_err(|_| StoreError)
    }
}

/// Why a token was not inserted.
#[derive(Clone, Copy, PartialEq, Eq, Structural, Debug)]
pub enum TokenInsertError {
    /// The token has fewer than 32 characters; nothing is stored.
    TooShort,
    /// The store write failed; the row may or may not have been applied.
    Store(StoreError),
}

/// Inserts a bearer token for a user. A token shorter than 32 characters is
/// always answered with the too-short rejection — the store is never asked —
/// so every stored token has at least 32 characters; a store failure is
/// reported only for tokens the length rule admits.
pub fn token_insert(store: &mut Store, token: &str, user: &str) -> (r: Result<
    (),
    TokenInsertError,
>)
    ensures
        match r {
            Ok(_) => token@.len() >= 32 && tokens_of(final(store).db) == tokens_of(
                old(store).db,
            ).insert(token@, user@) && groups_of(final(store).db) == groups_of(old(store).db)
                && usage_of(final(store).db) == usage_of(old(store).db),
            Err(TokenInsertError::TooShort) => token@.len() < 32 && *final(store) == *old(
                store,
            ),
            Err(TokenInsertError::Store(_)) => token@.len() >= 32 && (tokens_of(
                final(store).db,
            ) == tokens_of(old(store).db) || tokens_of(final(store).db) == tokens_of(
                old(store).db,
            ).insert(token@, user@)) && groups_of(final(store).db) == groups_of(old(store).db)
                && usage_of(final(store).db) == usage_of(old(store).db),
        },
{
    if token.unicode_len() < 32 {
        return Err(TokenInsertError::TooShort);
    }
    match store.token_put(token, user) {
        Ok(_) => Ok(()),
        Err(e) => Err(TokenInsertError::Store(e)),
    }
}

/// The map after inserting each listed pair in order; a later pair with the
/// same key replaces an earlier one, as the store's `insert` does.
pub open spec fn spec_fold_insert(m: Map<Seq<char>, u64>, entries: Seq<(Seq<char>, u64)>) -> Map<
    Seq<char>,
    u64,
>
    decreases entries.len(),
{
    if entries.len() == 0 {
        m
    } else {
        spec_fold_insert(m.insert(entries[0].0, entries[0].1), entries.drop_first())
    }
}

} // verus!
