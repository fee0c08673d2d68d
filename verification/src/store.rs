//! The credential repository: a durable table of sealed entries keyed
//! by (service, username), bound for the session to the key derived
//! from the master password and the store's persisted salt.
//!
//! Duplicate (service, username) pairs may coexist: an add always
//! appends a new row. A get reads the newest matching row; a delete
//! removes every matching row. The store's salt is recorded at creation
//! and reused on every later open, so the same master password always
//! derives the same key for the same store.

use vstd::prelude::*;

use crate::crypto::{decrypt, encrypt, generate_salt, key_of, MasterKey};
use crate::db::{
    db_rows, db_salt, delete_rows, insert_row, last_match, load_salt, match_count,
    open_connection, provision_schema, query_newest, row_matches, select_pairs, store_salt,
    without_pair, StoredRow,
};
use crate::encoding::{b64_decode, b64_decoded, b64_encode};
use crate::errors::StoreError;

verus! {

/// What a stored row opens to under a key: decode the two base64 texts,
/// demand a 96-bit nonce, and open the ciphertext under (key, nonce);
/// nothing, where any step refuses.
pub open spec fn row_opening(key: Seq<u8>, row: StoredRow) -> Option<Seq<char>> {
    match (b64_decoded(row.secret_b64), b64_decoded(row.nonce_b64)) {
        (Some(ciphertext), Some(nonce)) => if nonce.len() == 12 {
            crate::crypto::decipher_of(key, nonce, ciphertext)
        } else {
            None
        },
        _ => None,
    }
}

/// Whether a stored row is, for the pair, a sealing of `secret` under
/// `key`: it carries the pair in the clear and opens back to `secret`.
pub open spec fn row_seals(
    key: Seq<u8>,
    row: StoredRow,
    service: Seq<char>,
    username: Seq<char>,
    secret: Seq<char>,
) -> bool {
    &&& row.service == service
    &&& row.username == username
    &&& row_opening(key, row) == Some(secret)
}

/// An open credential store: the backing database and the session key.
pub struct PasswordManager {
    conn: rusqlite::Connection,
    key: MasterKey,
}

impl PasswordManager {
    /// The entry rows the store holds, in storage order.
    pub closed spec fn rows(&self) -> Seq<StoredRow> {
        db_rows(self.conn)
    }

    /// The key bytes bound for this session.
    pub closed spec fn key(&self) -> Seq<u8> {
        self.key@
    }

    /// The key-derivation salt the store has recorded, if any.
    pub closed spec fn salt(&self) -> Option<Seq<u8>> {
        db_salt(self.conn)
    }

    /// A well-formed store binds a full-length session key.
    pub closed spec fn wf(&self) -> bool {
        self.key.wf()
    }

    /// Opens or creates the store at `db_path`: provisions the table
    /// schema (idempotently, leaving any existing rows untouched),
    /// records a fresh random salt on first use or reloads the recorded
    /// one, and binds the key derived from the master password and that
    /// salt — so the same password re-derives the same key on every
    /// open of the same store.
    pub fn new(master_password: &str, db_path: &str) -> (r: Result<PasswordManager, StoreError>)
        ensures
            r matches Ok(m) ==> m.wf()
                && (m.salt() matches Some(s) && m.key() == key_of(master_password@, s)),
            r matches Err(e) ==> e == StoreError::StoreUnavailable
                || e == StoreError::EncryptionFailure,
    {
        let mut conn = match open_connection(db_path) {
            Ok(c) => c,
            Err(_) => {
                return Err(StoreError::StoreUnavailable);
            },
        };
        match provision_schema(&mut conn) {
            Ok(()) => (),
            Err(_) => {
                return Err(StoreError::StoreUnavailable);
            },
        }
        let salt = match load_salt(&conn) {
            Ok(Some(s)) => s,
            Ok(None) => {
                let fresh = generate_salt();
                match store_salt(&mut conn, &fresh) {
                    Ok(()) => (),
                    Err(_) => {
                        return Err(StoreError::StoreUnavailable);
                    },
                }
                fresh
            },
            Err(_) => {
                return Err(StoreError::StoreUnavailable);
            },
        };
        let key = match MasterKey::derive(master_password, &salt) {
            Ok(k) => k,
            Err(e) => {
                return Err(e);
            },
        };
        Ok(PasswordManager { conn, key })
    }

    /// Seals the secret under the session key with a fresh nonce and
    /// appends it as a new row for (service, username). Duplicate pairs
    /// are not rejected: re-adding appends a further row, and a get
    /// then reads the newest one.
    pub fn add_password(&mut self, service: &str, username: &str, password: &str) -> (r: Result<(), StoreError>)
        requires
            old(self).wf(),
        ensures
            final(self).wf(),
            final(self).key() == old(self).key(),
            final(self).salt() == old(self).salt(),
            r is Ok ==> final(self).rows().len() == old(self).rows().len() + 1
                && final(self).rows().drop_last() == old(self).rows()
                && row_seals(old(self).key(), final(self).rows().last(), service@, username@, password@),
            r is Err ==> final(self).rows() == old(self).rows()
                && (r == Err::<(), StoreError>(StoreError::EncryptionFailure)
                    || r == Err::<(), StoreError>(StoreError::StoreWriteFailure)),
            password@.len() <= 0x4_0000_0000 ==> (r is Ok
                || r == Err::<(), StoreError>(StoreError::StoreWriteFailure)),
    {
        let sealed = match encrypt(&self.key, password) {
            Ok(p) => p,
            Err(e) => {
                return Err(e);
            },
        };
        let secret_b64 = b64_encode(&sealed.0);
        let nonce_b64 = b64_encode(&sealed.1);
        match insert_row(&mut self.conn, service, username, secret_b64.as_str(), nonce_b64.as_str()) {
            Ok(()) => {
                assert(final(self).rows().drop_last() =~= old(self).rows());
                Ok(())
            },
            Err(_) => Err(StoreError::StoreWriteFailure),
        }
    }

    /// Reads the newest row of (service, username) and opens it under
    /// the session key: the stored secret comes back exactly when that
    /// row still opens — same key, unaltered bytes; `NotFound` reports
    /// that no row matches, `DecryptionFailure` a row that does not
    /// open, and `StoreReadFailure` only a failed read of the backing
    /// store.
    pub fn get_password(&self, service: &str, username: &str) -> (r: Result<String, StoreError>)
        requires
            self.wf(),
        ensures
            match last_match(self.rows(), service@, username@) {
                None => r == Err::<String, StoreError>(StoreError::NotFound)
                    || r == Err::<String, StoreError>(StoreError::StoreReadFailure),
                Some(row) => match row_opening(self.key(), row) {
                    Some(secret) => (r matches Ok(p) && p@ == secret)
                        || r == Err::<String, StoreError>(StoreError::StoreReadFailure),
                    None => r == Err::<String, StoreError>(StoreError::DecryptionFailure)
                        || r == Err::<String, StoreError>(StoreError::StoreReadFailure),
                },
            },
            r matches Ok(p) ==> (last_match(self.rows(), service@, username@) matches Some(row)
                && row_opening(self.key(), row) == Some(p@)),
            r == Err::<String, StoreError>(StoreError::NotFound)
                ==> last_match(self.rows(), service@, username@) is None,
    {
        let found = match query_newest(&self.conn, service, username) {
            Ok(o) => o,
            Err(_) => {
                return Err(StoreError::StoreReadFailure);
            },
        };
        let texts = match found {
            Some(p) => p,
            None => {
                return Err(StoreError::NotFound);
            },
        };
        let ciphertext = match b64_decode(texts.0.as_str()) {
            Ok(b) => b,
            Err(e) => {
                return Err(e);
            },
        };
        let nonce = match b64_decode(texts.1.as_str()) {
            Ok(b) => b,
            Err(e) => {
                return Err(e);
            },
        };
        decrypt(&self.key, &ciphertext, &nonce)
    }

    /// Lists every stored (service, username) pair in storage order,
    /// never opening any payload; an empty store yields an empty list.
    pub fn list_services(&self) -> (r: Result<Vec<(String, String)>, StoreError>)
        ensures
            r matches Ok(v) ==> v@.len() == self.rows().len()
                && forall |i: int| 0 <= i < v@.len() ==>
                    (#[trigger] v@[i]).0@ == self.rows()[i].service
                    && v@[i].1@ == self.rows()[i].username,
            r is Err ==> r == Err::<Vec<(String, String)>, StoreError>(StoreError::StoreReadFailure),
    {
        match select_pairs(&self.conn) {
            Ok(v) => Ok(v),
            Err(_) => Err(StoreError::StoreReadFailure),
        }
    }

    /// Removes every row of (service, username) — unlike the get, which
    /// reads one — and reports how many went; `NotFound` where no row
    /// matched, and then nothing was changed.
    pub fn delete_password(&mut self, service: &str, username: &str) -> (r: Result<usize, StoreError>)
        ensures
            final(self).wf() == old(self).wf(),
            final(self).key() == old(self).key(),
            final(self).salt() == old(self).salt(),
            r matches Ok(n) ==> final(self).rows() == without_pair(old(self).rows(), service@, username@)
                && n == match_count(old(self).rows(), service@, username@)
                && n >= 1,
            r is Err ==> final(self).rows() == old(self).rows()
                && (r == Err::<usize, StoreError>(StoreError::NotFound)
                    || r == Err::<usize, StoreError>(StoreError::StoreWriteFailure)),
            r == Err::<usize, StoreError>(StoreError::NotFound)
                ==> match_count(old(self).rows(), service@, username@) == 0,
            match_count(old(self).rows(), service@, username@) == 0
                ==> (r == Err::<usize, StoreError>(StoreError::NotFound)
                    || r == Err::<usize, StoreError>(StoreError::StoreWriteFailure)),
            match_count(old(self).rows(), service@, username@) >= 1
                ==> (r is Ok || r == Err::<usize, StoreError>(StoreError::StoreWriteFailure)),
    {
        let ghost rows_before = self.rows();
        match delete_rows(&mut self.conn, service, username) {
            Ok(n) => {
                if n == 0 {
                    proof {
                        lemma_no_match_without_pair(rows_before, service@, username@);
                    }
                    Err(StoreError::NotFound)
                } else {
                    Ok(n)
                }
            },
            Err(_) => Err(StoreError::StoreWriteFailure),
        }
    }
}

/// Deleting a pair that no row belongs to keeps every row: with no
/// match to remove, the surviving sequence is the original one.
proof fn lemma_no_match_without_pair(rows: Seq<StoredRow>, service: Seq<char>, username: Seq<char>)
    requires
        match_count(rows, service, username) == 0,
    ensures
        without_pair(rows, service, username) == rows,
    decreases rows.len(),
{
    if rows.len() == 0 {
        assert(without_pair(rows, service, username) =~= rows);
    } else {
        lemma_no_match_without_pair(rows.drop_last(), service, username);
        assert(!row_matches(rows.last(), service, username));
        assert(without_pair(rows, service, username) =~= rows);
    }
}

/// Missing entries: an empty store holds no row of any pair, so by the
/// contracts of `get_password` and `delete_password` neither can hand
/// back a secret or report a removal there.
pub proof fn lemma_empty_store_misses(service: Seq<char>, username: Seq<char>)
    ensures
        last_match(Seq::<StoredRow>::empty(), service, username) is None,
        match_count(Seq::<StoredRow>::empty(), service, username) == 0,
{
}

} // verus!
