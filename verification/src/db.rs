//! The durable table behind the repository: an SQLite database holding
//! one row per stored entry and, once, the key-derivation salt.
//!
//! The table is modelled as a sequence of rows in rowid order. SQLite
//! assigns every insert the next rowid (one past the largest present),
//! so an insert appends to the sequence and a delete keeps the order of
//! the surviving rows. The model takes the connection for the store's
//! only handle: a single-user tool holds one open handle per session,
//! and a second concurrent writer is outside the design.

use vstd::prelude::*;

verus! {

#[verifier::external_type_specification]
#[verifier::external_body]
pub struct ExConnection(rusqlite::Connection);

#[verifier::external_type_specification]
#[verifier::external_body]
pub struct ExSqliteError(rusqlite::Error);

/// One persisted row of the entry table, as stored: the lookup pair in
/// the clear, the ciphertext and the nonce as base64 text.
pub ghost struct StoredRow {
    pub service: Seq<char>,
    pub username: Seq<char>,
    pub secret_b64: Seq<char>,
    pub nonce_b64: Seq<char>,
}

/// The rows of the entry table of an open connection, in rowid order;
/// the empty sequence where the table has not been provisioned yet.
pub uninterp spec fn db_rows(conn: rusqlite::Connection) -> Seq<StoredRow>;

/// The key-derivation salt recorded in the store, if one has been
/// recorded.
pub uninterp spec fn db_salt(conn: rusqlite::Connection) -> Option<Seq<u8>>;

/// Whether a row belongs to the (service, username) lookup pair.
pub open spec fn row_matches(row: StoredRow, service: Seq<char>, username: Seq<char>) -> bool {
    row.service == service && row.username == username
}

/// The newest row of the pair — the matching row furthest back in
/// storage order — if any row matches at all.
pub open spec fn last_match(rows: Seq<StoredRow>, service: Seq<char>, username: Seq<char>) -> Option<StoredRow>
    decreases rows.len(),
{
    if rows.len() == 0 {
        None
    } else if row_matches(rows.last(), service, username) {
        Some(rows.last())
    } else {
        last_match(rows.drop_last(), service, username)
    }
}

/// The rows that survive deleting the pair: every row of another pair,
/// in their original order.
pub open spec fn without_pair(rows: Seq<StoredRow>, service: Seq<char>, username: Seq<char>) -> Seq<StoredRow>
    decreases rows.len(),
{
    if rows.len() == 0 {
        Seq::empty()
    } else {
        let kept = without_pair(rows.drop_last(), service, username);
        if row_matches(rows.last(), service, username) {
            kept
        } else {
            kept.push(rows.last())
        }
    }
}

/// How many rows belong to the pair.
pub open spec fn match_count(rows: Seq<StoredRow>, service: Seq<char>, username: Seq<char>) -> nat
    decreases rows.len(),
{
    if rows.len() == 0 {
        0
    } else {
        match_count(rows.drop_last(), service, username)
            + if row_matches(rows.last(), service, username) { 1nat } else { 0nat }
    }
}

/// Relies on rusqlite's `Connection::open`: opens the database file at
/// the path, creating it where absent. What the store then holds is
/// whatever the file holds, so nothing is promised of the contents.
#[verifier::external_body]
pub(crate) fn open_connection(path: &str) -> (r: Result<rusqlite::Connection, rusqlite::Error>)
{
    rusqlite::Connection::open(path)
}

/// Relies on rusqlite's `Connection::execute_batch` running two
/// CREATE TABLE IF NOT EXISTS statements: provisioning is idempotent
/// and never touches existing rows or the recorded salt.
#[verifier::external_body]
pub(crate) fn provision_schema(conn: &mut rusqlite::Connection) -> (r: Result<(), rusqlite::Error>)
    ensures
        db_rows(*final(conn)) == db_rows(*old(conn)),
        db_salt(*final(conn)) == db_salt(*old(conn)),
{
    conn.execute_batch(
        "CREATE TABLE IF NOT EXISTS passwords (
            id INTEGER PRIMARY KEY,
            service TEXT NOT NULL,
            username TEXT NOT NULL,
            encrypted_password TEXT NOT NULL,
            nonce TEXT NOT NULL
        );
        CREATE TABLE IF NOT EXISTS store_meta (
            id INTEGER PRIMARY KEY CHECK (id = 1),
            salt BLOB NOT NULL
        );",
    )
}

/// Relies on rusqlite's `query` on the salt table: returns the recorded
/// salt, or nothing where none has been recorded yet.
#[verifier::external_body]
pub(crate) fn load_salt(conn: &rusqlite::Connection) -> (r: Result<Option<Vec<u8>>, rusqlite::Error>)
    ensures
        r matches Ok(o) ==> match o {
            Some(s) => db_salt(*conn) == Some(s@),
            None => db_salt(*conn) is None,
        },
{
    let mut stmt = conn.prepare("SELECT salt FROM store_meta WHERE id = 1")?;
    let mut rows = stmt.query([])?;
    match rows.next()? {
        Some(row) => Ok(Some(row.get(0)?)),
        None => Ok(None),
    }
}

/// Relies on rusqlite's `execute` with an INSERT on the salt table:
/// records the salt and leaves the entry rows alone; a failed statement
/// changes nothing.
#[verifier::external_body]
pub(crate) fn store_salt(conn: &mut rusqlite::Connection, salt: &Vec<u8>) -> (r: Result<(), rusqlite::Error>)
    ensures
        db_rows(*final(conn)) == db_rows(*old(conn)),
        r is Ok ==> db_salt(*final(conn)) == Some(salt@),
        r is Err ==> db_salt(*final(conn)) == db_salt(*old(conn)),
{
    conn.execute("INSERT INTO store_meta (id, salt) VALUES (1, ?1)", (salt.as_slice(),))?;
    Ok(())
}

/// Relies on rusqlite's `execute` with an INSERT on the entry table:
/// appends exactly the given row (SQLite assigns the next rowid) and
/// leaves the salt alone; a failed statement changes nothing.
#[verifier::external_body]
pub(crate) fn insert_row(
    conn: &mut rusqlite::Connection,
    service: &str,
    username: &str,
    secret_b64: &str,
    nonce_b64: &str,
) -> (r: Result<(), rusqlite::Error>)
    ensures
        db_salt(*final(conn)) == db_salt(*old(conn)),
        r is Ok ==> db_rows(*final(conn)) == db_rows(*old(conn)).push((StoredRow {
            service: service@,
            username: username@,
            secret_b64: secret_b64@,
            nonce_b64: nonce_b64@,
        })),
        r is Err ==> db_rows(*final(conn)) == db_rows(*old(conn)),
{
    conn.execute(
        "INSERT INTO passwords (service, username, encrypted_password, nonce) VALUES (?1, ?2, ?3, ?4)",
        [service, username, secret_b64, nonce_b64],
    )?;
    Ok(())
}

/// Relies on rusqlite's `query` with ORDER BY id DESC LIMIT 1: hands
/// out the stored texts of the newest row of the pair, or nothing where
/// no row matches.
#[verifier::external_body]
pub(crate) fn query_newest(
    conn: &rusqlite::Connection,
    service: &str,
    username: &str,
) -> (r: Result<Option<(String, String)>, rusqlite::Error>)
    ensures
        r matches Ok(o) ==> match o {
            Some(p) => last_match(db_rows(*conn), service@, username@) matches Some(row)
                && row.secret_b64 == p.0@ && row.nonce_b64 == p.1@,
            None => last_match(db_rows(*conn), service@, username@) is None,
        },
{
    let mut stmt = conn.prepare(
        "SELECT encrypted_password, nonce FROM passwords
         WHERE service = ?1 AND username = ?2 ORDER BY id DESC LIMIT 1",
    )?;
    let mut rows = stmt.query([service, username])?;
    match rows.next()? {
        Some(row) => Ok(Some((row.get(0)?, row.get(1)?))),
        None => Ok(None),
    }
}

/// Relies on rusqlite's `query` over the whole entry table in rowid
/// order: one (service, username) pair per stored row, in storage
/// order.
#[verifier::external_body]
pub(crate) fn select_pairs(conn: &rusqlite::Connection) -> (r: Result<Vec<(String, String)>, rusqlite::Error>)
    ensures
        r matches Ok(v) ==> v@.len() == db_rows(*conn).len()
            && forall |i: int| 0 <= i < v@.len() ==>
                (#[trigger] v@[i]).0@ == db_rows(*conn)[i].service
                && v@[i].1@ == db_rows(*conn)[i].username,
{
    let mut stmt = conn.prepare("SELECT service, username FROM passwords ORDER BY id")?;
    let mut rows = stmt.query([])?;
    let mut out: Vec<(String, String)> = Vec::new();
    while let Some(row) = rows.next()? {
        out.push((row.get(0)?, row.get(1)?));
    }
    Ok(out)
}

/// Relies on rusqlite's `execute` with a DELETE on the pair: removes
/// every matching row, keeps the others in order, reports how many rows
/// went, and leaves the salt alone; a failed statement changes nothing.
#[verifier::external_body]
pub(crate) fn delete_rows(
    conn: &mut rusqlite::Connection,
    service: &str,
    username: &str,
) -> (r: Result<usize, rusqlite::Error>)
    ensures
        db_salt(*final(conn)) == db_salt(*old(conn)),
        r matches Ok(n) ==> db_rows(*final(conn)) == without_pair(db_rows(*old(conn)), service@, username@)
            && n == match_count(db_rows(*old(conn)), service@, username@),
        r is Err ==> db_rows(*final(conn)) == db_rows(*old(conn)),
{
    conn.execute(
        "DELETE FROM passwords WHERE service = ?1 AND username = ?2",
        [service, username],
    )
}

} // verus!
