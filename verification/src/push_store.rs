//! The push notification configuration store: which row a configuration
//! is stored under, how its bytes are sealed with AES-256-GCM when a key is
//! set, and the SQL statements the store runs.

use vstd::prelude::*;
use aes_gcm::aead::{Aead, KeyInit};
use vstd::string::*;
use crate::error::A2AError;
use crate::models::PushNotificationConfig;
use crate::text::{owned, concat2, concat3};

verus! {

/// The bytes that AES-256-GCM under `key` and `nonce`, with no associated
/// data, makes of `plaintext` (ciphertext followed by the tag).
pub uninterp spec fn aes_gcm_sealed(key: Seq<u8>, nonce: Seq<u8>, plaintext: Seq<u8>) -> Seq<u8>;

/// What AES-256-GCM under `key` and `nonce`, with no associated data,
/// recovers from `ciphertext`: none when the tag does not match.
pub uninterp spec fn aes_gcm_opened(key: Seq<u8>, nonce: Seq<u8>, ciphertext: Seq<u8>) -> Option<Seq<u8>>;

/// Seals `data` with `aes_gcm::Aes256Gcm` (`new_from_slice`, then
/// `Aead::encrypt`). The contract claims that the result is determined by
/// the key, the nonce and the data, and that opening it with the same key
/// and nonce gives the data back; and that the call succeeds for data of at
/// most `GCM_MAX_PLAINTEXT` bytes, the only bound `aes-gcm` checks (a
/// 32-byte key is always accepted). The error is `aead`'s.
#[verifier::external_body]
fn aes_gcm_encrypt(key: &[u8; 32], nonce: &[u8; 12], data: &[u8]) -> (r: Result<Vec<u8>, String>)
    ensures
        data@.len() <= GCM_MAX_PLAINTEXT ==> r is Ok,
        r matches Ok(c) ==> c@ == aes_gcm_sealed(key@, nonce@, data@) && aes_gcm_opened(key@, nonce@, c@) == Some(
            data@,
        ),
{
    match aes_gcm::Aes256Gcm::new_from_slice(key) {
        Ok(cipher) => match cipher.encrypt(&aes_gcm::Nonce::from(*nonce), data) {
            Ok(c) => Ok(c),
            Err(e) => Err(e.to_string()),
        },
        Err(e) => Err(e.to_string()),
    }
}

/// Opens `data` with `aes_gcm::Aes256Gcm` (`new_from_slice`, then
/// `Aead::decrypt`). The contract claims that it succeeds exactly when the
/// named opening recovers something, and then gives that.
#[verifier::external_body]
fn aes_gcm_decrypt(key: &[u8; 32], nonce: &[u8; 12], data: &[u8]) -> (r: Result<Vec<u8>, String>)
    ensures
        r is Ok <==> aes_gcm_opened(key@, nonce@, data@) is Some,
        r matches Ok(p) ==> Some(p@) == aes_gcm_opened(key@, nonce@, data@),
{
    match aes_gcm::Aes256Gcm::new_from_slice(key) {
        Ok(cipher) => match cipher.decrypt(&aes_gcm::Nonce::from(*nonce), data) {
            Ok(p) => Ok(p),
            Err(e) => Err(e.to_string()),
        },
        Err(e) => Err(e.to_string()),
    }
}

/// The longest plaintext AES-GCM seals: 2^36 bytes.
pub const GCM_MAX_PLAINTEXT: u64 = 0x10_0000_0000;

/// The nonce the store seals with: twelve zero bytes, the same for every
/// row.
pub open spec fn store_nonce() -> Seq<u8> {
    Seq::new(12, |i: int| 0u8)
}

/// The store's nonce.
fn fixed_nonce() -> (r: [u8; 12])
    ensures
        r@ == store_nonce(),
{
    let n = [0u8; 12];
    assert(n@ =~= store_nonce());
    n
}

fn copy_bytes(data: &[u8]) -> (r: Vec<u8>)
    ensures
        r@ == data@,
{
    let mut out: Vec<u8> = Vec::new();
    let mut i: usize = 0;
    while i < data.len()
        invariant
            i <= data@.len(),
            out@ == data@.take(i as int),
        decreases data@.len() - i,
    {
        out.push(data[i]);
        i = i + 1;
        assert(out@ =~= data@.take(i as int));
    }
    assert(data@.take(i as int) =~= data@);
    out
}

/// The bytes stored for `data`: sealed when there is a key, as they are
/// otherwise.
pub open spec fn stored_bytes(key: Option<Seq<u8>>, data: Seq<u8>) -> Seq<u8> {
    match key {
        Some(k) => aes_gcm_sealed(k, store_nonce(), data),
        None => data,
    }
}

/// The bytes read back from a stored row: opened when there is a key and
/// opening succeeds; the row as it is otherwise.
pub open spec fn read_bytes(key: Option<Seq<u8>>, row: Seq<u8>) -> Seq<u8> {
    match key {
        Some(k) => match aes_gcm_opened(k, store_nonce(), row) {
            Some(p) => p,
            None => row,
        },
        None => row,
    }
}

/// A store of push notification configurations in an SQL table reached
/// through the pool `P`, sealing what it stores when it has a key.
pub struct SqlitePushNotificationConfigStore<P> {
    pool: P,
    table_name: String,
    encryption_key: Option<[u8; 32]>,
}

impl<P> SqlitePushNotificationConfigStore<P> {
    /// The encryption key, if any.
    pub closed spec fn key(&self) -> Option<Seq<u8>> {
        match self.encryption_key {
            Some(k) => Some(k@),
            None => None,
        }
    }

    /// The name of the table.
    pub closed spec fn table(&self) -> Seq<char> {
        self.table_name@
    }

    /// The pool the store runs its statements on.
    pub closed spec fn spec_pool(&self) -> P {
        self.pool
    }

    /// A store over `pool` in the table "push_notification_configs".
    pub fn new(pool: P, encryption_key: Option<[u8; 32]>) -> (r: Self)
        ensures
            r.spec_pool() == pool,
            r.table() == "push_notification_configs"@,
            r.key() == match encryption_key {
                Some(k) => Some(k@),
                None => None::<Seq<u8>>,
            },
    {
        SqlitePushNotificationConfigStore { pool, table_name: owned("push_notification_configs"), encryption_key }
    }

    /// The pool.
    pub fn pool(&self) -> (r: &P)
        ensures
            *r == self.spec_pool(),
    {
        &self.pool
    }

    /// The name of the table.
    pub fn table_name(&self) -> (r: &str)
        ensures
            r@ == self.table(),
    {
        self.table_name.as_str()
    }

    /// The bytes to store for `data` (see `stored_bytes`); a failure to seal
    /// is an internal error "Encryption failed: {reason}".
    pub fn encrypt(&self, data: &[u8]) -> (r: Result<Vec<u8>, A2AError>)
        ensures
            r matches Ok(c) ==> c@ == stored_bytes(self.key(), data@),
            r matches Ok(c) ==> read_bytes(self.key(), c@) == data@,
            self.key() is None ==> r is Ok,
            data@.len() <= GCM_MAX_PLAINTEXT ==> r is Ok,
            r matches Err(e) ==> e matches A2AError::Internal(m) && "Encryption failed: "@.is_prefix_of(m@),
    {
        match &self.encryption_key {
            Some(k) => match aes_gcm_encrypt(k, &fixed_nonce(), data) {
                Ok(c) => Ok(c),
                Err(e) => Err(A2AError::internal(concat2("Encryption failed: ", e.as_str()).as_str())),
            },
            None => Ok(copy_bytes(data)),
        }
    }

    /// The bytes stored data opens to; without a key, the data as it is. A
    /// failure to open is an internal error "Decryption failed: {reason}".
    pub fn decrypt(&self, data: &[u8]) -> (r: Result<Vec<u8>, A2AError>)
        ensures
            self.key() is None ==> (r matches Ok(p) && p@ == data@),
            self.key() matches Some(k) ==> (r is Ok <==> aes_gcm_opened(k, store_nonce(), data@) is Some),
            self.key() matches Some(k) ==> (r matches Ok(p) ==> Some(p@) == aes_gcm_opened(k, store_nonce(), data@)),
            r matches Err(e) ==> e matches A2AError::Internal(m) && "Decryption failed: "@.is_prefix_of(m@),
    {
        match &self.encryption_key {
            Some(k) => match aes_gcm_decrypt(k, &fixed_nonce(), data) {
                Ok(p) => Ok(p),
                Err(e) => Err(A2AError::internal(concat2("Decryption failed: ", e.as_str()).as_str())),
            },
            None => Ok(copy_bytes(data)),
        }
    }

    /// The bytes a stored row is read as (see `read_bytes`): when opening
    /// fails, the row is taken as it is.
    pub fn row_plaintext(&self, row: &[u8]) -> (r: Vec<u8>)
        ensures
            r@ == read_bytes(self.key(), row@),
    {
        match self.decrypt(row) {
            Ok(p) => p,
            Err(_) => copy_bytes(row),
        }
    }

    /// The statement that creates the table when it does not exist.
    pub fn initialize_sql(&self) -> (r: String)
        ensures
            r@ == "CREATE TABLE IF NOT EXISTS "@ + self.table() + " (\n                task_id TEXT NOT NULL,\n                config_id TEXT NOT NULL,\n                config_data BLOB NOT NULL,\n                PRIMARY KEY (task_id, config_id)\n            )"@,
    {
        concat3(
            "CREATE TABLE IF NOT EXISTS ",
            self.table_name.as_str(),
            " (\n                task_id TEXT NOT NULL,\n                config_id TEXT NOT NULL,\n                config_data BLOB NOT NULL,\n                PRIMARY KEY (task_id, config_id)\n            )",
        )
    }

    /// The statement that stores a row, replacing one with the same task
    /// and configuration ids.
    pub fn insert_sql(&self) -> (r: String)
        ensures
            r@ == "INSERT OR REPLACE INTO "@ + self.table() + " (task_id, config_id, config_data) VALUES (?, ?, ?)"@,
    {
        concat3("INSERT OR REPLACE INTO ", self.table_name.as_str(), " (task_id, config_id, config_data) VALUES (?, ?, ?)")
    }

    /// The statement that reads the rows of a task.
    pub fn select_sql(&self) -> (r: String)
        ensures
            r@ == "SELECT config_data FROM "@ + self.table() + " WHERE task_id = ?"@,
    {
        concat3("SELECT config_data FROM ", self.table_name.as_str(), " WHERE task_id = ?")
    }

    /// The statement that deletes the rows of a task, or one of them when
    /// a configuration id is given.
    pub fn delete_sql(&self, with_config_id: bool) -> (r: String)
        ensures
            !with_config_id ==> r@ == "DELETE FROM "@ + self.table() + " WHERE task_id = ?"@,
            with_config_id ==> r@ == "DELETE FROM "@ + self.table() + " WHERE task_id = ?"@ + " AND config_id = ?"@,
    {
        let base = concat3("DELETE FROM ", self.table_name.as_str(), " WHERE task_id = ?");
        if with_config_id {
            concat2(base.as_str(), " AND config_id = ?")
        } else {
            base
        }
    }
}

/// The id a configuration is stored under: its own, or the task's id when
/// it has none.
pub fn config_id_for(task_id: &str, config: &PushNotificationConfig) -> (r: String)
    ensures
        r@ == match config.id {
            Some(i) => i@,
            None => task_id@,
        },
{
    match &config.id {
        Some(i) => i.clone(),
        None => owned(task_id),
    }
}

} // verus!
