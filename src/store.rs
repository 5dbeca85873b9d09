//! The account store: one pickled account per user and device, created once
//! and never silently replaced.
//!
//! `AccountTable` and `AccountStore` keep their rows in memory: they are the
//! model of the persisted account table, and a store for tests and for
//! clients without a database. A store on disk runs the same rules as SQL
//! (`INSERT OR IGNORE` under a unique key) and takes from here the pickling
//! mode, the row to write and the reading of a row; what is proved of the
//! rows here holds of the in-memory store.
use vstd::prelude::*;
use vstd::slice::slice_to_vec;
use vstd::utf8::encode_utf8;

use crate::error::{CryptoStoreError, Error};
use crate::json::str_eq;

verus! {

/// How account pickles are protected; fixed when the store is opened.
#[derive(Debug)]
pub enum PicklingMode {
    Unencrypted,
    Encrypted { key: Vec<u8> },
}

/// An account as the store sees it: its pickle, made under the store's
/// pickling mode, and whether its device keys have been published.
#[derive(Debug, Clone, PartialEq, Eq)]
pub struct Account {
    pub pickle: String,
    pub shared: bool,
}

/// One row of the account table.
#[derive(Debug)]
pub struct AccountRecord {
    pub user_id: String,
    pub device_id: String,
    pub pickle: String,
    pub shared: bool,
}

/// The key of the account table: a user and a device.
pub type AccountKey = (Seq<char>, Seq<char>);

/// What an account is, as mathematical values.
pub type AccountValue = (Seq<char>, bool);

/// The account stored for `key`, where `rows` hold one (the latest row wins
/// where keys repeat).
pub open spec fn lookup(rows: Seq<AccountRecord>, key: AccountKey) -> Option<AccountValue>
    decreases rows.len(),
{
    if rows.len() == 0 {
        None
    } else if (rows.last().user_id@, rows.last().device_id@) == key {
        Some((rows.last().pickle@, rows.last().shared))
    } else {
        lookup(rows.drop_last(), key)
    }
}

/// Whether no two rows share a key.
pub open spec fn unique_keys(rows: Seq<AccountRecord>) -> bool {
    forall|i: int, j: int|
        0 <= i < j < rows.len() ==> (#[trigger] rows[i].user_id@, rows[i].device_id@) != (
            #[trigger] rows[j].user_id@,
            rows[j].device_id@,
        )
}

/// The table after a save of `value` under `key`: a key that is present
/// keeps what it has.
pub open spec fn saved(
    m: Map<AccountKey, AccountValue>,
    key: AccountKey,
    value: AccountValue,
) -> Map<AccountKey, AccountValue> {
    if m.contains_key(key) {
        m
    } else {
        m.insert(key, value)
    }
}

/// What a load of `key` finds in the table.
pub open spec fn loaded(m: Map<AccountKey, AccountValue>, key: AccountKey) -> Option<AccountValue> {
    if m.contains_key(key) {
        Some(m[key])
    } else {
        None
    }
}

/// The rows of the account table, at most one per user and device.
pub struct AccountTable {
    rows: Vec<AccountRecord>,
}

impl AccountTable {
    /// The table as a map from user and device to account.
    pub closed spec fn view(&self) -> Map<AccountKey, AccountValue> {
        Map::new(
            |k: AccountKey| lookup(self.rows@, k) is Some,
            |k: AccountKey| lookup(self.rows@, k)->Some_0,
        )
    }

    pub closed spec fn well_formed(&self) -> bool {
        unique_keys(self.rows@)
    }

    /// An empty table.
    pub fn new() -> (r: AccountTable)
        ensures
            r.well_formed(),
            r.view() == Map::<AccountKey, AccountValue>::empty(),
    {
        let r = AccountTable { rows: Vec::new() };
        assert(r.view() =~= Map::<AccountKey, AccountValue>::empty());
        r
    }

    /// The account stored for a user and device.
    pub fn find(&self, user_id: &str, device_id: &str) -> (r: Option<Account>)
        ensures
            loaded(self.view(), (user_id@, device_id@)) == match r {
                Some(a) => Some((a.pickle@, a.shared)),
                None => None,
            },
    {
        let ghost key: AccountKey = (user_id@, device_id@);
        let mut i: usize = self.rows.len();
        assert(self.rows@.take(i as int) =~= self.rows@);
        while i > 0
            invariant
                i <= self.rows@.len(),
                key == (user_id@, device_id@),
                lookup(self.rows@, key) == lookup(self.rows@.take(i as int), key),
            decreases i,
        {
            i -= 1;
            let ghost prefix = self.rows@.take(i as int + 1);
            assert(prefix.drop_last() =~= self.rows@.take(i as int));
            let row = &self.rows[i];
            if str_eq(row.user_id.as_str(), user_id) && str_eq(row.device_id.as_str(), device_id) {
                assert(lookup(prefix, key) == Some((row.pickle@, row.shared)));
                return Some(Account { pickle: row.pickle.clone(), shared: row.shared });
            }
        }
        assert(lookup(self.rows@.take(0), key) is None);
        assert(!self.view().contains_key(key));
        None
    }

    /// Adds the row unless one for its user and device is present; tells
    /// whether it was added.
    pub fn insert_or_ignore(&mut self, record: AccountRecord) -> (r: bool)
        requires
            old(self).well_formed(),
        ensures
            final(self).well_formed(),
            final(self).view() == saved(
                old(self).view(),
                (record.user_id@, record.device_id@),
                (record.pickle@, record.shared),
            ),
            r == !old(self).view().contains_key((record.user_id@, record.device_id@)),
    {
        let ghost key = (record.user_id@, record.device_id@);
        match self.find(record.user_id.as_str(), record.device_id.as_str()) {
            Some(_) => {
                assert(self.view().contains_key(key));
                false
            },
            None => {
                let ghost old_rows = self.rows@;
                self.rows.push(record);
                proof {
                    assert(self.rows@.drop_last() =~= old_rows);
                    assert forall|i: int| 0 <= i < old_rows.len() implies (
                        old_rows[i].user_id@,
                        old_rows[i].device_id@,
                    ) != key by {
                        lemma_lookup_finds(old_rows, i);
                    }
                    assert forall|k: AccountKey| k != key implies lookup(self.rows@, k) == lookup(
                        old_rows,
                        k,
                    ) by {}
                }
                assert(self.view() =~= saved(
                    old(self).view(),
                    key,
                    (record.pickle@, record.shared),
                ));
                true
            },
        }
    }
}

/// A key that some row holds is found.
proof fn lemma_lookup_finds(rows: Seq<AccountRecord>, i: int)
    requires
        0 <= i < rows.len(),
    ensures
        lookup(rows, (rows[i].user_id@, rows[i].device_id@)) is Some,
    decreases rows.len(),
{
    if i < rows.len() - 1 {
        let key = (rows[i].user_id@, rows[i].device_id@);
        if (rows.last().user_id@, rows.last().device_id@) != key {
            lemma_lookup_finds(rows.drop_last(), i);
        }
    }
}

/// The in-memory store of the account of one user and device. Pickles are
/// made under the store's pickling mode, which is fixed when the store is
/// opened. The passphrase stays in plain memory here; a store that must wipe
/// it keeps it in a zeroizing buffer and uses `pickle_mode_for`.
pub struct AccountStore {
    user_id: String,
    device_id: String,
    pickle_passphrase: Option<String>,
    accounts: AccountTable,
}

impl AccountStore {
    /// The user whose account this store keeps.
    pub closed spec fn user(&self) -> Seq<char> {
        self.user_id@
    }

    /// The device whose account this store keeps.
    pub closed spec fn device(&self) -> Seq<char> {
        self.device_id@
    }

    /// The passphrase that the store was opened with.
    pub closed spec fn passphrase(&self) -> Option<String> {
        self.pickle_passphrase
    }

    /// The accounts that the store holds.
    pub closed spec fn table(&self) -> Map<AccountKey, AccountValue> {
        self.accounts.view()
    }

    /// The user and device whose account this store keeps.
    pub open spec fn key(&self) -> AccountKey {
        (self.user(), self.device())
    }

    pub closed spec fn well_formed(&self) -> bool {
        self.accounts.well_formed()
    }

    /// The user whose account this store keeps.
    pub fn user_id(&self) -> (r: &str)
        ensures
            r@ == self.user(),
    {
        self.user_id.as_str()
    }

    /// The device whose account this store keeps.
    pub fn device_id(&self) -> (r: &str)
        ensures
            r@ == self.device(),
    {
        self.device_id.as_str()
    }

    /// The table of accounts that the store holds.
    pub fn accounts(&self) -> (r: &AccountTable)
        ensures
            r.view() == self.table(),
    {
        &self.accounts
    }

    fn open_helper(user_id: &str, device_id: &str, passphrase: Option<String>) -> (r: AccountStore)
        ensures
            r.well_formed(),
            r.user() == user_id@,
            r.device() == device_id@,
            r.passphrase() == passphrase,
            r.table() == Map::<AccountKey, AccountValue>::empty(),
    {
        AccountStore {
            user_id: user_id.to_owned(),
            device_id: device_id.to_owned(),
            pickle_passphrase: passphrase,
            accounts: AccountTable::new(),
        }
    }

    /// Opens a store whose pickles are not encrypted.
    pub fn open(user_id: &str, device_id: &str) -> (r: AccountStore)
        ensures
            r.well_formed(),
            r.user() == user_id@,
            r.device() == device_id@,
            r.passphrase() is None,
            r.table() == Map::<AccountKey, AccountValue>::empty(),
    {
        AccountStore::open_helper(user_id, device_id, None)
    }

    /// Opens a store whose pickles are encrypted with a key from `passphrase`.
    pub fn open_with_passphrase(user_id: &str, device_id: &str, passphrase: String) -> (r:
        AccountStore)
        ensures
            r.well_formed(),
            r.user() == user_id@,
            r.device() == device_id@,
            r.passphrase() == Some(passphrase),
            r.table() == Map::<AccountKey, AccountValue>::empty(),
    {
        AccountStore::open_helper(user_id, device_id, Some(passphrase))
    }

    /// The pickling mode of the store: encrypted with the passphrase's UTF-8
    /// bytes as key where there is a passphrase, else unencrypted.
    pub fn get_pickle_mode(&self) -> (r: PicklingMode)
        ensures
            match self.passphrase() {
                Some(p) => r matches PicklingMode::Encrypted { key } && key@ == encode_utf8(p@),
                None => r is Unencrypted,
            },
    {
        match &self.pickle_passphrase {
            Some(p) => pickle_mode_for(Some(p.as_str())),
            None => pickle_mode_for(None),
        }
    }

    /// The row that saving `account` writes.
    pub fn record_for(&self, account: &Account) -> (r: AccountRecord)
        ensures
            r.user_id@ == self.user(),
            r.device_id@ == self.device(),
            r.pickle@ == account.pickle@,
            r.shared == account.shared,
    {
        AccountRecord {
            user_id: self.user_id.clone(),
            device_id: self.device_id.clone(),
            pickle: account.pickle.clone(),
            shared: account.shared,
        }
    }

    /// The account that a load finds, given the row read for this user and
    /// device (`None` where there is none).
    pub fn account_from_row(row: Option<(String, bool)>) -> (r: Result<Account, Error>)
        ensures
            match row {
                Some((pickle, shared)) => r == Ok::<Account, Error>(Account { pickle, shared }),
                None => r matches Err(Error::CryptoStoreError(CryptoStoreError::AccountNotFound)),
            },
    {
        match row {
            Some((pickle, shared)) => Ok(Account { pickle, shared }),
            None => Err(Error::CryptoStoreError(CryptoStoreError::AccountNotFound)),
        }
    }

    /// Loads the account of this store's user and device from memory; fails with
    /// `AccountNotFound` where none has been saved.
    pub fn load_account(&self) -> (r: Result<Account, Error>)
        ensures
            match loaded(self.table(), self.key()) {
                Some(v) => r matches Ok(a) && (a.pickle@, a.shared) == v,
                None => r matches Err(Error::CryptoStoreError(CryptoStoreError::AccountNotFound)),
            },
    {
        match self.accounts.find(self.user_id.as_str(), self.device_id.as_str()) {
            Some(a) => Ok(a),
            None => Err(Error::CryptoStoreError(CryptoStoreError::AccountNotFound)),
        }
    }

    /// Saves the account of this store's user and device in memory. Where one
    /// is saved already, the store keeps it: a save never replaces an account.
    pub fn save_account(&mut self, account: &Account) -> (r: Result<(), Error>)
        requires
            old(self).well_formed(),
        ensures
            r is Ok,
            final(self).well_formed(),
            final(self).user() == old(self).user(),
            final(self).device() == old(self).device(),
            final(self).passphrase() == old(self).passphrase(),
            final(self).table() == saved(
                old(self).table(),
                old(self).key(),
                (account.pickle@, account.shared),
            ),
    {
        let record = self.record_for(account);
        self.accounts.insert_or_ignore(record);
        Ok(())
    }
}

#[verifier::external_type_specification]
#[verifier::external_body]
pub struct ExUrl(url::Url);

/// The name of the database file in the store's directory.
pub const DATABASE_NAME: &'static str = "matrix-sdk-crypto.db";

/// Relies on `url::Url::from_directory_path`: a `file` URL for an absolute
/// directory, `None` for a path that is not absolute (an empty one is not).
#[verifier::external_body]
fn directory_url(path: &str) -> (r: Option<url::Url>)
    ensures
        path@.len() == 0 ==> r is None,
{
    url::Url::from_directory_path(path).ok()
}

/// Relies on `url::Url::join`: `input` resolved against `base`, `None`
/// where it does not parse.
#[verifier::external_body]
fn join_url(base: &url::Url, input: &str) -> (r: Option<url::Url>) {
    base.join(input).ok()
}

/// Relies on `url::Url::as_str`: the URL's serialization.
#[verifier::external_body]
fn url_text(u: &url::Url) -> (r: String) {
    u.as_str().to_owned()
}

/// The URL of the database file under the directory `path`; a path that
/// is not an absolute directory is an I/O error.
pub fn database_url(path: &str) -> (r: Result<String, Error>)
    ensures
        path@.len() == 0 ==> r is Err,
        r matches Err(e) ==> (e is Io),
{
    let dir = match directory_url(path) {
        Some(d) => d,
        None => return Err(Error::Io("the store path is not an absolute directory".to_owned())),
    };
    match join_url(&dir, DATABASE_NAME) {
        Some(u) => Ok(url_text(&u)),
        None => Err(Error::Io("the database name does not join the store path".to_owned())),
    }
}

/// The pickling mode for an optional passphrase: encrypted with its UTF-8
/// bytes as key, or unencrypted where there is none.
pub fn pickle_mode_for(passphrase: Option<&str>) -> (r: PicklingMode)
    ensures
        match passphrase {
            Some(p) => r matches PicklingMode::Encrypted { key } && key@ == encode_utf8(p@),
            None => r is Unencrypted,
        },
{
    match passphrase {
        Some(p) => PicklingMode::Encrypted { key: slice_to_vec(p.as_bytes()) },
        None => PicklingMode::Unencrypted,
    }
}

/// The account that a load gives, given whether its pickle could be read
/// under the store's pickling mode: a pickle that cannot (a wrong or missing
/// passphrase) is a store error, never an account.
pub fn unpickled<A, E>(outcome: Result<A, E>) -> (r: Result<A, Error>)
    ensures
        match outcome {
            Ok(a) => r == Ok::<A, Error>(a),
            Err(_) => r == Err::<A, Error>(Error::CryptoStoreError(CryptoStoreError::UnpicklingFailed)),
        },
{
    match outcome {
        Ok(a) => Ok(a),
        Err(_) => Err(Error::CryptoStoreError(CryptoStoreError::UnpicklingFailed)),
    }
}

/// Saving an account for a user and device that has none, then loading,
/// gives back the account saved.
pub proof fn lemma_save_then_load(
    m: Map<AccountKey, AccountValue>,
    key: AccountKey,
    account: AccountValue,
)
    requires
        !m.contains_key(key),
    ensures
        loaded(saved(m, key, account), key) == Some(account),
{
}

/// A second save for the same user and device changes nothing: the account
/// of the first save stays.
pub proof fn lemma_save_idempotent(
    m: Map<AccountKey, AccountValue>,
    key: AccountKey,
    first: AccountValue,
    second: AccountValue,
)
    ensures
        saved(saved(m, key, first), key, second) == saved(m, key, first),
        loaded(saved(saved(m, key, first), key, second), key) == loaded(saved(m, key, first), key),
        !m.contains_key(key) ==> loaded(saved(saved(m, key, first), key, second), key) == Some(
            first,
        ),
{
}

} // verus!
