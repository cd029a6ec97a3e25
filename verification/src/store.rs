//! The platform credential store, reached through the `keyring` crate.
//!
//! Every store operation goes through this module, which appends to a
//! `StoreLog` what was done: the operation, the key it concerned, the value
//! handed over and what the store answered. What the store answers is up to
//! the store; the log states which operations were made, in which order,
//! with which values, and nothing else.

use vstd::prelude::*;

verus! {

/// A handle on one credential in the platform store.
#[verifier::external_type_specification]
#[verifier::external_body]
pub struct ExKeyringEntry(keyring::Entry);

/// The service and account a credential is filed under.
pub struct CredentialKey {
    pub service: String,
    pub account: String,
}

impl View for CredentialKey {
    type V = (Seq<char>, Seq<char>);

    open spec fn view(&self) -> (Seq<char>, Seq<char>) {
        (self.service@, self.account@)
    }
}

/// An opened store entry together with the key it was opened for.
pub struct CredentialEntry {
    key: CredentialKey,
    handle: keyring::Entry,
}

impl CredentialEntry {
    /// The key this entry was opened for.
    pub closed spec fn key(&self) -> (Seq<char>, Seq<char>) {
        self.key@
    }
}

/// A store failure, as far as the library tells failures apart.
pub enum StoreError {
    /// The store keeps no credential for the entry (`keyring::Error::NoEntry`).
    NoEntry,
    /// Any other failure, with the store's message.
    Other(String),
}

/// A store failure as it appears in the log.
pub enum StoreFault {
    NoEntry,
    Other(Seq<char>),
}

/// One operation on the store and the store's answer.
pub enum StoreOp {
    /// The entry for a key was opened.
    Open((Seq<char>, Seq<char>), Result<(), Seq<char>>),
    /// The password of a key was read.
    Read((Seq<char>, Seq<char>), Result<Seq<char>, StoreFault>),
    /// A password was written for a key.
    Write((Seq<char>, Seq<char>), Seq<char>, Result<(), Seq<char>>),
    /// The credential of a key was deleted.
    Delete((Seq<char>, Seq<char>), Result<(), StoreFault>),
}

/// The log of store operations made through it, oldest first.
pub struct StoreLog {
    ops: Ghost<Seq<StoreOp>>,
}

impl StoreLog {
    /// The operations logged so far.
    pub closed spec fn ops(&self) -> Seq<StoreOp> {
        self.ops@
    }

    /// An empty log.
    pub fn new() -> (log: StoreLog)
        ensures
            log.ops() == Seq::<StoreOp>::empty(),
    {
        StoreLog { ops: Ghost(Seq::empty()) }
    }
}

/// The log form of a store failure.
pub open spec fn fault_of(e: StoreError) -> StoreFault {
    match e {
        StoreError::NoEntry => StoreFault::NoEntry,
        StoreError::Other(m) => StoreFault::Other(m@),
    }
}

/// The log form of what opening answered.
pub open spec fn opened_answer(r: Result<CredentialEntry, String>) -> Result<(), Seq<char>> {
    match r {
        Ok(_) => Ok(()),
        Err(m) => Err(m@),
    }
}

/// The log form of what reading answered.
pub open spec fn read_answer(r: Result<String, StoreError>) -> Result<Seq<char>, StoreFault> {
    match r {
        Ok(p) => Ok(p@),
        Err(e) => Err(fault_of(e)),
    }
}

/// The log form of what writing answered.
pub open spec fn written_answer(r: Result<(), String>) -> Result<(), Seq<char>> {
    match r {
        Ok(()) => Ok(()),
        Err(m) => Err(m@),
    }
}

/// The log form of what deleting answered.
pub open spec fn deleted_answer(r: Result<(), StoreError>) -> Result<(), StoreFault> {
    match r {
        Ok(()) => Ok(()),
        Err(e) => Err(fault_of(e)),
    }
}

/// Opens the store entry for a key.
///
/// Trusted: calls `keyring::Entry::new(service, account)` with the key's two
/// parts and keeps the key beside the entry; a failure becomes the error's
/// `Display` text. Whether the store opens the entry is not claimed.
#[verifier::external_body]
fn open_entry(key: CredentialKey) -> (r: Result<CredentialEntry, String>)
    ensures
        r matches Ok(e) ==> e.key() == key@,
{
    match keyring::Entry::new(&key.service, &key.account) {
        Ok(handle) => Ok(CredentialEntry { key, handle }),
        Err(e) => Err(e.to_string()),
    }
}

/// Reads the password kept for an entry.
///
/// Trusted: calls `keyring::Entry::get_password`; `keyring::Error::NoEntry`
/// becomes `StoreError::NoEntry` and any other error its `Display` text.
/// What the store answers is not claimed.
#[verifier::external_body]
fn get_password(entry: &CredentialEntry) -> Result<String, StoreError> {
    match entry.handle.get_password() {
        Ok(p) => Ok(p),
        Err(keyring::Error::NoEntry) => Err(StoreError::NoEntry),
        Err(e) => Err(StoreError::Other(e.to_string())),
    }
}

/// Stores a password for an entry.
///
/// Trusted: calls `keyring::Entry::set_password` with `password`; a failure
/// becomes the error's `Display` text. Whether the store accepts it is not
/// claimed.
#[verifier::external_body]
fn set_password(entry: &CredentialEntry, password: &str) -> Result<(), String> {
    match entry.handle.set_password(password) {
        Ok(()) => Ok(()),
        Err(e) => Err(e.to_string()),
    }
}

/// Deletes the credential of an entry.
///
/// Trusted: calls `keyring::Entry::delete_credential`;
/// `keyring::Error::NoEntry` becomes `StoreError::NoEntry` and any other
/// error its `Display` text. What the store answers is not claimed.
#[verifier::external_body]
fn delete_entry_credential(entry: &CredentialEntry) -> Result<(), StoreError> {
    match entry.handle.delete_credential() {
        Ok(()) => Ok(()),
        Err(e) => match e {
            keyring::Error::NoEntry => Err(StoreError::NoEntry),
            e => Err(StoreError::Other(e.to_string())),
        },
    }
}

/// Opens the entry for `key` and logs it.
pub fn open_logged(key: CredentialKey, log: &mut StoreLog) -> (r: Result<CredentialEntry, String>)
    ensures
        final(log).ops() == old(log).ops().push(StoreOp::Open(key@, opened_answer(r))),
        r matches Ok(e) ==> e.key() == key@,
{
    let ghost k = key@;
    let r = open_entry(key);
    log.ops = Ghost(log.ops@.push(StoreOp::Open(k, opened_answer(r))));
    r
}

/// Reads the password of an entry and logs it.
pub fn read_logged(entry: &CredentialEntry, log: &mut StoreLog) -> (r: Result<String, StoreError>)
    ensures
        final(log).ops() == old(log).ops().push(StoreOp::Read(entry.key(), read_answer(r))),
{
    let r = get_password(entry);
    log.ops = Ghost(log.ops@.push(StoreOp::Read(entry.key(), read_answer(r))));
    r
}

/// Writes a password for an entry and logs it.
pub fn write_logged(entry: &CredentialEntry, password: &str, log: &mut StoreLog) -> (r: Result<(), String>)
    ensures
        final(log).ops() == old(log).ops().push(
            StoreOp::Write(entry.key(), password@, written_answer(r)),
        ),
{
    let r = set_password(entry, password);
    log.ops = Ghost(log.ops@.push(StoreOp::Write(entry.key(), password@, written_answer(r))));
    r
}

/// Deletes the credential of an entry and logs it.
pub fn delete_logged(entry: &CredentialEntry, log: &mut StoreLog) -> (r: Result<(), StoreError>)
    ensures
        final(log).ops() == old(log).ops().push(StoreOp::Delete(entry.key(), deleted_answer(r))),
{
    let r = delete_entry_credential(entry);
    log.ops = Ghost(log.ops@.push(StoreOp::Delete(entry.key(), deleted_answer(r))));
    r
}

// ───────────────────────── how a store behaves ─────────────────────────

/// The key an operation concerns.
pub open spec fn op_key(op: StoreOp) -> (Seq<char>, Seq<char>) {
    match op {
        StoreOp::Open(k, _) => k,
        StoreOp::Read(k, _) => k,
        StoreOp::Write(k, _, _) => k,
        StoreOp::Delete(k, _) => k,
    }
}

/// The operation changed the credential of its key: a write that succeeded,
/// or a deletion that did not fail.
pub open spec fn changes(op: StoreOp) -> bool {
    match op {
        StoreOp::Write(_, _, a) => a is Ok,
        StoreOp::Delete(_, a) => !(a matches Err(StoreFault::Other(_))),
        _ => false,
    }
}

/// What the operation shows the credential of its key to hold afterwards,
/// if it shows anything: the password written, no credential after a
/// deletion, or what a read found.
pub open spec fn shows(op: StoreOp) -> Option<Result<Seq<char>, StoreFault>> {
    match op {
        StoreOp::Write(_, v, Ok(())) => Some(Ok(v)),
        StoreOp::Delete(_, a) => if a matches Err(StoreFault::Other(_)) {
            None
        } else {
            Some(Err(StoreFault::NoEntry))
        },
        StoreOp::Read(_, Ok(v)) => Some(Ok(v)),
        StoreOp::Read(_, Err(StoreFault::NoEntry)) => Some(Err(StoreFault::NoEntry)),
        _ => None,
    }
}

/// No operation strictly between `j` and `i` changed the credential of `k`.
pub open spec fn unchanged_between(log: Seq<StoreOp>, k: (Seq<char>, Seq<char>), j: int, i: int) -> bool {
    forall|m: int| j < m < i ==> !(#[trigger] changes(log[m]) && op_key(log[m]) == k)
}

/// The store behaves as a store in this log: a read that does not fail
/// finds what the last earlier operation on its key showed, when no change
/// came in between.
pub open spec fn store_consistent(log: Seq<StoreOp>) -> bool {
    forall|j: int, i: int|
        #![trigger log[j], log[i]]
        0 <= j < i < log.len() && log[i] is Read && !(log[i] matches StoreOp::Read(
            _,
            Err(StoreFault::Other(_)),
        )) && op_key(log[j]) == op_key(log[i]) && shows(log[j]) is Some && unchanged_between(
            log,
            op_key(log[i]),
            j,
            i,
        ) ==> shows(log[i]) == shows(log[j])
}

} // verus!
