//! The signed-in user's token and name, kept in the platform credential
//! store (see `store`).

use vstd::prelude::*;
use crate::store::{
    changes, delete_logged, deleted_answer, op_key, open_logged, opened_answer,
    read_logged, read_answer, store_consistent, unchanged_between, write_logged, written_answer, CredentialEntry, CredentialKey,
    StoreError, StoreFault, StoreLog, StoreOp,
};

verus! {

/// The service name credentials are filed under.
pub const SERVICE_NAME: &'static str = "FocusTask";

/// The account that holds the sign-in token.
pub const TOKEN_ACCOUNT: &'static str = "auth_token";

/// The account that holds the user name.
pub const USERNAME_ACCOUNT: &'static str = "auth_username";

/// The key of one of the application's accounts.
pub open spec fn account_key(account: Seq<char>) -> (Seq<char>, Seq<char>) {
    (SERVICE_NAME@, account)
}

/// The key of the token credential.
pub open spec fn token_key() -> (Seq<char>, Seq<char>) {
    account_key(TOKEN_ACCOUNT@)
}

/// The key of the user-name credential.
pub open spec fn username_key() -> (Seq<char>, Seq<char>) {
    account_key(USERNAME_ACCOUNT@)
}

/// The key an account of the application is filed under.
pub fn credential_key(account: &str) -> (k: CredentialKey)
    ensures
        k@ == account_key(account@),
{
    CredentialKey { service: String::from_str(SERVICE_NAME), account: String::from_str(account) }
}

/// The signed-in user as kept in the store.
pub struct AuthState {
    pub token: String,
    pub username: String,
}

/// What reading one password from the store came to.
pub enum PasswordLookup {
    /// The password.
    Found(String),
    /// The store keeps no credential for the entry.
    Missing,
    /// The store failed with this message.
    Failed(String),
}

/// What deleting one credential came to.
pub enum Deletion {
    /// The credential was deleted.
    Deleted,
    /// There was no credential to delete.
    Missing,
    /// The store failed with this message.
    Failed(String),
}

/// `Ok` for a missing credential, otherwise the failure's message.
fn store_error(err: StoreError) -> (r: Result<(), String>)
    ensures
        r == match err {
            StoreError::NoEntry => Ok(()),
            StoreError::Other(m) => Err::<(), String>(m),
        },
{
    match err {
        StoreError::NoEntry => Ok(()),
        StoreError::Other(m) => Err(m),
    }
}

/// How a password read is classified: a missing credential is `Missing`,
/// any other failure is `Failed` with its message.
pub open spec fn lookup_of(r: Result<String, StoreError>) -> PasswordLookup {
    match r {
        Ok(s) => PasswordLookup::Found(s),
        Err(StoreError::NoEntry) => PasswordLookup::Missing,
        Err(StoreError::Other(m)) => PasswordLookup::Failed(m),
    }
}

/// How a deletion is classified: a missing credential is `Missing`, any
/// other failure is `Failed` with its message.
pub open spec fn deletion_of(r: Result<(), StoreError>) -> Deletion {
    match r {
        Ok(()) => Deletion::Deleted,
        Err(StoreError::NoEntry) => Deletion::Missing,
        Err(StoreError::Other(m)) => Deletion::Failed(m),
    }
}

/// Classifies the result of reading a password.
pub fn password_lookup(r: Result<String, StoreError>) -> (l: PasswordLookup)
    ensures
        l == lookup_of(r),
{
    match r {
        Ok(s) => PasswordLookup::Found(s),
        Err(e) => match store_error(e) {
            Ok(()) => PasswordLookup::Missing,
            Err(m) => PasswordLookup::Failed(m),
        },
    }
}

/// Classifies the result of deleting a credential.
pub fn deletion(r: Result<(), StoreError>) -> (d: Deletion)
    ensures
        d == deletion_of(r),
{
    match r {
        Ok(()) => Deletion::Deleted,
        Err(e) => match store_error(e) {
            Ok(()) => Deletion::Missing,
            Err(m) => Deletion::Failed(m),
        },
    }
}

/// What loading the signed-in user gives for the two lookups: no token
/// means nobody is signed in, a missing user name reads as empty, and a
/// store failure is passed on.
pub open spec fn loaded_state(token: PasswordLookup, username: PasswordLookup) -> Result<
    Option<(Seq<char>, Seq<char>)>,
    Seq<char>,
> {
    match token {
        PasswordLookup::Missing => Ok(None),
        PasswordLookup::Failed(m) => Err(m@),
        PasswordLookup::Found(t) => match username {
            PasswordLookup::Found(u) => Ok(Some((t@, u@))),
            PasswordLookup::Missing => Ok(Some((t@, Seq::empty()))),
            PasswordLookup::Failed(m) => Err(m@),
        },
    }
}

/// The view of a loaded state.
pub open spec fn loaded_view(r: Result<Option<AuthState>, String>) -> Result<
    Option<(Seq<char>, Seq<char>)>,
    Seq<char>,
> {
    match r {
        Ok(Some(s)) => Ok(Some((s.token@, s.username@))),
        Ok(None) => Ok(None),
        Err(m) => Err(m@),
    }
}

/// The signed-in user from what the token and user-name lookups gave.
/// The user-name lookup is only consulted when a token was found.
pub fn auth_state_from_lookups(token: PasswordLookup, username: PasswordLookup) -> (r: Result<
    Option<AuthState>,
    String,
>)
    ensures
        loaded_view(r) == loaded_state(token, username),
{
    match token {
        PasswordLookup::Missing => Ok(None),
        PasswordLookup::Failed(m) => Err(m),
        PasswordLookup::Found(t) => match username {
            PasswordLookup::Found(u) => Ok(Some(AuthState { token: t, username: u })),
            PasswordLookup::Missing => Ok(Some(AuthState { token: t, username: String::new() })),
            PasswordLookup::Failed(m) => Err(m),
        },
    }
}

/// What clearing the signed-in user gives for the two deletions: a
/// credential that was already gone is not an error, a store failure is.
/// The user-name deletion only counts when the token deletion did not fail.
pub open spec fn cleared_state(token: Deletion, username: Deletion) -> Result<(), Seq<char>> {
    match token {
        Deletion::Failed(m) => Err(m@),
        _ => match username {
            Deletion::Failed(m) => Err(m@),
            _ => Ok(()),
        },
    }
}

/// The view of a result that carries only an error message.
pub open spec fn unit_view(r: Result<(), String>) -> Result<(), Seq<char>> {
    match r {
        Ok(()) => Ok(()),
        Err(m) => Err(m@),
    }
}

/// The outcome of clearing the signed-in user from the two deletions.
pub fn clear_result(token: Deletion, username: Deletion) -> (r: Result<(), String>)
    ensures
        unit_view(r) == cleared_state(token, username),
{
    match token {
        Deletion::Failed(m) => Err(m),
        _ => match username {
            Deletion::Failed(m) => Err(m),
            _ => Ok(()),
        },
    }
}

/// Opens the store entry for one of the application's accounts: the entry
/// of service `FocusTask` and that account. Whether the store opens it is up
/// to the store; the error is its message.
pub fn keyring_entry(account: &str, log: &mut StoreLog) -> (r: Result<CredentialEntry, String>)
    ensures
        final(log).ops() == old(log).ops().push(StoreOp::Open(account_key(account@), opened_answer(r))),
        r matches Ok(e) ==> e.key() == account_key(account@),
{
    open_logged(credential_key(account), log)
}

// ───────────────────────── loading ─────────────────────────

/// The store operations of a load, given what each answered: the token
/// entry is opened, then the user-name entry; then the token is read, and
/// the user name only when a token was found. Nothing is written or deleted.
pub open spec fn load_ops(
    o1: Result<(), Seq<char>>,
    o2: Result<(), Seq<char>>,
    t: Result<Seq<char>, StoreFault>,
    u: Result<Seq<char>, StoreFault>,
) -> Seq<StoreOp> {
    seq![StoreOp::Open(token_key(), o1)] + if o1 is Ok {
        seq![StoreOp::Open(username_key(), o2)] + if o2 is Ok {
            seq![StoreOp::Read(token_key(), t)] + if t is Ok {
                seq![StoreOp::Read(username_key(), u)]
            } else {
                Seq::empty()
            }
        } else {
            Seq::empty()
        }
    } else {
        Seq::empty()
    }
}

/// What a load gives for what the store answered: a failure to open an
/// entry is returned with its message; no token means nobody is signed in;
/// a missing user name reads as empty; any other failure is returned with
/// its message.
pub open spec fn load_outcome(
    o1: Result<(), Seq<char>>,
    o2: Result<(), Seq<char>>,
    t: Result<Seq<char>, StoreFault>,
    u: Result<Seq<char>, StoreFault>,
) -> Result<Option<(Seq<char>, Seq<char>)>, Seq<char>> {
    match (o1, o2) {
        (Err(m), _) => Err(m),
        (Ok(()), Err(m)) => Err(m),
        _ => match t {
            Err(StoreFault::NoEntry) => Ok(None),
            Err(StoreFault::Other(m)) => Err(m),
            Ok(tok) => match u {
                Ok(name) => Ok(Some((tok, name))),
                Err(StoreFault::NoEntry) => Ok(Some((tok, Seq::empty()))),
                Err(StoreFault::Other(m)) => Err(m),
            },
        },
    }
}

/// Loads the signed-in user from the store: opens the entries of accounts
/// `auth_token` and `auth_username` (service `FocusTask`), reads the token,
/// and reads the name only when a token was found. The log gains exactly
/// those operations, and the result is what `load_outcome` gives for the
/// store's answers.
pub fn load_auth_state(log: &mut StoreLog) -> (r: Result<Option<AuthState>, String>)
    ensures
        exists|
            o1: Result<(), Seq<char>>,
            o2: Result<(), Seq<char>>,
            t: Result<Seq<char>, StoreFault>,
            u: Result<Seq<char>, StoreFault>,
        |
            #![trigger load_ops(o1, o2, t, u)]
            final(log).ops() == old(log).ops() + load_ops(o1, o2, t, u) && loaded_view(r)
                == load_outcome(o1, o2, t, u),
{
    let ghost start = log.ops();
    let ghost none: Result<Seq<char>, StoreFault> = Err(StoreFault::NoEntry);
    let opened_token = keyring_entry(TOKEN_ACCOUNT, log);
    let ghost o1 = opened_answer(opened_token);
    let token_entry = match opened_token {
        Ok(e) => e,
        Err(m) => {
            let r = Err(m);
            assert(log.ops() =~= start + load_ops(o1, Ok(()), none, none));
            assert(loaded_view(r) == load_outcome(o1, Ok(()), none, none));
            return r;
        },
    };
    let opened_username = keyring_entry(USERNAME_ACCOUNT, log);
    let ghost o2 = opened_answer(opened_username);
    let username_entry = match opened_username {
        Ok(e) => e,
        Err(m) => {
            let r = Err(m);
            assert(log.ops() =~= start + load_ops(o1, o2, none, none));
            assert(loaded_view(r) == load_outcome(o1, o2, none, none));
            return r;
        },
    };
    let read_token = read_logged(&token_entry, log);
    let ghost t = read_answer(read_token);
    let token = password_lookup(read_token);
    let read_username = match token {
        PasswordLookup::Found(_) => read_logged(&username_entry, log),
        _ => Err(StoreError::NoEntry),
    };
    let ghost u = read_answer(read_username);
    let username = password_lookup(read_username);
    let r = auth_state_from_lookups(token, username);
    assert(log.ops() =~= start + load_ops(o1, o2, t, u));
    assert(loaded_view(r) == load_outcome(o1, o2, t, u));
    r
}

// ───────────────────────── saving ─────────────────────────

/// The store operations of a save of `token` and `username`, given what
/// each answered: the token entry is opened and the token written to it;
/// only when both succeeded is the user-name entry opened, and only when
/// that succeeded is the name written to it.
pub open spec fn save_ops(
    token: Seq<char>,
    username: Seq<char>,
    o1: Result<(), Seq<char>>,
    w1: Result<(), Seq<char>>,
    o2: Result<(), Seq<char>>,
    w2: Result<(), Seq<char>>,
) -> Seq<StoreOp> {
    seq![StoreOp::Open(token_key(), o1)] + if o1 is Ok {
        seq![StoreOp::Write(token_key(), token, w1)] + if w1 is Ok {
            seq![StoreOp::Open(username_key(), o2)] + if o2 is Ok {
                seq![StoreOp::Write(username_key(), username, w2)]
            } else {
                Seq::empty()
            }
        } else {
            Seq::empty()
        }
    } else {
        Seq::empty()
    }
}

/// What a save gives: the first failure in that order, otherwise success.
/// An earlier write is not undone when a later step fails.
pub open spec fn save_outcome(
    o1: Result<(), Seq<char>>,
    w1: Result<(), Seq<char>>,
    o2: Result<(), Seq<char>>,
    w2: Result<(), Seq<char>>,
) -> Result<(), Seq<char>> {
    match (o1, w1, o2, w2) {
        (Err(m), _, _, _) => Err(m),
        (Ok(()), Err(m), _, _) => Err(m),
        (Ok(()), Ok(()), Err(m), _) => Err(m),
        (Ok(()), Ok(()), Ok(()), Err(m)) => Err(m),
        _ => Ok(()),
    }
}

/// Keeps the signed-in user in the store: the token under account
/// `auth_token`, then the name under account `auth_username` (service
/// `FocusTask`). The log gains exactly those operations, stopping at the
/// first failure, which is returned with its message.
pub fn save_auth_state(state: AuthState, log: &mut StoreLog) -> (r: Result<(), String>)
    ensures
        exists|
            o1: Result<(), Seq<char>>,
            w1: Result<(), Seq<char>>,
            o2: Result<(), Seq<char>>,
            w2: Result<(), Seq<char>>,
        |
            #![trigger save_ops(state.token@, state.username@, o1, w1, o2, w2)]
            final(log).ops() == old(log).ops() + save_ops(
                state.token@,
                state.username@,
                o1,
                w1,
                o2,
                w2,
            ) && unit_view(r) == save_outcome(o1, w1, o2, w2),
{
    let ghost start = log.ops();
    let ghost (tok, name) = (state.token@, state.username@);
    let ghost ok: Result<(), Seq<char>> = Ok(());
    let opened_token = keyring_entry(TOKEN_ACCOUNT, log);
    let ghost o1 = opened_answer(opened_token);
    let token_entry = match opened_token {
        Ok(e) => e,
        Err(m) => {
            let r = Err(m);
            assert(log.ops() =~= start + save_ops(tok, name, o1, ok, ok, ok));
            assert(unit_view(r) == save_outcome(o1, ok, ok, ok));
            return r;
        },
    };
    let wrote_token = write_logged(&token_entry, state.token.as_str(), log);
    let ghost w1 = written_answer(wrote_token);
    if let Err(m) = wrote_token {
        let r = Err(m);
        assert(log.ops() =~= start + save_ops(tok, name, o1, w1, ok, ok));
        assert(unit_view(r) == save_outcome(o1, w1, ok, ok));
        return r;
    }
    let opened_username = keyring_entry(USERNAME_ACCOUNT, log);
    let ghost o2 = opened_answer(opened_username);
    let username_entry = match opened_username {
        Ok(e) => e,
        Err(m) => {
            let r = Err(m);
            assert(log.ops() =~= start + save_ops(tok, name, o1, w1, o2, ok));
            assert(unit_view(r) == save_outcome(o1, w1, o2, ok));
            return r;
        },
    };
    let wrote_username = write_logged(&username_entry, state.username.as_str(), log);
    let ghost w2 = written_answer(wrote_username);
    let r = match wrote_username {
        Err(m) => Err(m),
        Ok(()) => Ok(()),
    };
    assert(log.ops() =~= start + save_ops(tok, name, o1, w1, o2, w2));
    assert(unit_view(r) == save_outcome(o1, w1, o2, w2));
    r
}

// ───────────────────────── clearing ─────────────────────────

/// The store operations of a clear, given what each answered: both entries
/// are opened, the token credential is deleted, and the user-name
/// credential only when deleting the token did not fail.
pub open spec fn clear_ops(
    o1: Result<(), Seq<char>>,
    o2: Result<(), Seq<char>>,
    t: Result<(), StoreFault>,
    u: Result<(), StoreFault>,
) -> Seq<StoreOp> {
    seq![StoreOp::Open(token_key(), o1)] + if o1 is Ok {
        seq![StoreOp::Open(username_key(), o2)] + if o2 is Ok {
            seq![StoreOp::Delete(token_key(), t)] + if !(t matches Err(StoreFault::Other(_))) {
                seq![StoreOp::Delete(username_key(), u)]
            } else {
                Seq::empty()
            }
        } else {
            Seq::empty()
        }
    } else {
        Seq::empty()
    }
}

/// What a clear gives for what the store answered: a credential that was
/// already gone is not an error; the first failure is returned with its
/// message.
pub open spec fn clear_outcome(
    o1: Result<(), Seq<char>>,
    o2: Result<(), Seq<char>>,
    t: Result<(), StoreFault>,
    u: Result<(), StoreFault>,
) -> Result<(), Seq<char>> {
    match (o1, o2) {
        (Err(m), _) => Err(m),
        (Ok(()), Err(m)) => Err(m),
        _ => match (t, u) {
            (Err(StoreFault::Other(m)), _) => Err(m),
            (_, Err(StoreFault::Other(m))) => Err(m),
            _ => Ok(()),
        },
    }
}

/// Removes the signed-in user from the store: opens both entries, deletes
/// the token credential, and the user-name credential only when that did not
/// fail. The log gains exactly those operations; a credential already gone
/// is not an error, and the first failure is returned with its message.
pub fn clear_auth_state(log: &mut StoreLog) -> (r: Result<(), String>)
    ensures
        exists|
            o1: Result<(), Seq<char>>,
            o2: Result<(), Seq<char>>,
            t: Result<(), StoreFault>,
            u: Result<(), StoreFault>,
        |
            #![trigger clear_ops(o1, o2, t, u)]
            final(log).ops() == old(log).ops() + clear_ops(o1, o2, t, u) && unit_view(r)
                == clear_outcome(o1, o2, t, u),
{
    let ghost start = log.ops();
    let ghost none: Result<(), StoreFault> = Ok(());
    let opened_token = keyring_entry(TOKEN_ACCOUNT, log);
    let ghost o1 = opened_answer(opened_token);
    let token_entry = match opened_token {
        Ok(e) => e,
        Err(m) => {
            let r = Err(m);
            assert(log.ops() =~= start + clear_ops(o1, Ok(()), none, none));
            assert(unit_view(r) == clear_outcome(o1, Ok(()), none, none));
            return r;
        },
    };
    let opened_username = keyring_entry(USERNAME_ACCOUNT, log);
    let ghost o2 = opened_answer(opened_username);
    let username_entry = match opened_username {
        Ok(e) => e,
        Err(m) => {
            let r = Err(m);
            assert(log.ops() =~= start + clear_ops(o1, o2, none, none));
            assert(unit_view(r) == clear_outcome(o1, o2, none, none));
            return r;
        },
    };
    let deleted_token = delete_logged(&token_entry, log);
    let ghost t = deleted_answer(deleted_token);
    let token = deletion(deleted_token);
    if let Deletion::Failed(m) = token {
        let r = Err(m);
        assert(log.ops() =~= start + clear_ops(o1, o2, t, none));
        assert(unit_view(r) == clear_outcome(o1, o2, t, none));
        return r;
    }
    let deleted_username = delete_logged(&username_entry, log);
    let ghost u = deleted_answer(deleted_username);
    let username = deletion(deleted_username);
    let r = clear_result(token, username);
    assert(log.ops() =~= start + clear_ops(o1, o2, t, u));
    assert(unit_view(r) == clear_outcome(o1, o2, t, u));
    r
}

// ───────────────────────── laws ─────────────────────────

proof fn lemma_keys_differ()
    ensures
        token_key() != username_key(),
{
    reveal_strlit("auth_token");
    reveal_strlit("auth_username");
    assert(TOKEN_ACCOUNT@.len() != USERNAME_ACCOUNT@.len());
}

/// A load neither writes nor deletes: it only opens entries and reads.
pub proof fn law_load_changes_nothing(
    o1: Result<(), Seq<char>>,
    o2: Result<(), Seq<char>>,
    t: Result<Seq<char>, StoreFault>,
    u: Result<Seq<char>, StoreFault>,
)
    ensures
        forall|i: int|
            0 <= i < load_ops(o1, o2, t, u).len() ==> !changes(#[trigger] load_ops(o1, o2, t, u)[i])
                && (load_ops(o1, o2, t, u)[i] is Open || load_ops(o1, o2, t, u)[i] is Read),
{
}

/// Save, then load: when the store behaves as a store, a save that
/// succeeded is loaded back as exactly the saved user, provided the load
/// could open its entries and its reads did not fail.
pub proof fn law_saved_user_loads_back(
    before: Seq<StoreOp>,
    token: Seq<char>,
    username: Seq<char>,
    o1: Result<(), Seq<char>>,
    o2: Result<(), Seq<char>>,
    t: Result<Seq<char>, StoreFault>,
    u: Result<Seq<char>, StoreFault>,
)
    requires
        store_consistent(
            before + save_ops(token, username, Ok(()), Ok(()), Ok(()), Ok(())) + load_ops(
                o1,
                o2,
                t,
                u,
            ),
        ),
        o1 is Ok,
        o2 is Ok,
        !(t matches Err(StoreFault::Other(_))),
        !(u matches Err(StoreFault::Other(_))),
    ensures
        load_outcome(o1, o2, t, u) == Ok::<Option<(Seq<char>, Seq<char>)>, Seq<char>>(
            Some((token, username)),
        ),
{
    lemma_keys_differ();
    let ok: Result<(), Seq<char>> = Ok(());
    let s = save_ops(token, username, ok, ok, ok, ok);
    let l = load_ops(o1, o2, t, u);
    let log = before + s + l;
    let p = before.len() as int;
    assert(s.len() == 4);
    assert(log[p + 1] == s[1]);
    assert(log[p + 6] == l[2]);
    assert(s[1] == StoreOp::Write(token_key(), token, ok));
    assert(l[2] == StoreOp::Read(token_key(), t));
    assert forall|m: int| p + 1 < m < p + 6 implies !(#[trigger] changes(log[m]) && op_key(log[m])
        == token_key()) by {
        if m < p + 4 {
            assert(log[m] == s[m - p]);
        } else {
            assert(log[m] == l[m - p - 4]);
        }
    }
    assert(unchanged_between(log, token_key(), p + 1, p + 6));
    assert(log[p + 1] == log[p + 1] && log[p + 6] == log[p + 6]);
    assert(t == Ok::<Seq<char>, StoreFault>(token));
    assert(l.len() == 4);
    assert(log[p + 3] == s[3]);
    assert(log[p + 7] == l[3]);
    assert(l[3] == StoreOp::Read(username_key(), u));
    assert forall|m: int| p + 3 < m < p + 7 implies !(#[trigger] changes(log[m]) && op_key(log[m])
        == username_key()) by {
        assert(log[m] == l[m - p - 4]);
    }
    assert(unchanged_between(log, username_key(), p + 3, p + 7));
    assert(log[p + 3] == log[p + 3] && log[p + 7] == log[p + 7]);
    assert(u == Ok::<Seq<char>, StoreFault>(username));
}

/// Clear, then load: when the store behaves as a store, after a clear that
/// succeeded nobody is signed in, provided the load could open its entries
/// and its token read did not fail.
pub proof fn law_cleared_user_loads_signed_out(
    before: Seq<StoreOp>,
    ct: Result<(), StoreFault>,
    cu: Result<(), StoreFault>,
    o1: Result<(), Seq<char>>,
    o2: Result<(), Seq<char>>,
    t: Result<Seq<char>, StoreFault>,
    u: Result<Seq<char>, StoreFault>,
)
    requires
        store_consistent(before + clear_ops(Ok(()), Ok(()), ct, cu) + load_ops(o1, o2, t, u)),
        clear_outcome(Ok(()), Ok(()), ct, cu) == Ok::<(), Seq<char>>(()),
        o1 is Ok,
        o2 is Ok,
        !(t matches Err(StoreFault::Other(_))),
    ensures
        load_outcome(o1, o2, t, u) == Ok::<Option<(Seq<char>, Seq<char>)>, Seq<char>>(None),
{
    lemma_keys_differ();
    let ok: Result<(), Seq<char>> = Ok(());
    let c = clear_ops(ok, ok, ct, cu);
    let l = load_ops(o1, o2, t, u);
    let log = before + c + l;
    let p = before.len() as int;
    assert(c.len() == 4);
    assert(log[p + 2] == c[2]);
    assert(c[2] == StoreOp::Delete(token_key(), ct));
    assert(log[p + 6] == l[2]);
    assert(l[2] == StoreOp::Read(token_key(), t));
    assert forall|m: int| p + 2 < m < p + 6 implies !(#[trigger] changes(log[m]) && op_key(log[m])
        == token_key()) by {
        if m < p + 4 {
            assert(log[m] == c[m - p]);
        } else {
            assert(log[m] == l[m - p - 4]);
        }
    }
    assert(unchanged_between(log, token_key(), p + 2, p + 6));
    assert(log[p + 2] == log[p + 2] && log[p + 6] == log[p + 6]);
    assert(t == Err::<Seq<char>, StoreFault>(StoreFault::NoEntry));
}

/// Two loads in a row agree when the store behaves as a store and neither
/// load fails: loading changes nothing that the next load sees.
pub proof fn law_two_loads_agree(
    before: Seq<StoreOp>,
    o1: Result<(), Seq<char>>,
    o2: Result<(), Seq<char>>,
    t: Result<Seq<char>, StoreFault>,
    u: Result<Seq<char>, StoreFault>,
    p1: Result<(), Seq<char>>,
    p2: Result<(), Seq<char>>,
    t2: Result<Seq<char>, StoreFault>,
    u2: Result<Seq<char>, StoreFault>,
)
    requires
        store_consistent(before + load_ops(o1, o2, t, u) + load_ops(p1, p2, t2, u2)),
        o1 is Ok,
        o2 is Ok,
        p1 is Ok,
        p2 is Ok,
        !(t matches Err(StoreFault::Other(_))),
        !(u matches Err(StoreFault::Other(_))),
        !(t2 matches Err(StoreFault::Other(_))),
        !(u2 matches Err(StoreFault::Other(_))),
    ensures
        load_outcome(o1, o2, t, u) == load_outcome(p1, p2, t2, u2),
{
    lemma_keys_differ();
    let a = load_ops(o1, o2, t, u);
    let b = load_ops(p1, p2, t2, u2);
    let log = before + a + b;
    let p = before.len() as int;
    let n = a.len() as int;
    assert(log[p + 2] == a[2]);
    assert(a[2] == StoreOp::Read(token_key(), t));
    assert(log[p + n + 2] == b[2]);
    assert(b[2] == StoreOp::Read(token_key(), t2));
    assert forall|m: int| p + 2 < m < p + n + 2 implies !(#[trigger] changes(log[m]) && op_key(
        log[m],
    ) == token_key()) by {
        if m < p + n {
            assert(log[m] == a[m - p]);
        } else {
            assert(log[m] == b[m - p - n]);
        }
    }
    assert(unchanged_between(log, token_key(), p + 2, p + n + 2));
    assert(log[p + 2] == log[p + 2] && log[p + n + 2] == log[p + n + 2]);
    assert(t2 == t);
    if t is Ok {
        assert(n == 4);
        assert(log[p + 3] == a[3]);
        assert(a[3] == StoreOp::Read(username_key(), u));
        assert(log[p + 7] == b[3]);
        assert(b[3] == StoreOp::Read(username_key(), u2));
        assert forall|m: int| p + 3 < m < p + 7 implies !(#[trigger] changes(log[m]) && op_key(
            log[m],
        ) == username_key()) by {
            assert(log[m] == b[m - p - 4]);
        }
        assert(unchanged_between(log, username_key(), p + 3, p + 7));
        assert(log[p + 3] == log[p + 3] && log[p + 7] == log[p + 7]);
        assert(u2 == u);
    }
}

/// A load that finds a token keeps the user signed in with that token,
/// whatever the name read reports short of a store failure: the name is
/// the one found, or empty when there is none.
pub proof fn law_found_token_stays_signed_in(tok: Seq<char>, u: Result<Seq<char>, StoreFault>)
    requires
        !(u matches Err(StoreFault::Other(_))),
    ensures
        load_outcome(Ok(()), Ok(()), Ok(tok), u) matches Ok(Some((t, _))) && t == tok,
        u matches Ok(name) ==> load_outcome(Ok(()), Ok(()), Ok(tok), u) == Ok::<
            Option<(Seq<char>, Seq<char>)>,
            Seq<char>,
        >(Some((tok, name))),
        u matches Err(StoreFault::NoEntry) ==> load_outcome(Ok(()), Ok(()), Ok(tok), u) == Ok::<
            Option<(Seq<char>, Seq<char>)>,
            Seq<char>,
        >(Some((tok, Seq::empty()))),
{
}

/// The same for the lookups themselves: a found token gives a signed-in
/// user with that token, and a missing name reads as empty.
pub proof fn law_found_token_lookup_signs_in(t: String, username: PasswordLookup)
    requires
        !(username is Failed),
    ensures
        loaded_state(PasswordLookup::Found(t), username) matches Ok(Some((tok, _))) && tok == t@,
        username is Missing ==> loaded_state(PasswordLookup::Found(t), username) == Ok::<
            Option<(Seq<char>, Seq<char>)>,
            Seq<char>,
        >(Some((t@, Seq::empty()))),
{
}

/// A save stops at its first failure and returns that failure's message: a
/// failed open or token write is returned whatever comes after it, and an
/// earlier write is not undone.
pub proof fn law_save_returns_first_failure(
    token: Seq<char>,
    username: Seq<char>,
    m: Seq<char>,
    w1: Result<(), Seq<char>>,
    o2: Result<(), Seq<char>>,
    w2: Result<(), Seq<char>>,
)
    ensures
        save_outcome(Err(m), w1, o2, w2) == Err::<(), Seq<char>>(m),
        save_outcome(Ok(()), Err(m), o2, w2) == Err::<(), Seq<char>>(m),
        save_outcome(Ok(()), Ok(()), Err(m), w2) == Err::<(), Seq<char>>(m),
        save_outcome(Ok(()), Ok(()), Ok(()), Err(m)) == Err::<(), Seq<char>>(m),
        save_ops(token, username, Ok(()), Err(m), o2, w2) == seq![
            StoreOp::Open(token_key(), Ok(())),
            StoreOp::Write(token_key(), token, Err(m)),
        ],
{
    assert(save_ops(token, username, Ok(()), Err(m), o2, w2) =~= seq![
        StoreOp::Open(token_key(), Ok(())),
        StoreOp::Write(token_key(), token, Err(m)),
    ]);
}

/// A failed token deletion ends a clear with its message, and the name
/// credential is not deleted then; a failed name deletion also ends it with
/// its message.
pub proof fn law_clear_returns_deletion_failure(
    m: Seq<char>,
    u: Result<(), StoreFault>,
    t: Result<(), StoreFault>,
)
    ensures
        clear_outcome(Ok(()), Ok(()), Err(StoreFault::Other(m)), u) == Err::<(), Seq<char>>(m),
        clear_ops(Ok(()), Ok(()), Err(StoreFault::Other(m)), u) == seq![
            StoreOp::Open(token_key(), Ok(())),
            StoreOp::Open(username_key(), Ok(())),
            StoreOp::Delete(token_key(), Err(StoreFault::Other(m))),
        ],
        !(t matches Err(StoreFault::Other(_))) ==> clear_outcome(
            Ok(()),
            Ok(()),
            t,
            Err(StoreFault::Other(m)),
        ) == Err::<(), Seq<char>>(m),
{
    assert(clear_ops(Ok(()), Ok(()), Err(StoreFault::Other(m)), u) =~= seq![
        StoreOp::Open(token_key(), Ok(())),
        StoreOp::Open(username_key(), Ok(())),
        StoreOp::Delete(token_key(), Err(StoreFault::Other(m))),
    ]);
}

/// Once the token is gone, nobody is signed in, whatever the user-name
/// lookup gives.
pub proof fn law_no_token_means_signed_out(u: Result<Seq<char>, StoreFault>)
    ensures
        load_outcome(Ok(()), Ok(()), Err(StoreFault::NoEntry), u) == Ok::<
            Option<(Seq<char>, Seq<char>)>,
            Seq<char>,
        >(None),
{
}

/// Clearing succeeds whenever each credential is deleted or already
/// missing; in particular clearing a second time, when the store reports
/// both credentials missing, succeeds.
pub proof fn law_clearing_is_repeatable(t: Result<(), StoreFault>, u: Result<(), StoreFault>)
    requires
        !(t matches Err(StoreFault::Other(_))),
        !(u matches Err(StoreFault::Other(_))),
    ensures
        clear_outcome(Ok(()), Ok(()), t, u) == Ok::<(), Seq<char>>(()),
        clear_outcome(Ok(()), Ok(()), Err(StoreFault::NoEntry), Err(StoreFault::NoEntry)) == Ok::<
            (),
            Seq<char>,
        >(()),
{
}

} // verus!
