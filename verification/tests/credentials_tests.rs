use focus_task::credentials::{
    auth_state_from_lookups, clear_auth_state, clear_result, credential_key, deletion,
    keyring_entry, load_auth_state, password_lookup, save_auth_state, AuthState, Deletion,
    PasswordLookup, SERVICE_NAME, TOKEN_ACCOUNT, USERNAME_ACCOUNT,
};
use focus_task::store::{StoreError, StoreLog};

fn show(r: Result<Option<AuthState>, String>) -> String {
    match r {
        Ok(Some(s)) => format!("user:{}:{}", s.token, s.username),
        Ok(None) => "signed-out".into(),
        Err(m) => format!("err:{m}"),
    }
}

#[test]
fn accounts() {
    assert_eq!(SERVICE_NAME, "FocusTask");
    assert_eq!(TOKEN_ACCOUNT, "auth_token");
    assert_eq!(USERNAME_ACCOUNT, "auth_username");
}

#[test]
fn saved_user_loads_back_from_lookups() {
    let r = auth_state_from_lookups(PasswordLookup::Found("tok".into()), PasswordLookup::Found("amy".into()));
    assert_eq!(show(r), "user:tok:amy");
}

#[test]
fn missing_username_reads_as_empty() {
    let r = auth_state_from_lookups(PasswordLookup::Found("tok".into()), PasswordLookup::Missing);
    assert_eq!(show(r), "user:tok:");
}

#[test]
fn missing_token_means_signed_out() {
    let r = auth_state_from_lookups(PasswordLookup::Missing, PasswordLookup::Found("amy".into()));
    assert_eq!(show(r), "signed-out");
}

#[test]
fn store_failures_are_passed_on() {
    let r = auth_state_from_lookups(PasswordLookup::Failed("locked".into()), PasswordLookup::Missing);
    assert_eq!(show(r), "err:locked");
    let r = auth_state_from_lookups(PasswordLookup::Found("t".into()), PasswordLookup::Failed("x".into()));
    assert_eq!(show(r), "err:x");
}

#[test]
fn credential_keys() {
    let k = credential_key(TOKEN_ACCOUNT);
    assert_eq!(k.service, "FocusTask");
    assert_eq!(k.account, "auth_token");
    let k = credential_key(USERNAME_ACCOUNT);
    assert_eq!(k.account, "auth_username");
}

#[test]
fn password_lookup_classifies_store_results() {
    assert!(matches!(password_lookup(Ok("p".into())), PasswordLookup::Found(p) if p == "p"));
    assert!(matches!(password_lookup(Err(StoreError::NoEntry)), PasswordLookup::Missing));
    assert!(matches!(
        password_lookup(Err(StoreError::Other("locked".into()))),
        PasswordLookup::Failed(m) if m == "locked"
    ));
}

#[test]
fn deletion_classifies_store_results() {
    assert!(matches!(deletion(Ok(())), Deletion::Deleted));
    assert!(matches!(deletion(Err(StoreError::NoEntry)), Deletion::Missing));
    assert!(matches!(deletion(Err(StoreError::Other("x".into()))), Deletion::Failed(m) if m == "x"));
}

#[test]
fn clearing_ignores_missing_credentials() {
    assert_eq!(clear_result(Deletion::Missing, Deletion::Missing), Ok(()));
    assert_eq!(clear_result(Deletion::Deleted, Deletion::Missing), Ok(()));
    assert_eq!(clear_result(Deletion::Failed("a".into()), Deletion::Failed("b".into())), Err("a".into()));
    assert_eq!(clear_result(Deletion::Deleted, Deletion::Failed("b".into())), Err("b".into()));
}

#[test]
fn store_operations_through_the_public_functions() {
    // On this platform keyring's default store is its in-memory mock, in
    // which every opened entry starts empty; on macOS and Windows the
    // platform store is used.
    let mut log = StoreLog::new();
    assert!(keyring_entry(TOKEN_ACCOUNT, &mut log).is_ok());
    assert!(save_auth_state(AuthState { token: "t".into(), username: "u".into() }, &mut log).is_ok());
    match load_auth_state(&mut log) {
        Ok(Some(s)) => {
            assert_eq!(s.token, "t");
            assert_eq!(s.username, "u");
        }
        Ok(None) => {}
        Err(m) => panic!("load failed: {m}"),
    }
    assert!(clear_auth_state(&mut log).is_ok());
    assert!(clear_auth_state(&mut log).is_ok());
    assert_eq!(show(load_auth_state(&mut log)), "signed-out");
}
