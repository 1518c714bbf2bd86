use southesk::cred_store::keyring_cred_store::{
    keyring_clear_result, keyring_load_result, keyring_save_result, KeyringFailure,
};
use southesk::cred_store::plaintext_cred_store::PlaintextCredStore;
use southesk::cred_store::CombinedStoredCreds;
use southesk::error::{to_connect_auth_err, ClientConnectError, CredStoreError};
use southesk::plain_cred_store::PlainCredStore;

type Rec = CombinedStoredCreds<u32>;

#[test]
fn save_credentials_keeps_secret() {
    let with_secret = Rec::with_client_secret(None, "s3cret");
    let saved = Rec::with_credentials(Some(with_secret), 7);
    assert_eq!(Rec::credentials_of(Some(saved.clone())), Some(7));
    assert_eq!(
        Rec::client_secret_of(Some(saved)).as_deref(),
        Some("s3cret")
    );
}

#[test]
fn save_secret_keeps_credentials() {
    let saved = Rec::with_credentials(None, 1);
    let saved = Rec::with_client_secret(Some(saved), "x");
    assert_eq!(Rec::credentials_of(Some(saved.clone())), Some(1));
    assert_eq!(Rec::client_secret_of(Some(saved)).as_deref(), Some("x"));
}

#[test]
fn empty_store_loads_nothing() {
    assert_eq!(Rec::credentials_of(None), None);
    assert_eq!(Rec::client_secret_of(None), None);
    let e = Rec::empty();
    assert_eq!(e.rmcp_creds, None);
    assert_eq!(e.client_secret, None);
}

#[test]
fn second_save_overwrites() {
    let r = Rec::with_credentials(None, 1);
    let r = Rec::with_credentials(Some(r), 2);
    assert_eq!(Rec::credentials_of(Some(r)), Some(2));
}

#[test]
fn keyring_load_outcomes() {
    assert_eq!(
        keyring_load_result(Ok(vec![1, 2])).unwrap(),
        Some(vec![1, 2])
    );
    assert_eq!(
        keyring_load_result(Err(KeyringFailure::NoEntry("none".into()))).unwrap(),
        None
    );
    assert_eq!(
        keyring_load_result(Err(KeyringFailure::Ambiguous("two".into())))
            .unwrap_err()
            .msg,
        "multiple matching entries in keyring when loading is not supported"
    );
    assert_eq!(
        keyring_load_result(Err(KeyringFailure::Other("locked".into())))
            .unwrap_err()
            .msg,
        "unhandled keyring error when loading: locked"
    );
}

#[test]
fn keyring_save_and_clear_outcomes() {
    assert!(keyring_save_result(Ok(())).is_ok());
    assert_eq!(
        keyring_save_result(Err(KeyringFailure::NoEntry("gone".into())))
            .unwrap_err()
            .msg,
        "unhandled keyring error when saving: gone"
    );
    assert_eq!(
        keyring_save_result(Err(KeyringFailure::Ambiguous("two".into())))
            .unwrap_err()
            .msg,
        "multiple matching entries in keyring when saving is not supported"
    );
    assert!(keyring_clear_result(Ok(())).is_ok());
    assert!(keyring_clear_result(Err(KeyringFailure::NoEntry("gone".into()))).is_ok());
    assert_eq!(
        keyring_clear_result(Err(KeyringFailure::Ambiguous("two".into())))
            .unwrap_err()
            .msg,
        "multiple matching entries in keyring when clearing. Support not implemented."
    );
    assert_eq!(
        keyring_clear_result(Err(KeyringFailure::Other("x".into())))
            .unwrap_err()
            .msg,
        "unhandled keyring error when clearing: x"
    );
}

#[test]
fn store_file_names() {
    assert_eq!(
        PlaintextCredStore::new("/tmp/creds.json".into()).filename(),
        "/tmp/creds.json"
    );
    assert_eq!(
        PlainCredStore::new("/cfg/credentials.json".into()).filename(),
        "/cfg/credentials.json"
    );
}

#[test]
fn store_errors_become_auth_errors() {
    let r: Result<u8, _> = to_connect_auth_err(
        Err(CredStoreError {
            msg: "disk".into(),
        }),
        "Error while loading",
    );
    match r {
        Err(ClientConnectError::AuthError { msg, source }) => {
            assert_eq!(msg, "Error while loading");
            assert_eq!(source.as_deref(), Some("disk"));
        }
        other => panic!("unexpected {other:?}"),
    }
    assert_eq!(to_connect_auth_err(Ok(5u8), "m").unwrap(), 5);
}

#[test]
fn save_order_does_not_matter() {
    let a = Rec::with_client_secret(Some(Rec::with_credentials(None, 4)), "k");
    let b = Rec::with_credentials(Some(Rec::with_client_secret(None, "k")), 4);
    assert_eq!(a.rmcp_creds, b.rmcp_creds);
    assert_eq!(a.client_secret, b.client_secret);
}
