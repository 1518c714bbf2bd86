//! A credential store that saves the credentials in the user's keyring.
//!
//! The keyring is reached by the driver; this module decides what each
//! keyring answer means for the store.

use vstd::prelude::*;
use vstd::string::StringExecFns;

use crate::error::CredStoreError;

verus! {

/// How a keyring operation failed. Each variant holds the keyring's
/// description of the error.
#[derive(Debug, Clone)]
pub enum KeyringFailure {
    /// There is no entry for the service and user.
    NoEntry(String),
    /// More than one entry matches the service and user.
    Ambiguous(String),
    /// Any other keyring error.
    Other(String),
}

/// The description of a keyring failure.
pub open spec fn failure_text(f: KeyringFailure) -> Seq<char> {
    match f {
        KeyringFailure::NoEntry(t) => t@,
        KeyringFailure::Ambiguous(t) => t@,
        KeyringFailure::Other(t) => t@,
    }
}

fn store_error(prefix: &str, f: &KeyringFailure) -> (e: CredStoreError)
    ensures
        e.msg@ == prefix@ + failure_text(*f),
{
    let t = match f {
        KeyringFailure::NoEntry(t) => t,
        KeyringFailure::Ambiguous(t) => t,
        KeyringFailure::Other(t) => t,
    };
    let mut msg = prefix.to_owned();
    msg.append(t.as_str());
    CredStoreError { msg }
}

/// What reading the keyring entry means for a load: the stored bytes, no
/// record when there is no entry, an error when the entry is ambiguous or the
/// keyring failed otherwise.
pub fn keyring_load_result(res: Result<Vec<u8>, KeyringFailure>) -> (out: Result<
    Option<Vec<u8>>,
    CredStoreError,
>)
    ensures
        res matches Ok(b) ==> (out matches Ok(Some(v)) && v@ == b@),
        res matches Err(KeyringFailure::NoEntry(_)) ==> out matches Ok(None),
        res matches Err(KeyringFailure::Ambiguous(_)) ==> (out matches Err(e) && e.msg@
            == "multiple matching entries in keyring when loading is not supported"@),
        res matches Err(KeyringFailure::Other(t)) ==> (out matches Err(e) && e.msg@
            == "unhandled keyring error when loading: "@ + t@),
{
    match res {
        Ok(b) => Ok(Some(b)),
        Err(KeyringFailure::NoEntry(_)) => Ok(None),
        Err(KeyringFailure::Ambiguous(_)) => Err(
            CredStoreError {
                msg: "multiple matching entries in keyring when loading is not supported".to_owned(),
            },
        ),
        Err(f) => {
            let e = store_error("unhandled keyring error when loading: ", &f);
            Err(e)
        },
    }
}

/// What writing the keyring entry means for a save: an error when the entry
/// is ambiguous or the keyring failed otherwise.
pub fn keyring_save_result(res: Result<(), KeyringFailure>) -> (out: Result<(), CredStoreError>)
    ensures
        res is Ok <==> out is Ok,
        res matches Err(KeyringFailure::Ambiguous(_)) ==> (out matches Err(e) && e.msg@
            == "multiple matching entries in keyring when saving is not supported"@),
        res matches Err(KeyringFailure::NoEntry(t)) ==> (out matches Err(e) && e.msg@
            == "unhandled keyring error when saving: "@ + t@),
        res matches Err(KeyringFailure::Other(t)) ==> (out matches Err(e) && e.msg@
            == "unhandled keyring error when saving: "@ + t@),
{
    match res {
        Ok(()) => Ok(()),
        Err(KeyringFailure::Ambiguous(_)) => Err(
            CredStoreError {
                msg: "multiple matching entries in keyring when saving is not supported".to_owned(),
            },
        ),
        Err(f) => {
            let e = store_error("unhandled keyring error when saving: ", &f);
            Err(e)
        },
    }
}

/// What deleting the keyring entry means for a clear: a missing entry is
/// already cleared; an ambiguous entry or another keyring failure is an error.
pub fn keyring_clear_result(res: Result<(), KeyringFailure>) -> (out: Result<(), CredStoreError>)
    ensures
        (res is Ok || res matches Err(KeyringFailure::NoEntry(_))) <==> out is Ok,
        res matches Err(KeyringFailure::Ambiguous(_)) ==> (out matches Err(e) && e.msg@
            == "multiple matching entries in keyring when clearing. Support not implemented."@),
        res matches Err(KeyringFailure::Other(t)) ==> (out matches Err(e) && e.msg@
            == "unhandled keyring error when clearing: "@ + t@),
{
    match res {
        Ok(()) => Ok(()),
        Err(KeyringFailure::NoEntry(_)) => Ok(()),
        Err(KeyringFailure::Ambiguous(_)) => Err(
            CredStoreError {
                msg: "multiple matching entries in keyring when clearing. Support not implemented.".to_owned(),
            },
        ),
        Err(f) => {
            let e = store_error("unhandled keyring error when clearing: ", &f);
            Err(e)
        },
    }
}

} // verus!
