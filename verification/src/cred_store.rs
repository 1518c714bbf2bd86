//! Credential stores for the OAuth credentials.
//!
//! A store keeps one record: the OAuth credentials of the MCP library and the
//! OAuth client secret. Saving one of the two reads the record, replaces that
//! part and writes the record back, so that the other part is kept.

pub mod keyring_cred_store;
pub mod plaintext_cred_store;

use vstd::prelude::*;

verus! {

/// The record kept by the file and keyring stores. `C` is the type of the
/// OAuth credentials.
#[derive(Debug, Clone)]
pub struct CombinedStoredCreds<C> {
    pub rmcp_creds: Option<C>,
    pub client_secret: Option<String>,
}

/// The abstract value of a stored record.
pub struct RecordModel<C> {
    pub creds: Option<C>,
    pub secret: Option<Seq<char>>,
}

impl<C> View for CombinedStoredCreds<C> {
    type V = RecordModel<C>;

    open spec fn view(&self) -> RecordModel<C> {
        RecordModel { creds: self.rmcp_creds, secret: self.client_secret.deep_view() }
    }
}

/// The abstract value of what a load gave: `None` when there was no record.
pub open spec fn loaded_view<C>(loaded: Option<CombinedStoredCreds<C>>) -> Option<RecordModel<C>> {
    match loaded {
        Some(r) => Some(r@),
        None => None,
    }
}

/// The record after saving credentials over the loaded one (an empty record
/// when there was none): the credentials replaced, the client secret kept.
pub open spec fn spec_with_credentials<C>(loaded: Option<RecordModel<C>>, creds: C) -> RecordModel<
    C,
> {
    RecordModel {
        creds: Some(creds),
        secret: match loaded {
            Some(r) => r.secret,
            None => None,
        },
    }
}

/// The record after saving a client secret over the loaded one (an empty
/// record when there was none): the secret replaced, the credentials kept.
pub open spec fn spec_with_client_secret<C>(
    loaded: Option<RecordModel<C>>,
    secret: Seq<char>,
) -> RecordModel<C> {
    RecordModel {
        creds: match loaded {
            Some(r) => r.creds,
            None => None,
        },
        secret: Some(secret),
    }
}

/// The credentials that a load gives.
pub open spec fn spec_credentials_of<C>(loaded: Option<RecordModel<C>>) -> Option<C> {
    match loaded {
        Some(r) => r.creds,
        None => None,
    }
}

/// The client secret that a load gives.
pub open spec fn spec_client_secret_of<C>(loaded: Option<RecordModel<C>>) -> Option<Seq<char>> {
    match loaded {
        Some(r) => r.secret,
        None => None,
    }
}

impl<C> CombinedStoredCreds<C> {
    /// An empty record.
    pub fn empty() -> (r: Self)
        ensures
            r@.creds is None,
            r@.secret is None,
    {
        CombinedStoredCreds { rmcp_creds: None, client_secret: None }
    }

    /// The record to write when saving credentials: the loaded record (or an
    /// empty one) with the credentials replaced.
    pub fn with_credentials(loaded: Option<Self>, credentials: C) -> (r: Self)
        ensures
            r@ == spec_with_credentials(loaded_view(loaded), credentials),
    {
        let mut creds = match loaded {
            Some(c) => c,
            None => Self::empty(),
        };
        creds.rmcp_creds = Some(credentials);
        creds
    }

    /// The record to write when saving a client secret: the loaded record (or
    /// an empty one) with the secret replaced.
    pub fn with_client_secret(loaded: Option<Self>, secret: &str) -> (r: Self)
        ensures
            r@ == spec_with_client_secret(loaded_view(loaded), secret@),
    {
        let mut creds = match loaded {
            Some(c) => c,
            None => Self::empty(),
        };
        creds.client_secret = Some(secret.to_owned());
        creds
    }

    /// The credentials of a loaded record.
    pub fn credentials_of(loaded: Option<Self>) -> (c: Option<C>)
        ensures
            c == spec_credentials_of(loaded_view(loaded)),
    {
        match loaded {
            Some(r) => r.rmcp_creds,
            None => None,
        }
    }

    /// The client secret of a loaded record.
    pub fn client_secret_of(loaded: Option<Self>) -> (s: Option<String>)
        ensures
            s.deep_view() == spec_client_secret_of(loaded_view(loaded)),
    {
        match loaded {
            Some(r) => r.client_secret,
            None => None,
        }
    }
}

/// Loading after saving credentials gives the saved credentials, and the
/// client secret that was there before.
pub proof fn lemma_load_after_save_credentials<C>(loaded: Option<RecordModel<C>>, creds: C)
    ensures
        spec_credentials_of(Some(spec_with_credentials(loaded, creds))) == Some(creds),
        spec_client_secret_of(Some(spec_with_credentials(loaded, creds)))
            == spec_client_secret_of(loaded),
{
}

/// Loading after saving a client secret gives the saved secret, and the
/// credentials that were there before.
pub proof fn lemma_load_after_save_client_secret<C>(
    loaded: Option<RecordModel<C>>,
    secret: Seq<char>,
)
    ensures
        spec_client_secret_of(Some(spec_with_client_secret(loaded, secret))) == Some(secret),
        spec_credentials_of(Some(spec_with_client_secret(loaded, secret))) == spec_credentials_of(
            loaded,
        ),
{
}

/// Saving the credentials and the client secret, in either order, gives the
/// same record.
pub proof fn lemma_saves_commute<C>(loaded: Option<RecordModel<C>>, creds: C, secret: Seq<char>)
    ensures
        spec_with_client_secret(Some(spec_with_credentials(loaded, creds)), secret)
            == spec_with_credentials(Some(spec_with_client_secret(loaded, secret)), creds),
{
}

/// Saving twice keeps only the second value.
pub proof fn lemma_save_overwrites<C>(loaded: Option<RecordModel<C>>, c1: C, c2: C)
    ensures
        spec_with_credentials(Some(spec_with_credentials(loaded, c1)), c2)
            == spec_with_credentials(loaded, c2),
{
}

/// A store with no record (after a clear) gives no credentials and no client
/// secret.
pub proof fn lemma_load_after_clear<C>()
    ensures
        spec_credentials_of::<C>(None) is None,
        spec_client_secret_of::<C>(None) is None,
{
}

} // verus!
