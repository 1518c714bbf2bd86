//! The Montrose MCP client: its states and the decisions of building and
//! connecting it.

pub mod connection;
pub mod introspect;
pub mod tmr_connection;
pub mod tools;

use vstd::prelude::*;

use crate::error::ClientBuildError;

verus! {

/// Seals [`State`]: only the states of this crate implement it.
pub trait Sealed {}

/// The connection state of a client.
pub trait State: Sealed {}

/// The state of a client that is not connected.
#[derive(Debug, Clone, Copy)]
pub struct Disconnected;

impl Sealed for Disconnected {}

impl State for Disconnected {}

/// The user identifier of the default credential storage.
pub open spec fn spec_default_cred_user() -> Seq<char> {
    "user"@
}

/// The credential store a client is built with.
#[derive(Debug, Clone)]
pub enum CredStoreSelection<C> {
    /// The credential store that the user provided.
    Custom(C),
    /// The default credential store, for this user identifier.
    Default { user: String },
}

/// What a client is built from, once the builder's options are checked.
#[derive(Debug, Clone)]
pub struct ClientParts<A, C> {
    pub client_name: String,
    /// The authentication handler; `None` means the default one.
    pub auth_handler: Option<A>,
    pub cred_store: CredStoreSelection<C>,
}

/// The builder of a Montrose MCP client.
///
/// `A` is the type of the authentication handler and `C` that of the
/// credential store.
#[derive(Debug, Clone)]
pub struct TmrClientBuilder<A, C> {
    client_name: String,
    auth_handler: Option<A>,
    cred_user: Option<String>,
    cred_store: Option<C>,
}

impl<A, C> TmrClientBuilder<A, C> {
    /// The name that identifies the client towards the MCP service.
    pub closed spec fn spec_client_name(&self) -> Seq<char> {
        self.client_name@
    }

    /// The authentication handler that was set, if any.
    pub closed spec fn spec_auth_handler(&self) -> Option<A> {
        self.auth_handler
    }

    /// The credential user that was set, if any.
    pub closed spec fn spec_cred_user(&self) -> Option<Seq<char>> {
        self.cred_user.deep_view()
    }

    /// The credential store that was set, if any.
    pub closed spec fn spec_cred_store(&self) -> Option<C> {
        self.cred_store
    }

    /// Creates a new builder. `client_name` is used to identify the client
    /// towards the MCP service.
    pub fn new(client_name: String) -> (b: Self)
        ensures
            b.spec_client_name() == client_name@,
            b.spec_auth_handler() is None,
            b.spec_cred_user() is None,
            b.spec_cred_store() is None,
    {
        TmrClientBuilder { client_name, auth_handler: None, cred_user: None, cred_store: None }
    }

    /// Overrides how the user is requested to authenticate.
    pub fn auth_handler(self, handler: A) -> (b: Self)
        ensures
            b.spec_client_name() == self.spec_client_name(),
            b.spec_auth_handler() == Some(handler),
            b.spec_cred_user() == self.spec_cred_user(),
            b.spec_cred_store() == self.spec_cred_store(),
    {
        TmrClientBuilder { auth_handler: Some(handler), ..self }
    }

    /// Sets the user identifier used for the default credential storage.
    pub fn cred_user(self, user: String) -> (b: Self)
        ensures
            b.spec_client_name() == self.spec_client_name(),
            b.spec_auth_handler() == self.spec_auth_handler(),
            b.spec_cred_user() == Some(user@),
            b.spec_cred_store() == self.spec_cred_store(),
    {
        TmrClientBuilder { cred_user: Some(user), ..self }
    }

    /// Overrides the credential store used to store the user's OAuth
    /// credentials.
    pub fn cred_store(self, cred_store: C) -> (b: Self)
        ensures
            b.spec_client_name() == self.spec_client_name(),
            b.spec_auth_handler() == self.spec_auth_handler(),
            b.spec_cred_user() == self.spec_cred_user(),
            b.spec_cred_store() == Some(cred_store),
    {
        TmrClientBuilder { cred_store: Some(cred_store), ..self }
    }

    /// Whether an authentication handler was set.
    pub fn has_auth_handler(&self) -> (b: bool)
        ensures
            b == self.spec_auth_handler() is Some,
    {
        self.auth_handler.is_some()
    }

    /// Checks the builder's options: a custom credential store cannot be given
    /// together with a credential user. Without a custom store, the default
    /// store is used for the credential user, or for `user` when none was
    /// given.
    pub fn into_parts(self) -> (res: Result<ClientParts<A, C>, ClientBuildError>)
        ensures
            (self.spec_cred_store() is Some && self.spec_cred_user() is Some) <==> res is Err,
            res matches Err(e) ==> e.msg@
                == "Cannot specify both a custom credential store and a credential user"@
                && e.source is None,
            res matches Ok(p) ==> {
                &&& p.client_name@ == self.spec_client_name()
                &&& p.auth_handler == self.spec_auth_handler()
                &&& match self.spec_cred_store() {
                    Some(c) => p.cred_store == CredStoreSelection::Custom(c),
                    None => p.cred_store matches CredStoreSelection::Default { user } && user@
                        == match self.spec_cred_user() {
                        Some(u) => u,
                        None => spec_default_cred_user(),
                    },
                }
            },
    {
        let TmrClientBuilder { client_name, auth_handler, cred_user, cred_store } = self;
        let cred_store = match cred_store {
            Some(store) => {
                if cred_user.is_some() {
                    return Err(
                        ClientBuildError {
                            msg: "Cannot specify both a custom credential store and a credential user".to_owned(),
                            source: None,
                        },
                    );
                }
                CredStoreSelection::Custom(store)
            },
            None => {
                let user = match cred_user {
                    Some(u) => u,
                    None => "user".to_owned(),
                };
                CredStoreSelection::Default { user }
            },
        };
        Ok(ClientParts { client_name, auth_handler, cred_store })
    }
}

} // verus!
