//! Errors of the library.

use vstd::prelude::*;
use vstd::string::StringExecFns;

verus! {

/// Errors that occur when doing calls to the MCP API.
#[derive(Debug, Clone)]
pub enum ClientCallError {
    /// Problems when communicating with the MCP server (the text describes the
    /// service error).
    CommunicationError(String),
    /// The MCP service returned an error response.
    McpError(String),
    /// Failure to parse the response from the MCP service. `source` describes
    /// the underlying error, if there is one.
    ParseError { msg: String, source: Option<String> },
    /// The arguments provided to the tool function are invalid.
    InvalidArguments(String),
}

impl ClientCallError {
    /// A parse error with the given message and no underlying source.
    pub fn parse_err(msg: &str) -> (e: ClientCallError)
        ensures
            e matches ClientCallError::ParseError { msg: m, source: None } && m@ == msg@,
    {
        ClientCallError::ParseError { msg: msg.to_owned(), source: None }
    }

    /// The text that describes the error.
    pub open spec fn spec_text(&self) -> Seq<char> {
        match self {
            ClientCallError::CommunicationError(_) => "MCP service communication error"@,
            ClientCallError::McpError(m) => "Error response from MCP service: "@ + m@,
            ClientCallError::ParseError { msg, .. } => "Failed to parse response: "@ + msg@,
            ClientCallError::InvalidArguments(_) => "Invalid arguments"@,
        }
    }

    /// The text that describes the error.
    pub fn to_string(&self) -> (t: String)
        ensures
            t@ == self.spec_text(),
    {
        match self {
            ClientCallError::CommunicationError(_) => "MCP service communication error".to_owned(),
            ClientCallError::McpError(m) => prefixed("Error response from MCP service: ", m),
            ClientCallError::ParseError { msg, .. } => prefixed("Failed to parse response: ", msg),
            ClientCallError::InvalidArguments(_) => "Invalid arguments".to_owned(),
        }
    }
}

fn prefixed(prefix: &str, rest: &String) -> (t: String)
    ensures
        t@ == prefix@ + rest@,
{
    let mut t = prefix.to_owned();
    t.append(rest.as_str());
    t
}

/// Errors that occur when connecting the client.
#[derive(Debug, Clone)]
pub enum ClientConnectError {
    /// A step of the authentication process failed.
    AuthError { msg: String, source: Option<String> },
    /// Failed to set up a connection to the MCP service.
    ConnectionError { msg: String, source: Option<String> },
}

impl ClientConnectError {
    /// The text that describes the error.
    pub open spec fn spec_text(&self) -> Seq<char> {
        match self {
            ClientConnectError::AuthError { msg, .. } => "Authentication failed: "@ + msg@,
            ClientConnectError::ConnectionError { msg, .. } => "Connection failed: "@ + msg@,
        }
    }

    /// The text that describes the error.
    pub fn to_string(&self) -> (t: String)
        ensures
            t@ == self.spec_text(),
    {
        match self {
            ClientConnectError::AuthError { msg, .. } => prefixed("Authentication failed: ", msg),
            ClientConnectError::ConnectionError { msg, .. } => prefixed("Connection failed: ", msg),
        }
    }
}

/// The abstract value of a connection error.
pub enum ConnectErrorModel {
    Auth { msg: Seq<char>, source: Option<Seq<char>> },
    Connection { msg: Seq<char>, source: Option<Seq<char>> },
}

impl View for ClientConnectError {
    type V = ConnectErrorModel;

    open spec fn view(&self) -> ConnectErrorModel {
        match self {
            ClientConnectError::AuthError { msg, source } => ConnectErrorModel::Auth {
                msg: msg@,
                source: source.deep_view(),
            },
            ClientConnectError::ConnectionError { msg, source } => ConnectErrorModel::Connection {
                msg: msg@,
                source: source.deep_view(),
            },
        }
    }
}

/// An error occured when building the client.
#[derive(Debug, Clone)]
pub struct ClientBuildError {
    pub msg: String,
    pub source: Option<String>,
}

impl ClientBuildError {
    /// The text that describes the error.
    pub open spec fn spec_text(&self) -> Seq<char> {
        "Failed to build client: "@ + self.msg@
    }

    /// The text that describes the error.
    pub fn to_string(&self) -> (t: String)
        ensures
            t@ == self.spec_text(),
    {
        prefixed("Failed to build client: ", &self.msg)
    }
}

/// The error of a credential store operation: an internal error with a
/// description.
#[derive(Debug, Clone)]
pub struct CredStoreError {
    pub msg: String,
}

/// Maps the error of a credential store operation to an authentication error
/// carrying `msg`, keeping the store's description as the source.
pub fn to_connect_auth_err<T>(res: Result<T, CredStoreError>, msg: &str) -> (out: Result<
    T,
    ClientConnectError,
>)
    ensures
        res matches Ok(v) ==> out == Ok::<T, ClientConnectError>(v),
        res matches Err(e) ==> (out matches Err(ClientConnectError::AuthError { msg: m, source: Some(s) })
            && m@ == msg@ && s@ == e.msg@),
{
    match res {
        Ok(v) => Ok(v),
        Err(e) => Err(ClientConnectError::AuthError { msg: msg.to_owned(), source: Some(e.msg) }),
    }
}

} // verus!
