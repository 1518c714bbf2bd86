//! OAuth callback handlers that read the authorization code and state from
//! the query of the redirect URL.

use vstd::prelude::*;
use vstd::string::StringExecFns;

use crate::auth_handler::{
    key_count, last_value, lemma_grant_accepts_single_fields, spec_grant_from_pairs,
    url_error_prefix,
};
use crate::error::{ClientConnectError, ConnectErrorModel};

verus! {

/// A handler that waits for the OAuth callback.
pub trait AuthCallbackHandler {
    /// The address that the OAuth server redirects to.
    fn get_listen_addr(&self) -> &str;
}

/// The parameters received in the OAuth callback URL.
#[derive(Debug, Clone, PartialEq, Eq)]
pub struct AuthCallback {
    pub code: String,
    pub state: String,
}

/// A callback handler that works in a console: it prints the authorization
/// URL and reads the redirect URL that the user pastes.
#[derive(Debug, Clone)]
pub struct ConsoleAuthHandler {
    redirect_uri: String,
}

impl ConsoleAuthHandler {
    /// The address that the OAuth server redirects to.
    pub closed spec fn spec_listen_addr(&self) -> Seq<char> {
        self.redirect_uri@
    }

    /// A console handler that asks the server to redirect to
    /// `http://localhost:7878/callback`.
    pub fn new() -> (h: ConsoleAuthHandler)
        ensures
            h.spec_listen_addr() == "http://localhost:7878/callback"@,
    {
        ConsoleAuthHandler { redirect_uri: "http://localhost:7878/callback".to_owned() }
    }
}

impl AuthCallbackHandler for ConsoleAuthHandler {
    fn get_listen_addr(&self) -> (a: &str)
        ensures
            a@ == self.spec_listen_addr(),
    {
        self.redirect_uri.as_str()
    }
}

/// The callback (code, state) that the query pairs give: the last value of
/// each key counts; a missing `code` or `state` is refused with its message.
pub open spec fn spec_callback_from_pairs(pairs: Seq<(Seq<char>, Seq<char>)>) -> Result<
    (Seq<char>, Seq<char>),
    Seq<char>,
> {
    match (last_value(pairs, "code"@), last_value(pairs, "state"@)) {
        (Some(c), Some(s)) => Ok((c, s)),
        (None, _) => Err("Missing 'code' parameter in redirect URL"@),
        (Some(_), None) => Err("Missing 'state' parameter in redirect URL"@),
    }
}

/// Reads the callback from the query pairs of the redirect URL: the last
/// `code` and the last `state` are taken, other keys are skipped. A missing
/// key gives an authentication error without a source.
pub fn callback_from_query_pairs(pairs: &Vec<(String, String)>) -> (res: Result<
    AuthCallback,
    ClientConnectError,
>)
    ensures
        spec_callback_from_pairs(pairs.deep_view()) is Ok <==> res is Ok,
        res matches Ok(cb) ==> spec_callback_from_pairs(pairs.deep_view()) == Ok::<
            (Seq<char>, Seq<char>),
            Seq<char>,
        >((cb.code@, cb.state@)),
        res matches Err(e) ==> (e matches ClientConnectError::AuthError { msg, source: None }
            && spec_callback_from_pairs(pairs.deep_view()) == Err::<
            (Seq<char>, Seq<char>),
            Seq<char>,
        >(msg@)),
{
    let code_key = "code".to_owned();
    let state_key = "state".to_owned();
    let mut code: Option<String> = None;
    let mut state: Option<String> = None;
    let n = pairs.len();
    let mut i: usize = 0;
    while i < n
        invariant
            i <= n,
            n == pairs.len(),
            code_key@ == "code"@,
            state_key@ == "state"@,
            code.deep_view() == last_value(pairs.deep_view().take(i as int), "code"@),
            state.deep_view() == last_value(pairs.deep_view().take(i as int), "state"@),
        decreases n - i,
    {
        proof {
            assert(pairs.deep_view().take(i + 1).drop_last() =~= pairs.deep_view().take(i as int));
            assert(pairs.deep_view().take(i + 1).last() == pairs.deep_view()[i as int]);
        }
        let pair = &pairs[i];
        if pair.0 == code_key {
            code = Some(pair.1.clone());
        } else if pair.0 == state_key {
            state = Some(pair.1.clone());
        }
        proof {
            reveal_strlit("code");
            reveal_strlit("state");
            assert("code"@ != "state"@) by {
                assert("code"@[0] != "state"@[0]);
            }
        }
        i = i + 1;
    }
    proof {
        assert(pairs.deep_view().take(n as int) =~= pairs.deep_view());
    }
    match (code, state) {
        (Some(c), Some(s)) => Ok(AuthCallback { code: c, state: s }),
        (None, _) => Err(
            ClientConnectError::AuthError {
                msg: "Missing 'code' parameter in redirect URL".to_owned(),
                source: None,
            },
        ),
        (Some(_), None) => Err(
            ClientConnectError::AuthError {
                msg: "Missing 'state' parameter in redirect URL".to_owned(),
                source: None,
            },
        ),
    }
}

/// What `reqwest::Url::parse` followed by `Url::query_pairs` gives for `url`:
/// the decoded query pairs in order, or the text of the parse error when the
/// URL is refused.
pub uninterp spec fn url_query_pairs_of(url: Seq<char>) -> Result<
    Seq<(Seq<char>, Seq<char>)>,
    Seq<char>,
>;

/// The decoded query pairs of a URL, by `reqwest::Url::parse` and
/// `Url::query_pairs`.
///
/// Claims: the pairs, and the text of the parse error, are those named
/// `url_query_pairs_of`.
#[verifier::external_body]
fn parse_url_query_pairs(url: &str) -> (res: Result<Vec<(String, String)>, String>)
    ensures
        match url_query_pairs_of(url@) {
            Ok(p) => res matches Ok(r) && r.deep_view() == p,
            Err(t) => res matches Err(e) && e@ == t,
        },
{
    match reqwest::Url::parse(url) {
        Ok(u) => Ok(u.query_pairs().map(|(k, v)| (k.into_owned(), v.into_owned())).collect()),
        Err(e) => Err(e.to_string()),
    }
}

/// The abstract value of the result of reading a callback.
pub open spec fn callback_result_view(r: Result<AuthCallback, ClientConnectError>) -> Result<
    (Seq<char>, Seq<char>),
    ConnectErrorModel,
> {
    match r {
        Ok(c) => Ok((c.code@, c.state@)),
        Err(e) => Err(e@),
    }
}

/// The callback read from a pasted redirect URL: a refused URL, or a missing
/// key, gives an authentication error without a source.
pub open spec fn spec_callback_from_redirect_url(url: Seq<char>) -> Result<
    (Seq<char>, Seq<char>),
    ConnectErrorModel,
> {
    match url_query_pairs_of(url) {
        Err(t) => Err(ConnectErrorModel::Auth { msg: url_error_prefix(url) + t, source: None }),
        Ok(p) => match spec_callback_from_pairs(p) {
            Ok(c) => Ok(c),
            Err(m) => Err(ConnectErrorModel::Auth { msg: m, source: None }),
        },
    }
}

impl ConsoleAuthHandler {
    /// Reads the callback from the redirect URL that the user pasted. A URL
    /// that is refused gives an authentication error without a source, as
    /// does a query without `code` or `state`.
    pub fn callback_from_redirect_url(redirect_url: &str) -> (res: Result<
        AuthCallback,
        ClientConnectError,
    >)
        ensures
            callback_result_view(res) == spec_callback_from_redirect_url(redirect_url@),
    {
        match parse_url_query_pairs(redirect_url) {
            Ok(pairs) => callback_from_query_pairs(&pairs),
            Err(e) => {
                let mut msg = "Invalid redirect URL '".to_owned();
                msg.append(redirect_url);
                msg.append("': ");
                msg.append(e.as_str());
                Err(ClientConnectError::AuthError { msg, source: None })
            },
        }
    }
}

proof fn lemma_count_positive_has_value(pairs: Seq<(Seq<char>, Seq<char>)>, k: Seq<char>)
    ensures
        key_count(pairs, k) >= 1 <==> last_value(pairs, k) is Some,
    decreases pairs.len(),
{
    if pairs.len() > 0 {
        lemma_count_positive_has_value(pairs.drop_last(), k);
    }
}

/// The console callback reader accepts every query that the grant reader
/// accepts, with the same code and state: it takes the last value of each
/// key, while the grant reader asks that each key occurs once.
pub proof fn lemma_callback_accepts_what_grant_accepts(pairs: Seq<(Seq<char>, Seq<char>)>)
    requires
        spec_grant_from_pairs(pairs) is Ok,
    ensures
        spec_callback_from_pairs(pairs) == spec_grant_from_pairs(pairs),
{
    lemma_grant_accepts_single_fields(pairs);
    lemma_count_positive_has_value(pairs, "code"@);
    lemma_count_positive_has_value(pairs, "state"@);
}

/// The callback reader accepts a query exactly when both `code` and `state`
/// occur in it.
pub proof fn lemma_callback_accepts_present_keys(pairs: Seq<(Seq<char>, Seq<char>)>)
    ensures
        spec_callback_from_pairs(pairs) is Ok <==> (key_count(pairs, "code"@) >= 1 && key_count(
            pairs,
            "state"@,
        ) >= 1),
{
    lemma_count_positive_has_value(pairs, "code"@);
    lemma_count_positive_has_value(pairs, "state"@);
}

} // verus!
