//! Authentication handlers: how the user is asked to authenticate, and how
//! the OAuth redirect that comes back is read.

use vstd::prelude::*;
use vstd::string::StringExecFns;

use crate::error::{ClientConnectError, ConnectErrorModel};
use crate::text::{append_decimal, decimal_text};

verus! {

/// How the user is requested to authenticate.
pub trait AuthHandler {
    /// The URL that the OAuth server will redirect to after authentication.
    /// It is passed as part of the OAuth authorization request.
    fn redirect_uri(&self) -> &str;
}

/// The parameters received in the OAuth callback URL, containing the
/// authorization code and state (CSRF token).
#[derive(Debug, Clone, PartialEq, Eq)]
pub struct AuthGrant {
    /// The authorization code to exchange for an access token.
    pub code: String,
    /// CSRF token sent by the client and now returned by the server.
    pub state: String,
}

/// An OAuth callback handler that works in a console.
///
/// It prints the authorization URL and waits for the user to paste the
/// redirect URL.
#[derive(Debug, Clone)]
pub struct ConsoleAuth {
    redirect_base_url: String,
}

/// The redirect URL that [`ConsoleAuth`] asks the OAuth server for.
pub open spec fn spec_console_redirect_url() -> Seq<char> {
    "http://localhost:7878/callback"@
}

impl ConsoleAuth {
    /// The URL that the OAuth server redirects to.
    pub closed spec fn spec_redirect_uri(&self) -> Seq<char> {
        self.redirect_base_url@
    }

    /// A console handler that asks the server to redirect to
    /// `http://localhost:7878/callback`.
    pub fn new() -> (a: ConsoleAuth)
        ensures
            a.spec_redirect_uri() == spec_console_redirect_url(),
    {
        ConsoleAuth { redirect_base_url: "http://localhost:7878/callback".to_owned() }
    }
}

impl Default for ConsoleAuth {
    fn default() -> (a: ConsoleAuth)
        ensures
            a.spec_redirect_uri() == spec_console_redirect_url(),
    {
        ConsoleAuth::new()
    }
}

impl AuthHandler for ConsoleAuth {
    fn redirect_uri(&self) -> (u: &str)
        ensures
            u@ == self.spec_redirect_uri(),
    {
        self.redirect_base_url.as_str()
    }
}

// ---------------------------------------------------------------------------
// The browser callback address
// ---------------------------------------------------------------------------

/// The callback address that the browser handler listens on, for the local
/// port it was given: the host is `localhost` rather than an IP address,
/// which the MCP server refuses.
pub open spec fn spec_browser_callback_url(port: u16) -> Seq<char> {
    "http://localhost:"@ + decimal_text(port as nat) + "/callback"@
}

/// The callback address for the local port that the browser handler's server
/// was bound to.
pub fn browser_callback_url(port: u16) -> (url: String)
    ensures
        url@ == spec_browser_callback_url(port),
{
    let mut url = "http://localhost:".to_owned();
    append_decimal(&mut url, port as u64);
    url.append("/callback");
    url
}

// ---------------------------------------------------------------------------
// Reading query pairs
// ---------------------------------------------------------------------------

/// How many pairs have key `k`.
pub open spec fn key_count(pairs: Seq<(Seq<char>, Seq<char>)>, k: Seq<char>) -> nat
    decreases pairs.len(),
{
    if pairs.len() == 0 {
        0
    } else {
        key_count(pairs.drop_last(), k) + if pairs.last().0 == k {
            1nat
        } else {
            0nat
        }
    }
}

/// The value of the last pair with key `k`, if any.
pub open spec fn last_value(pairs: Seq<(Seq<char>, Seq<char>)>, k: Seq<char>) -> Option<Seq<char>>
    decreases pairs.len(),
{
    if pairs.len() == 0 {
        None
    } else if pairs.last().0 == k {
        Some(pairs.last().1)
    } else {
        last_value(pairs.drop_last(), k)
    }
}

/// The state of reading the pairs of a redirect into an [`AuthGrant`], field
/// by field in order: the fields seen so far, or the first field seen twice.
pub enum GrantScan {
    Fields { code: Option<Seq<char>>, state: Option<Seq<char>> },
    Duplicate(Seq<char>),
}

/// Reads the pairs in order. A field seen a second time stops the reading;
/// keys other than `code` and `state` are skipped.
pub open spec fn scan_grant(pairs: Seq<(Seq<char>, Seq<char>)>) -> GrantScan
    decreases pairs.len(),
{
    if pairs.len() == 0 {
        GrantScan::Fields { code: None, state: None }
    } else {
        match scan_grant(pairs.drop_last()) {
            GrantScan::Duplicate(k) => GrantScan::Duplicate(k),
            GrantScan::Fields { code, state } => {
                let (k, v) = pairs.last();
                if k == "code"@ {
                    if code is Some {
                        GrantScan::Duplicate("code"@)
                    } else {
                        GrantScan::Fields { code: Some(v), state }
                    }
                } else if k == "state"@ {
                    if state is Some {
                        GrantScan::Duplicate("state"@)
                    } else {
                        GrantScan::Fields { code, state: Some(v) }
                    }
                } else {
                    GrantScan::Fields { code, state }
                }
            },
        }
    }
}

/// The grant (code, state) that the pairs of a redirect give, or the text of
/// the error: the first field given twice, else the first missing field.
pub open spec fn spec_grant_from_pairs(pairs: Seq<(Seq<char>, Seq<char>)>) -> Result<
    (Seq<char>, Seq<char>),
    Seq<char>,
> {
    match scan_grant(pairs) {
        GrantScan::Duplicate(k) => Err("duplicate field `"@ + k + "`"@),
        GrantScan::Fields { code, state } => match (code, state) {
            (Some(c), Some(s)) => Ok((c, s)),
            (None, _) => Err("missing field `code`"@),
            (Some(_), None) => Err("missing field `state`"@),
        },
    }
}

impl AuthGrant {
    /// Reads a grant from the decoded query pairs of a redirect URL, as a
    /// structure with the fields `code` and `state` is read from a form: the
    /// pairs are taken in order, other keys are skipped, a field given twice
    /// is refused, and a missing field is refused.
    pub fn from_form_pairs(pairs: &Vec<(String, String)>) -> (res: Result<AuthGrant, String>)
        ensures
            spec_grant_from_pairs(pairs.deep_view()) is Ok <==> res is Ok,
            res matches Ok(g) ==> spec_grant_from_pairs(pairs.deep_view()) == Ok::<
                (Seq<char>, Seq<char>),
                Seq<char>,
            >((g.code@, g.state@)),
            res matches Err(e) ==> spec_grant_from_pairs(pairs.deep_view()) == Err::<
                (Seq<char>, Seq<char>),
                Seq<char>,
            >(e@),
    {
        let code_key = "code".to_owned();
        let state_key = "state".to_owned();
        let mut code: Option<String> = None;
        let mut state: Option<String> = None;
        let n = pairs.len();
        let mut i: usize = 0;
        while i < n
            invariant
                i <= n,
                n == pairs.len(),
                code_key@ == "code"@,
                state_key@ == "state"@,
                scan_grant(pairs.deep_view().take(i as int)) == (GrantScan::Fields {
                    code: code.deep_view(),
                    state: state.deep_view(),
                }),
            decreases n - i,
        {
            let ghost prefix = pairs.deep_view().take(i as int);
            proof {
                assert(pairs.deep_view().take(i + 1).drop_last() =~= prefix);
                assert(pairs.deep_view().take(i + 1).last() == pairs.deep_view()[i as int]);
            }
            let pair = &pairs[i];
            if pair.0 == code_key {
                if code.is_some() {
                    let mut e = "duplicate field `".to_owned();
                    e.append("code");
                    e.append("`");
                    proof {
                        assert(scan_grant(pairs.deep_view().take(i + 1)) == GrantScan::Duplicate(
                            "code"@,
                        ));
                        lemma_scan_duplicate_stays(pairs.deep_view(), i as int + 1);
                        assert(pairs.deep_view().take(n as int) =~= pairs.deep_view());
                    }
                    return Err(e);
                }
                code = Some(pair.1.clone());
            } else if pair.0 == state_key {
                if state.is_some() {
                    let mut e = "duplicate field `".to_owned();
                    e.append("state");
                    e.append("`");
                    proof {
                        assert(scan_grant(pairs.deep_view().take(i + 1)) == GrantScan::Duplicate(
                            "state"@,
                        ));
                        lemma_scan_duplicate_stays(pairs.deep_view(), i as int + 1);
                        assert(pairs.deep_view().take(n as int) =~= pairs.deep_view());
                    }
                    return Err(e);
                }
                state = Some(pair.1.clone());
            }
            i = i + 1;
        }
        proof {
            assert(pairs.deep_view().take(n as int) =~= pairs.deep_view());
        }
        match (code, state) {
            (Some(c), Some(s)) => Ok(AuthGrant { code: c, state: s }),
            (None, _) => Err("missing field `code`".to_owned()),
            (Some(_), None) => Err("missing field `state`".to_owned()),
        }
    }
}

/// Once a field is seen twice, reading more pairs keeps that result.
proof fn lemma_scan_duplicate_stays(pairs: Seq<(Seq<char>, Seq<char>)>, i: int)
    requires
        0 <= i <= pairs.len(),
        scan_grant(pairs.take(i)) is Duplicate,
    ensures
        scan_grant(pairs) == scan_grant(pairs.take(i)),
    decreases pairs.len() - i,
{
    if i < pairs.len() {
        assert(pairs.take(i + 1).drop_last() =~= pairs.take(i));
        lemma_scan_duplicate_stays(pairs, i + 1);
    } else {
        assert(pairs.take(i) =~= pairs);
    }
}

proof fn lemma_scan_counts(pairs: Seq<(Seq<char>, Seq<char>)>)
    ensures
        scan_grant(pairs) is Fields <==> (key_count(pairs, "code"@) <= 1 && key_count(
            pairs,
            "state"@,
        ) <= 1),
        scan_grant(pairs) matches GrantScan::Fields { code, state } ==> {
            &&& code == last_value(pairs, "code"@)
            &&& state == last_value(pairs, "state"@)
            &&& (code is Some <==> key_count(pairs, "code"@) == 1)
            &&& (state is Some <==> key_count(pairs, "state"@) == 1)
        },
        scan_grant(pairs) is Duplicate ==> (key_count(pairs, "code"@) >= 2 || key_count(
            pairs,
            "state"@,
        ) >= 2),
    decreases pairs.len(),
{
    reveal_strlit("code");
    reveal_strlit("state");
    assert("code"@ != "state"@) by {
        assert("code"@[0] != "state"@[0]);
    }
    if pairs.len() > 0 {
        lemma_scan_counts(pairs.drop_last());
        lemma_key_count_monotone(pairs, "code"@);
        lemma_key_count_monotone(pairs, "state"@);
    }
}

proof fn lemma_key_count_monotone(pairs: Seq<(Seq<char>, Seq<char>)>, k: Seq<char>)
    requires
        pairs.len() > 0,
    ensures
        key_count(pairs, k) >= key_count(pairs.drop_last(), k),
        key_count(pairs.drop_last(), k) == 0 ==> last_value(pairs.drop_last(), k) is None,
{
    lemma_key_count_zero(pairs.drop_last(), k);
}

proof fn lemma_key_count_zero(pairs: Seq<(Seq<char>, Seq<char>)>, k: Seq<char>)
    ensures
        key_count(pairs, k) == 0 <==> last_value(pairs, k) is None,
    decreases pairs.len(),
{
    if pairs.len() > 0 {
        lemma_key_count_zero(pairs.drop_last(), k);
    }
}

// ---------------------------------------------------------------------------
// Reading a redirect URL
// ---------------------------------------------------------------------------

/// What `reqwest::Url::parse` (the `url` crate) gives for `url`: the URL's
/// query, if it has one, or the text of the parse error when the URL is
/// refused.
pub uninterp spec fn url_query_of(url: Seq<char>) -> Result<Option<Seq<char>>, Seq<char>>;

/// What `serde_urlencoded::from_str::<Vec<(String, String)>>` gives for a
/// query: the decoded key-value pairs in order, or the text of the error when
/// the query is refused.
pub uninterp spec fn form_pairs_of(query: Seq<char>) -> Result<
    Seq<(Seq<char>, Seq<char>)>,
    Seq<char>,
>;

/// The query of a URL, by `reqwest::Url::parse` and `Url::query`.
///
/// Claims: the query, and the text of the parse error, are those named
/// `url_query_of`.
#[verifier::external_body]
fn parse_url_query(url: &str) -> (res: Result<Option<String>, String>)
    ensures
        match url_query_of(url@) {
            Ok(q) => res matches Ok(r) && r.deep_view() == q,
            Err(t) => res matches Err(e) && e@ == t,
        },
{
    match reqwest::Url::parse(url) {
        Ok(u) => Ok(u.query().map(String::from)),
        Err(e) => Err(e.to_string()),
    }
}

/// The decoded pairs of a URL-encoded form, by
/// `serde_urlencoded::from_str::<Vec<(String, String)>>`.
///
/// Claims: the pairs, and the text of the error, are those named
/// `form_pairs_of`.
#[verifier::external_body]
fn decode_form_pairs(query: &str) -> (res: Result<Vec<(String, String)>, String>)
    ensures
        match form_pairs_of(query@) {
            Ok(p) => res matches Ok(r) && r.deep_view() == p,
            Err(t) => res matches Err(e) && e@ == t,
        },
{
    match serde_urlencoded::from_str::<Vec<(String, String)>>(query) {
        Ok(p) => Ok(p),
        Err(e) => Err(e.to_string()),
    }
}

/// The grant read from the query of a redirect URL (an empty query when there
/// is none), or the text of the error: the decoding error, or the error of the
/// pairs.
pub open spec fn spec_grant_from_query(query: Option<Seq<char>>) -> Result<
    (Seq<char>, Seq<char>),
    Seq<char>,
> {
    let q = match query {
        Some(q) => q,
        None => ""@,
    };
    match form_pairs_of(q) {
        Err(t) => Err(t),
        Ok(p) => spec_grant_from_pairs(p),
    }
}

/// The start of the error message for a redirect URL whose query cannot be
/// read into a grant.
pub open spec fn query_error_prefix(url: Seq<char>) -> Seq<char> {
    "Failed to parse query parameters from redirect URL '"@ + url + "': "@
}

/// The start of the error message for a redirect URL that is refused.
pub open spec fn url_error_prefix(url: Seq<char>) -> Seq<char> {
    "Invalid redirect URL '"@ + url + "': "@
}

/// The abstract value of the result of reading a grant.
pub open spec fn grant_result_view(r: Result<AuthGrant, ClientConnectError>) -> Result<
    (Seq<char>, Seq<char>),
    ConnectErrorModel,
> {
    match r {
        Ok(g) => Ok((g.code@, g.state@)),
        Err(e) => Err(e@),
    }
}

/// The grant read from the query of the redirect URL `url`, or the
/// authentication error whose message names the URL and whose source is the
/// error text.
pub open spec fn spec_grant_from_url_query(url: Seq<char>, query: Option<Seq<char>>) -> Result<
    (Seq<char>, Seq<char>),
    ConnectErrorModel,
> {
    match spec_grant_from_query(query) {
        Ok(g) => Ok(g),
        Err(t) => Err(ConnectErrorModel::Auth { msg: query_error_prefix(url) + t, source: Some(t) }),
    }
}

/// The grant read from a pasted redirect URL: a refused URL gives an
/// authentication error without a source, else the query is read.
pub open spec fn spec_grant_from_redirect_url(url: Seq<char>) -> Result<
    (Seq<char>, Seq<char>),
    ConnectErrorModel,
> {
    match url_query_of(url) {
        Err(t) => Err(ConnectErrorModel::Auth { msg: url_error_prefix(url) + t, source: None }),
        Ok(q) => spec_grant_from_url_query(url, q),
    }
}

/// Reads the grant from the query of the redirect URL `redirect_url` (an
/// empty query when there is none). A query that cannot be decoded, or whose
/// pairs do not make a grant, is refused with an authentication error whose
/// source is the error text.
pub fn grant_from_url_query(redirect_url: &str, query: Option<&str>) -> (res: Result<
    AuthGrant,
    ClientConnectError,
>)
    ensures
        grant_result_view(res) == spec_grant_from_url_query(redirect_url@, query.deep_view()),
{
    let q = match query {
        Some(q) => q,
        None => "",
    };
    let decoded = decode_form_pairs(q);
    let err = match decoded {
        Ok(pairs) => match AuthGrant::from_form_pairs(&pairs) {
            Ok(g) => {
                return Ok(g);
            },
            Err(e) => e,
        },
        Err(e) => e,
    };
    let mut msg = "Failed to parse query parameters from redirect URL '".to_owned();
    msg.append(redirect_url);
    msg.append("': ");
    msg.append(err.as_str());
    Err(ClientConnectError::AuthError { msg, source: Some(err) })
}

impl ConsoleAuth {
    /// Reads the grant from the redirect URL that the user pasted: the URL is
    /// parsed, and its query decoded into the `code` and `state` fields. A
    /// URL that is refused gives an authentication error without a source; a
    /// query that cannot be read gives the error of
    /// [`grant_from_url_query`].
    pub fn grant_from_redirect_url(redirect_url: &str) -> (res: Result<
        AuthGrant,
        ClientConnectError,
    >)
        ensures
            grant_result_view(res) == spec_grant_from_redirect_url(redirect_url@),
    {
        match parse_url_query(redirect_url) {
            Ok(query) => {
                let q = match &query {
                    Some(q) => Some(q.as_str()),
                    None => None,
                };
                grant_from_url_query(redirect_url, q)
            },
            Err(e) => {
                let mut msg = "Invalid redirect URL '".to_owned();
                msg.append(redirect_url);
                msg.append("': ");
                msg.append(e.as_str());
                Err(ClientConnectError::AuthError { msg, source: None })
            },
        }
    }
}

/// A redirect's pairs give a grant exactly when `code` and `state` each occur
/// once, and the grant holds their values.
pub proof fn lemma_grant_accepts_single_fields(pairs: Seq<(Seq<char>, Seq<char>)>)
    ensures
        spec_grant_from_pairs(pairs) is Ok <==> (key_count(pairs, "code"@) == 1 && key_count(
            pairs,
            "state"@,
        ) == 1),
        spec_grant_from_pairs(pairs) is Ok ==> spec_grant_from_pairs(pairs) == Ok::<
            (Seq<char>, Seq<char>),
            Seq<char>,
        >((last_value(pairs, "code"@)->0, last_value(pairs, "state"@)->0)),
{
    lemma_scan_counts(pairs);
}

} // verus!
