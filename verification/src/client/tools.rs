//! The Montrose API calls: the MCP tool requests that the API methods send,
//! and the checks of the responses that come back.
//!
//! Each API method maps directly to a Montrose MCP tool of the same name. The
//! driver sends the request and decodes the checked response text into the
//! API types.

use vstd::arithmetic::power::pow;
use vstd::prelude::*;
use vstd::string::StringExecFns;

use crate::error::ClientCallError;
use crate::text::hex_digit;
use crate::types::{
    decimal_text_of, spec_decimal_text, spec_serialized_code, HoldingsSelector, Instrument,
    TradeCurrency, TradeSide, TradeTicketArgs, TradeVolume,
};

verus! {

/// A JSON value passed as a tool argument.
#[derive(Debug, Clone)]
pub enum ToolArg {
    Null,
    Text(String),
    Number(u64),
    Numbers(Vec<u64>),
}

/// A request to call an MCP tool, with its arguments as a JSON object (its
/// members in order).
#[derive(Debug, Clone)]
pub struct ToolCall {
    pub tool: String,
    pub arguments: Option<Vec<(String, ToolArg)>>,
}

/// The abstract value of a tool argument.
pub enum ArgModel {
    Null,
    Text(Seq<char>),
    Number(u64),
    Numbers(Seq<u64>),
}

impl View for ToolArg {
    type V = ArgModel;

    open spec fn view(&self) -> ArgModel {
        match self {
            ToolArg::Null => ArgModel::Null,
            ToolArg::Text(t) => ArgModel::Text(t@),
            ToolArg::Number(n) => ArgModel::Number(*n),
            ToolArg::Numbers(v) => ArgModel::Numbers(v@),
        }
    }
}

/// The abstract value of a list of arguments.
pub open spec fn args_view(a: Seq<(String, ToolArg)>) -> Seq<(Seq<char>, ArgModel)> {
    a.map_values(|p: (String, ToolArg)| (p.0@, p.1@))
}

/// The abstract value of a tool request.
pub struct CallModel {
    pub tool: Seq<char>,
    pub arguments: Option<Seq<(Seq<char>, ArgModel)>>,
}

impl View for ToolCall {
    type V = CallModel;

    open spec fn view(&self) -> CallModel {
        CallModel {
            tool: self.tool@,
            arguments: match &self.arguments {
                Some(a) => Some(args_view(a@)),
                None => None,
            },
        }
    }
}

/// The `d`-th hexadecimal digit of `v`, counted from the most significant of
/// its 32 digits.
pub open spec fn uuid_nibble(v: u128, d: int) -> int {
    ((v as int) / pow(16, (31 - d) as nat)) % 16
}

/// The hyphenated lowercase text of the UUID with value `v`: its 32 hex
/// digits, most significant first, in groups of 8, 4, 4, 4 and 12 joined by
/// hyphens (as in `67e55044-10b1-426f-9247-bb680e5fe0c8`).
pub open spec fn spec_uuid_text(v: u128) -> Seq<char> {
    Seq::new(
        36,
        |p: int|
            if p == 8 || p == 13 || p == 18 || p == 23 {
                '-'
            } else {
                let d = if p < 8 {
                    p
                } else if p < 13 {
                    p - 1
                } else if p < 18 {
                    p - 2
                } else if p < 23 {
                    p - 3
                } else {
                    p - 4
                };
                hex_digit(uuid_nibble(v, d))
            },
    )
}

/// The text of a UUID, by `uuid::Uuid::from_u128` and its `Display`.
///
/// Claims: the text is the hyphenated lowercase form, as the `uuid` crate
/// documents for `Display`.
#[verifier::external_body]
fn uuid_text(v: u128) -> (s: String)
    ensures
        s@ == spec_uuid_text(v),
{
    uuid::Uuid::from_u128(v).to_string()
}

fn arg_pair(key: &str, value: ToolArg) -> (p: (String, ToolArg))
    ensures
        p.0@ == key@,
        p.1 == value,
{
    (key.to_owned(), value)
}

fn call_with(tool: &str, arguments: Option<Vec<(String, ToolArg)>>) -> (c: ToolCall)
    ensures
        c.tool@ == tool@,
        c.arguments == arguments,
{
    ToolCall { tool: tool.to_owned(), arguments }
}

/// The request of `get_holdings`: the account ID as text, or `null` for all
/// accounts.
pub fn holdings_call(selection: HoldingsSelector) -> (c: ToolCall)
    ensures
        c@.tool == "get_holdings"@,
        c@.arguments == Some(
            seq![
                ("accountId"@, match selection {
                    HoldingsSelector::AccountId(id) => ArgModel::Text(spec_uuid_text(id)),
                    HoldingsSelector::All => ArgModel::Null,
                }),
            ],
        ),
{
    let value = match selection {
        HoldingsSelector::AccountId(id) => ToolArg::Text(uuid_text(id)),
        HoldingsSelector::All => ToolArg::Null,
    };
    let mut args = Vec::new();
    args.push(arg_pair("accountId", value));
    let c = call_with("get_holdings", Some(args));
    proof {
        assert(c@.arguments->0 =~= seq![("accountId"@, value@)]);
    }
    c
}

/// The request of `get_user_accounts`: no arguments.
pub fn user_accounts_call() -> (c: ToolCall)
    ensures
        c@.tool == "get_user_accounts"@,
        c@.arguments is None,
{
    call_with("get_user_accounts", None)
}

/// The request of `search_instruments`: the query text.
pub fn search_instruments_call(query: &str) -> (c: ToolCall)
    ensures
        c@.tool == "search_instruments"@,
        c@.arguments == Some(seq![("query"@, ArgModel::Text(query@))]),
{
    let mut args = Vec::new();
    args.push(arg_pair("query", ToolArg::Text(query.to_owned())));
    let c = call_with("search_instruments", Some(args));
    proof {
        assert(c@.arguments->0 =~= seq![("query"@, ArgModel::Text(query@))]);
    }
    c
}

/// The request of `get_watchlists`: no arguments.
pub fn watchlists_call() -> (c: ToolCall)
    ensures
        c@.tool == "get_watchlists"@,
        c@.arguments is None,
{
    call_with("get_watchlists", None)
}

/// The request of `get_watchlist`: the list ID.
pub fn watchlist_call(list_id: u64) -> (c: ToolCall)
    ensures
        c@.tool == "get_watchlist"@,
        c@.arguments == Some(seq![("listId"@, ArgModel::Number(list_id))]),
{
    let mut args = Vec::new();
    args.push(arg_pair("listId", ToolArg::Number(list_id)));
    let c = call_with("get_watchlist", Some(args));
    proof {
        assert(c@.arguments->0 =~= seq![("listId"@, ArgModel::Number(list_id))]);
    }
    c
}

/// The request of `create_watchlist`: the name of the watchlist.
pub fn create_watchlist_call(name: &str) -> (c: ToolCall)
    ensures
        c@.tool == "create_watchlist"@,
        c@.arguments == Some(seq![("name"@, ArgModel::Text(name@))]),
{
    let mut args = Vec::new();
    args.push(arg_pair("name", ToolArg::Text(name.to_owned())));
    let c = call_with("create_watchlist", Some(args));
    proof {
        assert(c@.arguments->0 =~= seq![("name"@, ArgModel::Text(name@))]);
    }
    c
}

fn copy_ids(ids: &[u64]) -> (v: Vec<u64>)
    ensures
        v@ == ids@,
{
    let mut v = Vec::new();
    let mut i: usize = 0;
    while i < ids.len()
        invariant
            i <= ids@.len(),
            v@ == ids@.take(i as int),
        decreases ids@.len() - i,
    {
        v.push(ids[i]);
        proof {
            assert(ids@.take(i + 1) =~= ids@.take(i as int).push(ids@[i as int]));
        }
        i = i + 1;
    }
    proof {
        assert(ids@.take(i as int) =~= ids@);
    }
    v
}

fn watchlist_change_call(tool: &str, list_id: u64, orderbook_ids: &[u64]) -> (c: ToolCall)
    ensures
        c@.tool == tool@,
        c@.arguments == Some(
            seq![
                ("listId"@, ArgModel::Number(list_id)),
                ("orderbookIds"@, ArgModel::Numbers(orderbook_ids@)),
            ],
        ),
{
    let mut args = Vec::new();
    args.push(arg_pair("listId", ToolArg::Number(list_id)));
    args.push(arg_pair("orderbookIds", ToolArg::Numbers(copy_ids(orderbook_ids))));
    let c = call_with(tool, Some(args));
    proof {
        assert(c@.arguments->0 =~= seq![
            ("listId"@, ArgModel::Number(list_id)),
            ("orderbookIds"@, ArgModel::Numbers(orderbook_ids@)),
        ]);
    }
    c
}

/// The request of `add_to_watchlist`: the list ID and the orderbook IDs to
/// add.
pub fn add_to_watchlist_call(list_id: u64, orderbook_ids: &[u64]) -> (c: ToolCall)
    ensures
        c@.tool == "add_to_watchlist"@,
        c@.arguments == Some(
            seq![
                ("listId"@, ArgModel::Number(list_id)),
                ("orderbookIds"@, ArgModel::Numbers(orderbook_ids@)),
            ],
        ),
{
    watchlist_change_call("add_to_watchlist", list_id, orderbook_ids)
}

/// The request of `remove_from_watchlist`: the list ID and the orderbook IDs
/// to remove.
pub fn remove_from_watchlist_call(list_id: u64, orderbook_ids: &[u64]) -> (c: ToolCall)
    ensures
        c@.tool == "remove_from_watchlist"@,
        c@.arguments == Some(
            seq![
                ("listId"@, ArgModel::Number(list_id)),
                ("orderbookIds"@, ArgModel::Numbers(orderbook_ids@)),
            ],
        ),
{
    watchlist_change_call("remove_from_watchlist", list_id, orderbook_ids)
}

fn push_arg(v: &mut Vec<(String, ToolArg)>, key: &str, value: ToolArg)
    ensures
        args_view(final(v)@) == args_view(old(v)@).push((key@, value@)),
{
    v.push((key.to_owned(), value));
    proof {
        assert(args_view(final(v)@) =~= args_view(old(v)@).push((key@, value@)));
    }
}

/// The text a trade side is written as.
pub open spec fn side_text(s: TradeSide) -> Seq<char> {
    match s {
        TradeSide::Buy => "Buy"@,
        TradeSide::Sell => "Sell"@,
    }
}

/// The argument of a decimal: its text.
pub open spec fn decimal_arg(mantissa: i128, scale: u32) -> ArgModel {
    ArgModel::Text(spec_decimal_text(mantissa as int, scale as nat))
}

/// The arguments of `create_trade_ticket`, in order: the side, the account ID
/// and the price when given, the amount or the quantity, the currency (`null`
/// for the account currency) and the instrument by name, orderbook ID or
/// ticker. `None` when the currency cannot be serialised.
pub open spec fn spec_trade_ticket_args(a: TradeTicketArgs) -> Option<Seq<(Seq<char>, ArgModel)>> {
    match spec_serialized_code(a.currency) {
        Err(_) => None,
        Ok(code) => Some(
            seq![("side"@, ArgModel::Text(side_text(a.side)))] + match a.account_id {
                Some(id) => seq![("accountId"@, ArgModel::Text(spec_uuid_text(id)))],
                None => Seq::<(Seq<char>, ArgModel)>::empty(),
            } + match a.price {
                Some(p) => seq![("price"@, decimal_arg(p.mantissa, p.scale))],
                None => Seq::<(Seq<char>, ArgModel)>::empty(),
            } + seq![
                match a.volume {
                    TradeVolume::Amount(d) => ("amount"@, decimal_arg(d.mantissa, d.scale)),
                    TradeVolume::Quantity(d) => ("quantity"@, decimal_arg(d.mantissa, d.scale)),
                },
            ] + seq![
                ("currency"@, match code {
                    None => ArgModel::Null,
                    Some(c) => ArgModel::Text(c),
                }),
            ] + seq![
                match a.instrument {
                    Instrument::Name(n) => ("name"@, ArgModel::Text(n@)),
                    Instrument::OrderbookId(id) => ("orderbookId"@, ArgModel::Number(id)),
                    Instrument::Ticker(t) => ("ticker"@, ArgModel::Text(t@)),
                },
            ],
        ),
    }
}

/// The request of `create_trade_ticket`: the trade's arguments as a JSON
/// object. A currency code that is not three bytes long makes the arguments
/// invalid.
pub fn trade_ticket_call(args: &TradeTicketArgs) -> (res: Result<ToolCall, ClientCallError>)
    requires
        args.wf(),
    ensures
        res is Ok <==> spec_serialized_code(args.currency) is Ok,
        res matches Ok(c) ==> c@.tool == "create_trade_ticket"@ && c@.arguments
            == spec_trade_ticket_args(*args),
        res matches Err(e) ==> (e matches ClientCallError::InvalidArguments(m) && m@
            == "Could not convert args to JSON"@),
{
    let code = match args.currency.serialized_code() {
        Ok(c) => c,
        Err(_) => {
            return Err(ClientCallError::InvalidArguments("Could not convert args to JSON".to_owned()));
        },
    };
    let mut v: Vec<(String, ToolArg)> = Vec::new();
    let side = match args.side {
        TradeSide::Buy => "Buy",
        TradeSide::Sell => "Sell",
    };
    push_arg(&mut v, "side", ToolArg::Text(side.to_owned()));
    let ghost after_side = args_view(v@);
    match args.account_id {
        Some(id) => push_arg(&mut v, "accountId", ToolArg::Text(uuid_text(id))),
        None => {},
    }
    let ghost after_account = args_view(v@);
    match args.price {
        Some(p) => push_arg(&mut v, "price", ToolArg::Text(decimal_text_of(p))),
        None => {},
    }
    let ghost after_price = args_view(v@);
    match args.volume {
        TradeVolume::Amount(d) => push_arg(&mut v, "amount", ToolArg::Text(decimal_text_of(d))),
        TradeVolume::Quantity(d) => push_arg(&mut v, "quantity", ToolArg::Text(decimal_text_of(d))),
    }
    let currency = match code {
        None => ToolArg::Null,
        Some(c) => ToolArg::Text(c.to_owned()),
    };
    push_arg(&mut v, "currency", currency);
    match &args.instrument {
        Instrument::Name(n) => push_arg(&mut v, "name", ToolArg::Text(n.clone())),
        Instrument::OrderbookId(id) => push_arg(&mut v, "orderbookId", ToolArg::Number(*id)),
        Instrument::Ticker(t) => push_arg(&mut v, "ticker", ToolArg::Text(t.clone())),
    }
    let c = call_with("create_trade_ticket", Some(v));
    proof {
        assert(c@.arguments->0 =~= spec_trade_ticket_args(*args)->0);
    }
    Ok(c)
}

/// The arguments of a trade ticket carry each of its inputs under its own
/// key: the side as `Buy` or `Sell`; the account ID and the price when given;
/// the amount or the quantity as its decimal text; the currency whatever the
/// volume is (`null` for the account currency, the code otherwise); and the
/// instrument by its name, orderbook ID or ticker. Nothing else is sent. A
/// currency that cannot be written gives no arguments.
pub proof fn lemma_trade_ticket_args_carry_inputs(a: TradeTicketArgs)
    ensures
        spec_serialized_code(a.currency) is Err ==> spec_trade_ticket_args(a) is None,
        spec_serialized_code(a.currency) is Ok ==> {
            &&& spec_trade_ticket_args(a) matches Some(s)
            &&& s.len() == 4 + (if a.account_id is Some {
                1int
            } else {
                0int
            }) + (if a.price is Some {
                1int
            } else {
                0int
            })
            &&& s.contains(
                (
                    "side"@,
                    ArgModel::Text(
                        match a.side {
                            TradeSide::Buy => "Buy"@,
                            TradeSide::Sell => "Sell"@,
                        },
                    ),
                ),
            )
            &&& (a.account_id matches Some(id) ==> s.contains(
                ("accountId"@, ArgModel::Text(spec_uuid_text(id))),
            ))
            &&& (a.price matches Some(p) ==> s.contains(
                ("price"@, ArgModel::Text(spec_decimal_text(p.mantissa as int, p.scale as nat))),
            ))
            &&& s.contains(
                match a.volume {
                    TradeVolume::Amount(d) => (
                        "amount"@,
                        ArgModel::Text(spec_decimal_text(d.mantissa as int, d.scale as nat)),
                    ),
                    TradeVolume::Quantity(d) => (
                        "quantity"@,
                        ArgModel::Text(spec_decimal_text(d.mantissa as int, d.scale as nat)),
                    ),
                },
            )
            &&& s.contains(
                (
                    "currency"@,
                    match a.currency {
                        TradeCurrency::Account => ArgModel::Null,
                        TradeCurrency::Code(c) => ArgModel::Text(c@),
                    },
                ),
            )
            &&& s.contains(
                match a.instrument {
                    Instrument::Name(n) => ("name"@, ArgModel::Text(n@)),
                    Instrument::OrderbookId(id) => ("orderbookId"@, ArgModel::Number(id)),
                    Instrument::Ticker(t) => ("ticker"@, ArgModel::Text(t@)),
                },
            )
        },
{
    if let Some(s) = spec_trade_ticket_args(a) {
        let acc: int = if a.account_id is Some { 1 } else { 0 };
        let pr: int = if a.price is Some { 1 } else { 0 };
        assert(s[0].0 == "side"@);
        assert(s.contains(s[0]));
        if a.account_id is Some {
            assert(s.contains(s[1]));
        }
        if a.price is Some {
            assert(s.contains(s[1 + acc]));
        }
        assert(s.contains(s[1 + acc + pr]));
        assert(s.contains(s[2 + acc + pr]));
        assert(s.contains(s[3 + acc + pr]));
    }
}

/// One content element of a tool response.
#[derive(Debug, Clone)]
pub enum ToolContent {
    /// A text element.
    Text(String),
    /// An element of another kind (an image, a resource, ...).
    Other,
}

/// The response of a tool call.
#[derive(Debug, Clone)]
pub struct ToolResponse {
    pub content: Vec<ToolContent>,
    /// Whether the server flagged the response as an error.
    pub is_error: Option<bool>,
}

/// The text that the response of a tool call is read from: the text of its
/// first content element. A response without content, or whose first element
/// is not text, cannot be read; a response that the server flagged as an
/// error gives the server's text as an MCP error.
pub fn response_text(res: &ToolResponse) -> (out: Result<String, ClientCallError>)
    ensures
        res.content@.len() == 0 ==> (out matches Err(
            ClientCallError::ParseError { msg, source: None },
        ) && msg@ == "No content element in response"@),
        res.content@.len() > 0 && res.content@[0] is Other ==> (out matches Err(
            ClientCallError::ParseError { msg, source: None },
        ) && msg@ == "No raw text in response"@),
        res.content@.len() > 0 ==> match res.content@[0] {
            ToolContent::Text(t) => if res.is_error == Some(true) {
                out matches Err(ClientCallError::McpError(m)) && m@ == "Error from server: "@ + t@
            } else {
                out matches Ok(text) && text@ == t@
            },
            ToolContent::Other => true,
        },
{
    if res.content.len() == 0 {
        return Err(ClientCallError::parse_err("No content element in response"));
    }
    let text = match &res.content[0] {
        ToolContent::Text(t) => t,
        ToolContent::Other => {
            return Err(ClientCallError::parse_err("No raw text in response"));
        },
    };
    let flagged = match res.is_error {
        Some(b) => b,
        None => false,
    };
    if flagged {
        let mut m = "Error from server: ".to_owned();
        m.append(text.as_str());
        return Err(ClientCallError::McpError(m));
    }
    Ok(text.clone())
}

/// The error for a response text that cannot be decoded into the expected
/// type; `detail` describes the decoding error.
pub fn response_parse_error(text: &str, detail: String) -> (e: ClientCallError)
    ensures
        e matches ClientCallError::ParseError { msg, source: Some(s) } && msg@
            == "Failed to parse response text: "@ + text@ && s@ == detail@,
{
    let mut msg = "Failed to parse response text: ".to_owned();
    msg.append(text);
    ClientCallError::ParseError { msg, source: Some(detail) }
}

} // verus!
