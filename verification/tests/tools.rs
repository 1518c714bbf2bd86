use southesk::client::tools::{
    add_to_watchlist_call, create_watchlist_call, holdings_call, remove_from_watchlist_call,
    response_parse_error, response_text, search_instruments_call, trade_ticket_call,
    user_accounts_call, watchlist_call, watchlists_call, ToolArg, ToolCall, ToolContent,
    ToolResponse,
};
use southesk::client::{CredStoreSelection, TmrClientBuilder};
use southesk::error::ClientCallError;
use southesk::types::{
    DecimalValue, HoldingsSelector, Instrument, TradeCurrency, TradeSide, TradeTicketArgs,
    TradeVolume,
};

fn args(c: &ToolCall) -> Vec<(String, String)> {
    c.arguments
        .as_ref()
        .unwrap()
        .iter()
        .map(|(k, v)| {
            let v = match v {
                ToolArg::Null => "null".to_string(),
                ToolArg::Text(t) => format!("{t:?}"),
                ToolArg::Number(n) => n.to_string(),
                ToolArg::Numbers(ns) => format!("{ns:?}"),
            };
            (k.clone(), v)
        })
        .collect()
}

#[test]
fn holdings_request_formats_account_uuid() {
    let c = holdings_call(HoldingsSelector::AccountId(
        0xd075c5d4_222f_4ba9_b973_10bb9aeea705,
    ));
    assert_eq!(c.tool, "get_holdings");
    assert_eq!(
        args(&c),
        vec![(
            "accountId".to_string(),
            "\"d075c5d4-222f-4ba9-b973-10bb9aeea705\"".to_string()
        )]
    );
    let c = holdings_call(HoldingsSelector::AccountId(1));
    assert_eq!(
        args(&c)[0].1,
        "\"00000000-0000-0000-0000-000000000001\""
    );
    let c = holdings_call(HoldingsSelector::All);
    assert_eq!(args(&c), vec![("accountId".to_string(), "null".to_string())]);
}

#[test]
fn simple_requests() {
    let c = user_accounts_call();
    assert_eq!(c.tool, "get_user_accounts");
    assert!(c.arguments.is_none());
    let c = watchlists_call();
    assert_eq!(c.tool, "get_watchlists");
    assert!(c.arguments.is_none());
    let c = search_instruments_call("VOLV B");
    assert_eq!(c.tool, "search_instruments");
    assert_eq!(args(&c), vec![("query".to_string(), "\"VOLV B\"".to_string())]);
    let c = watchlist_call(42);
    assert_eq!(c.tool, "get_watchlist");
    assert_eq!(args(&c), vec![("listId".to_string(), "42".to_string())]);
    let c = create_watchlist_call("Tech");
    assert_eq!(c.tool, "create_watchlist");
    assert_eq!(args(&c), vec![("name".to_string(), "\"Tech\"".to_string())]);
}

#[test]
fn watchlist_change_requests() {
    let c = add_to_watchlist_call(3, &[5, 6]);
    assert_eq!(c.tool, "add_to_watchlist");
    assert_eq!(
        args(&c),
        vec![
            ("listId".to_string(), "3".to_string()),
            ("orderbookIds".to_string(), "[5, 6]".to_string())
        ]
    );
    let c = remove_from_watchlist_call(3, &[]);
    assert_eq!(c.tool, "remove_from_watchlist");
    assert_eq!(args(&c)[1].1, "[]");
}

#[test]
fn response_checks() {
    let ok = ToolResponse {
        content: vec![ToolContent::Text("[1]".into()), ToolContent::Other],
        is_error: None,
    };
    assert_eq!(response_text(&ok).unwrap(), "[1]");

    let flagged = ToolResponse {
        content: vec![ToolContent::Text("bad id".into())],
        is_error: Some(true),
    };
    match response_text(&flagged) {
        Err(ClientCallError::McpError(m)) => assert_eq!(m, "Error from server: bad id"),
        other => panic!("unexpected {other:?}"),
    }

    let not_flagged = ToolResponse {
        content: vec![ToolContent::Text("{}".into())],
        is_error: Some(false),
    };
    assert_eq!(response_text(&not_flagged).unwrap(), "{}");

    let empty = ToolResponse {
        content: vec![],
        is_error: Some(true),
    };
    match response_text(&empty) {
        Err(ClientCallError::ParseError { msg, source }) => {
            assert_eq!(msg, "No content element in response");
            assert!(source.is_none());
        }
        other => panic!("unexpected {other:?}"),
    }

    let image = ToolResponse {
        content: vec![ToolContent::Other],
        is_error: None,
    };
    match response_text(&image) {
        Err(ClientCallError::ParseError { msg, .. }) => {
            assert_eq!(msg, "No raw text in response")
        }
        other => panic!("unexpected {other:?}"),
    }

    match response_parse_error("xx", "expected value".into()) {
        ClientCallError::ParseError { msg, source } => {
            assert_eq!(msg, "Failed to parse response text: xx");
            assert_eq!(source.as_deref(), Some("expected value"));
        }
        other => panic!("unexpected {other:?}"),
    }

    match ClientCallError::parse_err("m") {
        ClientCallError::ParseError { msg, source } => {
            assert_eq!(msg, "m");
            assert!(source.is_none());
        }
        other => panic!("unexpected {other:?}"),
    }
}

#[test]
fn builder_options() {
    let parts = TmrClientBuilder::<u8, u16>::new("app".into())
        .into_parts()
        .unwrap();
    assert_eq!(parts.client_name, "app");
    assert!(parts.auth_handler.is_none());
    match parts.cred_store {
        CredStoreSelection::Default { user } => assert_eq!(user, "user"),
        other => panic!("unexpected {other:?}"),
    }

    let parts = TmrClientBuilder::<u8, u16>::new("app".into())
        .cred_user("test".into())
        .auth_handler(3)
        .into_parts()
        .unwrap();
    assert_eq!(parts.auth_handler, Some(3));
    match parts.cred_store {
        CredStoreSelection::Default { user } => assert_eq!(user, "test"),
        other => panic!("unexpected {other:?}"),
    }

    let parts = TmrClientBuilder::<u8, u16>::new("app".into())
        .cred_store(9)
        .into_parts()
        .unwrap();
    assert!(matches!(parts.cred_store, CredStoreSelection::Custom(9)));

    let err = TmrClientBuilder::<u8, u16>::new("app".into())
        .cred_store(9)
        .cred_user("u".into())
        .into_parts()
        .unwrap_err();
    assert_eq!(
        err.msg,
        "Cannot specify both a custom credential store and a credential user"
    );
    assert!(err.source.is_none());
}

fn dec(mantissa: i128, scale: u32) -> DecimalValue {
    DecimalValue { mantissa, scale }
}

fn ticket(volume: TradeVolume, price: Option<DecimalValue>) -> TradeTicketArgs {
    TradeTicketArgs {
        side: TradeSide::Buy,
        account_id: None,
        price,
        volume,
        currency: TradeCurrency::Account,
        instrument: Instrument::OrderbookId(5247),
    }
}

#[test]
fn trade_ticket_request_full() {
    let a = TradeTicketArgs {
        side: TradeSide::Sell,
        account_id: Some(0xd075c5d4_222f_4ba9_b973_10bb9aeea705),
        price: Some(dec(15, 1)),
        volume: TradeVolume::Quantity(dec(10, 0)),
        currency: TradeCurrency::Code("SEK".into()),
        instrument: Instrument::Ticker("VOLV B".into()),
    };
    let c = trade_ticket_call(&a).unwrap();
    assert_eq!(c.tool, "create_trade_ticket");
    assert_eq!(
        args(&c),
        vec![
            ("side".to_string(), "\"Sell\"".to_string()),
            (
                "accountId".to_string(),
                "\"d075c5d4-222f-4ba9-b973-10bb9aeea705\"".to_string()
            ),
            ("price".to_string(), "\"1.5\"".to_string()),
            ("quantity".to_string(), "\"10\"".to_string()),
            ("currency".to_string(), "\"SEK\"".to_string()),
            ("ticker".to_string(), "\"VOLV B\"".to_string()),
        ]
    );
}

#[test]
fn trade_ticket_request_minimal() {
    let c = trade_ticket_call(&ticket(TradeVolume::Amount(dec(100, 2)), None)).unwrap();
    assert_eq!(
        args(&c),
        vec![
            ("side".to_string(), "\"Buy\"".to_string()),
            ("amount".to_string(), "\"1.00\"".to_string()),
            ("currency".to_string(), "null".to_string()),
            ("orderbookId".to_string(), "5247".to_string()),
        ]
    );
    let mut a = ticket(TradeVolume::Amount(dec(1, 0)), None);
    a.instrument = Instrument::Name("Volvo".into());
    assert_eq!(args(&trade_ticket_call(&a).unwrap())[3].1, "\"Volvo\"");
    assert_eq!(args(&trade_ticket_call(&a).unwrap())[3].0, "name");
}

#[test]
fn trade_ticket_decimal_text() {
    let text = |d: DecimalValue| {
        let c = trade_ticket_call(&ticket(TradeVolume::Amount(d), None)).unwrap();
        args(&c)[1].1.clone()
    };
    assert_eq!(text(dec(5, 3)), "\"0.005\"");
    assert_eq!(text(dec(0, 2)), "\"0.00\"");
    assert_eq!(text(dec(0, 0)), "\"0\"");
    assert_eq!(text(dec(-15, 1)), "\"-1.5\"");
    assert_eq!(text(dec(-5, 2)), "\"-0.05\"");
    assert_eq!(text(dec(123456, 0)), "\"123456\"");
    assert_eq!(text(dec(123456, 3)), "\"123.456\"");
}

#[test]
fn trade_ticket_rejects_bad_currency() {
    let mut a = ticket(TradeVolume::Quantity(dec(1, 0)), None);
    a.currency = TradeCurrency::Code("EURO".into());
    match trade_ticket_call(&a) {
        Err(ClientCallError::InvalidArguments(m)) => {
            assert_eq!(m, "Could not convert args to JSON")
        }
        other => panic!("unexpected {other:?}"),
    }
}
