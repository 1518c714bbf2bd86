use southesk::types::{HoldingsSelector, TradeCurrency, TradeSide};

#[test]
fn trade_currency_serialization() {
    assert_eq!(TradeCurrency::Account.to_json().unwrap(), "null");
    assert_eq!(
        TradeCurrency::from_json("null").unwrap(),
        TradeCurrency::Account
    );

    assert_eq!(
        TradeCurrency::Code("SEK".into()).to_json().unwrap(),
        "\"SEK\""
    );
    assert_eq!(
        TradeCurrency::from_json("\"USD\"").unwrap(),
        TradeCurrency::Code("USD".into())
    );
    assert!(TradeCurrency::from_json("\"WRONG_LEN\"").is_err());
    assert!(TradeCurrency::from_json("\"\"").is_err());
}

#[test]
fn trade_currency_rejects_wrong_length_code_on_write() {
    let err = TradeCurrency::Code("SEKK".into()).to_json().unwrap_err();
    assert_eq!(err.msg, "currency code should be 3 letters");
    assert!(TradeCurrency::Code("".into()).to_json().is_err());
}

#[test]
fn trade_currency_length_counts_bytes() {
    // "€" is three bytes in UTF-8, so it counts as a three-byte code.
    assert_eq!(
        TradeCurrency::from_json("\"€\"").unwrap(),
        TradeCurrency::Code("€".into())
    );
    // "ÅÄÖ" is three characters but six bytes.
    assert!(TradeCurrency::from_json("\"ÅÄÖ\"").is_err());
    assert!(TradeCurrency::Code("ÅÄÖ".into()).to_json().is_err());
}

#[test]
fn trade_currency_read_error_message() {
    let err = TradeCurrency::from_json("\"WRONG_LEN\"").unwrap_err();
    assert_eq!(err.msg, "Currency code should be 3 letters: WRONG_LEN");
    assert!(TradeCurrency::from_json("not json").is_err());
    assert!(TradeCurrency::from_json("42").is_err());
}

#[test]
fn trade_currency_round_trip() {
    for c in [
        TradeCurrency::Account,
        TradeCurrency::Code("EUR".into()),
        TradeCurrency::Code("a\"b".into()),
    ] {
        let text = c.to_json().unwrap();
        assert_eq!(TradeCurrency::from_json(&text).unwrap(), c);
    }
}

#[test]
fn trade_currency_from_decoded_values() {
    assert_eq!(
        TradeCurrency::from_decoded(None).unwrap(),
        TradeCurrency::Account
    );
    assert_eq!(
        TradeCurrency::from_decoded(Some("NOK".into())).unwrap(),
        TradeCurrency::Code("NOK".into())
    );
    assert!(TradeCurrency::from_decoded(Some("NO".into())).is_err());
    assert_eq!(
        TradeCurrency::Code("NOK".into()).serialized_code().unwrap(),
        Some("NOK")
    );
    assert_eq!(TradeCurrency::Account.serialized_code().unwrap(), None);
}

#[test]
fn defaults() {
    assert_eq!(TradeCurrency::default(), TradeCurrency::Account);
    assert_eq!(TradeSide::default(), TradeSide::Buy);
    assert_ne!(HoldingsSelector::All, HoldingsSelector::AccountId(1));
}

#[test]
fn trade_currency_json_escapes() {
    assert_eq!(
        TradeCurrency::Code("a\"b".into()).to_json().unwrap(),
        "\"a\\\"b\""
    );
    assert_eq!(
        TradeCurrency::Code("\u{1}\n\\".into()).to_json().unwrap(),
        "\"\\u0001\\n\\\\\""
    );
    assert_eq!(
        TradeCurrency::from_json("\"a\\\"b\"").unwrap(),
        TradeCurrency::Code("a\"b".into())
    );
}
