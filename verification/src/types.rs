//! Montrose API types.
//!
//! The types correspond to the types used by the Montrose MCP API. Account
//! identifiers (UUIDs) are held as their 128-bit value.

use vstd::prelude::*;
use vstd::string::{StrSliceExecFns, StringExecFns};
use vstd::utf8::{encode_scalar, encode_utf8};

use crate::text::{
    decimal_text, digits_value, hex_digit, is_digits, lemma_decimal_text_value,
    lemma_leading_zeros_value,
};

verus! {

/// Used to select which holdings to fetch.
#[derive(Debug, Clone, Copy, PartialEq, Eq, PartialOrd, Ord, Hash)]
pub enum HoldingsSelector {
    All,
    /// One account, given by its account ID (the UUID as a 128-bit value).
    AccountId(u128),
}

/// Various identifiers that can be used to identify an account.
#[derive(Debug, Clone, PartialEq, Eq, PartialOrd, Ord, Hash)]
pub struct AccountIdentifiers {
    /// The account UUID as a 128-bit value.
    pub account_id: u128,
    /// Example: `1234567`
    pub account_number: String,
    /// Account name, as set by the user. It is not guaranteed to be unique.
    pub account_name: Option<String>,
}

/// Full account information, including holdings.
#[derive(Debug, Clone, PartialEq, Eq, Hash)]
pub struct Account {
    /// The account UUID as a 128-bit value.
    pub account_id: u128,
    pub account_number: String,
    pub account_name: Option<String>,
    pub currency: String,
    pub summary: AccountSummary,
    pub positions: Vec<Position>,
}

/// Summary of the account holdings.
#[derive(Debug, Clone, PartialEq, Eq, Hash)]
pub struct AccountSummary {
    /// Value of the investments in the account
    pub total_market_value: DecimalValue,
    /// Amount available for purchase
    pub available_for_purchase: DecimalValue,
    /// Total value of the account. The sum of investments and cash.
    pub total_value: DecimalValue,
    /// Currency of the account
    pub currency: String,
}

/// One holding of an account.
#[derive(Debug, Clone, PartialEq, Eq, Hash)]
pub struct Position {
    pub instrument_name: String,
    pub ticker: String,
    pub orderbook_id: u64,
    pub possible_orderbook_ids: Vec<u64>,
    /// Number of shares
    pub quantity: DecimalValue,
    /// Value of the position (quantity * price)
    pub market_value: InstrumentValue,
    pub unrealized_result: InstrumentValue,
    pub unrealized_result_percent: DecimalValue,
    pub instrument_currency: String,
    /// Exchange rate (instrument_currency / account_currency)
    pub fx_rate: DecimalValue,
}

/// Value of an instrument in different currencies.
#[derive(Debug, Clone, Copy, PartialEq, Eq, Hash)]
pub struct InstrumentValue {
    /// Value in the account currency
    pub account_currency: DecimalValue,
    /// Value in the instrument currency
    pub instrument_currency: DecimalValue,
}

/// The largest magnitude of a decimal's mantissa: 2^96 - 1.
pub open spec fn max_decimal_mantissa() -> int {
    79228162514264337593543950335
}

/// A decimal number: `mantissa / 10^scale`, held as its mantissa and its
/// scale (the number of decimal places, at most 28). The mantissa's magnitude
/// is below 2^96.
#[derive(Debug, Clone, Copy, PartialEq, Eq, Hash, Structural)]
pub struct DecimalValue {
    pub mantissa: i128,
    pub scale: u32,
}

impl DecimalValue {
    /// Whether the value can be a decimal: a scale of at most 28 and a
    /// mantissa whose magnitude is below 2^96.
    pub open spec fn wf(self) -> bool {
        &&& self.scale <= 28
        &&& -max_decimal_mantissa() <= self.mantissa <= max_decimal_mantissa()
    }
}

/// `n` zero characters.
pub open spec fn zeros(n: nat) -> Seq<char> {
    Seq::new(n, |i: int| '0')
}

/// The digits of a magnitude, padded with leading zeros to at least `scale`
/// digits; no digits for zero.
pub open spec fn magnitude_digits(m: nat, scale: nat) -> Seq<char> {
    let d = if m == 0 {
        Seq::<char>::empty()
    } else {
        decimal_text(m)
    };
    if d.len() < scale {
        zeros((scale - d.len()) as nat) + d
    } else {
        d
    }
}

/// The text of the decimal `mantissa / 10^scale`: a minus sign when it is
/// negative, the whole part (`0` when empty), and for a positive scale a
/// point followed by exactly `scale` fractional digits.
pub open spec fn spec_decimal_text(mantissa: int, scale: nat) -> Seq<char> {
    let m: nat = if mantissa < 0 {
        (-mantissa) as nat
    } else {
        mantissa as nat
    };
    let p = magnitude_digits(m, scale);
    let body = if scale == 0 {
        if p.len() == 0 {
            seq!['0']
        } else {
            p
        }
    } else {
        let whole = p.subrange(0, p.len() - scale);
        (if whole.len() == 0 {
            seq!['0']
        } else {
            whole
        }) + seq!['.'] + p.subrange(p.len() - scale, p.len() as int)
    };
    if mantissa < 0 {
        seq!['-'] + body
    } else {
        body
    }
}

proof fn lemma_magnitude_digits_value(m: nat, scale: nat)
    ensures
        is_digits(magnitude_digits(m, scale)),
        digits_value(magnitude_digits(m, scale)) == m,
        magnitude_digits(m, scale).len() >= scale,
        magnitude_digits(m, scale).len() == 0 <==> (m == 0 && scale == 0),
{
    let d = if m == 0 {
        Seq::<char>::empty()
    } else {
        decimal_text(m)
    };
    if m != 0 {
        lemma_decimal_text_value(m);
    }
    assert(is_digits(d));
    assert(digits_value(d) == m);
    if d.len() < scale {
        let z = zeros((scale - d.len()) as nat);
        lemma_leading_zeros_value(z, d);
        assert(is_digits(z + d)) by {
            assert forall|i: int| 0 <= i < (z + d).len() implies '0' <= #[trigger] (z + d)[i]
                <= '9' by {
                if i >= z.len() {
                    assert((z + d)[i] == d[i - z.len()]);
                }
            }
        }
    }
}

/// The text of a decimal writes its value: a minus sign exactly when it is
/// negative; for a scale of zero, digits that write the magnitude; for a
/// positive scale, at least one digit, a point and exactly `scale` digits,
/// whose digits together write the magnitude.
pub proof fn lemma_decimal_text_writes_value(m: int, scale: nat)
    ensures
        ({
            let t = spec_decimal_text(m, scale);
            let mag = if m < 0 {
                -m
            } else {
                m
            };
            let body = if m < 0 {
                t.drop_first()
            } else {
                t
            };
            &&& t.len() > 0
            &&& (t[0] == '-' <==> m < 0)
            &&& scale == 0 ==> body.len() > 0 && is_digits(body) && digits_value(body) == mag
            &&& scale > 0 ==> {
                &&& body.len() >= scale + 2
                &&& body[body.len() - scale - 1] == '.'
                &&& is_digits(body.take(body.len() - scale - 1))
                &&& is_digits(body.skip(body.len() - scale))
                &&& digits_value(body.take(body.len() - scale - 1) + body.skip(body.len() - scale))
                    == mag
            }
        }),
{
    let mm: nat = if m < 0 {
        (-m) as nat
    } else {
        m as nat
    };
    let p = magnitude_digits(mm, scale);
    lemma_magnitude_digits_value(mm, scale);
    let t = spec_decimal_text(m, scale);
    let zero = seq!['0'];
    assert(digits_value(zero) == 0) by {
        assert(zero.drop_last() =~= Seq::<char>::empty());
        assert(zero.last() == '0');
        assert(digits_value(Seq::<char>::empty()) == 0);
        assert(digits_value(zero) == digits_value(zero.drop_last()) * 10 + (zero.last() as int
            - '0' as int));
    }
    let body = if scale == 0 {
        if p.len() == 0 {
            zero
        } else {
            p
        }
    } else {
        let whole = p.subrange(0, p.len() - scale);
        (if whole.len() == 0 {
            zero
        } else {
            whole
        }) + seq!['.'] + p.subrange(p.len() - scale, p.len() as int)
    };
    if m < 0 {
        assert(t == seq!['-'] + body);
        assert(t.drop_first() =~= body);
    } else {
        assert(t == body);
    }
    if scale == 0 {
        assert(body.len() > 0);
        assert('0' <= body[0] <= '9');
    } else {
        let whole = p.subrange(0, p.len() - scale);
        let w = if whole.len() == 0 {
            zero
        } else {
            whole
        };
        let frac = p.subrange(p.len() - scale, p.len() as int);
        assert(body == w + seq!['.'] + frac);
        assert(body.len() == w.len() + 1 + scale);
        assert(body[w.len() as int] == '.');
        assert(body.take(w.len() as int) =~= w);
        assert(body.skip(w.len() + 1int) =~= frac);
        assert('0' <= w[0] <= '9');
        assert(body[0] == w[0]);
        assert(is_digits(w));
        assert(is_digits(frac));
        if whole.len() == 0 {
            assert(w + frac =~= zero + p);
            lemma_leading_zeros_value(zero, p);
        } else {
            assert(w + frac =~= p);
        }
    }
}

/// The text of a decimal, by `rust_decimal::Decimal::from_i128_with_scale`
/// and its `Display`.
///
/// Claims: the text is the one `spec_decimal_text` describes (the digits of
/// the mantissa with a point inserted `scale` digits from the right, padded
/// with zeros, and a minus sign when negative); this is also the string that
/// the crate's `Serialize` writes. The arguments are kept to the range where
/// `from_i128_with_scale` does not panic.
#[verifier::external_body]
pub(crate) fn decimal_text_of(d: DecimalValue) -> (s: String)
    requires
        d.wf(),
    ensures
        s@ == spec_decimal_text(d.mantissa as int, d.scale as nat),
{
    rust_decimal::Decimal::from_i128_with_scale(d.mantissa, d.scale).to_string()
}

/// Specifies how much of an instrument to trade.
#[derive(Debug, Clone, Copy, PartialEq, Eq, Hash)]
pub enum TradeVolume {
    /// Amount (money) to trade, in the trade's currency.
    Amount(DecimalValue),
    /// Number of shares to trade.
    Quantity(DecimalValue),
}

/// Arguments for creating a trade ticket.
#[derive(Debug, Clone, PartialEq, Eq)]
pub struct TradeTicketArgs {
    /// The side of the order: Buy or Sell.
    pub side: TradeSide,
    /// Optional account ID (the UUID as a 128-bit value).
    pub account_id: Option<u128>,
    /// Optional price for the order.
    pub price: Option<DecimalValue>,
    /// How much of the instrument to trade.
    pub volume: TradeVolume,
    /// The currency of the amount.
    pub currency: TradeCurrency,
    /// The instrument to trade.
    pub instrument: Instrument,
}

impl TradeTicketArgs {
    /// Whether the decimals of the arguments can be decimals.
    pub open spec fn wf(self) -> bool {
        &&& self.price matches Some(p) ==> p.wf()
        &&& match self.volume {
            TradeVolume::Amount(d) => d.wf(),
            TradeVolume::Quantity(d) => d.wf(),
        }
    }
}

/// Specifies the instrument to trade.
#[derive(Debug, Clone, PartialEq, Eq, PartialOrd, Ord, Hash)]
pub enum Instrument {
    /// Instrument name to search for the instrument. This is a convenience
    /// identifier and may be ambiguous.
    Name(String),
    /// Orderbook ID that identifies the instrument directly. This is the
    /// safest identifier.
    OrderbookId(u64),
    /// Ticker symbol, e.g. "VOLV B". This is a convenience identifier and may
    /// be ambiguous.
    Ticker(String),
}

/// Whether to buy or sell an instrument.
#[derive(Debug, Clone, Copy, PartialEq, Eq, PartialOrd, Ord, Hash, Structural)]
pub enum TradeSide {
    Buy,
    Sell,
}

impl Default for TradeSide {
    /// Buying.
    fn default() -> (s: TradeSide)
        ensures
            s == TradeSide::Buy,
    {
        TradeSide::Buy
    }
}

/// Various identifiers that can be used to identify a trade instrument.
#[derive(Debug, Clone, PartialEq, Eq, PartialOrd, Ord, Hash)]
pub struct InstrumentIdentifiers {
    /// Instrument name
    pub name: String,
    /// Instrument order book ID
    pub orderbook_id: u64,
    /// Instrument ticker
    pub ticker: String,
}

/// A watchlist, without its instruments.
#[derive(Debug, Clone, PartialEq, Eq, PartialOrd, Ord, Hash)]
pub struct WatchlistInfo {
    pub list_id: u64,
    pub name: String,
    /// Number of instruments in the watchlist
    pub orderbook_count: u64,
}

/// A watchlist with its instruments.
#[derive(Debug, Clone, PartialEq, Eq, PartialOrd, Ord, Hash)]
pub struct Watchlist {
    pub list_id: u64,
    pub name: String,
    pub items: Vec<InstrumentIdentifiers>,
}

/// The orderbook IDs that a change of a watchlist touched.
#[derive(Debug, Clone, PartialEq, Eq, PartialOrd, Ord, Hash)]
pub struct RemoveFromWatchlistResult {
    pub list_id: u64,
    pub orderbook_ids: Vec<u64>,
}

/// The currency used for a trade.
#[derive(Debug, Clone, PartialEq, Eq, PartialOrd, Ord, Hash)]
pub enum TradeCurrency {
    /// Use the account's main currency.
    Account,
    /// Use the currency given by the ISO 4217 code.
    ///
    /// Examples: `SEK`, `USD`, `EUR`.
    Code(String),
}

/// The error of encoding or decoding a [`TradeCurrency`].
#[derive(Debug, Clone, PartialEq, Eq)]
pub struct TradeCurrencyError {
    pub msg: String,
}

/// The number of bytes in the UTF-8 encoding of `code`.
pub open spec fn code_byte_len(code: Seq<char>) -> nat {
    encode_utf8(code).len()
}

/// A currency code is accepted when its UTF-8 encoding is three bytes long.
pub open spec fn is_valid_code(code: Seq<char>) -> bool {
    code_byte_len(code) == 3
}

/// The JSON escape of one character, as `serde_json` writes it in a string:
/// the quote and the backslash behind a backslash, the short escapes `\b`,
/// `\t`, `\n`, `\f`, `\r`, other characters below 0x20 as `\u00` and two
/// lowercase hexadecimal digits, every other character as itself.
pub open spec fn json_char_escape(c: char) -> Seq<char> {
    if c == '"' {
        seq!['\\', '"']
    } else if c == '\\' {
        seq!['\\', '\\']
    } else if c == '\u{8}' {
        seq!['\\', 'b']
    } else if c == '\t' {
        seq!['\\', 't']
    } else if c == '\n' {
        seq!['\\', 'n']
    } else if c == '\u{c}' {
        seq!['\\', 'f']
    } else if c == '\r' {
        seq!['\\', 'r']
    } else if (c as u32) < 0x20 {
        seq!['\\', 'u', '0', '0', hex_digit(((c as u32) / 16) as int), hex_digit(((c as u32) % 16) as int)]
    } else {
        seq![c]
    }
}

/// The characters of `s`, each escaped as in a JSON string.
pub open spec fn json_escaped(s: Seq<char>) -> Seq<char>
    decreases s.len(),
{
    if s.len() == 0 {
        Seq::empty()
    } else {
        json_escaped(s.drop_last()) + json_char_escape(s.last())
    }
}

/// The JSON text of the string `s`: its escaped characters between quotes.
pub open spec fn spec_json_string(s: Seq<char>) -> Seq<char> {
    seq!['"'] + json_escaped(s) + seq!['"']
}

/// What `serde_json::from_str::<Option<String>>` gives for `text`: the
/// decoded value (`None` for `null`), or the text of the error when the text
/// is refused.
pub uninterp spec fn json_decode_optional_string(text: Seq<char>) -> Result<
    Option<Seq<char>>,
    Seq<char>,
>;

/// The JSON text of an optional string, by `serde_json::to_string`.
///
/// Claims: `None` is written as `null`; a string is written between quotes
/// with the escapes of `json_char_escape`; `serde_json` reads what it wrote
/// back to the same optional string. Serialising an `Option<&str>` does not fail, by the
/// crate's documentation (it fails only for a failing `Serialize` impl or a map
/// with non-string keys).
#[verifier::external_body]
fn json_encode_optional_string(value: Option<&str>) -> (res: Result<String, String>)
    ensures
        res is Ok,
        res matches Ok(t) ==> match value {
            None => t@ == "null"@ && json_decode_optional_string(t@) == Ok::<
                Option<Seq<char>>,
                Seq<char>,
            >(None),
            Some(s) => t@ == spec_json_string(s@) && json_decode_optional_string(t@) == Ok::<
                Option<Seq<char>>,
                Seq<char>,
            >(Some(s@)),
        },
{
    match serde_json::to_string(&value) {
        Ok(t) => Ok(t),
        Err(e) => Err(e.to_string()),
    }
}

/// Decodes JSON text into an optional string, by
/// `serde_json::from_str::<Option<String>>`.
///
/// Claims: the result, and the text of the error, are those named
/// `json_decode_optional_string`.
#[verifier::external_body]
fn json_decode_optional_string_text(text: &str) -> (res: Result<Option<String>, String>)
    ensures
        match json_decode_optional_string(text@) {
            Ok(v) => res matches Ok(r) && r.deep_view() == v,
            Err(t) => res matches Err(e) && e@ == t,
        },
{
    match serde_json::from_str::<Option<String>>(text) {
        Ok(v) => Ok(v),
        Err(e) => Err(e.to_string()),
    }
}

/// The JSON value that represents `c` in API calls: `None` (JSON `null`) for
/// the account currency, the code otherwise; an error for a code that is not
/// three bytes long.
pub open spec fn spec_serialized_code(c: TradeCurrency) -> Result<Option<Seq<char>>, ()> {
    match c {
        TradeCurrency::Account => Ok(None),
        TradeCurrency::Code(code) => if is_valid_code(code@) {
            Ok(Some(code@))
        } else {
            Err(())
        },
    }
}

/// The number of UTF-8 bytes of the scalar value of `c`.
pub open spec fn char_byte_width(c: char) -> nat {
    if (c as u32) < 0x80 {
        1
    } else if (c as u32) < 0x800 {
        2
    } else if (c as u32) < 0x10000 {
        3
    } else {
        4
    }
}

proof fn lemma_encode_scalar_width(c: char)
    ensures
        encode_scalar(c as u32).len() == char_byte_width(c),
{
    broadcast use vstd::utf8::char_is_scalar;

}

proof fn lemma_encode_utf8_concat(a: Seq<char>, b: Seq<char>)
    ensures
        encode_utf8(a + b) == encode_utf8(a) + encode_utf8(b),
    decreases a.len(),
{
    if a.len() == 0 {
        assert(a + b =~= b);
        assert(encode_utf8(a) =~= Seq::<u8>::empty());
        assert(encode_utf8(a) + encode_utf8(b) =~= encode_utf8(b));
    } else {
        assert((a + b)[0] == a[0]);
        assert((a + b).drop_first() =~= a.drop_first() + b);
        lemma_encode_utf8_concat(a.drop_first(), b);
        assert(encode_utf8(a + b) == encode_scalar(a[0] as u32) + encode_utf8(a.drop_first() + b));
        assert(encode_scalar(a[0] as u32) + (encode_utf8(a.drop_first()) + encode_utf8(b))
            =~= (encode_scalar(a[0] as u32) + encode_utf8(a.drop_first())) + encode_utf8(b));
    }
}

proof fn lemma_encode_utf8_single(c: char)
    ensures
        encode_utf8(seq![c]) == encode_scalar(c as u32),
{
    assert(seq![c].drop_first() =~= Seq::<char>::empty());
    assert(encode_utf8(Seq::<char>::empty()) =~= Seq::<u8>::empty());
    assert(encode_scalar(c as u32) + Seq::<u8>::empty() =~= encode_scalar(c as u32));
}

/// Whether the UTF-8 encoding of `s` is three bytes long. The characters are
/// read until more than three bytes are counted.
fn has_three_byte_encoding(s: &str) -> (b: bool)
    ensures
        b == is_valid_code(s@),
{
    let n = s.unicode_len();
    let mut i: usize = 0;
    let mut total: usize = 0;
    while i < n
        invariant
            i <= n,
            n == s@.len(),
            total == code_byte_len(s@.take(i as int)),
            total <= 3,
        decreases n - i,
    {
        let c = s.get_char(i);
        let w: usize = if (c as u32) < 0x80 {
            1
        } else if (c as u32) < 0x800 {
            2
        } else if (c as u32) < 0x10000 {
            3
        } else {
            4
        };
        proof {
            lemma_encode_scalar_width(c);
            lemma_encode_utf8_single(c);
            assert(s@.take(i + 1) =~= s@.take(i as int) + seq![c]);
            lemma_encode_utf8_concat(s@.take(i as int), seq![c]);
        }
        total = total + w;
        i = i + 1;
        if total > 3 {
            proof {
                assert(s@ =~= s@.take(i as int) + s@.skip(i as int));
                lemma_encode_utf8_concat(s@.take(i as int), s@.skip(i as int));
            }
            return false;
        }
    }
    proof {
        assert(s@.take(i as int) =~= s@);
    }
    total == 3
}

/// The abstract value of a currency: `None` for the account currency, the code
/// otherwise.
pub open spec fn currency_view(c: TradeCurrency) -> Option<Seq<char>> {
    match c {
        TradeCurrency::Account => None,
        TradeCurrency::Code(code) => Some(code@),
    }
}

/// The JSON text of a currency, or `None` when it cannot be serialised.
pub open spec fn spec_currency_json(c: TradeCurrency) -> Option<Seq<char>> {
    match spec_serialized_code(c) {
        Ok(None) => Some("null"@),
        Ok(Some(code)) => Some(spec_json_string(code)),
        Err(_) => None,
    }
}

/// The currency that a decoded optional string stands for: the account
/// currency for `null`, a code when it is three bytes long, else an error.
pub open spec fn spec_currency_from_decoded(v: Option<Seq<char>>) -> Result<Option<Seq<char>>, ()> {
    match v {
        None => Ok(None),
        Some(code) => if is_valid_code(code) {
            Ok(Some(code))
        } else {
            Err(())
        },
    }
}

/// The currency read from JSON text: an error when the text is not an
/// optional JSON string or holds a code that is not three bytes long.
pub open spec fn spec_currency_from_json(text: Seq<char>) -> Result<Option<Seq<char>>, ()> {
    match json_decode_optional_string(text) {
        Err(_) => Err(()),
        Ok(v) => spec_currency_from_decoded(v),
    }
}

impl TradeCurrency {
    /// The value this currency is serialised as: `None` for the account
    /// currency, the code for a code of three bytes. A code of another length
    /// is refused.
    pub fn serialized_code(&self) -> (res: Result<Option<&str>, TradeCurrencyError>)
        ensures
            spec_serialized_code(*self) is Ok <==> res is Ok,
            res matches Ok(v) ==> spec_serialized_code(*self) == Ok::<Option<Seq<char>>, ()>(
                match v {
                    Some(s) => Some(s@),
                    None => None,
                },
            ),
            res matches Err(e) ==> e.msg@ == "currency code should be 3 letters"@,
    {
        match self {
            TradeCurrency::Account => Ok(None),
            TradeCurrency::Code(code) => {
                if !has_three_byte_encoding(code.as_str()) {
                    Err(TradeCurrencyError { msg: "currency code should be 3 letters".to_owned() })
                } else {
                    Ok(Some(code.as_str()))
                }
            },
        }
    }
}

impl TradeCurrency {
    /// The JSON text of this currency: `null` for the account currency, the
    /// code as a JSON string otherwise. A code that is not three bytes long is
    /// refused.
    ///
    /// What is written is read back by [`TradeCurrency::from_json`] as the same
    /// currency.
    pub fn to_json(&self) -> (res: Result<String, TradeCurrencyError>)
        ensures
            res is Ok <==> spec_serialized_code(*self) is Ok,
            res matches Ok(t) ==> Some(t@) == spec_currency_json(*self),
            res matches Ok(t) ==> spec_currency_from_json(t@) == Ok::<Option<Seq<char>>, ()>(
                currency_view(*self),
            ),
            res matches Err(e) ==> e.msg@ == "currency code should be 3 letters"@,
    {
        let code = self.serialized_code()?;
        match json_encode_optional_string(code) {
            Ok(t) => Ok(t),
            Err(e) => Err(TradeCurrencyError { msg: e }),
        }
    }

    /// The currency that a decoded optional string stands for: `None` is the
    /// account currency, a string of three bytes is a code; any other string is
    /// refused.
    pub fn from_decoded(v: Option<String>) -> (res: Result<TradeCurrency, TradeCurrencyError>)
        ensures
            spec_currency_from_decoded(v.deep_view()) is Ok <==> res is Ok,
            res matches Ok(c) ==> spec_currency_from_decoded(v.deep_view()) == Ok::<
                Option<Seq<char>>,
                (),
            >(currency_view(c)),
            res matches Err(e) ==> (v matches Some(code) && e.msg@
                == "Currency code should be 3 letters: "@ + code@),
    {
        match v {
            None => Ok(TradeCurrency::Account),
            Some(code) => {
                if has_three_byte_encoding(code.as_str()) {
                    Ok(TradeCurrency::Code(code))
                } else {
                    let mut msg = "Currency code should be 3 letters: ".to_owned();
                    msg.append(code.as_str());
                    Err(TradeCurrencyError { msg })
                }
            },
        }
    }

    /// Reads a currency from JSON text: `null` is the account currency, a JSON
    /// string of three bytes is a code. Other text is refused.
    pub fn from_json(text: &str) -> (res: Result<TradeCurrency, TradeCurrencyError>)
        ensures
            res is Ok <==> spec_currency_from_json(text@) is Ok,
            res matches Ok(c) ==> spec_currency_from_json(text@) == Ok::<Option<Seq<char>>, ()>(
                currency_view(c),
            ),
            res matches Err(e) ==> match json_decode_optional_string(text@) {
                Ok(Some(code)) => e.msg@ == "Currency code should be 3 letters: "@ + code,
                Ok(None) => false,
                Err(t) => e.msg@ == t,
            },
    {
        match json_decode_optional_string_text(text) {
            Ok(v) => TradeCurrency::from_decoded(v),
            Err(e) => Err(TradeCurrencyError { msg: e }),
        }
    }
}

/// Reading back the value that a currency is serialised as gives the same
/// currency.
pub proof fn lemma_decoded_inverts_serialized(c: TradeCurrency)
    requires
        spec_serialized_code(c) is Ok,
    ensures
        spec_currency_from_decoded(spec_serialized_code(c)->Ok_0) == Ok::<Option<Seq<char>>, ()>(
            currency_view(c),
        ),
{
}

/// A currency is serialised exactly when it is the account currency or its
/// code's UTF-8 encoding is three bytes long.
pub proof fn lemma_serializable_iff_valid(c: TradeCurrency)
    ensures
        spec_serialized_code(c) is Ok <==> match currency_view(c) {
            None => true,
            Some(code) => is_valid_code(code),
        },
{
}

/// Decoding accepts exactly the codes whose UTF-8 encoding is three bytes
/// long, and keeps them unchanged; `null` is the account currency.
pub proof fn lemma_decoding_accepts_three_byte_codes(code: Seq<char>)
    ensures
        spec_currency_from_decoded(Some(code)) is Ok <==> encode_utf8(code).len() == 3,
        spec_currency_from_decoded(Some(code)) is Ok ==> spec_currency_from_decoded(Some(code))
            == Ok::<Option<Seq<char>>, ()>(Some(code)),
        spec_currency_from_decoded(None) == Ok::<Option<Seq<char>>, ()>(None),
{
}

/// Every currency read from JSON can be written again: a code that decoding
/// accepts is one that serialisation accepts, as the same code.
pub proof fn lemma_read_currency_can_be_written(text: Seq<char>, code: String)
    requires
        spec_currency_from_json(text) == Ok::<Option<Seq<char>>, ()>(Some(code@)),
    ensures
        spec_serialized_code(TradeCurrency::Code(code)) == Ok::<Option<Seq<char>>, ()>(
            Some(code@),
        ),
{
}

impl Default for TradeCurrency {
    /// The account's main currency.
    fn default() -> (r: TradeCurrency)
        ensures
            r == TradeCurrency::Account,
    {
        TradeCurrency::Account
    }
}

} // verus!
