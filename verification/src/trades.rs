//! Trade endpoints.

use vstd::prelude::*;
use vstd::string::StringExecFns;
use crate::api::ApiHttpMethod;
use crate::codec::DecodeError;
use crate::codec::FromJson;
use crate::codec::JsonObj;
use crate::codec::ToJson;
use crate::codec::get_field;
use crate::codec::get_opt_field;
use crate::codec::opt_entry;
use crate::codec::opt_field_ok;
use crate::codec::opt_field_rel;
use crate::codec::req_entry;
use crate::codec::req_field_ok;
use crate::codec::req_field_rel;
use crate::codec::spec_starts_with;
use crate::date::Date;
use crate::enums::Currency;
use crate::enums::Market;
use crate::enums::TradeDescription;
use crate::json::Decimal;
use crate::json::JsonValue;
use crate::json::Jv;
use crate::num::render_i64;
use crate::num::spec_i64_string;

verus! {

/// `POST /trades.json`.
pub struct TradeConfirm;

impl TradeConfirm {
    /// The URL template of this endpoint.
    pub fn url_template() -> (r: &'static str)
        ensures
            r@ == "/trades.json"@,
    {
        "/trades.json"
    }

    /// The HTTP method of this endpoint.
    pub fn http_method() -> (r: ApiHttpMethod)
        ensures
            r == ApiHttpMethod::Post,
    {
        ApiHttpMethod::Post
    }

    /// The URL path of this endpoint; it takes no parameters.
    pub fn url_path() -> (r: &'static str)
        ensures
            r@ == "/trades.json"@,
    {
        "/trades.json"
    }

    /// Decodes a success payload, naming this endpoint in any
    /// failure.
    pub fn decode_success(v: &JsonValue) -> (r: Result<TradeConfirmSuccess, DecodeError>)
        ensures
            r matches Ok(s) ==> <TradeConfirmSuccess as FromJson>::decodable(v@)
                && <TradeConfirmSuccess as FromJson>::rel(v@, s),
            <TradeConfirmSuccess as FromJson>::decodable(v@) ==> r is Ok,
            r matches Err(e) ==> spec_starts_with(e.path@, "TradeConfirm"@),
    {
        match TradeConfirmSuccess::decode(v) {
            Ok(s) => Ok(s),
            Err(e) => Err(e.in_endpoint("TradeConfirm")),
        }
    }
}

/// The parameters of a [`TradeConfirm`] call.
#[derive(Debug, Clone, PartialEq)]
pub struct TradeConfirmParameters {
    pub holding_id: i64,
    pub company_event_id: i64,
    pub transaction_date: Date,
    pub state: String,
}

impl ToJson for TradeConfirmParameters {
    open spec fn enc(s: Self) -> Jv {
        Jv::Obj(
            Seq::<(Seq<char>, Jv)>::empty()
                + req_entry("holding_id"@, s.holding_id)
                + req_entry("company_event_id"@, s.company_event_id)
                + req_entry("transaction_date"@, s.transaction_date)
                + req_entry("state"@, s.state),
        )
    }

    fn encode(&self) -> (r: JsonValue) {
        let mut o = JsonObj::new();
        o.put("holding_id", &self.holding_id);
        o.put("company_event_id", &self.company_event_id);
        o.put("transaction_date", &self.transaction_date);
        o.put("state", &self.state);
        o.finish()
    }
}

impl FromJson for TradeConfirmParameters {
    open spec fn decodable(v: Jv) -> bool {
        &&& v is Obj
        &&& req_field_ok::<i64>(v, "holding_id"@)
        &&& req_field_ok::<i64>(v, "company_event_id"@)
        &&& req_field_ok::<Date>(v, "transaction_date"@)
        &&& req_field_ok::<String>(v, "state"@)
    }

    open spec fn rel(v: Jv, s: Self) -> bool {
        &&& v is Obj
        &&& req_field_rel::<i64>(v, "holding_id"@, s.holding_id)
        &&& req_field_rel::<i64>(v, "company_event_id"@, s.company_event_id)
        &&& req_field_rel::<Date>(v, "transaction_date"@, s.transaction_date)
        &&& req_field_rel::<String>(v, "state"@, s.state)
    }

    fn decode(v: &JsonValue) -> (r: Result<Self, DecodeError>) {
        let holding_id: i64 = match get_field(v, "holding_id") {
            Ok(x) => x,
            Err(e) => {
                return Err(e);
            },
        };
        let company_event_id: i64 = match get_field(v, "company_event_id") {
            Ok(x) => x,
            Err(e) => {
                return Err(e);
            },
        };
        let transaction_date: Date = match get_field(v, "transaction_date") {
            Ok(x) => x,
            Err(e) => {
                return Err(e);
            },
        };
        let state: String = match get_field(v, "state") {
            Ok(x) => x,
            Err(e) => {
                return Err(e);
            },
        };
        Ok(TradeConfirmParameters { holding_id, company_event_id, transaction_date, state })
    }
}

/// The success response of a [`TradeConfirm`] call.
#[derive(Debug, Clone, PartialEq)]
pub struct TradeConfirmSuccess {
    pub trade: TradeConfirmTradeSuccess,
}

impl ToJson for TradeConfirmSuccess {
    open spec fn enc(s: Self) -> Jv {
        Jv::Obj(
            Seq::<(Seq<char>, Jv)>::empty()
                + req_entry("trade"@, s.trade),
        )
    }

    fn encode(&self) -> (r: JsonValue) {
        let mut o = JsonObj::new();
        o.put("trade", &self.trade);
        o.finish()
    }
}

impl FromJson for TradeConfirmSuccess {
    open spec fn decodable(v: Jv) -> bool {
        &&& v is Obj
        &&& req_field_ok::<TradeConfirmTradeSuccess>(v, "trade"@)
    }

    open spec fn rel(v: Jv, s: Self) -> bool {
        &&& v is Obj
        &&& req_field_rel::<TradeConfirmTradeSuccess>(v, "trade"@, s.trade)
    }

    fn decode(v: &JsonValue) -> (r: Result<Self, DecodeError>) {
        let trade: TradeConfirmTradeSuccess = match get_field(v, "trade") {
            Ok(x) => x,
            Err(e) => {
                return Err(e);
            },
        };
        Ok(TradeConfirmSuccess { trade })
    }
}

/// A nested response shape of [`TradeConfirm`].
#[derive(Debug, Clone, PartialEq)]
pub struct TradeConfirmTradeSuccess {
    pub id: i64,
    pub transaction_type: TradeDescription,
    pub transaction_date: String,
    pub market: Market,
    pub symbol: String,
    pub quantity: Decimal,
    pub price: Decimal,
    pub exchange_rate: Decimal,
    pub brokerage: Decimal,
    pub brokerage_currency_code: Currency,
    pub value: String,
    pub comments: String,
    pub portfolio_id: i64,
    pub holding_id: i64,
    pub instrument_id: i64,
    pub company_event_id: i64,
    pub state: String,
}

impl ToJson for TradeConfirmTradeSuccess {
    open spec fn enc(s: Self) -> Jv {
        Jv::Obj(
            Seq::<(Seq<char>, Jv)>::empty()
                + req_entry("id"@, s.id)
                + req_entry("transaction_type"@, s.transaction_type)
                + req_entry("transaction_date"@, s.transaction_date)
                + req_entry("market"@, s.market)
                + req_entry("symbol"@, s.symbol)
                + req_entry("quantity"@, s.quantity)
                + req_entry("price"@, s.price)
                + req_entry("exchange_rate"@, s.exchange_rate)
                + req_entry("brokerage"@, s.brokerage)
                + req_entry("brokerage_currency_code"@, s.brokerage_currency_code)
                + req_entry("value"@, s.value)
                + req_entry("comments"@, s.comments)
                + req_entry("portfolio_id"@, s.portfolio_id)
                + req_entry("holding_id"@, s.holding_id)
                + req_entry("instrument_id"@, s.instrument_id)
                + req_entry("company_event_id"@, s.company_event_id)
                + req_entry("state"@, s.state),
        )
    }

    fn encode(&self) -> (r: JsonValue) {
        let mut o = JsonObj::new();
        o.put("id", &self.id);
        o.put("transaction_type", &self.transaction_type);
        o.put("transaction_date", &self.transaction_date);
        o.put("market", &self.market);
        o.put("symbol", &self.symbol);
        o.put("quantity", &self.quantity);
        o.put("price", &self.price);
        o.put("exchange_rate", &self.exchange_rate);
        o.put("brokerage", &self.brokerage);
        o.put("brokerage_currency_code", &self.brokerage_currency_code);
        o.put("value", &self.value);
        o.put("comments", &self.comments);
        o.put("portfolio_id", &self.portfolio_id);
        o.put("holding_id", &self.holding_id);
        o.put("instrument_id", &self.instrument_id);
        o.put("company_event_id", &self.company_event_id);
        o.put("state", &self.state);
        o.finish()
    }
}

impl FromJson for TradeConfirmTradeSuccess {
    open spec fn decodable(v: Jv) -> bool {
        &&& v is Obj
        &&& req_field_ok::<i64>(v, "id"@)
        &&& req_field_ok::<TradeDescription>(v, "transaction_type"@)
        &&& req_field_ok::<String>(v, "transaction_date"@)
        &&& req_field_ok::<Market>(v, "market"@)
        &&& req_field_ok::<String>(v, "symbol"@)
        &&& req_field_ok::<Decimal>(v, "quantity"@)
        &&& req_field_ok::<Decimal>(v, "price"@)
        &&& req_field_ok::<Decimal>(v, "exchange_rate"@)
        &&& req_field_ok::<Decimal>(v, "brokerage"@)
        &&& req_field_ok::<Currency>(v, "brokerage_currency_code"@)
        &&& req_field_ok::<String>(v, "value"@)
        &&& req_field_ok::<String>(v, "comments"@)
        &&& req_field_ok::<i64>(v, "portfolio_id"@)
        &&& req_field_ok::<i64>(v, "holding_id"@)
        &&& req_field_ok::<i64>(v, "instrument_id"@)
        &&& req_field_ok::<i64>(v, "company_event_id"@)
        &&& req_field_ok::<String>(v, "state"@)
    }

    open spec fn rel(v: Jv, s: Self) -> bool {
        &&& v is Obj
        &&& req_field_rel::<i64>(v, "id"@, s.id)
        &&& req_field_rel::<TradeDescription>(v, "transaction_type"@, s.transaction_type)
        &&& req_field_rel::<String>(v, "transaction_date"@, s.transaction_date)
        &&& req_field_rel::<Market>(v, "market"@, s.market)
        &&& req_field_rel::<String>(v, "symbol"@, s.symbol)
        &&& req_field_rel::<Decimal>(v, "quantity"@, s.quantity)
        &&& req_field_rel::<Decimal>(v, "price"@, s.price)
        &&& req_field_rel::<Decimal>(v, "exchange_rate"@, s.exchange_rate)
        &&& req_field_rel::<Decimal>(v, "brokerage"@, s.brokerage)
        &&& req_field_rel::<Currency>(v, "brokerage_currency_code"@, s.brokerage_currency_code)
        &&& req_field_rel::<String>(v, "value"@, s.value)
        &&& req_field_rel::<String>(v, "comments"@, s.comments)
        &&& req_field_rel::<i64>(v, "portfolio_id"@, s.portfolio_id)
        &&& req_field_rel::<i64>(v, "holding_id"@, s.holding_id)
        &&& req_field_rel::<i64>(v, "instrument_id"@, s.instrument_id)
        &&& req_field_rel::<i64>(v, "company_event_id"@, s.company_event_id)
        &&& req_field_rel::<String>(v, "state"@, s.state)
    }

    fn decode(v: &JsonValue) -> (r: Result<Self, DecodeError>) {
        let id: i64 = match get_field(v, "id") {
            Ok(x) => x,
            Err(e) => {
                return Err(e);
            },
        };
        let transaction_type: TradeDescription = match get_field(v, "transaction_type") {
            Ok(x) => x,
            Err(e) => {
                return Err(e);
            },
        };
        let transaction_date: String = match get_field(v, "transaction_date") {
            Ok(x) => x,
            Err(e) => {
                return Err(e);
            },
        };
        let market: Market = match get_field(v, "market") {
            Ok(x) => x,
            Err(e) => {
                return Err(e);
            },
        };
        let symbol: String = match get_field(v, "symbol") {
            Ok(x) => x,
            Err(e) => {
                return Err(e);
            },
        };
        let quantity: Decimal = match get_field(v, "quantity") {
            Ok(x) => x,
            Err(e) => {
                return Err(e);
            },
        };
        let price: Decimal = match get_field(v, "price") {
            Ok(x) => x,
            Err(e) => {
                return Err(e);
            },
        };
        let exchange_rate: Decimal = match get_field(v, "exchange_rate") {
            Ok(x) => x,
            Err(e) => {
                return Err(e);
            },
        };
        let brokerage: Decimal = match get_field(v, "brokerage") {
            Ok(x) => x,
            Err(e) => {
                return Err(e);
            },
        };
        let brokerage_currency_code: Currency = match get_field(v, "brokerage_currency_code") {
            Ok(x) => x,
            Err(e) => {
                return Err(e);
            },
        };
        let value: String = match get_field(v, "value") {
            Ok(x) => x,
            Err(e) => {
                return Err(e);
            },
        };
        let comments: String = match get_field(v, "comments") {
            Ok(x) => x,
            Err(e) => {
                return Err(e);
            },
        };
        let portfolio_id: i64 = match get_field(v, "portfolio_id") {
            Ok(x) => x,
            Err(e) => {
                return Err(e);
            },
        };
        let holding_id: i64 = match get_field(v, "holding_id") {
            Ok(x) => x,
            Err(e) => {
                return Err(e);
            },
        };
        let instrument_id: i64 = match get_field(v, "instrument_id") {
            Ok(x) => x,
            Err(e) => {
                return Err(e);
            },
        };
        let company_event_id: i64 = match get_field(v, "company_event_id") {
            Ok(x) => x,
            Err(e) => {
                return Err(e);
            },
        };
        let state: String = match get_field(v, "state") {
            Ok(x) => x,
            Err(e) => {
                return Err(e);
            },
        };
        Ok(TradeConfirmTradeSuccess { id, transaction_type, transaction_date, market, symbol, quantity, price, exchange_rate, brokerage, brokerage_currency_code, value, comments, portfolio_id, holding_id, instrument_id, company_event_id, state })
    }
}

/// `POST /trades.json`.
pub struct TradeReject;

impl TradeReject {
    /// The URL template of this endpoint.
    pub fn url_template() -> (r: &'static str)
        ensures
            r@ == "/trades.json"@,
    {
        "/trades.json"
    }

    /// The HTTP method of this endpoint.
    pub fn http_method() -> (r: ApiHttpMethod)
        ensures
            r == ApiHttpMethod::Post,
    {
        ApiHttpMethod::Post
    }

    /// The URL path of this endpoint; it takes no parameters.
    pub fn url_path() -> (r: &'static str)
        ensures
            r@ == "/trades.json"@,
    {
        "/trades.json"
    }

    /// Decodes a success payload, naming this endpoint in any
    /// failure.
    pub fn decode_success(v: &JsonValue) -> (r: Result<TradeRejectSuccess, DecodeError>)
        ensures
            r matches Ok(s) ==> <TradeRejectSuccess as FromJson>::decodable(v@)
                && <TradeRejectSuccess as FromJson>::rel(v@, s),
            <TradeRejectSuccess as FromJson>::decodable(v@) ==> r is Ok,
            r matches Err(e) ==> spec_starts_with(e.path@, "TradeReject"@),
    {
        match TradeRejectSuccess::decode(v) {
            Ok(s) => Ok(s),
            Err(e) => Err(e.in_endpoint("TradeReject")),
        }
    }
}

/// The parameters of a [`TradeReject`] call.
#[derive(Debug, Clone, PartialEq)]
pub struct TradeRejectParameters {
    pub holding_id: i64,
    pub company_event_id: i64,
    pub transaction_date: Date,
    pub state: String,
}

impl ToJson for TradeRejectParameters {
    open spec fn enc(s: Self) -> Jv {
        Jv::Obj(
            Seq::<(Seq<char>, Jv)>::empty()
                + req_entry("holding_id"@, s.holding_id)
                + req_entry("company_event_id"@, s.company_event_id)
                + req_entry("transaction_date"@, s.transaction_date)
                + req_entry("state"@, s.state),
        )
    }

    fn encode(&self) -> (r: JsonValue) {
        let mut o = JsonObj::new();
        o.put("holding_id", &self.holding_id);
        o.put("company_event_id", &self.company_event_id);
        o.put("transaction_date", &self.transaction_date);
        o.put("state", &self.state);
        o.finish()
    }
}

impl FromJson for TradeRejectParameters {
    open spec fn decodable(v: Jv) -> bool {
        &&& v is Obj
        &&& req_field_ok::<i64>(v, "holding_id"@)
        &&& req_field_ok::<i64>(v, "company_event_id"@)
        &&& req_field_ok::<Date>(v, "transaction_date"@)
        &&& req_field_ok::<String>(v, "state"@)
    }

    open spec fn rel(v: Jv, s: Self) -> bool {
        &&& v is Obj
        &&& req_field_rel::<i64>(v, "holding_id"@, s.holding_id)
        &&& req_field_rel::<i64>(v, "company_event_id"@, s.company_event_id)
        &&& req_field_rel::<Date>(v, "transaction_date"@, s.transaction_date)
        &&& req_field_rel::<String>(v, "state"@, s.state)
    }

    fn decode(v: &JsonValue) -> (r: Result<Self, DecodeError>) {
        let holding_id: i64 = match get_field(v, "holding_id") {
            Ok(x) => x,
            Err(e) => {
                return Err(e);
            },
        };
        let company_event_id: i64 = match get_field(v, "company_event_id") {
            Ok(x) => x,
            Err(e) => {
                return Err(e);
            },
        };
        let transaction_date: Date = match get_field(v, "transaction_date") {
            Ok(x) => x,
            Err(e) => {
                return Err(e);
            },
        };
        let state: String = match get_field(v, "state") {
            Ok(x) => x,
            Err(e) => {
                return Err(e);
            },
        };
        Ok(TradeRejectParameters { holding_id, company_event_id, transaction_date, state })
    }
}

/// The success response of a [`TradeReject`] call.
#[derive(Debug, Clone, PartialEq)]
pub struct TradeRejectSuccess {
    pub trade: TradeRejectTradeSuccess,
}

impl ToJson for TradeRejectSuccess {
    open spec fn enc(s: Self) -> Jv {
        Jv::Obj(
            Seq::<(Seq<char>, Jv)>::empty()
                + req_entry("trade"@, s.trade),
        )
    }

    fn encode(&self) -> (r: JsonValue) {
        let mut o = JsonObj::new();
        o.put("trade", &self.trade);
        o.finish()
    }
}

impl FromJson for TradeRejectSuccess {
    open spec fn decodable(v: Jv) -> bool {
        &&& v is Obj
        &&& req_field_ok::<TradeRejectTradeSuccess>(v, "trade"@)
    }

    open spec fn rel(v: Jv, s: Self) -> bool {
        &&& v is Obj
        &&& req_field_rel::<TradeRejectTradeSuccess>(v, "trade"@, s.trade)
    }

    fn decode(v: &JsonValue) -> (r: Result<Self, DecodeError>) {
        let trade: TradeRejectTradeSuccess = match get_field(v, "trade") {
            Ok(x) => x,
            Err(e) => {
                return Err(e);
            },
        };
        Ok(TradeRejectSuccess { trade })
    }
}

/// A nested response shape of [`TradeReject`].
#[derive(Debug, Clone, PartialEq)]
pub struct TradeRejectTradeSuccess {
    pub id: i64,
    pub transaction_type: TradeDescription,
    pub transaction_date: String,
    pub market: Market,
    pub symbol: String,
    pub quantity: Decimal,
    pub price: Decimal,
    pub exchange_rate: Decimal,
    pub brokerage: Decimal,
    pub brokerage_currency_code: Currency,
    pub value: String,
    pub comments: String,
    pub portfolio_id: i64,
    pub holding_id: i64,
    pub instrument_id: i64,
    pub company_event_id: i64,
    pub state: String,
}

impl ToJson for TradeRejectTradeSuccess {
    open spec fn enc(s: Self) -> Jv {
        Jv::Obj(
            Seq::<(Seq<char>, Jv)>::empty()
                + req_entry("id"@, s.id)
                + req_entry("transaction_type"@, s.transaction_type)
                + req_entry("transaction_date"@, s.transaction_date)
                + req_entry("market"@, s.market)
                + req_entry("symbol"@, s.symbol)
                + req_entry("quantity"@, s.quantity)
                + req_entry("price"@, s.price)
                + req_entry("exchange_rate"@, s.exchange_rate)
                + req_entry("brokerage"@, s.brokerage)
                + req_entry("brokerage_currency_code"@, s.brokerage_currency_code)
                + req_entry("value"@, s.value)
                + req_entry("comments"@, s.comments)
                + req_entry("portfolio_id"@, s.portfolio_id)
                + req_entry("holding_id"@, s.holding_id)
                + req_entry("instrument_id"@, s.instrument_id)
                + req_entry("company_event_id"@, s.company_event_id)
                + req_entry("state"@, s.state),
        )
    }

    fn encode(&self) -> (r: JsonValue) {
        let mut o = JsonObj::new();
        o.put("id", &self.id);
        o.put("transaction_type", &self.transaction_type);
        o.put("transaction_date", &self.transaction_date);
        o.put("market", &self.market);
        o.put("symbol", &self.symbol);
        o.put("quantity", &self.quantity);
        o.put("price", &self.price);
        o.put("exchange_rate", &self.exchange_rate);
        o.put("brokerage", &self.brokerage);
        o.put("brokerage_currency_code", &self.brokerage_currency_code);
        o.put("value", &self.value);
        o.put("comments", &self.comments);
        o.put("portfolio_id", &self.portfolio_id);
        o.put("holding_id", &self.holding_id);
        o.put("instrument_id", &self.instrument_id);
        o.put("company_event_id", &self.company_event_id);
        o.put("state", &self.state);
        o.finish()
    }
}

impl FromJson for TradeRejectTradeSuccess {
    open spec fn decodable(v: Jv) -> bool {
        &&& v is Obj
        &&& req_field_ok::<i64>(v, "id"@)
        &&& req_field_ok::<TradeDescription>(v, "transaction_type"@)
        &&& req_field_ok::<String>(v, "transaction_date"@)
        &&& req_field_ok::<Market>(v, "market"@)
        &&& req_field_ok::<String>(v, "symbol"@)
        &&& req_field_ok::<Decimal>(v, "quantity"@)
        &&& req_field_ok::<Decimal>(v, "price"@)
        &&& req_field_ok::<Decimal>(v, "exchange_rate"@)
        &&& req_field_ok::<Decimal>(v, "brokerage"@)
        &&& req_field_ok::<Currency>(v, "brokerage_currency_code"@)
        &&& req_field_ok::<String>(v, "value"@)
        &&& req_field_ok::<String>(v, "comments"@)
        &&& req_field_ok::<i64>(v, "portfolio_id"@)
        &&& req_field_ok::<i64>(v, "holding_id"@)
        &&& req_field_ok::<i64>(v, "instrument_id"@)
        &&& req_field_ok::<i64>(v, "company_event_id"@)
        &&& req_field_ok::<String>(v, "state"@)
    }

    open spec fn rel(v: Jv, s: Self) -> bool {
        &&& v is Obj
        &&& req_field_rel::<i64>(v, "id"@, s.id)
        &&& req_field_rel::<TradeDescription>(v, "transaction_type"@, s.transaction_type)
        &&& req_field_rel::<String>(v, "transaction_date"@, s.transaction_date)
        &&& req_field_rel::<Market>(v, "market"@, s.market)
        &&& req_field_rel::<String>(v, "symbol"@, s.symbol)
        &&& req_field_rel::<Decimal>(v, "quantity"@, s.quantity)
        &&& req_field_rel::<Decimal>(v, "price"@, s.price)
        &&& req_field_rel::<Decimal>(v, "exchange_rate"@, s.exchange_rate)
        &&& req_field_rel::<Decimal>(v, "brokerage"@, s.brokerage)
        &&& req_field_rel::<Currency>(v, "brokerage_currency_code"@, s.brokerage_currency_code)
        &&& req_field_rel::<String>(v, "value"@, s.value)
        &&& req_field_rel::<String>(v, "comments"@, s.comments)
        &&& req_field_rel::<i64>(v, "portfolio_id"@, s.portfolio_id)
        &&& req_field_rel::<i64>(v, "holding_id"@, s.holding_id)
        &&& req_field_rel::<i64>(v, "instrument_id"@, s.instrument_id)
        &&& req_field_rel::<i64>(v, "company_event_id"@, s.company_event_id)
        &&& req_field_rel::<String>(v, "state"@, s.state)
    }

    fn decode(v: &JsonValue) -> (r: Result<Self, DecodeError>) {
        let id: i64 = match get_field(v, "id") {
            Ok(x) => x,
            Err(e) => {
                return Err(e);
            },
        };
        let transaction_type: TradeDescription = match get_field(v, "transaction_type") {
            Ok(x) => x,
            Err(e) => {
                return Err(e);
            },
        };
        let transaction_date: String = match get_field(v, "transaction_date") {
            Ok(x) => x,
            Err(e) => {
                return Err(e);
            },
        };
        let market: Market = match get_field(v, "market") {
            Ok(x) => x,
            Err(e) => {
                return Err(e);
            },
        };
        let symbol: String = match get_field(v, "symbol") {
            Ok(x) => x,
            Err(e) => {
                return Err(e);
            },
        };
        let quantity: Decimal = match get_field(v, "quantity") {
            Ok(x) => x,
            Err(e) => {
                return Err(e);
            },
        };
        let price: Decimal = match get_field(v, "price") {
            Ok(x) => x,
            Err(e) => {
                return Err(e);
            },
        };
        let exchange_rate: Decimal = match get_field(v, "exchange_rate") {
            Ok(x) => x,
            Err(e) => {
                return Err(e);
            },
        };
        let brokerage: Decimal = match get_field(v, "brokerage") {
            Ok(x) => x,
            Err(e) => {
                return Err(e);
            },
        };
        let brokerage_currency_code: Currency = match get_field(v, "brokerage_currency_code") {
            Ok(x) => x,
            Err(e) => {
                return Err(e);
            },
        };
        let value: String = match get_field(v, "value") {
            Ok(x) => x,
            Err(e) => {
                return Err(e);
            },
        };
        let comments: String = match get_field(v, "comments") {
            Ok(x) => x,
            Err(e) => {
                return Err(e);
            },
        };
        let portfolio_id: i64 = match get_field(v, "portfolio_id") {
            Ok(x) => x,
            Err(e) => {
                return Err(e);
            },
        };
        let holding_id: i64 = match get_field(v, "holding_id") {
            Ok(x) => x,
            Err(e) => {
                return Err(e);
            },
        };
        let instrument_id: i64 = match get_field(v, "instrument_id") {
            Ok(x) => x,
            Err(e) => {
                return Err(e);
            },
        };
        let company_event_id: i64 = match get_field(v, "company_event_id") {
            Ok(x) => x,
            Err(e) => {
                return Err(e);
            },
        };
        let state: String = match get_field(v, "state") {
            Ok(x) => x,
            Err(e) => {
                return Err(e);
            },
        };
        Ok(TradeRejectTradeSuccess { id, transaction_type, transaction_date, market, symbol, quantity, price, exchange_rate, brokerage, brokerage_currency_code, value, comments, portfolio_id, holding_id, instrument_id, company_event_id, state })
    }
}

/// `GET /portfolios/:portfolio_id/trades.json`.
pub struct Trades;

/// The parameters of a [`Trades`] call, held for URL rendering.
pub struct TradesUrlDisplay<'a>(pub &'a TradesParameters);

impl<'a> TradesUrlDisplay<'a> {
    /// Renders the resolved URL path.
    pub fn render(&self) -> (r: String)
        ensures
            r@ == Trades::spec_url(*self.0),
    {
        Trades::url(self.0)
    }
}

impl Trades {
    /// The URL template of this endpoint.
    pub fn url_template() -> (r: &'static str)
        ensures
            r@ == "/portfolios/:portfolio_id/trades.json"@,
    {
        "/portfolios/:portfolio_id/trades.json"
    }

    /// The HTTP method of this endpoint.
    pub fn http_method() -> (r: ApiHttpMethod)
        ensures
            r == ApiHttpMethod::Get,
    {
        ApiHttpMethod::Get
    }

    /// The URL path that `p` resolves the template to.
    pub open spec fn spec_url(p: TradesParameters) -> Seq<char> {
        "/portfolios/"@ + p.portfolio_id@ + "/trades.json"@
    }

    /// Resolves the URL template with the fields of `parameters`:
    /// plain decimal digits for integers, strings as they are.
    pub fn url(parameters: &TradesParameters) -> (r: String)
        ensures
            r@ == Self::spec_url(*parameters),
    {
        let mut s = "/portfolios/".to_owned();
        s.append(parameters.portfolio_id.as_str());
        s.append("/trades.json");
        s
    }

    /// Wraps `parameters` for URL rendering.
    pub fn url_path<'a>(parameters: &'a TradesParameters) -> (r: TradesUrlDisplay<'a>)
        ensures
            r.0 == parameters,
    {
        TradesUrlDisplay(parameters)
    }

    /// Decodes a success payload, naming this endpoint in any
    /// failure.
    pub fn decode_success(v: &JsonValue) -> (r: Result<TradesSuccess, DecodeError>)
        ensures
            r matches Ok(s) ==> <TradesSuccess as FromJson>::decodable(v@)
                && <TradesSuccess as FromJson>::rel(v@, s),
            <TradesSuccess as FromJson>::decodable(v@) ==> r is Ok,
            r matches Err(e) ==> spec_starts_with(e.path@, "Trades"@),
    {
        match TradesSuccess::decode(v) {
            Ok(s) => Ok(s),
            Err(e) => Err(e.in_endpoint("Trades")),
        }
    }
}

/// The parameters of a [`Trades`] call.
#[derive(Debug, Clone, PartialEq)]
pub struct TradesParameters {
    pub portfolio_id: String,
    pub start_date: Option<Date>,
    pub end_date: Option<Date>,
    pub unique_identifier: Option<String>,
}

impl ToJson for TradesParameters {
    open spec fn enc(s: Self) -> Jv {
        Jv::Obj(
            Seq::<(Seq<char>, Jv)>::empty()
                + req_entry("portfolio_id"@, s.portfolio_id)
                + opt_entry("start_date"@, s.start_date)
                + opt_entry("end_date"@, s.end_date)
                + opt_entry("unique_identifier"@, s.unique_identifier),
        )
    }

    fn encode(&self) -> (r: JsonValue) {
        let mut o = JsonObj::new();
        o.put("portfolio_id", &self.portfolio_id);
        o.put_opt("start_date", &self.start_date);
        o.put_opt("end_date", &self.end_date);
        o.put_opt("unique_identifier", &self.unique_identifier);
        o.finish()
    }
}

impl FromJson for TradesParameters {
    open spec fn decodable(v: Jv) -> bool {
        &&& v is Obj
        &&& req_field_ok::<String>(v, "portfolio_id"@)
        &&& opt_field_ok::<Date>(v, "start_date"@)
        &&& opt_field_ok::<Date>(v, "end_date"@)
        &&& opt_field_ok::<String>(v, "unique_identifier"@)
    }

    open spec fn rel(v: Jv, s: Self) -> bool {
        &&& v is Obj
        &&& req_field_rel::<String>(v, "portfolio_id"@, s.portfolio_id)
        &&& opt_field_rel::<Date>(v, "start_date"@, s.start_date)
        &&& opt_field_rel::<Date>(v, "end_date"@, s.end_date)
        &&& opt_field_rel::<String>(v, "unique_identifier"@, s.unique_identifier)
    }

    fn decode(v: &JsonValue) -> (r: Result<Self, DecodeError>) {
        let portfolio_id: String = match get_field(v, "portfolio_id") {
            Ok(x) => x,
            Err(e) => {
                return Err(e);
            },
        };
        let start_date: Option<Date> = match get_opt_field(v, "start_date") {
            Ok(x) => x,
            Err(e) => {
                return Err(e);
            },
        };
        let end_date: Option<Date> = match get_opt_field(v, "end_date") {
            Ok(x) => x,
            Err(e) => {
                return Err(e);
            },
        };
        let unique_identifier: Option<String> = match get_opt_field(v, "unique_identifier") {
            Ok(x) => x,
            Err(e) => {
                return Err(e);
            },
        };
        Ok(TradesParameters { portfolio_id, start_date, end_date, unique_identifier })
    }
}

/// The success response of a [`Trades`] call.
#[derive(Debug, Clone, PartialEq)]
pub struct TradesSuccess {
    pub trades: Vec<TradesTradesSuccess>,
    pub api_transaction: TradesApiTransactionSuccess,
}

impl ToJson for TradesSuccess {
    open spec fn enc(s: Self) -> Jv {
        Jv::Obj(
            Seq::<(Seq<char>, Jv)>::empty()
                + req_entry("trades"@, s.trades)
                + req_entry("api_transaction"@, s.api_transaction),
        )
    }

    fn encode(&self) -> (r: JsonValue) {
        let mut o = JsonObj::new();
        o.put("trades", &self.trades);
        o.put("api_transaction", &self.api_transaction);
        o.finish()
    }
}

impl FromJson for TradesSuccess {
    open spec fn decodable(v: Jv) -> bool {
        &&& v is Obj
        &&& req_field_ok::<Vec<TradesTradesSuccess>>(v, "trades"@)
        &&& req_field_ok::<TradesApiTransactionSuccess>(v, "api_transaction"@)
    }

    open spec fn rel(v: Jv, s: Self) -> bool {
        &&& v is Obj
        &&& req_field_rel::<Vec<TradesTradesSuccess>>(v, "trades"@, s.trades)
        &&& req_field_rel::<TradesApiTransactionSuccess>(v, "api_transaction"@, s.api_transaction)
    }

    fn decode(v: &JsonValue) -> (r: Result<Self, DecodeError>) {
        let trades: Vec<TradesTradesSuccess> = match get_field(v, "trades") {
            Ok(x) => x,
            Err(e) => {
                return Err(e);
            },
        };
        let api_transaction: TradesApiTransactionSuccess = match get_field(v, "api_transaction") {
            Ok(x) => x,
            Err(e) => {
                return Err(e);
            },
        };
        Ok(TradesSuccess { trades, api_transaction })
    }
}

/// A nested response shape of [`Trades`].
#[derive(Debug, Clone, PartialEq)]
pub struct TradesTradesSuccess {
    pub id: Option<i64>,
    pub unique_identifier: Option<String>,
    pub transaction_date: Date,
    pub quantity: Decimal,
    pub price: Decimal,
    pub cost_base: Option<Decimal>,
    pub exchange_rate: Decimal,
    pub brokerage: Decimal,
    pub brokerage_currency_code: Option<Currency>,
    pub value: Decimal,
    pub paid_on: Option<Date>,
    pub company_event_id: Option<i64>,
    pub comments: String,
    pub portfolio_id: i64,
    pub holding_id: i64,
    pub state: String,
    pub transaction_type: TradeDescription,
    pub instrument_id: i64,
    pub symbol: String,
    pub market: Market,
    pub attachment_filename: Option<String>,
    pub attachment_id: Option<i64>,
    pub confirmed: bool,
}

impl ToJson for TradesTradesSuccess {
    open spec fn enc(s: Self) -> Jv {
        Jv::Obj(
            Seq::<(Seq<char>, Jv)>::empty()
                + opt_entry("id"@, s.id)
                + opt_entry("unique_identifier"@, s.unique_identifier)
                + req_entry("transaction_date"@, s.transaction_date)
                + req_entry("quantity"@, s.quantity)
                + req_entry("price"@, s.price)
                + opt_entry("cost_base"@, s.cost_base)
                + req_entry("exchange_rate"@, s.exchange_rate)
                + req_entry("brokerage"@, s.brokerage)
                + opt_entry("brokerage_currency_code"@, s.brokerage_currency_code)
                + req_entry("value"@, s.value)
                + opt_entry("paid_on"@, s.paid_on)
                + opt_entry("company_event_id"@, s.company_event_id)
                + req_entry("comments"@, s.comments)
                + req_entry("portfolio_id"@, s.portfolio_id)
                + req_entry("holding_id"@, s.holding_id)
                + req_entry("state"@, s.state)
                + req_entry("transaction_type"@, s.transaction_type)
                + req_entry("instrument_id"@, s.instrument_id)
                + req_entry("symbol"@, s.symbol)
                + req_entry("market"@, s.market)
                + opt_entry("attachment_filename"@, s.attachment_filename)
                + opt_entry("attachment_id"@, s.attachment_id)
                + req_entry("confirmed"@, s.confirmed),
        )
    }

    fn encode(&self) -> (r: JsonValue) {
        let mut o = JsonObj::new();
        o.put_opt("id", &self.id);
        o.put_opt("unique_identifier", &self.unique_identifier);
        o.put("transaction_date", &self.transaction_date);
        o.put("quantity", &self.quantity);
        o.put("price", &self.price);
        o.put_opt("cost_base", &self.cost_base);
        o.put("exchange_rate", &self.exchange_rate);
        o.put("brokerage", &self.brokerage);
        o.put_opt("brokerage_currency_code", &self.brokerage_currency_code);
        o.put("value", &self.value);
        o.put_opt("paid_on", &self.paid_on);
        o.put_opt("company_event_id", &self.company_event_id);
        o.put("comments", &self.comments);
        o.put("portfolio_id", &self.portfolio_id);
        o.put("holding_id", &self.holding_id);
        o.put("state", &self.state);
        o.put("transaction_type", &self.transaction_type);
        o.put("instrument_id", &self.instrument_id);
        o.put("symbol", &self.symbol);
        o.put("market", &self.market);
        o.put_opt("attachment_filename", &self.attachment_filename);
        o.put_opt("attachment_id", &self.attachment_id);
        o.put("confirmed", &self.confirmed);
        o.finish()
    }
}

impl FromJson for TradesTradesSuccess {
    open spec fn decodable(v: Jv) -> bool {
        &&& v is Obj
        &&& opt_field_ok::<i64>(v, "id"@)
        &&& opt_field_ok::<String>(v, "unique_identifier"@)
        &&& req_field_ok::<Date>(v, "transaction_date"@)
        &&& req_field_ok::<Decimal>(v, "quantity"@)
        &&& req_field_ok::<Decimal>(v, "price"@)
        &&& opt_field_ok::<Decimal>(v, "cost_base"@)
        &&& req_field_ok::<Decimal>(v, "exchange_rate"@)
        &&& req_field_ok::<Decimal>(v, "brokerage"@)
        &&& opt_field_ok::<Currency>(v, "brokerage_currency_code"@)
        &&& req_field_ok::<Decimal>(v, "value"@)
        &&& opt_field_ok::<Date>(v, "paid_on"@)
        &&& opt_field_ok::<i64>(v, "company_event_id"@)
        &&& req_field_ok::<String>(v, "comments"@)
        &&& req_field_ok::<i64>(v, "portfolio_id"@)
        &&& req_field_ok::<i64>(v, "holding_id"@)
        &&& req_field_ok::<String>(v, "state"@)
        &&& req_field_ok::<TradeDescription>(v, "transaction_type"@)
        &&& req_field_ok::<i64>(v, "instrument_id"@)
        &&& req_field_ok::<String>(v, "symbol"@)
        &&& req_field_ok::<Market>(v, "market"@)
        &&& opt_field_ok::<String>(v, "attachment_filename"@)
        &&& opt_field_ok::<i64>(v, "attachment_id"@)
        &&& req_field_ok::<bool>(v, "confirmed"@)
    }

    open spec fn rel(v: Jv, s: Self) -> bool {
        &&& v is Obj
        &&& opt_field_rel::<i64>(v, "id"@, s.id)
        &&& opt_field_rel::<String>(v, "unique_identifier"@, s.unique_identifier)
        &&& req_field_rel::<Date>(v, "transaction_date"@, s.transaction_date)
        &&& req_field_rel::<Decimal>(v, "quantity"@, s.quantity)
        &&& req_field_rel::<Decimal>(v, "price"@, s.price)
        &&& opt_field_rel::<Decimal>(v, "cost_base"@, s.cost_base)
        &&& req_field_rel::<Decimal>(v, "exchange_rate"@, s.exchange_rate)
        &&& req_field_rel::<Decimal>(v, "brokerage"@, s.brokerage)
        &&& opt_field_rel::<Currency>(v, "brokerage_currency_code"@, s.brokerage_currency_code)
        &&& req_field_rel::<Decimal>(v, "value"@, s.value)
        &&& opt_field_rel::<Date>(v, "paid_on"@, s.paid_on)
        &&& opt_field_rel::<i64>(v, "company_event_id"@, s.company_event_id)
        &&& req_field_rel::<String>(v, "comments"@, s.comments)
        &&& req_field_rel::<i64>(v, "portfolio_id"@, s.portfolio_id)
        &&& req_field_rel::<i64>(v, "holding_id"@, s.holding_id)
        &&& req_field_rel::<String>(v, "state"@, s.state)
        &&& req_field_rel::<TradeDescription>(v, "transaction_type"@, s.transaction_type)
        &&& req_field_rel::<i64>(v, "instrument_id"@, s.instrument_id)
        &&& req_field_rel::<String>(v, "symbol"@, s.symbol)
        &&& req_field_rel::<Market>(v, "market"@, s.market)
        &&& opt_field_rel::<String>(v, "attachment_filename"@, s.attachment_filename)
        &&& opt_field_rel::<i64>(v, "attachment_id"@, s.attachment_id)
        &&& req_field_rel::<bool>(v, "confirmed"@, s.confirmed)
    }

    fn decode(v: &JsonValue) -> (r: Result<Self, DecodeError>) {
        let id: Option<i64> = match get_opt_field(v, "id") {
            Ok(x) => x,
            Err(e) => {
                return Err(e);
            },
        };
        let unique_identifier: Option<String> = match get_opt_field(v, "unique_identifier") {
            Ok(x) => x,
            Err(e) => {
                return Err(e);
            },
        };
        let transaction_date: Date = match get_field(v, "transaction_date") {
            Ok(x) => x,
            Err(e) => {
                return Err(e);
            },
        };
        let quantity: Decimal = match get_field(v, "quantity") {
            Ok(x) => x,
            Err(e) => {
                return Err(e);
            },
        };
        let price: Decimal = match get_field(v, "price") {
            Ok(x) => x,
            Err(e) => {
                return Err(e);
            },
        };
        let cost_base: Option<Decimal> = match get_opt_field(v, "cost_base") {
            Ok(x) => x,
            Err(e) => {
                return Err(e);
            },
        };
        let exchange_rate: Decimal = match get_field(v, "exchange_rate") {
            Ok(x) => x,
            Err(e) => {
                return Err(e);
            },
        };
        let brokerage: Decimal = match get_field(v, "brokerage") {
            Ok(x) => x,
            Err(e) => {
                return Err(e);
            },
        };
        let brokerage_currency_code: Option<Currency> = match get_opt_field(v, "brokerage_currency_code") {
            Ok(x) => x,
            Err(e) => {
                return Err(e);
            },
        };
        let value: Decimal = match get_field(v, "value") {
            Ok(x) => x,
            Err(e) => {
                return Err(e);
            },
        };
        let paid_on: Option<Date> = match get_opt_field(v, "paid_on") {
            Ok(x) => x,
            Err(e) => {
                return Err(e);
            },
        };
        let company_event_id: Option<i64> = match get_opt_field(v, "company_event_id") {
            Ok(x) => x,
            Err(e) => {
                return Err(e);
            },
        };
        let comments: String = match get_field(v, "comments") {
            Ok(x) => x,
            Err(e) => {
                return Err(e);
            },
        };
        let portfolio_id: i64 = match get_field(v, "portfolio_id") {
            Ok(x) => x,
            Err(e) => {
                return Err(e);
            },
        };
        let holding_id: i64 = match get_field(v, "holding_id") {
            Ok(x) => x,
            Err(e) => {
                return Err(e);
            },
        };
        let state: String = match get_field(v, "state") {
            Ok(x) => x,
            Err(e) => {
                return Err(e);
            },
        };
        let transaction_type: TradeDescription = match get_field(v, "transaction_type") {
            Ok(x) => x,
            Err(e) => {
                return Err(e);
            },
        };
        let instrument_id: i64 = match get_field(v, "instrument_id") {
            Ok(x) => x,
            Err(e) => {
                return Err(e);
            },
        };
        let symbol: String = match get_field(v, "symbol") {
            Ok(x) => x,
            Err(e) => {
                return Err(e);
            },
        };
        let market: Market = match get_field(v, "market") {
            Ok(x) => x,
            Err(e) => {
                return Err(e);
            },
        };
        let attachment_filename: Option<String> = match get_opt_field(v, "attachment_filename") {
            Ok(x) => x,
            Err(e) => {
                return Err(e);
            },
        };
        let attachment_id: Option<i64> = match get_opt_field(v, "attachment_id") {
            Ok(x) => x,
            Err(e) => {
                return Err(e);
            },
        };
        let confirmed: bool = match get_field(v, "confirmed") {
            Ok(x) => x,
            Err(e) => {
                return Err(e);
            },
        };
        Ok(TradesTradesSuccess { id, unique_identifier, transaction_date, quantity, price, cost_base, exchange_rate, brokerage, brokerage_currency_code, value, paid_on, company_event_id, comments, portfolio_id, holding_id, state, transaction_type, instrument_id, symbol, market, attachment_filename, attachment_id, confirmed })
    }
}

/// A nested response shape of [`Trades`].
#[derive(Debug, Clone, PartialEq)]
pub struct TradesApiTransactionSuccess {
    pub id: i64,
    pub version: i64,
    pub action: String,
    pub timestamp: String,
}

impl ToJson for TradesApiTransactionSuccess {
    open spec fn enc(s: Self) -> Jv {
        Jv::Obj(
            Seq::<(Seq<char>, Jv)>::empty()
                + req_entry("id"@, s.id)
                + req_entry("version"@, s.version)
                + req_entry("action"@, s.action)
                + req_entry("timestamp"@, s.timestamp),
        )
    }

    fn encode(&self) -> (r: JsonValue) {
        let mut o = JsonObj::new();
        o.put("id", &self.id);
        o.put("version", &self.version);
        o.put("action", &self.action);
        o.put("timestamp", &self.timestamp);
        o.finish()
    }
}

impl FromJson for TradesApiTransactionSuccess {
    open spec fn decodable(v: Jv) -> bool {
        &&& v is Obj
        &&& req_field_ok::<i64>(v, "id"@)
        &&& req_field_ok::<i64>(v, "version"@)
        &&& req_field_ok::<String>(v, "action"@)
        &&& req_field_ok::<String>(v, "timestamp"@)
    }

    open spec fn rel(v: Jv, s: Self) -> bool {
        &&& v is Obj
        &&& req_field_rel::<i64>(v, "id"@, s.id)
        &&& req_field_rel::<i64>(v, "version"@, s.version)
        &&& req_field_rel::<String>(v, "action"@, s.action)
        &&& req_field_rel::<String>(v, "timestamp"@, s.timestamp)
    }

    fn decode(v: &JsonValue) -> (r: Result<Self, DecodeError>) {
        let id: i64 = match get_field(v, "id") {
            Ok(x) => x,
            Err(e) => {
                return Err(e);
            },
        };
        let version: i64 = match get_field(v, "version") {
            Ok(x) => x,
            Err(e) => {
                return Err(e);
            },
        };
        let action: String = match get_field(v, "action") {
            Ok(x) => x,
            Err(e) => {
                return Err(e);
            },
        };
        let timestamp: String = match get_field(v, "timestamp") {
            Ok(x) => x,
            Err(e) => {
                return Err(e);
            },
        };
        Ok(TradesApiTransactionSuccess { id, version, action, timestamp })
    }
}

/// `POST /trades.json`.
pub struct TradesCreate;

impl TradesCreate {
    /// The URL template of this endpoint.
    pub fn url_template() -> (r: &'static str)
        ensures
            r@ == "/trades.json"@,
    {
        "/trades.json"
    }

    /// The HTTP method of this endpoint.
    pub fn http_method() -> (r: ApiHttpMethod)
        ensures
            r == ApiHttpMethod::Post,
    {
        ApiHttpMethod::Post
    }

    /// The URL path of this endpoint; it takes no parameters.
    pub fn url_path() -> (r: &'static str)
        ensures
            r@ == "/trades.json"@,
    {
        "/trades.json"
    }

    /// Decodes a success payload, naming this endpoint in any
    /// failure.
    pub fn decode_success(v: &JsonValue) -> (r: Result<TradesCreateSuccess, DecodeError>)
        ensures
            r matches Ok(s) ==> <TradesCreateSuccess as FromJson>::decodable(v@)
                && <TradesCreateSuccess as FromJson>::rel(v@, s),
            <TradesCreateSuccess as FromJson>::decodable(v@) ==> r is Ok,
            r matches Err(e) ==> spec_starts_with(e.path@, "TradesCreate"@),
    {
        match TradesCreateSuccess::decode(v) {
            Ok(s) => Ok(s),
            Err(e) => Err(e.in_endpoint("TradesCreate")),
        }
    }
}

/// The parameters of a [`TradesCreate`] call.
#[derive(Debug, Clone, PartialEq)]
pub struct TradesCreateParameters {
    pub trade: TradesCreateTradeParameters,
}

impl ToJson for TradesCreateParameters {
    open spec fn enc(s: Self) -> Jv {
        Jv::Obj(
            Seq::<(Seq<char>, Jv)>::empty()
                + req_entry("trade"@, s.trade),
        )
    }

    fn encode(&self) -> (r: JsonValue) {
        let mut o = JsonObj::new();
        o.put("trade", &self.trade);
        o.finish()
    }
}

impl FromJson for TradesCreateParameters {
    open spec fn decodable(v: Jv) -> bool {
        &&& v is Obj
        &&& req_field_ok::<TradesCreateTradeParameters>(v, "trade"@)
    }

    open spec fn rel(v: Jv, s: Self) -> bool {
        &&& v is Obj
        &&& req_field_rel::<TradesCreateTradeParameters>(v, "trade"@, s.trade)
    }

    fn decode(v: &JsonValue) -> (r: Result<Self, DecodeError>) {
        let trade: TradesCreateTradeParameters = match get_field(v, "trade") {
            Ok(x) => x,
            Err(e) => {
                return Err(e);
            },
        };
        Ok(TradesCreateParameters { trade })
    }
}

/// A nested parameter shape of [`TradesCreate`].
#[derive(Debug, Clone, PartialEq)]
pub struct TradesCreateTradeParameters {
    pub portfolio_id: Option<i64>,
    pub holding_id: Option<i64>,
    pub unique_identifier: Option<String>,
    pub company_event_id: Option<String>,
    pub state: Option<String>,
    pub transaction_date: Option<String>,
    pub quantity: Option<Decimal>,
    pub price: Option<Decimal>,
    pub cost_base: Option<Decimal>,
    pub exchange_rate: Option<Decimal>,
    pub brokerage: Option<Decimal>,
    pub brokerage_currency_code: Option<Currency>,
    pub adjust_cost_base_value: Option<Decimal>,
    pub capital_return_value: Option<Decimal>,
    pub paid_on: Option<Date>,
    pub comments: Option<String>,
    pub instrument_id: Option<String>,
    pub symbol: Option<String>,
    pub market: Option<Market>,
    pub market_country_code: Option<String>,
    pub transaction_type: Option<TradeDescription>,
    pub attachment: Option<String>,
    pub attachment_filename: Option<String>,
}

impl ToJson for TradesCreateTradeParameters {
    open spec fn enc(s: Self) -> Jv {
        Jv::Obj(
            Seq::<(Seq<char>, Jv)>::empty()
                + opt_entry("portfolio_id"@, s.portfolio_id)
                + opt_entry("holding_id"@, s.holding_id)
                + opt_entry("unique_identifier"@, s.unique_identifier)
                + opt_entry("company_event_id"@, s.company_event_id)
                + opt_entry("state"@, s.state)
                + opt_entry("transaction_date"@, s.transaction_date)
                + opt_entry("quantity"@, s.quantity)
                + opt_entry("price"@, s.price)
                + opt_entry("cost_base"@, s.cost_base)
                + opt_entry("exchange_rate"@, s.exchange_rate)
                + opt_entry("brokerage"@, s.brokerage)
                + opt_entry("brokerage_currency_code"@, s.brokerage_currency_code)
                + opt_entry("adjust_cost_base_value"@, s.adjust_cost_base_value)
                + opt_entry("capital_return_value"@, s.capital_return_value)
                + opt_entry("paid_on"@, s.paid_on)
                + opt_entry("comments"@, s.comments)
                + opt_entry("instrument_id"@, s.instrument_id)
                + opt_entry("symbol"@, s.symbol)
                + opt_entry("market"@, s.market)
                + opt_entry("market_country_code"@, s.market_country_code)
                + opt_entry("transaction_type"@, s.transaction_type)
                + opt_entry("attachment"@, s.attachment)
                + opt_entry("attachment_filename"@, s.attachment_filename),
        )
    }

    fn encode(&self) -> (r: JsonValue) {
        let mut o = JsonObj::new();
        o.put_opt("portfolio_id", &self.portfolio_id);
        o.put_opt("holding_id", &self.holding_id);
        o.put_opt("unique_identifier", &self.unique_identifier);
        o.put_opt("company_event_id", &self.company_event_id);
        o.put_opt("state", &self.state);
        o.put_opt("transaction_date", &self.transaction_date);
        o.put_opt("quantity", &self.quantity);
        o.put_opt("price", &self.price);
        o.put_opt("cost_base", &self.cost_base);
        o.put_opt("exchange_rate", &self.exchange_rate);
        o.put_opt("brokerage", &self.brokerage);
        o.put_opt("brokerage_currency_code", &self.brokerage_currency_code);
        o.put_opt("adjust_cost_base_value", &self.adjust_cost_base_value);
        o.put_opt("capital_return_value", &self.capital_return_value);
        o.put_opt("paid_on", &self.paid_on);
        o.put_opt("comments", &self.comments);
        o.put_opt("instrument_id", &self.instrument_id);
        o.put_opt("symbol", &self.symbol);
        o.put_opt("market", &self.market);
        o.put_opt("market_country_code", &self.market_country_code);
        o.put_opt("transaction_type", &self.transaction_type);
        o.put_opt("attachment", &self.attachment);
        o.put_opt("attachment_filename", &self.attachment_filename);
        o.finish()
    }
}

impl FromJson for TradesCreateTradeParameters {
    open spec fn decodable(v: Jv) -> bool {
        &&& v is Obj
        &&& opt_field_ok::<i64>(v, "portfolio_id"@)
        &&& opt_field_ok::<i64>(v, "holding_id"@)
        &&& opt_field_ok::<String>(v, "unique_identifier"@)
        &&& opt_field_ok::<String>(v, "company_event_id"@)
        &&& opt_field_ok::<String>(v, "state"@)
        &&& opt_field_ok::<String>(v, "transaction_date"@)
        &&& opt_field_ok::<Decimal>(v, "quantity"@)
        &&& opt_field_ok::<Decimal>(v, "price"@)
        &&& opt_field_ok::<Decimal>(v, "cost_base"@)
        &&& opt_field_ok::<Decimal>(v, "exchange_rate"@)
        &&& opt_field_ok::<Decimal>(v, "brokerage"@)
        &&& opt_field_ok::<Currency>(v, "brokerage_currency_code"@)
        &&& opt_field_ok::<Decimal>(v, "adjust_cost_base_value"@)
        &&& opt_field_ok::<Decimal>(v, "capital_return_value"@)
        &&& opt_field_ok::<Date>(v, "paid_on"@)
        &&& opt_field_ok::<String>(v, "comments"@)
        &&& opt_field_ok::<String>(v, "instrument_id"@)
        &&& opt_field_ok::<String>(v, "symbol"@)
        &&& opt_field_ok::<Market>(v, "market"@)
        &&& opt_field_ok::<String>(v, "market_country_code"@)
        &&& opt_field_ok::<TradeDescription>(v, "transaction_type"@)
        &&& opt_field_ok::<String>(v, "attachment"@)
        &&& opt_field_ok::<String>(v, "attachment_filename"@)
    }

    open spec fn rel(v: Jv, s: Self) -> bool {
        &&& v is Obj
        &&& opt_field_rel::<i64>(v, "portfolio_id"@, s.portfolio_id)
        &&& opt_field_rel::<i64>(v, "holding_id"@, s.holding_id)
        &&& opt_field_rel::<String>(v, "unique_identifier"@, s.unique_identifier)
        &&& opt_field_rel::<String>(v, "company_event_id"@, s.company_event_id)
        &&& opt_field_rel::<String>(v, "state"@, s.state)
        &&& opt_field_rel::<String>(v, "transaction_date"@, s.transaction_date)
        &&& opt_field_rel::<Decimal>(v, "quantity"@, s.quantity)
        &&& opt_field_rel::<Decimal>(v, "price"@, s.price)
        &&& opt_field_rel::<Decimal>(v, "cost_base"@, s.cost_base)
        &&& opt_field_rel::<Decimal>(v, "exchange_rate"@, s.exchange_rate)
        &&& opt_field_rel::<Decimal>(v, "brokerage"@, s.brokerage)
        &&& opt_field_rel::<Currency>(v, "brokerage_currency_code"@, s.brokerage_currency_code)
        &&& opt_field_rel::<Decimal>(v, "adjust_cost_base_value"@, s.adjust_cost_base_value)
        &&& opt_field_rel::<Decimal>(v, "capital_return_value"@, s.capital_return_value)
        &&& opt_field_rel::<Date>(v, "paid_on"@, s.paid_on)
        &&& opt_field_rel::<String>(v, "comments"@, s.comments)
        &&& opt_field_rel::<String>(v, "instrument_id"@, s.instrument_id)
        &&& opt_field_rel::<String>(v, "symbol"@, s.symbol)
        &&& opt_field_rel::<Market>(v, "market"@, s.market)
        &&& opt_field_rel::<String>(v, "market_country_code"@, s.market_country_code)
        &&& opt_field_rel::<TradeDescription>(v, "transaction_type"@, s.transaction_type)
        &&& opt_field_rel::<String>(v, "attachment"@, s.attachment)
        &&& opt_field_rel::<String>(v, "attachment_filename"@, s.attachment_filename)
    }

    fn decode(v: &JsonValue) -> (r: Result<Self, DecodeError>) {
        let portfolio_id: Option<i64> = match get_opt_field(v, "portfolio_id") {
            Ok(x) => x,
            Err(e) => {
                return Err(e);
            },
        };
        let holding_id: Option<i64> = match get_opt_field(v, "holding_id") {
            Ok(x) => x,
            Err(e) => {
                return Err(e);
            },
        };
        let unique_identifier: Option<String> = match get_opt_field(v, "unique_identifier") {
            Ok(x) => x,
            Err(e) => {
                return Err(e);
            },
        };
        let company_event_id: Option<String> = match get_opt_field(v, "company_event_id") {
            Ok(x) => x,
            Err(e) => {
                return Err(e);
            },
        };
        let state: Option<String> = match get_opt_field(v, "state") {
            Ok(x) => x,
            Err(e) => {
                return Err(e);
            },
        };
        let transaction_date: Option<String> = match get_opt_field(v, "transaction_date") {
            Ok(x) => x,
            Err(e) => {
                return Err(e);
            },
        };
        let quantity: Option<Decimal> = match get_opt_field(v, "quantity") {
            Ok(x) => x,
            Err(e) => {
                return Err(e);
            },
        };
        let price: Option<Decimal> = match get_opt_field(v, "price") {
            Ok(x) => x,
            Err(e) => {
                return Err(e);
            },
        };
        let cost_base: Option<Decimal> = match get_opt_field(v, "cost_base") {
            Ok(x) => x,
            Err(e) => {
                return Err(e);
            },
        };
        let exchange_rate: Option<Decimal> = match get_opt_field(v, "exchange_rate") {
            Ok(x) => x,
            Err(e) => {
                return Err(e);
            },
        };
        let brokerage: Option<Decimal> = match get_opt_field(v, "brokerage") {
            Ok(x) => x,
            Err(e) => {
                return Err(e);
            },
        };
        let brokerage_currency_code: Option<Currency> = match get_opt_field(v, "brokerage_currency_code") {
            Ok(x) => x,
            Err(e) => {
                return Err(e);
            },
        };
        let adjust_cost_base_value: Option<Decimal> = match get_opt_field(v, "adjust_cost_base_value") {
            Ok(x) => x,
            Err(e) => {
                return Err(e);
            },
        };
        let capital_return_value: Option<Decimal> = match get_opt_field(v, "capital_return_value") {
            Ok(x) => x,
            Err(e) => {
                return Err(e);
            },
        };
        let paid_on: Option<Date> = match get_opt_field(v, "paid_on") {
            Ok(x) => x,
            Err(e) => {
                return Err(e);
            },
        };
        let comments: Option<String> = match get_opt_field(v, "comments") {
            Ok(x) => x,
            Err(e) => {
                return Err(e);
            },
        };
        let instrument_id: Option<String> = match get_opt_field(v, "instrument_id") {
            Ok(x) => x,
            Err(e) => {
                return Err(e);
            },
        };
        let symbol: Option<String> = match get_opt_field(v, "symbol") {
            Ok(x) => x,
            Err(e) => {
                return Err(e);
            },
        };
        let market: Option<Market> = match get_opt_field(v, "market") {
            Ok(x) => x,
            Err(e) => {
                return Err(e);
            },
        };
        let market_country_code: Option<String> = match get_opt_field(v, "market_country_code") {
            Ok(x) => x,
            Err(e) => {
                return Err(e);
            },
        };
        let transaction_type: Option<TradeDescription> = match get_opt_field(v, "transaction_type") {
            Ok(x) => x,
            Err(e) => {
                return Err(e);
            },
        };
        let attachment: Option<String> = match get_opt_field(v, "attachment") {
            Ok(x) => x,
            Err(e) => {
                return Err(e);
            },
        };
        let attachment_filename: Option<String> = match get_opt_field(v, "attachment_filename") {
            Ok(x) => x,
            Err(e) => {
                return Err(e);
            },
        };
        Ok(TradesCreateTradeParameters { portfolio_id, holding_id, unique_identifier, company_event_id, state, transaction_date, quantity, price, cost_base, exchange_rate, brokerage, brokerage_currency_code, adjust_cost_base_value, capital_return_value, paid_on, comments, instrument_id, symbol, market, market_country_code, transaction_type, attachment, attachment_filename })
    }
}

/// The success response of a [`TradesCreate`] call.
#[derive(Debug, Clone, PartialEq)]
pub struct TradesCreateSuccess {
    pub trade: TradesCreateTradeSuccess,
    pub api_transaction: TradesCreateApiTransactionSuccess,
}

impl ToJson for TradesCreateSuccess {
    open spec fn enc(s: Self) -> Jv {
        Jv::Obj(
            Seq::<(Seq<char>, Jv)>::empty()
                + req_entry("trade"@, s.trade)
                + req_entry("api_transaction"@, s.api_transaction),
        )
    }

    fn encode(&self) -> (r: JsonValue) {
        let mut o = JsonObj::new();
        o.put("trade", &self.trade);
        o.put("api_transaction", &self.api_transaction);
        o.finish()
    }
}

impl FromJson for TradesCreateSuccess {
    open spec fn decodable(v: Jv) -> bool {
        &&& v is Obj
        &&& req_field_ok::<TradesCreateTradeSuccess>(v, "trade"@)
        &&& req_field_ok::<TradesCreateApiTransactionSuccess>(v, "api_transaction"@)
    }

    open spec fn rel(v: Jv, s: Self) -> bool {
        &&& v is Obj
        &&& req_field_rel::<TradesCreateTradeSuccess>(v, "trade"@, s.trade)
        &&& req_field_rel::<TradesCreateApiTransactionSuccess>(v, "api_transaction"@, s.api_transaction)
    }

    fn decode(v: &JsonValue) -> (r: Result<Self, DecodeError>) {
        let trade: TradesCreateTradeSuccess = match get_field(v, "trade") {
            Ok(x) => x,
            Err(e) => {
                return Err(e);
            },
        };
        let api_transaction: TradesCreateApiTransactionSuccess = match get_field(v, "api_transaction") {
            Ok(x) => x,
            Err(e) => {
                return Err(e);
            },
        };
        Ok(TradesCreateSuccess { trade, api_transaction })
    }
}

/// A nested response shape of [`TradesCreate`].
#[derive(Debug, Clone, PartialEq)]
pub struct TradesCreateTradeSuccess {
    pub id: String,
    pub unique_identifier: String,
    pub transaction_date: Date,
    pub quantity: Decimal,
    pub price: Decimal,
    pub cost_base: Decimal,
    pub exchange_rate: Decimal,
    pub brokerage: Decimal,
    pub brokerage_currency_code: Currency,
    pub value: Decimal,
    pub paid_on: Date,
    pub company_event_id: i64,
    pub comments: String,
    pub portfolio_id: i64,
    pub holding_id: i64,
    pub state: String,
    pub transaction_type: TradeDescription,
    pub instrument_id: i64,
    pub symbol: String,
    pub market: Market,
    pub attachment_filename: String,
    pub attachment_id: i64,
    pub confirmed: bool,
}

impl ToJson for TradesCreateTradeSuccess {
    open spec fn enc(s: Self) -> Jv {
        Jv::Obj(
            Seq::<(Seq<char>, Jv)>::empty()
                + req_entry("id"@, s.id)
                + req_entry("unique_identifier"@, s.unique_identifier)
                + req_entry("transaction_date"@, s.transaction_date)
                + req_entry("quantity"@, s.quantity)
                + req_entry("price"@, s.price)
                + req_entry("cost_base"@, s.cost_base)
                + req_entry("exchange_rate"@, s.exchange_rate)
                + req_entry("brokerage"@, s.brokerage)
                + req_entry("brokerage_currency_code"@, s.brokerage_currency_code)
                + req_entry("value"@, s.value)
                + req_entry("paid_on"@, s.paid_on)
                + req_entry("company_event_id"@, s.company_event_id)
                + req_entry("comments"@, s.comments)
                + req_entry("portfolio_id"@, s.portfolio_id)
                + req_entry("holding_id"@, s.holding_id)
                + req_entry("state"@, s.state)
                + req_entry("transaction_type"@, s.transaction_type)
                + req_entry("instrument_id"@, s.instrument_id)
                + req_entry("symbol"@, s.symbol)
                + req_entry("market"@, s.market)
                + req_entry("attachment_filename"@, s.attachment_filename)
                + req_entry("attachment_id"@, s.attachment_id)
                + req_entry("confirmed"@, s.confirmed),
        )
    }

    fn encode(&self) -> (r: JsonValue) {
        let mut o = JsonObj::new();
        o.put("id", &self.id);
        o.put("unique_identifier", &self.unique_identifier);
        o.put("transaction_date", &self.transaction_date);
        o.put("quantity", &self.quantity);
        o.put("price", &self.price);
        o.put("cost_base", &self.cost_base);
        o.put("exchange_rate", &self.exchange_rate);
        o.put("brokerage", &self.brokerage);
        o.put("brokerage_currency_code", &self.brokerage_currency_code);
        o.put("value", &self.value);
        o.put("paid_on", &self.paid_on);
        o.put("company_event_id", &self.company_event_id);
        o.put("comments", &self.comments);
        o.put("portfolio_id", &self.portfolio_id);
        o.put("holding_id", &self.holding_id);
        o.put("state", &self.state);
        o.put("transaction_type", &self.transaction_type);
        o.put("instrument_id", &self.instrument_id);
        o.put("symbol", &self.symbol);
        o.put("market", &self.market);
        o.put("attachment_filename", &self.attachment_filename);
        o.put("attachment_id", &self.attachment_id);
        o.put("confirmed", &self.confirmed);
        o.finish()
    }
}

impl FromJson for TradesCreateTradeSuccess {
    open spec fn decodable(v: Jv) -> bool {
        &&& v is Obj
        &&& req_field_ok::<String>(v, "id"@)
        &&& req_field_ok::<String>(v, "unique_identifier"@)
        &&& req_field_ok::<Date>(v, "transaction_date"@)
        &&& req_field_ok::<Decimal>(v, "quantity"@)
        &&& req_field_ok::<Decimal>(v, "price"@)
        &&& req_field_ok::<Decimal>(v, "cost_base"@)
        &&& req_field_ok::<Decimal>(v, "exchange_rate"@)
        &&& req_field_ok::<Decimal>(v, "brokerage"@)
        &&& req_field_ok::<Currency>(v, "brokerage_currency_code"@)
        &&& req_field_ok::<Decimal>(v, "value"@)
        &&& req_field_ok::<Date>(v, "paid_on"@)
        &&& req_field_ok::<i64>(v, "company_event_id"@)
        &&& req_field_ok::<String>(v, "comments"@)
        &&& req_field_ok::<i64>(v, "portfolio_id"@)
        &&& req_field_ok::<i64>(v, "holding_id"@)
        &&& req_field_ok::<String>(v, "state"@)
        &&& req_field_ok::<TradeDescription>(v, "transaction_type"@)
        &&& req_field_ok::<i64>(v, "instrument_id"@)
        &&& req_field_ok::<String>(v, "symbol"@)
        &&& req_field_ok::<Market>(v, "market"@)
        &&& req_field_ok::<String>(v, "attachment_filename"@)
        &&& req_field_ok::<i64>(v, "attachment_id"@)
        &&& req_field_ok::<bool>(v, "confirmed"@)
    }

    open spec fn rel(v: Jv, s: Self) -> bool {
        &&& v is Obj
        &&& req_field_rel::<String>(v, "id"@, s.id)
        &&& req_field_rel::<String>(v, "unique_identifier"@, s.unique_identifier)
        &&& req_field_rel::<Date>(v, "transaction_date"@, s.transaction_date)
        &&& req_field_rel::<Decimal>(v, "quantity"@, s.quantity)
        &&& req_field_rel::<Decimal>(v, "price"@, s.price)
        &&& req_field_rel::<Decimal>(v, "cost_base"@, s.cost_base)
        &&& req_field_rel::<Decimal>(v, "exchange_rate"@, s.exchange_rate)
        &&& req_field_rel::<Decimal>(v, "brokerage"@, s.brokerage)
        &&& req_field_rel::<Currency>(v, "brokerage_currency_code"@, s.brokerage_currency_code)
        &&& req_field_rel::<Decimal>(v, "value"@, s.value)
        &&& req_field_rel::<Date>(v, "paid_on"@, s.paid_on)
        &&& req_field_rel::<i64>(v, "company_event_id"@, s.company_event_id)
        &&& req_field_rel::<String>(v, "comments"@, s.comments)
        &&& req_field_rel::<i64>(v, "portfolio_id"@, s.portfolio_id)
        &&& req_field_rel::<i64>(v, "holding_id"@, s.holding_id)
        &&& req_field_rel::<String>(v, "state"@, s.state)
        &&& req_field_rel::<TradeDescription>(v, "transaction_type"@, s.transaction_type)
        &&& req_field_rel::<i64>(v, "instrument_id"@, s.instrument_id)
        &&& req_field_rel::<String>(v, "symbol"@, s.symbol)
        &&& req_field_rel::<Market>(v, "market"@, s.market)
        &&& req_field_rel::<String>(v, "attachment_filename"@, s.attachment_filename)
        &&& req_field_rel::<i64>(v, "attachment_id"@, s.attachment_id)
        &&& req_field_rel::<bool>(v, "confirmed"@, s.confirmed)
    }

    fn decode(v: &JsonValue) -> (r: Result<Self, DecodeError>) {
        let id: String = match get_field(v, "id") {
            Ok(x) => x,
            Err(e) => {
                return Err(e);
            },
        };
        let unique_identifier: String = match get_field(v, "unique_identifier") {
            Ok(x) => x,
            Err(e) => {
                return Err(e);
            },
        };
        let transaction_date: Date = match get_field(v, "transaction_date") {
            Ok(x) => x,
            Err(e) => {
                return Err(e);
            },
        };
        let quantity: Decimal = match get_field(v, "quantity") {
            Ok(x) => x,
            Err(e) => {
                return Err(e);
            },
        };
        let price: Decimal = match get_field(v, "price") {
            Ok(x) => x,
            Err(e) => {
                return Err(e);
            },
        };
        let cost_base: Decimal = match get_field(v, "cost_base") {
            Ok(x) => x,
            Err(e) => {
                return Err(e);
            },
        };
        let exchange_rate: Decimal = match get_field(v, "exchange_rate") {
            Ok(x) => x,
            Err(e) => {
                return Err(e);
            },
        };
        let brokerage: Decimal = match get_field(v, "brokerage") {
            Ok(x) => x,
            Err(e) => {
                return Err(e);
            },
        };
        let brokerage_currency_code: Currency = match get_field(v, "brokerage_currency_code") {
            Ok(x) => x,
            Err(e) => {
                return Err(e);
            },
        };
        let value: Decimal = match get_field(v, "value") {
            Ok(x) => x,
            Err(e) => {
                return Err(e);
            },
        };
        let paid_on: Date = match get_field(v, "paid_on") {
            Ok(x) => x,
            Err(e) => {
                return Err(e);
            },
        };
        let company_event_id: i64 = match get_field(v, "company_event_id") {
            Ok(x) => x,
            Err(e) => {
                return Err(e);
            },
        };
        let comments: String = match get_field(v, "comments") {
            Ok(x) => x,
            Err(e) => {
                return Err(e);
            },
        };
        let portfolio_id: i64 = match get_field(v, "portfolio_id") {
            Ok(x) => x,
            Err(e) => {
                return Err(e);
            },
        };
        let holding_id: i64 = match get_field(v, "holding_id") {
            Ok(x) => x,
            Err(e) => {
                return Err(e);
            },
        };
        let state: String = match get_field(v, "state") {
            Ok(x) => x,
            Err(e) => {
                return Err(e);
            },
        };
        let transaction_type: TradeDescription = match get_field(v, "transaction_type") {
            Ok(x) => x,
            Err(e) => {
                return Err(e);
            },
        };
        let instrument_id: i64 = match get_field(v, "instrument_id") {
            Ok(x) => x,
            Err(e) => {
                return Err(e);
            },
        };
        let symbol: String = match get_field(v, "symbol") {
            Ok(x) => x,
            Err(e) => {
                return Err(e);
            },
        };
        let market: Market = match get_field(v, "market") {
            Ok(x) => x,
            Err(e) => {
                return Err(e);
            },
        };
        let attachment_filename: String = match get_field(v, "attachment_filename") {
            Ok(x) => x,
            Err(e) => {
                return Err(e);
            },
        };
        let attachment_id: i64 = match get_field(v, "attachment_id") {
            Ok(x) => x,
            Err(e) => {
                return Err(e);
            },
        };
        let confirmed: bool = match get_field(v, "confirmed") {
            Ok(x) => x,
            Err(e) => {
                return Err(e);
            },
        };
        Ok(TradesCreateTradeSuccess { id, unique_identifier, transaction_date, quantity, price, cost_base, exchange_rate, brokerage, brokerage_currency_code, value, paid_on, company_event_id, comments, portfolio_id, holding_id, state, transaction_type, instrument_id, symbol, market, attachment_filename, attachment_id, confirmed })
    }
}

/// A nested response shape of [`TradesCreate`].
#[derive(Debug, Clone, PartialEq)]
pub struct TradesCreateApiTransactionSuccess {
    pub id: i64,
    pub version: i64,
    pub action: String,
    pub timestamp: String,
}

impl ToJson for TradesCreateApiTransactionSuccess {
    open spec fn enc(s: Self) -> Jv {
        Jv::Obj(
            Seq::<(Seq<char>, Jv)>::empty()
                + req_entry("id"@, s.id)
                + req_entry("version"@, s.version)
                + req_entry("action"@, s.action)
                + req_entry("timestamp"@, s.timestamp),
        )
    }

    fn encode(&self) -> (r: JsonValue) {
        let mut o = JsonObj::new();
        o.put("id", &self.id);
        o.put("version", &self.version);
        o.put("action", &self.action);
        o.put("timestamp", &self.timestamp);
        o.finish()
    }
}

impl FromJson for TradesCreateApiTransactionSuccess {
    open spec fn decodable(v: Jv) -> bool {
        &&& v is Obj
        &&& req_field_ok::<i64>(v, "id"@)
        &&& req_field_ok::<i64>(v, "version"@)
        &&& req_field_ok::<String>(v, "action"@)
        &&& req_field_ok::<String>(v, "timestamp"@)
    }

    open spec fn rel(v: Jv, s: Self) -> bool {
        &&& v is Obj
        &&& req_field_rel::<i64>(v, "id"@, s.id)
        &&& req_field_rel::<i64>(v, "version"@, s.version)
        &&& req_field_rel::<String>(v, "action"@, s.action)
        &&& req_field_rel::<String>(v, "timestamp"@, s.timestamp)
    }

    fn decode(v: &JsonValue) -> (r: Result<Self, DecodeError>) {
        let id: i64 = match get_field(v, "id") {
            Ok(x) => x,
            Err(e) => {
                return Err(e);
            },
        };
        let version: i64 = match get_field(v, "version") {
            Ok(x) => x,
            Err(e) => {
                return Err(e);
            },
        };
        let action: String = match get_field(v, "action") {
            Ok(x) => x,
            Err(e) => {
                return Err(e);
            },
        };
        let timestamp: String = match get_field(v, "timestamp") {
            Ok(x) => x,
            Err(e) => {
                return Err(e);
            },
        };
        Ok(TradesCreateApiTransactionSuccess { id, version, action, timestamp })
    }
}

/// `DELETE /trades/:id.json`.
pub struct TradesDestroy;

/// The parameters of a [`TradesDestroy`] call, held for URL rendering.
pub struct TradesDestroyUrlDisplay<'a>(pub &'a TradesDestroyParameters);

impl<'a> TradesDestroyUrlDisplay<'a> {
    /// Renders the resolved URL path.
    pub fn render(&self) -> (r: String)
        ensures
            r@ == TradesDestroy::spec_url(*self.0),
    {
        TradesDestroy::url(self.0)
    }
}

impl TradesDestroy {
    /// The URL template of this endpoint.
    pub fn url_template() -> (r: &'static str)
        ensures
            r@ == "/trades/:id.json"@,
    {
        "/trades/:id.json"
    }

    /// The HTTP method of this endpoint.
    pub fn http_method() -> (r: ApiHttpMethod)
        ensures
            r == ApiHttpMethod::Delete,
    {
        ApiHttpMethod::Delete
    }

    /// The URL path that `p` resolves the template to.
    pub open spec fn spec_url(p: TradesDestroyParameters) -> Seq<char> {
        "/trades/"@ + spec_i64_string(p.id as int) + ".json"@
    }

    /// Resolves the URL template with the fields of `parameters`:
    /// plain decimal digits for integers, strings as they are.
    pub fn url(parameters: &TradesDestroyParameters) -> (r: String)
        ensures
            r@ == Self::spec_url(*parameters),
    {
        let mut s = "/trades/".to_owned();
        s.append(render_i64(parameters.id).as_str());
        s.append(".json");
        s
    }

    /// Wraps `parameters` for URL rendering.
    pub fn url_path<'a>(parameters: &'a TradesDestroyParameters) -> (r: TradesDestroyUrlDisplay<'a>)
        ensures
            r.0 == parameters,
    {
        TradesDestroyUrlDisplay(parameters)
    }

    /// Decodes a success payload, naming this endpoint in any
    /// failure.
    pub fn decode_success(v: &JsonValue) -> (r: Result<TradesDestroySuccess, DecodeError>)
        ensures
            r matches Ok(s) ==> <TradesDestroySuccess as FromJson>::decodable(v@)
                && <TradesDestroySuccess as FromJson>::rel(v@, s),
            <TradesDestroySuccess as FromJson>::decodable(v@) ==> r is Ok,
            r matches Err(e) ==> spec_starts_with(e.path@, "TradesDestroy"@),
    {
        match TradesDestroySuccess::decode(v) {
            Ok(s) => Ok(s),
            Err(e) => Err(e.in_endpoint("TradesDestroy")),
        }
    }
}

/// The parameters of a [`TradesDestroy`] call.
#[derive(Debug, Clone, PartialEq)]
pub struct TradesDestroyParameters {
    pub id: i64,
}

impl ToJson for TradesDestroyParameters {
    open spec fn enc(s: Self) -> Jv {
        Jv::Obj(
            Seq::<(Seq<char>, Jv)>::empty()
                + req_entry("id"@, s.id),
        )
    }

    fn encode(&self) -> (r: JsonValue) {
        let mut o = JsonObj::new();
        o.put("id", &self.id);
        o.finish()
    }
}

impl FromJson for TradesDestroyParameters {
    open spec fn decodable(v: Jv) -> bool {
        &&& v is Obj
        &&& req_field_ok::<i64>(v, "id"@)
    }

    open spec fn rel(v: Jv, s: Self) -> bool {
        &&& v is Obj
        &&& req_field_rel::<i64>(v, "id"@, s.id)
    }

    fn decode(v: &JsonValue) -> (r: Result<Self, DecodeError>) {
        let id: i64 = match get_field(v, "id") {
            Ok(x) => x,
            Err(e) => {
                return Err(e);
            },
        };
        Ok(TradesDestroyParameters { id })
    }
}

/// The success response of a [`TradesDestroy`] call.
#[derive(Debug, Clone, PartialEq)]
pub struct TradesDestroySuccess {
    pub deleted: bool,
    pub api_transaction: TradesDestroyApiTransactionSuccess,
}

impl ToJson for TradesDestroySuccess {
    open spec fn enc(s: Self) -> Jv {
        Jv::Obj(
            Seq::<(Seq<char>, Jv)>::empty()
                + req_entry("deleted"@, s.deleted)
                + req_entry("api_transaction"@, s.api_transaction),
        )
    }

    fn encode(&self) -> (r: JsonValue) {
        let mut o = JsonObj::new();
        o.put("deleted", &self.deleted);
        o.put("api_transaction", &self.api_transaction);
        o.finish()
    }
}

impl FromJson for TradesDestroySuccess {
    open spec fn decodable(v: Jv) -> bool {
        &&& v is Obj
        &&& req_field_ok::<bool>(v, "deleted"@)
        &&& req_field_ok::<TradesDestroyApiTransactionSuccess>(v, "api_transaction"@)
    }

    open spec fn rel(v: Jv, s: Self) -> bool {
        &&& v is Obj
        &&& req_field_rel::<bool>(v, "deleted"@, s.deleted)
        &&& req_field_rel::<TradesDestroyApiTransactionSuccess>(v, "api_transaction"@, s.api_transaction)
    }

    fn decode(v: &JsonValue) -> (r: Result<Self, DecodeError>) {
        let deleted: bool = match get_field(v, "deleted") {
            Ok(x) => x,
            Err(e) => {
                return Err(e);
            },
        };
        let api_transaction: TradesDestroyApiTransactionSuccess = match get_field(v, "api_transaction") {
            Ok(x) => x,
            Err(e) => {
                return Err(e);
            },
        };
        Ok(TradesDestroySuccess { deleted, api_transaction })
    }
}

/// A nested response shape of [`TradesDestroy`].
#[derive(Debug, Clone, PartialEq)]
pub struct TradesDestroyApiTransactionSuccess {
    pub id: i64,
    pub version: i64,
    pub action: String,
    pub timestamp: String,
}

impl ToJson for TradesDestroyApiTransactionSuccess {
    open spec fn enc(s: Self) -> Jv {
        Jv::Obj(
            Seq::<(Seq<char>, Jv)>::empty()
                + req_entry("id"@, s.id)
                + req_entry("version"@, s.version)
                + req_entry("action"@, s.action)
                + req_entry("timestamp"@, s.timestamp),
        )
    }

    fn encode(&self) -> (r: JsonValue) {
        let mut o = JsonObj::new();
        o.put("id", &self.id);
        o.put("version", &self.version);
        o.put("action", &self.action);
        o.put("timestamp", &self.timestamp);
        o.finish()
    }
}

impl FromJson for TradesDestroyApiTransactionSuccess {
    open spec fn decodable(v: Jv) -> bool {
        &&& v is Obj
        &&& req_field_ok::<i64>(v, "id"@)
        &&& req_field_ok::<i64>(v, "version"@)
        &&& req_field_ok::<String>(v, "action"@)
        &&& req_field_ok::<String>(v, "timestamp"@)
    }

    open spec fn rel(v: Jv, s: Self) -> bool {
        &&& v is Obj
        &&& req_field_rel::<i64>(v, "id"@, s.id)
        &&& req_field_rel::<i64>(v, "version"@, s.version)
        &&& req_field_rel::<String>(v, "action"@, s.action)
        &&& req_field_rel::<String>(v, "timestamp"@, s.timestamp)
    }

    fn decode(v: &JsonValue) -> (r: Result<Self, DecodeError>) {
        let id: i64 = match get_field(v, "id") {
            Ok(x) => x,
            Err(e) => {
                return Err(e);
            },
        };
        let version: i64 = match get_field(v, "version") {
            Ok(x) => x,
            Err(e) => {
                return Err(e);
            },
        };
        let action: String = match get_field(v, "action") {
            Ok(x) => x,
            Err(e) => {
                return Err(e);
            },
        };
        let timestamp: String = match get_field(v, "timestamp") {
            Ok(x) => x,
            Err(e) => {
                return Err(e);
            },
        };
        Ok(TradesDestroyApiTransactionSuccess { id, version, action, timestamp })
    }
}

/// `GET /trades/:id.json`.
pub struct TradesShow;

/// The parameters of a [`TradesShow`] call, held for URL rendering.
pub struct TradesShowUrlDisplay<'a>(pub &'a TradesShowParameters);

impl<'a> TradesShowUrlDisplay<'a> {
    /// Renders the resolved URL path.
    pub fn render(&self) -> (r: String)
        ensures
            r@ == TradesShow::spec_url(*self.0),
    {
        TradesShow::url(self.0)
    }
}

impl TradesShow {
    /// The URL template of this endpoint.
    pub fn url_template() -> (r: &'static str)
        ensures
            r@ == "/trades/:id.json"@,
    {
        "/trades/:id.json"
    }

    /// The HTTP method of this endpoint.
    pub fn http_method() -> (r: ApiHttpMethod)
        ensures
            r == ApiHttpMethod::Get,
    {
        ApiHttpMethod::Get
    }

    /// The URL path that `p` resolves the template to.
    pub open spec fn spec_url(p: TradesShowParameters) -> Seq<char> {
        "/trades/"@ + p.id@ + ".json"@
    }

    /// Resolves the URL template with the fields of `parameters`:
    /// plain decimal digits for integers, strings as they are.
    pub fn url(parameters: &TradesShowParameters) -> (r: String)
        ensures
            r@ == Self::spec_url(*parameters),
    {
        let mut s = "/trades/".to_owned();
        s.append(parameters.id.as_str());
        s.append(".json");
        s
    }

    /// Wraps `parameters` for URL rendering.
    pub fn url_path<'a>(parameters: &'a TradesShowParameters) -> (r: TradesShowUrlDisplay<'a>)
        ensures
            r.0 == parameters,
    {
        TradesShowUrlDisplay(parameters)
    }

    /// Decodes a success payload, naming this endpoint in any
    /// failure.
    pub fn decode_success(v: &JsonValue) -> (r: Result<TradesShowSuccess, DecodeError>)
        ensures
            r matches Ok(s) ==> <TradesShowSuccess as FromJson>::decodable(v@)
                && <TradesShowSuccess as FromJson>::rel(v@, s),
            <TradesShowSuccess as FromJson>::decodable(v@) ==> r is Ok,
            r matches Err(e) ==> spec_starts_with(e.path@, "TradesShow"@),
    {
        match TradesShowSuccess::decode(v) {
            Ok(s) => Ok(s),
            Err(e) => Err(e.in_endpoint("TradesShow")),
        }
    }
}

/// The parameters of a [`TradesShow`] call.
#[derive(Debug, Clone, PartialEq)]
pub struct TradesShowParameters {
    pub id: String,
}

impl ToJson for TradesShowParameters {
    open spec fn enc(s: Self) -> Jv {
        Jv::Obj(
            Seq::<(Seq<char>, Jv)>::empty()
                + req_entry("id"@, s.id),
        )
    }

    fn encode(&self) -> (r: JsonValue) {
        let mut o = JsonObj::new();
        o.put("id", &self.id);
        o.finish()
    }
}

impl FromJson for TradesShowParameters {
    open spec fn decodable(v: Jv) -> bool {
        &&& v is Obj
        &&& req_field_ok::<String>(v, "id"@)
    }

    open spec fn rel(v: Jv, s: Self) -> bool {
        &&& v is Obj
        &&& req_field_rel::<String>(v, "id"@, s.id)
    }

    fn decode(v: &JsonValue) -> (r: Result<Self, DecodeError>) {
        let id: String = match get_field(v, "id") {
            Ok(x) => x,
            Err(e) => {
                return Err(e);
            },
        };
        Ok(TradesShowParameters { id })
    }
}

/// The success response of a [`TradesShow`] call.
#[derive(Debug, Clone, PartialEq)]
pub struct TradesShowSuccess {
    pub id: String,
    pub unique_identifier: String,
    pub transaction_date: Date,
    pub quantity: Decimal,
    pub price: Decimal,
    pub cost_base: Decimal,
    pub exchange_rate: Decimal,
    pub brokerage: Decimal,
    pub brokerage_currency_code: Currency,
    pub value: Decimal,
    pub paid_on: Date,
    pub company_event_id: i64,
    pub comments: String,
    pub portfolio_id: i64,
    pub holding_id: i64,
    pub state: String,
    pub transaction_type: TradeDescription,
    pub instrument_id: i64,
    pub symbol: String,
    pub market: Market,
    pub attachment_filename: String,
    pub attachment_id: i64,
    pub confirmed: bool,
    pub api_transaction: TradesShowApiTransactionSuccess,
}

impl ToJson for TradesShowSuccess {
    open spec fn enc(s: Self) -> Jv {
        Jv::Obj(
            Seq::<(Seq<char>, Jv)>::empty()
                + req_entry("id"@, s.id)
                + req_entry("unique_identifier"@, s.unique_identifier)
                + req_entry("transaction_date"@, s.transaction_date)
                + req_entry("quantity"@, s.quantity)
                + req_entry("price"@, s.price)
                + req_entry("cost_base"@, s.cost_base)
                + req_entry("exchange_rate"@, s.exchange_rate)
                + req_entry("brokerage"@, s.brokerage)
                + req_entry("brokerage_currency_code"@, s.brokerage_currency_code)
                + req_entry("value"@, s.value)
                + req_entry("paid_on"@, s.paid_on)
                + req_entry("company_event_id"@, s.company_event_id)
                + req_entry("comments"@, s.comments)
                + req_entry("portfolio_id"@, s.portfolio_id)
                + req_entry("holding_id"@, s.holding_id)
                + req_entry("state"@, s.state)
                + req_entry("transaction_type"@, s.transaction_type)
                + req_entry("instrument_id"@, s.instrument_id)
                + req_entry("symbol"@, s.symbol)
                + req_entry("market"@, s.market)
                + req_entry("attachment_filename"@, s.attachment_filename)
                + req_entry("attachment_id"@, s.attachment_id)
                + req_entry("confirmed"@, s.confirmed)
                + req_entry("api_transaction"@, s.api_transaction),
        )
    }

    fn encode(&self) -> (r: JsonValue) {
        let mut o = JsonObj::new();
        o.put("id", &self.id);
        o.put("unique_identifier", &self.unique_identifier);
        o.put("transaction_date", &self.transaction_date);
        o.put("quantity", &self.quantity);
        o.put("price", &self.price);
        o.put("cost_base", &self.cost_base);
        o.put("exchange_rate", &self.exchange_rate);
        o.put("brokerage", &self.brokerage);
        o.put("brokerage_currency_code", &self.brokerage_currency_code);
        o.put("value", &self.value);
        o.put("paid_on", &self.paid_on);
        o.put("company_event_id", &self.company_event_id);
        o.put("comments", &self.comments);
        o.put("portfolio_id", &self.portfolio_id);
        o.put("holding_id", &self.holding_id);
        o.put("state", &self.state);
        o.put("transaction_type", &self.transaction_type);
        o.put("instrument_id", &self.instrument_id);
        o.put("symbol", &self.symbol);
        o.put("market", &self.market);
        o.put("attachment_filename", &self.attachment_filename);
        o.put("attachment_id", &self.attachment_id);
        o.put("confirmed", &self.confirmed);
        o.put("api_transaction", &self.api_transaction);
        o.finish()
    }
}

impl FromJson for TradesShowSuccess {
    open spec fn decodable(v: Jv) -> bool {
        &&& v is Obj
        &&& req_field_ok::<String>(v, "id"@)
        &&& req_field_ok::<String>(v, "unique_identifier"@)
        &&& req_field_ok::<Date>(v, "transaction_date"@)
        &&& req_field_ok::<Decimal>(v, "quantity"@)
        &&& req_field_ok::<Decimal>(v, "price"@)
        &&& req_field_ok::<Decimal>(v, "cost_base"@)
        &&& req_field_ok::<Decimal>(v, "exchange_rate"@)
        &&& req_field_ok::<Decimal>(v, "brokerage"@)
        &&& req_field_ok::<Currency>(v, "brokerage_currency_code"@)
        &&& req_field_ok::<Decimal>(v, "value"@)
        &&& req_field_ok::<Date>(v, "paid_on"@)
        &&& req_field_ok::<i64>(v, "company_event_id"@)
        &&& req_field_ok::<String>(v, "comments"@)
        &&& req_field_ok::<i64>(v, "portfolio_id"@)
        &&& req_field_ok::<i64>(v, "holding_id"@)
        &&& req_field_ok::<String>(v, "state"@)
        &&& req_field_ok::<TradeDescription>(v, "transaction_type"@)
        &&& req_field_ok::<i64>(v, "instrument_id"@)
        &&& req_field_ok::<String>(v, "symbol"@)
        &&& req_field_ok::<Market>(v, "market"@)
        &&& req_field_ok::<String>(v, "attachment_filename"@)
        &&& req_field_ok::<i64>(v, "attachment_id"@)
        &&& req_field_ok::<bool>(v, "confirmed"@)
        &&& req_field_ok::<TradesShowApiTransactionSuccess>(v, "api_transaction"@)
    }

    open spec fn rel(v: Jv, s: Self) -> bool {
        &&& v is Obj
        &&& req_field_rel::<String>(v, "id"@, s.id)
        &&& req_field_rel::<String>(v, "unique_identifier"@, s.unique_identifier)
        &&& req_field_rel::<Date>(v, "transaction_date"@, s.transaction_date)
        &&& req_field_rel::<Decimal>(v, "quantity"@, s.quantity)
        &&& req_field_rel::<Decimal>(v, "price"@, s.price)
        &&& req_field_rel::<Decimal>(v, "cost_base"@, s.cost_base)
        &&& req_field_rel::<Decimal>(v, "exchange_rate"@, s.exchange_rate)
        &&& req_field_rel::<Decimal>(v, "brokerage"@, s.brokerage)
        &&& req_field_rel::<Currency>(v, "brokerage_currency_code"@, s.brokerage_currency_code)
        &&& req_field_rel::<Decimal>(v, "value"@, s.value)
        &&& req_field_rel::<Date>(v, "paid_on"@, s.paid_on)
        &&& req_field_rel::<i64>(v, "company_event_id"@, s.company_event_id)
        &&& req_field_rel::<String>(v, "comments"@, s.comments)
        &&& req_field_rel::<i64>(v, "portfolio_id"@, s.portfolio_id)
        &&& req_field_rel::<i64>(v, "holding_id"@, s.holding_id)
        &&& req_field_rel::<String>(v, "state"@, s.state)
        &&& req_field_rel::<TradeDescription>(v, "transaction_type"@, s.transaction_type)
        &&& req_field_rel::<i64>(v, "instrument_id"@, s.instrument_id)
        &&& req_field_rel::<String>(v, "symbol"@, s.symbol)
        &&& req_field_rel::<Market>(v, "market"@, s.market)
        &&& req_field_rel::<String>(v, "attachment_filename"@, s.attachment_filename)
        &&& req_field_rel::<i64>(v, "attachment_id"@, s.attachment_id)
        &&& req_field_rel::<bool>(v, "confirmed"@, s.confirmed)
        &&& req_field_rel::<TradesShowApiTransactionSuccess>(v, "api_transaction"@, s.api_transaction)
    }

    fn decode(v: &JsonValue) -> (r: Result<Self, DecodeError>) {
        let id: String = match get_field(v, "id") {
            Ok(x) => x,
            Err(e) => {
                return Err(e);
            },
        };
        let unique_identifier: String = match get_field(v, "unique_identifier") {
            Ok(x) => x,
            Err(e) => {
                return Err(e);
            },
        };
        let transaction_date: Date = match get_field(v, "transaction_date") {
            Ok(x) => x,
            Err(e) => {
                return Err(e);
            },
        };
        let quantity: Decimal = match get_field(v, "quantity") {
            Ok(x) => x,
            Err(e) => {
                return Err(e);
            },
        };
        let price: Decimal = match get_field(v, "price") {
            Ok(x) => x,
            Err(e) => {
                return Err(e);
            },
        };
        let cost_base: Decimal = match get_field(v, "cost_base") {
            Ok(x) => x,
            Err(e) => {
                return Err(e);
            },
        };
        let exchange_rate: Decimal = match get_field(v, "exchange_rate") {
            Ok(x) => x,
            Err(e) => {
                return Err(e);
            },
        };
        let brokerage: Decimal = match get_field(v, "brokerage") {
            Ok(x) => x,
            Err(e) => {
                return Err(e);
            },
        };
        let brokerage_currency_code: Currency = match get_field(v, "brokerage_currency_code") {
            Ok(x) => x,
            Err(e) => {
                return Err(e);
            },
        };
        let value: Decimal = match get_field(v, "value") {
            Ok(x) => x,
            Err(e) => {
                return Err(e);
            },
        };
        let paid_on: Date = match get_field(v, "paid_on") {
            Ok(x) => x,
            Err(e) => {
                return Err(e);
            },
        };
        let company_event_id: i64 = match get_field(v, "company_event_id") {
            Ok(x) => x,
            Err(e) => {
                return Err(e);
            },
        };
        let comments: String = match get_field(v, "comments") {
            Ok(x) => x,
            Err(e) => {
                return Err(e);
            },
        };
        let portfolio_id: i64 = match get_field(v, "portfolio_id") {
            Ok(x) => x,
            Err(e) => {
                return Err(e);
            },
        };
        let holding_id: i64 = match get_field(v, "holding_id") {
            Ok(x) => x,
            Err(e) => {
                return Err(e);
            },
        };
        let state: String = match get_field(v, "state") {
            Ok(x) => x,
            Err(e) => {
                return Err(e);
            },
        };
        let transaction_type: TradeDescription = match get_field(v, "transaction_type") {
            Ok(x) => x,
            Err(e) => {
                return Err(e);
            },
        };
        let instrument_id: i64 = match get_field(v, "instrument_id") {
            Ok(x) => x,
            Err(e) => {
                return Err(e);
            },
        };
        let symbol: String = match get_field(v, "symbol") {
            Ok(x) => x,
            Err(e) => {
                return Err(e);
            },
        };
        let market: Market = match get_field(v, "market") {
            Ok(x) => x,
            Err(e) => {
                return Err(e);
            },
        };
        let attachment_filename: String = match get_field(v, "attachment_filename") {
            Ok(x) => x,
            Err(e) => {
                return Err(e);
            },
        };
        let attachment_id: i64 = match get_field(v, "attachment_id") {
            Ok(x) => x,
            Err(e) => {
                return Err(e);
            },
        };
        let confirmed: bool = match get_field(v, "confirmed") {
            Ok(x) => x,
            Err(e) => {
                return Err(e);
            },
        };
        let api_transaction: TradesShowApiTransactionSuccess = match get_field(v, "api_transaction") {
            Ok(x) => x,
            Err(e) => {
                return Err(e);
            },
        };
        Ok(TradesShowSuccess { id, unique_identifier, transaction_date, quantity, price, cost_base, exchange_rate, brokerage, brokerage_currency_code, value, paid_on, company_event_id, comments, portfolio_id, holding_id, state, transaction_type, instrument_id, symbol, market, attachment_filename, attachment_id, confirmed, api_transaction })
    }
}

/// A nested response shape of [`TradesShow`].
#[derive(Debug, Clone, PartialEq)]
pub struct TradesShowApiTransactionSuccess {
    pub id: i64,
    pub version: i64,
    pub action: String,
    pub timestamp: String,
}

impl ToJson for TradesShowApiTransactionSuccess {
    open spec fn enc(s: Self) -> Jv {
        Jv::Obj(
            Seq::<(Seq<char>, Jv)>::empty()
                + req_entry("id"@, s.id)
                + req_entry("version"@, s.version)
                + req_entry("action"@, s.action)
                + req_entry("timestamp"@, s.timestamp),
        )
    }

    fn encode(&self) -> (r: JsonValue) {
        let mut o = JsonObj::new();
        o.put("id", &self.id);
        o.put("version", &self.version);
        o.put("action", &self.action);
        o.put("timestamp", &self.timestamp);
        o.finish()
    }
}

impl FromJson for TradesShowApiTransactionSuccess {
    open spec fn decodable(v: Jv) -> bool {
        &&& v is Obj
        &&& req_field_ok::<i64>(v, "id"@)
        &&& req_field_ok::<i64>(v, "version"@)
        &&& req_field_ok::<String>(v, "action"@)
        &&& req_field_ok::<String>(v, "timestamp"@)
    }

    open spec fn rel(v: Jv, s: Self) -> bool {
        &&& v is Obj
        &&& req_field_rel::<i64>(v, "id"@, s.id)
        &&& req_field_rel::<i64>(v, "version"@, s.version)
        &&& req_field_rel::<String>(v, "action"@, s.action)
        &&& req_field_rel::<String>(v, "timestamp"@, s.timestamp)
    }

    fn decode(v: &JsonValue) -> (r: Result<Self, DecodeError>) {
        let id: i64 = match get_field(v, "id") {
            Ok(x) => x,
            Err(e) => {
                return Err(e);
            },
        };
        let version: i64 = match get_field(v, "version") {
            Ok(x) => x,
            Err(e) => {
                return Err(e);
            },
        };
        let action: String = match get_field(v, "action") {
            Ok(x) => x,
            Err(e) => {
                return Err(e);
            },
        };
        let timestamp: String = match get_field(v, "timestamp") {
            Ok(x) => x,
            Err(e) => {
                return Err(e);
            },
        };
        Ok(TradesShowApiTransactionSuccess { id, version, action, timestamp })
    }
}

/// `PUT /trades/:id.json`.
pub struct TradesUpdate;

/// The parameters of a [`TradesUpdate`] call, held for URL rendering.
pub struct TradesUpdateUrlDisplay<'a>(pub &'a TradesUpdateParameters);

impl<'a> TradesUpdateUrlDisplay<'a> {
    /// Renders the resolved URL path.
    pub fn render(&self) -> (r: String)
        ensures
            r@ == TradesUpdate::spec_url(*self.0),
    {
        TradesUpdate::url(self.0)
    }
}

impl TradesUpdate {
    /// The URL template of this endpoint.
    pub fn url_template() -> (r: &'static str)
        ensures
            r@ == "/trades/:id.json"@,
    {
        "/trades/:id.json"
    }

    /// The HTTP method of this endpoint.
    pub fn http_method() -> (r: ApiHttpMethod)
        ensures
            r == ApiHttpMethod::Put,
    {
        ApiHttpMethod::Put
    }

    /// The URL path that `p` resolves the template to.
    pub open spec fn spec_url(p: TradesUpdateParameters) -> Seq<char> {
        "/trades/"@ + spec_i64_string(p.id as int) + ".json"@
    }

    /// Resolves the URL template with the fields of `parameters`:
    /// plain decimal digits for integers, strings as they are.
    pub fn url(parameters: &TradesUpdateParameters) -> (r: String)
        ensures
            r@ == Self::spec_url(*parameters),
    {
        let mut s = "/trades/".to_owned();
        s.append(render_i64(parameters.id).as_str());
        s.append(".json");
        s
    }

    /// Wraps `parameters` for URL rendering.
    pub fn url_path<'a>(parameters: &'a TradesUpdateParameters) -> (r: TradesUpdateUrlDisplay<'a>)
        ensures
            r.0 == parameters,
    {
        TradesUpdateUrlDisplay(parameters)
    }

    /// Decodes a success payload, naming this endpoint in any
    /// failure.
    pub fn decode_success(v: &JsonValue) -> (r: Result<TradesUpdateSuccess, DecodeError>)
        ensures
            r matches Ok(s) ==> <TradesUpdateSuccess as FromJson>::decodable(v@)
                && <TradesUpdateSuccess as FromJson>::rel(v@, s),
            <TradesUpdateSuccess as FromJson>::decodable(v@) ==> r is Ok,
            r matches Err(e) ==> spec_starts_with(e.path@, "TradesUpdate"@),
    {
        match TradesUpdateSuccess::decode(v) {
            Ok(s) => Ok(s),
            Err(e) => Err(e.in_endpoint("TradesUpdate")),
        }
    }
}

/// The parameters of a [`TradesUpdate`] call.
#[derive(Debug, Clone, PartialEq)]
pub struct TradesUpdateParameters {
    pub id: i64,
    pub trade: TradesUpdateTradeParameters,
}

impl ToJson for TradesUpdateParameters {
    open spec fn enc(s: Self) -> Jv {
        Jv::Obj(
            Seq::<(Seq<char>, Jv)>::empty()
                + req_entry("id"@, s.id)
                + req_entry("trade"@, s.trade),
        )
    }

    fn encode(&self) -> (r: JsonValue) {
        let mut o = JsonObj::new();
        o.put("id", &self.id);
        o.put("trade", &self.trade);
        o.finish()
    }
}

impl FromJson for TradesUpdateParameters {
    open spec fn decodable(v: Jv) -> bool {
        &&& v is Obj
        &&& req_field_ok::<i64>(v, "id"@)
        &&& req_field_ok::<TradesUpdateTradeParameters>(v, "trade"@)
    }

    open spec fn rel(v: Jv, s: Self) -> bool {
        &&& v is Obj
        &&& req_field_rel::<i64>(v, "id"@, s.id)
        &&& req_field_rel::<TradesUpdateTradeParameters>(v, "trade"@, s.trade)
    }

    fn decode(v: &JsonValue) -> (r: Result<Self, DecodeError>) {
        let id: i64 = match get_field(v, "id") {
            Ok(x) => x,
            Err(e) => {
                return Err(e);
            },
        };
        let trade: TradesUpdateTradeParameters = match get_field(v, "trade") {
            Ok(x) => x,
            Err(e) => {
                return Err(e);
            },
        };
        Ok(TradesUpdateParameters { id, trade })
    }
}

/// A nested parameter shape of [`TradesUpdate`].
#[derive(Debug, Clone, PartialEq)]
pub struct TradesUpdateTradeParameters {
    pub transaction_date: Option<String>,
    pub quantity: Option<Decimal>,
    pub price: Option<Decimal>,
    pub cost_base: Option<Decimal>,
    pub exchange_rate: Option<Decimal>,
    pub brokerage: Option<Decimal>,
    pub brokerage_currency_code: Option<Currency>,
    pub adjust_cost_base_value: Option<Decimal>,
    pub capital_return_value: Option<Decimal>,
    pub paid_on: Option<Date>,
    pub comments: Option<String>,
    pub instrument_id: Option<String>,
    pub symbol: Option<String>,
    pub market: Option<Market>,
    pub market_country_code: Option<String>,
    pub transaction_type: Option<TradeDescription>,
    pub attachment: Option<String>,
    pub attachment_filename: Option<String>,
}

impl ToJson for TradesUpdateTradeParameters {
    open spec fn enc(s: Self) -> Jv {
        Jv::Obj(
            Seq::<(Seq<char>, Jv)>::empty()
                + opt_entry("transaction_date"@, s.transaction_date)
                + opt_entry("quantity"@, s.quantity)
                + opt_entry("price"@, s.price)
                + opt_entry("cost_base"@, s.cost_base)
                + opt_entry("exchange_rate"@, s.exchange_rate)
                + opt_entry("brokerage"@, s.brokerage)
                + opt_entry("brokerage_currency_code"@, s.brokerage_currency_code)
                + opt_entry("adjust_cost_base_value"@, s.adjust_cost_base_value)
                + opt_entry("capital_return_value"@, s.capital_return_value)
                + opt_entry("paid_on"@, s.paid_on)
                + opt_entry("comments"@, s.comments)
                + opt_entry("instrument_id"@, s.instrument_id)
                + opt_entry("symbol"@, s.symbol)
                + opt_entry("market"@, s.market)
                + opt_entry("market_country_code"@, s.market_country_code)
                + opt_entry("transaction_type"@, s.transaction_type)
                + opt_entry("attachment"@, s.attachment)
                + opt_entry("attachment_filename"@, s.attachment_filename),
        )
    }

    fn encode(&self) -> (r: JsonValue) {
        let mut o = JsonObj::new();
        o.put_opt("transaction_date", &self.transaction_date);
        o.put_opt("quantity", &self.quantity);
        o.put_opt("price", &self.price);
        o.put_opt("cost_base", &self.cost_base);
        o.put_opt("exchange_rate", &self.exchange_rate);
        o.put_opt("brokerage", &self.brokerage);
        o.put_opt("brokerage_currency_code", &self.brokerage_currency_code);
        o.put_opt("adjust_cost_base_value", &self.adjust_cost_base_value);
        o.put_opt("capital_return_value", &self.capital_return_value);
        o.put_opt("paid_on", &self.paid_on);
        o.put_opt("comments", &self.comments);
        o.put_opt("instrument_id", &self.instrument_id);
        o.put_opt("symbol", &self.symbol);
        o.put_opt("market", &self.market);
        o.put_opt("market_country_code", &self.market_country_code);
        o.put_opt("transaction_type", &self.transaction_type);
        o.put_opt("attachment", &self.attachment);
        o.put_opt("attachment_filename", &self.attachment_filename);
        o.finish()
    }
}

impl FromJson for TradesUpdateTradeParameters {
    open spec fn decodable(v: Jv) -> bool {
        &&& v is Obj
        &&& opt_field_ok::<String>(v, "transaction_date"@)
        &&& opt_field_ok::<Decimal>(v, "quantity"@)
        &&& opt_field_ok::<Decimal>(v, "price"@)
        &&& opt_field_ok::<Decimal>(v, "cost_base"@)
        &&& opt_field_ok::<Decimal>(v, "exchange_rate"@)
        &&& opt_field_ok::<Decimal>(v, "brokerage"@)
        &&& opt_field_ok::<Currency>(v, "brokerage_currency_code"@)
        &&& opt_field_ok::<Decimal>(v, "adjust_cost_base_value"@)
        &&& opt_field_ok::<Decimal>(v, "capital_return_value"@)
        &&& opt_field_ok::<Date>(v, "paid_on"@)
        &&& opt_field_ok::<String>(v, "comments"@)
        &&& opt_field_ok::<String>(v, "instrument_id"@)
        &&& opt_field_ok::<String>(v, "symbol"@)
        &&& opt_field_ok::<Market>(v, "market"@)
        &&& opt_field_ok::<String>(v, "market_country_code"@)
        &&& opt_field_ok::<TradeDescription>(v, "transaction_type"@)
        &&& opt_field_ok::<String>(v, "attachment"@)
        &&& opt_field_ok::<String>(v, "attachment_filename"@)
    }

    open spec fn rel(v: Jv, s: Self) -> bool {
        &&& v is Obj
        &&& opt_field_rel::<String>(v, "transaction_date"@, s.transaction_date)
        &&& opt_field_rel::<Decimal>(v, "quantity"@, s.quantity)
        &&& opt_field_rel::<Decimal>(v, "price"@, s.price)
        &&& opt_field_rel::<Decimal>(v, "cost_base"@, s.cost_base)
        &&& opt_field_rel::<Decimal>(v, "exchange_rate"@, s.exchange_rate)
        &&& opt_field_rel::<Decimal>(v, "brokerage"@, s.brokerage)
        &&& opt_field_rel::<Currency>(v, "brokerage_currency_code"@, s.brokerage_currency_code)
        &&& opt_field_rel::<Decimal>(v, "adjust_cost_base_value"@, s.adjust_cost_base_value)
        &&& opt_field_rel::<Decimal>(v, "capital_return_value"@, s.capital_return_value)
        &&& opt_field_rel::<Date>(v, "paid_on"@, s.paid_on)
        &&& opt_field_rel::<String>(v, "comments"@, s.comments)
        &&& opt_field_rel::<String>(v, "instrument_id"@, s.instrument_id)
        &&& opt_field_rel::<String>(v, "symbol"@, s.symbol)
        &&& opt_field_rel::<Market>(v, "market"@, s.market)
        &&& opt_field_rel::<String>(v, "market_country_code"@, s.market_country_code)
        &&& opt_field_rel::<TradeDescription>(v, "transaction_type"@, s.transaction_type)
        &&& opt_field_rel::<String>(v, "attachment"@, s.attachment)
        &&& opt_field_rel::<String>(v, "attachment_filename"@, s.attachment_filename)
    }

    fn decode(v: &JsonValue) -> (r: Result<Self, DecodeError>) {
        let transaction_date: Option<String> = match get_opt_field(v, "transaction_date") {
            Ok(x) => x,
            Err(e) => {
                return Err(e);
            },
        };
        let quantity: Option<Decimal> = match get_opt_field(v, "quantity") {
            Ok(x) => x,
            Err(e) => {
                return Err(e);
            },
        };
        let price: Option<Decimal> = match get_opt_field(v, "price") {
            Ok(x) => x,
            Err(e) => {
                return Err(e);
            },
        };
        let cost_base: Option<Decimal> = match get_opt_field(v, "cost_base") {
            Ok(x) => x,
            Err(e) => {
                return Err(e);
            },
        };
        let exchange_rate: Option<Decimal> = match get_opt_field(v, "exchange_rate") {
            Ok(x) => x,
            Err(e) => {
                return Err(e);
            },
        };
        let brokerage: Option<Decimal> = match get_opt_field(v, "brokerage") {
            Ok(x) => x,
            Err(e) => {
                return Err(e);
            },
        };
        let brokerage_currency_code: Option<Currency> = match get_opt_field(v, "brokerage_currency_code") {
            Ok(x) => x,
            Err(e) => {
                return Err(e);
            },
        };
        let adjust_cost_base_value: Option<Decimal> = match get_opt_field(v, "adjust_cost_base_value") {
            Ok(x) => x,
            Err(e) => {
                return Err(e);
            },
        };
        let capital_return_value: Option<Decimal> = match get_opt_field(v, "capital_return_value") {
            Ok(x) => x,
            Err(e) => {
                return Err(e);
            },
        };
        let paid_on: Option<Date> = match get_opt_field(v, "paid_on") {
            Ok(x) => x,
            Err(e) => {
                return Err(e);
            },
        };
        let comments: Option<String> = match get_opt_field(v, "comments") {
            Ok(x) => x,
            Err(e) => {
                return Err(e);
            },
        };
        let instrument_id: Option<String> = match get_opt_field(v, "instrument_id") {
            Ok(x) => x,
            Err(e) => {
                return Err(e);
            },
        };
        let symbol: Option<String> = match get_opt_field(v, "symbol") {
            Ok(x) => x,
            Err(e) => {
                return Err(e);
            },
        };
        let market: Option<Market> = match get_opt_field(v, "market") {
            Ok(x) => x,
            Err(e) => {
                return Err(e);
            },
        };
        let market_country_code: Option<String> = match get_opt_field(v, "market_country_code") {
            Ok(x) => x,
            Err(e) => {
                return Err(e);
            },
        };
        let transaction_type: Option<TradeDescription> = match get_opt_field(v, "transaction_type") {
            Ok(x) => x,
            Err(e) => {
                return Err(e);
            },
        };
        let attachment: Option<String> = match get_opt_field(v, "attachment") {
            Ok(x) => x,
            Err(e) => {
                return Err(e);
            },
        };
        let attachment_filename: Option<String> = match get_opt_field(v, "attachment_filename") {
            Ok(x) => x,
            Err(e) => {
                return Err(e);
            },
        };
        Ok(TradesUpdateTradeParameters { transaction_date, quantity, price, cost_base, exchange_rate, brokerage, brokerage_currency_code, adjust_cost_base_value, capital_return_value, paid_on, comments, instrument_id, symbol, market, market_country_code, transaction_type, attachment, attachment_filename })
    }
}

/// The success response of a [`TradesUpdate`] call.
#[derive(Debug, Clone, PartialEq)]
pub struct TradesUpdateSuccess {
    pub trade: TradesUpdateTradeSuccess,
    pub api_transaction: TradesUpdateApiTransactionSuccess,
}

impl ToJson for TradesUpdateSuccess {
    open spec fn enc(s: Self) -> Jv {
        Jv::Obj(
            Seq::<(Seq<char>, Jv)>::empty()
                + req_entry("trade"@, s.trade)
                + req_entry("api_transaction"@, s.api_transaction),
        )
    }

    fn encode(&self) -> (r: JsonValue) {
        let mut o = JsonObj::new();
        o.put("trade", &self.trade);
        o.put("api_transaction", &self.api_transaction);
        o.finish()
    }
}

impl FromJson for TradesUpdateSuccess {
    open spec fn decodable(v: Jv) -> bool {
        &&& v is Obj
        &&& req_field_ok::<TradesUpdateTradeSuccess>(v, "trade"@)
        &&& req_field_ok::<TradesUpdateApiTransactionSuccess>(v, "api_transaction"@)
    }

    open spec fn rel(v: Jv, s: Self) -> bool {
        &&& v is Obj
        &&& req_field_rel::<TradesUpdateTradeSuccess>(v, "trade"@, s.trade)
        &&& req_field_rel::<TradesUpdateApiTransactionSuccess>(v, "api_transaction"@, s.api_transaction)
    }

    fn decode(v: &JsonValue) -> (r: Result<Self, DecodeError>) {
        let trade: TradesUpdateTradeSuccess = match get_field(v, "trade") {
            Ok(x) => x,
            Err(e) => {
                return Err(e);
            },
        };
        let api_transaction: TradesUpdateApiTransactionSuccess = match get_field(v, "api_transaction") {
            Ok(x) => x,
            Err(e) => {
                return Err(e);
            },
        };
        Ok(TradesUpdateSuccess { trade, api_transaction })
    }
}

/// A nested response shape of [`TradesUpdate`].
#[derive(Debug, Clone, PartialEq)]
pub struct TradesUpdateTradeSuccess {
    pub id: String,
    pub unique_identifier: String,
    pub transaction_date: Date,
    pub quantity: Decimal,
    pub price: Decimal,
    pub cost_base: Decimal,
    pub exchange_rate: Decimal,
    pub brokerage: Decimal,
    pub brokerage_currency_code: Currency,
    pub value: Decimal,
    pub paid_on: Date,
    pub company_event_id: i64,
    pub comments: String,
    pub portfolio_id: i64,
    pub holding_id: i64,
    pub state: String,
    pub transaction_type: TradeDescription,
    pub instrument_id: i64,
    pub symbol: String,
    pub market: Market,
    pub attachment_filename: String,
    pub attachment_id: i64,
    pub confirmed: bool,
}

impl ToJson for TradesUpdateTradeSuccess {
    open spec fn enc(s: Self) -> Jv {
        Jv::Obj(
            Seq::<(Seq<char>, Jv)>::empty()
                + req_entry("id"@, s.id)
                + req_entry("unique_identifier"@, s.unique_identifier)
                + req_entry("transaction_date"@, s.transaction_date)
                + req_entry("quantity"@, s.quantity)
                + req_entry("price"@, s.price)
                + req_entry("cost_base"@, s.cost_base)
                + req_entry("exchange_rate"@, s.exchange_rate)
                + req_entry("brokerage"@, s.brokerage)
                + req_entry("brokerage_currency_code"@, s.brokerage_currency_code)
                + req_entry("value"@, s.value)
                + req_entry("paid_on"@, s.paid_on)
                + req_entry("company_event_id"@, s.company_event_id)
                + req_entry("comments"@, s.comments)
                + req_entry("portfolio_id"@, s.portfolio_id)
                + req_entry("holding_id"@, s.holding_id)
                + req_entry("state"@, s.state)
                + req_entry("transaction_type"@, s.transaction_type)
                + req_entry("instrument_id"@, s.instrument_id)
                + req_entry("symbol"@, s.symbol)
                + req_entry("market"@, s.market)
                + req_entry("attachment_filename"@, s.attachment_filename)
                + req_entry("attachment_id"@, s.attachment_id)
                + req_entry("confirmed"@, s.confirmed),
        )
    }

    fn encode(&self) -> (r: JsonValue) {
        let mut o = JsonObj::new();
        o.put("id", &self.id);
        o.put("unique_identifier", &self.unique_identifier);
        o.put("transaction_date", &self.transaction_date);
        o.put("quantity", &self.quantity);
        o.put("price", &self.price);
        o.put("cost_base", &self.cost_base);
        o.put("exchange_rate", &self.exchange_rate);
        o.put("brokerage", &self.brokerage);
        o.put("brokerage_currency_code", &self.brokerage_currency_code);
        o.put("value", &self.value);
        o.put("paid_on", &self.paid_on);
        o.put("company_event_id", &self.company_event_id);
        o.put("comments", &self.comments);
        o.put("portfolio_id", &self.portfolio_id);
        o.put("holding_id", &self.holding_id);
        o.put("state", &self.state);
        o.put("transaction_type", &self.transaction_type);
        o.put("instrument_id", &self.instrument_id);
        o.put("symbol", &self.symbol);
        o.put("market", &self.market);
        o.put("attachment_filename", &self.attachment_filename);
        o.put("attachment_id", &self.attachment_id);
        o.put("confirmed", &self.confirmed);
        o.finish()
    }
}

impl FromJson for TradesUpdateTradeSuccess {
    open spec fn decodable(v: Jv) -> bool {
        &&& v is Obj
        &&& req_field_ok::<String>(v, "id"@)
        &&& req_field_ok::<String>(v, "unique_identifier"@)
        &&& req_field_ok::<Date>(v, "transaction_date"@)
        &&& req_field_ok::<Decimal>(v, "quantity"@)
        &&& req_field_ok::<Decimal>(v, "price"@)
        &&& req_field_ok::<Decimal>(v, "cost_base"@)
        &&& req_field_ok::<Decimal>(v, "exchange_rate"@)
        &&& req_field_ok::<Decimal>(v, "brokerage"@)
        &&& req_field_ok::<Currency>(v, "brokerage_currency_code"@)
        &&& req_field_ok::<Decimal>(v, "value"@)
        &&& req_field_ok::<Date>(v, "paid_on"@)
        &&& req_field_ok::<i64>(v, "company_event_id"@)
        &&& req_field_ok::<String>(v, "comments"@)
        &&& req_field_ok::<i64>(v, "portfolio_id"@)
        &&& req_field_ok::<i64>(v, "holding_id"@)
        &&& req_field_ok::<String>(v, "state"@)
        &&& req_field_ok::<TradeDescription>(v, "transaction_type"@)
        &&& req_field_ok::<i64>(v, "instrument_id"@)
        &&& req_field_ok::<String>(v, "symbol"@)
        &&& req_field_ok::<Market>(v, "market"@)
        &&& req_field_ok::<String>(v, "attachment_filename"@)
        &&& req_field_ok::<i64>(v, "attachment_id"@)
        &&& req_field_ok::<bool>(v, "confirmed"@)
    }

    open spec fn rel(v: Jv, s: Self) -> bool {
        &&& v is Obj
        &&& req_field_rel::<String>(v, "id"@, s.id)
        &&& req_field_rel::<String>(v, "unique_identifier"@, s.unique_identifier)
        &&& req_field_rel::<Date>(v, "transaction_date"@, s.transaction_date)
        &&& req_field_rel::<Decimal>(v, "quantity"@, s.quantity)
        &&& req_field_rel::<Decimal>(v, "price"@, s.price)
        &&& req_field_rel::<Decimal>(v, "cost_base"@, s.cost_base)
        &&& req_field_rel::<Decimal>(v, "exchange_rate"@, s.exchange_rate)
        &&& req_field_rel::<Decimal>(v, "brokerage"@, s.brokerage)
        &&& req_field_rel::<Currency>(v, "brokerage_currency_code"@, s.brokerage_currency_code)
        &&& req_field_rel::<Decimal>(v, "value"@, s.value)
        &&& req_field_rel::<Date>(v, "paid_on"@, s.paid_on)
        &&& req_field_rel::<i64>(v, "company_event_id"@, s.company_event_id)
        &&& req_field_rel::<String>(v, "comments"@, s.comments)
        &&& req_field_rel::<i64>(v, "portfolio_id"@, s.portfolio_id)
        &&& req_field_rel::<i64>(v, "holding_id"@, s.holding_id)
        &&& req_field_rel::<String>(v, "state"@, s.state)
        &&& req_field_rel::<TradeDescription>(v, "transaction_type"@, s.transaction_type)
        &&& req_field_rel::<i64>(v, "instrument_id"@, s.instrument_id)
        &&& req_field_rel::<String>(v, "symbol"@, s.symbol)
        &&& req_field_rel::<Market>(v, "market"@, s.market)
        &&& req_field_rel::<String>(v, "attachment_filename"@, s.attachment_filename)
        &&& req_field_rel::<i64>(v, "attachment_id"@, s.attachment_id)
        &&& req_field_rel::<bool>(v, "confirmed"@, s.confirmed)
    }

    fn decode(v: &JsonValue) -> (r: Result<Self, DecodeError>) {
        let id: String = match get_field(v, "id") {
            Ok(x) => x,
            Err(e) => {
                return Err(e);
            },
        };
        let unique_identifier: String = match get_field(v, "unique_identifier") {
            Ok(x) => x,
            Err(e) => {
                return Err(e);
            },
        };
        let transaction_date: Date = match get_field(v, "transaction_date") {
            Ok(x) => x,
            Err(e) => {
                return Err(e);
            },
        };
        let quantity: Decimal = match get_field(v, "quantity") {
            Ok(x) => x,
            Err(e) => {
                return Err(e);
            },
        };
        let price: Decimal = match get_field(v, "price") {
            Ok(x) => x,
            Err(e) => {
                return Err(e);
            },
        };
        let cost_base: Decimal = match get_field(v, "cost_base") {
            Ok(x) => x,
            Err(e) => {
                return Err(e);
            },
        };
        let exchange_rate: Decimal = match get_field(v, "exchange_rate") {
            Ok(x) => x,
            Err(e) => {
                return Err(e);
            },
        };
        let brokerage: Decimal = match get_field(v, "brokerage") {
            Ok(x) => x,
            Err(e) => {
                return Err(e);
            },
        };
        let brokerage_currency_code: Currency = match get_field(v, "brokerage_currency_code") {
            Ok(x) => x,
            Err(e) => {
                return Err(e);
            },
        };
        let value: Decimal = match get_field(v, "value") {
            Ok(x) => x,
            Err(e) => {
                return Err(e);
            },
        };
        let paid_on: Date = match get_field(v, "paid_on") {
            Ok(x) => x,
            Err(e) => {
                return Err(e);
            },
        };
        let company_event_id: i64 = match get_field(v, "company_event_id") {
            Ok(x) => x,
            Err(e) => {
                return Err(e);
            },
        };
        let comments: String = match get_field(v, "comments") {
            Ok(x) => x,
            Err(e) => {
                return Err(e);
            },
        };
        let portfolio_id: i64 = match get_field(v, "portfolio_id") {
            Ok(x) => x,
            Err(e) => {
                return Err(e);
            },
        };
        let holding_id: i64 = match get_field(v, "holding_id") {
            Ok(x) => x,
            Err(e) => {
                return Err(e);
            },
        };
        let state: String = match get_field(v, "state") {
            Ok(x) => x,
            Err(e) => {
                return Err(e);
            },
        };
        let transaction_type: TradeDescription = match get_field(v, "transaction_type") {
            Ok(x) => x,
            Err(e) => {
                return Err(e);
            },
        };
        let instrument_id: i64 = match get_field(v, "instrument_id") {
            Ok(x) => x,
            Err(e) => {
                return Err(e);
            },
        };
        let symbol: String = match get_field(v, "symbol") {
            Ok(x) => x,
            Err(e) => {
                return Err(e);
            },
        };
        let market: Market = match get_field(v, "market") {
            Ok(x) => x,
            Err(e) => {
                return Err(e);
            },
        };
        let attachment_filename: String = match get_field(v, "attachment_filename") {
            Ok(x) => x,
            Err(e) => {
                return Err(e);
            },
        };
        let attachment_id: i64 = match get_field(v, "attachment_id") {
            Ok(x) => x,
            Err(e) => {
                return Err(e);
            },
        };
        let confirmed: bool = match get_field(v, "confirmed") {
            Ok(x) => x,
            Err(e) => {
                return Err(e);
            },
        };
        Ok(TradesUpdateTradeSuccess { id, unique_identifier, transaction_date, quantity, price, cost_base, exchange_rate, brokerage, brokerage_currency_code, value, paid_on, company_event_id, comments, portfolio_id, holding_id, state, transaction_type, instrument_id, symbol, market, attachment_filename, attachment_id, confirmed })
    }
}

/// A nested response shape of [`TradesUpdate`].
#[derive(Debug, Clone, PartialEq)]
pub struct TradesUpdateApiTransactionSuccess {
    pub id: i64,
    pub version: i64,
    pub action: String,
    pub timestamp: String,
}

impl ToJson for TradesUpdateApiTransactionSuccess {
    open spec fn enc(s: Self) -> Jv {
        Jv::Obj(
            Seq::<(Seq<char>, Jv)>::empty()
                + req_entry("id"@, s.id)
                + req_entry("version"@, s.version)
                + req_entry("action"@, s.action)
                + req_entry("timestamp"@, s.timestamp),
        )
    }

    fn encode(&self) -> (r: JsonValue) {
        let mut o = JsonObj::new();
        o.put("id", &self.id);
        o.put("version", &self.version);
        o.put("action", &self.action);
        o.put("timestamp", &self.timestamp);
        o.finish()
    }
}

impl FromJson for TradesUpdateApiTransactionSuccess {
    open spec fn decodable(v: Jv) -> bool {
        &&& v is Obj
        &&& req_field_ok::<i64>(v, "id"@)
        &&& req_field_ok::<i64>(v, "version"@)
        &&& req_field_ok::<String>(v, "action"@)
        &&& req_field_ok::<String>(v, "timestamp"@)
    }

    open spec fn rel(v: Jv, s: Self) -> bool {
        &&& v is Obj
        &&& req_field_rel::<i64>(v, "id"@, s.id)
        &&& req_field_rel::<i64>(v, "version"@, s.version)
        &&& req_field_rel::<String>(v, "action"@, s.action)
        &&& req_field_rel::<String>(v, "timestamp"@, s.timestamp)
    }

    fn decode(v: &JsonValue) -> (r: Result<Self, DecodeError>) {
        let id: i64 = match get_field(v, "id") {
            Ok(x) => x,
            Err(e) => {
                return Err(e);
            },
        };
        let version: i64 = match get_field(v, "version") {
            Ok(x) => x,
            Err(e) => {
                return Err(e);
            },
        };
        let action: String = match get_field(v, "action") {
            Ok(x) => x,
            Err(e) => {
                return Err(e);
            },
        };
        let timestamp: String = match get_field(v, "timestamp") {
            Ok(x) => x,
            Err(e) => {
                return Err(e);
            },
        };
        Ok(TradesUpdateApiTransactionSuccess { id, version, action, timestamp })
    }
}

} // verus!
