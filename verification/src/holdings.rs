//! Holding, holding merge, instrument and document endpoints.

use vstd::prelude::*;
use vstd::string::StringExecFns;
use crate::api::ApiHttpMethod;
use crate::codec::DecodeError;
use crate::codec::Ignored;
use crate::codec::FromJson;
use crate::codec::JsonObj;
use crate::codec::ToJson;
use crate::codec::get_field;
use crate::codec::get_opt_field;
use crate::codec::opt_entry;
use crate::codec::opt_field_ok;
use crate::codec::opt_field_rel;
use crate::codec::req_entry;
use crate::codec::req_field_ok;
use crate::codec::req_field_rel;
use crate::codec::spec_starts_with;
use crate::date::Date;
use crate::date::DateTime;
use crate::enums::Currency;
use crate::enums::Market;
use crate::enums::TradeDescription;
use crate::json::Decimal;
use crate::json::JsonValue;
use crate::json::Jv;
use crate::num::render_i64;
use crate::num::spec_i64_string;

verus! {

/// `POST /portfolios/:portfolio_id/holding_merges.json`.
pub struct HoldingMergesCreate;

/// The parameters of a [`HoldingMergesCreate`] call, held for URL rendering.
pub struct HoldingMergesCreateUrlDisplay<'a>(pub &'a HoldingMergesCreateParameters);

impl<'a> HoldingMergesCreateUrlDisplay<'a> {
    /// Renders the resolved URL path.
    pub fn render(&self) -> (r: String)
        ensures
            r@ == HoldingMergesCreate::spec_url(*self.0),
    {
        HoldingMergesCreate::url(self.0)
    }
}

impl HoldingMergesCreate {
    /// The URL template of this endpoint.
    pub fn url_template() -> (r: &'static str)
        ensures
            r@ == "/portfolios/:portfolio_id/holding_merges.json"@,
    {
        "/portfolios/:portfolio_id/holding_merges.json"
    }

    /// The HTTP method of this endpoint.
    pub fn http_method() -> (r: ApiHttpMethod)
        ensures
            r == ApiHttpMethod::Post,
    {
        ApiHttpMethod::Post
    }

    /// The URL path that `p` resolves the template to.
    pub open spec fn spec_url(p: HoldingMergesCreateParameters) -> Seq<char> {
        "/portfolios/"@ + spec_i64_string(p.portfolio_id as int) + "/holding_merges.json"@
    }

    /// Resolves the URL template with the fields of `parameters`:
    /// plain decimal digits for integers, strings as they are.
    pub fn url(parameters: &HoldingMergesCreateParameters) -> (r: String)
        ensures
            r@ == Self::spec_url(*parameters),
    {
        let mut s = "/portfolios/".to_owned();
        s.append(render_i64(parameters.portfolio_id).as_str());
        s.append("/holding_merges.json");
        s
    }

    /// Wraps `parameters` for URL rendering.
    pub fn url_path<'a>(parameters: &'a HoldingMergesCreateParameters) -> (r: HoldingMergesCreateUrlDisplay<'a>)
        ensures
            r.0 == parameters,
    {
        HoldingMergesCreateUrlDisplay(parameters)
    }

    /// Decodes a success payload, naming this endpoint in any
    /// failure.
    pub fn decode_success(v: &JsonValue) -> (r: Result<HoldingMergesCreateSuccess, DecodeError>)
        ensures
            r matches Ok(s) ==> <HoldingMergesCreateSuccess as FromJson>::decodable(v@)
                && <HoldingMergesCreateSuccess as FromJson>::rel(v@, s),
            <HoldingMergesCreateSuccess as FromJson>::decodable(v@) ==> r is Ok,
            r matches Err(e) ==> spec_starts_with(e.path@, "HoldingMergesCreate"@),
    {
        match HoldingMergesCreateSuccess::decode(v) {
            Ok(s) => Ok(s),
            Err(e) => Err(e.in_endpoint("HoldingMergesCreate")),
        }
    }
}

/// The parameters of a [`HoldingMergesCreate`] call.
#[derive(Debug, Clone, PartialEq)]
pub struct HoldingMergesCreateParameters {
    pub portfolio_id: i64,
    pub holding_id: i64,
    pub merge_date: Date,
    pub quantity: Decimal,
    pub symbol: String,
    pub market: Market,
    pub cancelled_price: Option<Decimal>,
    pub comments: Option<String>,
    pub unique_identifier: Option<String>,
    pub attachment: Option<String>,
    pub attachment_filename: Option<String>,
}

impl ToJson for HoldingMergesCreateParameters {
    open spec fn enc(s: Self) -> Jv {
        Jv::Obj(
            Seq::<(Seq<char>, Jv)>::empty()
                + req_entry("portfolio_id"@, s.portfolio_id)
                + req_entry("holding_id"@, s.holding_id)
                + req_entry("merge_date"@, s.merge_date)
                + req_entry("quantity"@, s.quantity)
                + req_entry("symbol"@, s.symbol)
                + req_entry("market"@, s.market)
                + opt_entry("cancelled_price"@, s.cancelled_price)
                + opt_entry("comments"@, s.comments)
                + opt_entry("unique_identifier"@, s.unique_identifier)
                + opt_entry("attachment"@, s.attachment)
                + opt_entry("attachment_filename"@, s.attachment_filename),
        )
    }

    fn encode(&self) -> (r: JsonValue) {
        let mut o = JsonObj::new();
        o.put("portfolio_id", &self.portfolio_id);
        o.put("holding_id", &self.holding_id);
        o.put("merge_date", &self.merge_date);
        o.put("quantity", &self.quantity);
        o.put("symbol", &self.symbol);
        o.put("market", &self.market);
        o.put_opt("cancelled_price", &self.cancelled_price);
        o.put_opt("comments", &self.comments);
        o.put_opt("unique_identifier", &self.unique_identifier);
        o.put_opt("attachment", &self.attachment);
        o.put_opt("attachment_filename", &self.attachment_filename);
        o.finish()
    }
}

impl FromJson for HoldingMergesCreateParameters {
    open spec fn decodable(v: Jv) -> bool {
        &&& v is Obj
        &&& req_field_ok::<i64>(v, "portfolio_id"@)
        &&& req_field_ok::<i64>(v, "holding_id"@)
        &&& req_field_ok::<Date>(v, "merge_date"@)
        &&& req_field_ok::<Decimal>(v, "quantity"@)
        &&& req_field_ok::<String>(v, "symbol"@)
        &&& req_field_ok::<Market>(v, "market"@)
        &&& opt_field_ok::<Decimal>(v, "cancelled_price"@)
        &&& opt_field_ok::<String>(v, "comments"@)
        &&& opt_field_ok::<String>(v, "unique_identifier"@)
        &&& opt_field_ok::<String>(v, "attachment"@)
        &&& opt_field_ok::<String>(v, "attachment_filename"@)
    }

    open spec fn rel(v: Jv, s: Self) -> bool {
        &&& v is Obj
        &&& req_field_rel::<i64>(v, "portfolio_id"@, s.portfolio_id)
        &&& req_field_rel::<i64>(v, "holding_id"@, s.holding_id)
        &&& req_field_rel::<Date>(v, "merge_date"@, s.merge_date)
        &&& req_field_rel::<Decimal>(v, "quantity"@, s.quantity)
        &&& req_field_rel::<String>(v, "symbol"@, s.symbol)
        &&& req_field_rel::<Market>(v, "market"@, s.market)
        &&& opt_field_rel::<Decimal>(v, "cancelled_price"@, s.cancelled_price)
        &&& opt_field_rel::<String>(v, "comments"@, s.comments)
        &&& opt_field_rel::<String>(v, "unique_identifier"@, s.unique_identifier)
        &&& opt_field_rel::<String>(v, "attachment"@, s.attachment)
        &&& opt_field_rel::<String>(v, "attachment_filename"@, s.attachment_filename)
    }

    fn decode(v: &JsonValue) -> (r: Result<Self, DecodeError>) {
        let portfolio_id: i64 = match get_field(v, "portfolio_id") {
            Ok(x) => x,
            Err(e) => {
                return Err(e);
            },
        };
        let holding_id: i64 = match get_field(v, "holding_id") {
            Ok(x) => x,
            Err(e) => {
                return Err(e);
            },
        };
        let merge_date: Date = match get_field(v, "merge_date") {
            Ok(x) => x,
            Err(e) => {
                return Err(e);
            },
        };
        let quantity: Decimal = match get_field(v, "quantity") {
            Ok(x) => x,
            Err(e) => {
                return Err(e);
            },
        };
        let symbol: String = match get_field(v, "symbol") {
            Ok(x) => x,
            Err(e) => {
                return Err(e);
            },
        };
        let market: Market = match get_field(v, "market") {
            Ok(x) => x,
            Err(e) => {
                return Err(e);
            },
        };
        let cancelled_price: Option<Decimal> = match get_opt_field(v, "cancelled_price") {
            Ok(x) => x,
            Err(e) => {
                return Err(e);
            },
        };
        let comments: Option<String> = match get_opt_field(v, "comments") {
            Ok(x) => x,
            Err(e) => {
                return Err(e);
            },
        };
        let unique_identifier: Option<String> = match get_opt_field(v, "unique_identifier") {
            Ok(x) => x,
            Err(e) => {
                return Err(e);
            },
        };
        let attachment: Option<String> = match get_opt_field(v, "attachment") {
            Ok(x) => x,
            Err(e) => {
                return Err(e);
            },
        };
        let attachment_filename: Option<String> = match get_opt_field(v, "attachment_filename") {
            Ok(x) => x,
            Err(e) => {
                return Err(e);
            },
        };
        Ok(HoldingMergesCreateParameters { portfolio_id, holding_id, merge_date, quantity, symbol, market, cancelled_price, comments, unique_identifier, attachment, attachment_filename })
    }
}

/// The success response of a [`HoldingMergesCreate`] call.
#[derive(Debug, Clone, PartialEq)]
pub struct HoldingMergesCreateSuccess {
    pub holding_merge: HoldingMergesCreateHoldingMergeSuccess,
}

impl ToJson for HoldingMergesCreateSuccess {
    open spec fn enc(s: Self) -> Jv {
        Jv::Obj(
            Seq::<(Seq<char>, Jv)>::empty()
                + req_entry("holding_merge"@, s.holding_merge),
        )
    }

    fn encode(&self) -> (r: JsonValue) {
        let mut o = JsonObj::new();
        o.put("holding_merge", &self.holding_merge);
        o.finish()
    }
}

impl FromJson for HoldingMergesCreateSuccess {
    open spec fn decodable(v: Jv) -> bool {
        &&& v is Obj
        &&& req_field_ok::<HoldingMergesCreateHoldingMergeSuccess>(v, "holding_merge"@)
    }

    open spec fn rel(v: Jv, s: Self) -> bool {
        &&& v is Obj
        &&& req_field_rel::<HoldingMergesCreateHoldingMergeSuccess>(v, "holding_merge"@, s.holding_merge)
    }

    fn decode(v: &JsonValue) -> (r: Result<Self, DecodeError>) {
        let holding_merge: HoldingMergesCreateHoldingMergeSuccess = match get_field(v, "holding_merge") {
            Ok(x) => x,
            Err(e) => {
                return Err(e);
            },
        };
        Ok(HoldingMergesCreateSuccess { holding_merge })
    }
}

/// A nested response shape of [`HoldingMergesCreate`].
#[derive(Debug, Clone, PartialEq)]
pub struct HoldingMergesCreateHoldingMergeSuccess {
    pub id: i64,
    pub trades: Vec<HoldingMergesCreateHoldingMergeTradesSuccess>,
}

impl ToJson for HoldingMergesCreateHoldingMergeSuccess {
    open spec fn enc(s: Self) -> Jv {
        Jv::Obj(
            Seq::<(Seq<char>, Jv)>::empty()
                + req_entry("id"@, s.id)
                + req_entry("trades"@, s.trades),
        )
    }

    fn encode(&self) -> (r: JsonValue) {
        let mut o = JsonObj::new();
        o.put("id", &self.id);
        o.put("trades", &self.trades);
        o.finish()
    }
}

impl FromJson for HoldingMergesCreateHoldingMergeSuccess {
    open spec fn decodable(v: Jv) -> bool {
        &&& v is Obj
        &&& req_field_ok::<i64>(v, "id"@)
        &&& req_field_ok::<Vec<HoldingMergesCreateHoldingMergeTradesSuccess>>(v, "trades"@)
    }

    open spec fn rel(v: Jv, s: Self) -> bool {
        &&& v is Obj
        &&& req_field_rel::<i64>(v, "id"@, s.id)
        &&& req_field_rel::<Vec<HoldingMergesCreateHoldingMergeTradesSuccess>>(v, "trades"@, s.trades)
    }

    fn decode(v: &JsonValue) -> (r: Result<Self, DecodeError>) {
        let id: i64 = match get_field(v, "id") {
            Ok(x) => x,
            Err(e) => {
                return Err(e);
            },
        };
        let trades: Vec<HoldingMergesCreateHoldingMergeTradesSuccess> = match get_field(v, "trades") {
            Ok(x) => x,
            Err(e) => {
                return Err(e);
            },
        };
        Ok(HoldingMergesCreateHoldingMergeSuccess { id, trades })
    }
}

/// A nested response shape of [`HoldingMergesCreate`].
#[derive(Debug, Clone, PartialEq)]
pub struct HoldingMergesCreateHoldingMergeTradesSuccess {
    pub id: i64,
    pub transaction_type: TradeDescription,
    pub transaction_date: String,
    pub market: Market,
    pub symbol: String,
    pub quantity: Decimal,
    pub price: Decimal,
    pub exchange_rate: Decimal,
    pub brokerage: Decimal,
    pub brokerage_currency_code: Currency,
    pub value: String,
    pub company_event_id: i64,
    pub unique_identifier: String,
    pub comments: String,
    pub portfolio_id: i64,
    pub holding_id: i64,
    pub instrument_id: i64,
    pub state: String,
    pub attachment_filename: String,
    pub attachment_id: String,
}

impl ToJson for HoldingMergesCreateHoldingMergeTradesSuccess {
    open spec fn enc(s: Self) -> Jv {
        Jv::Obj(
            Seq::<(Seq<char>, Jv)>::empty()
                + req_entry("id"@, s.id)
                + req_entry("transaction_type"@, s.transaction_type)
                + req_entry("transaction_date"@, s.transaction_date)
                + req_entry("market"@, s.market)
                + req_entry("symbol"@, s.symbol)
                + req_entry("quantity"@, s.quantity)
                + req_entry("price"@, s.price)
                + req_entry("exchange_rate"@, s.exchange_rate)
                + req_entry("brokerage"@, s.brokerage)
                + req_entry("brokerage_currency_code"@, s.brokerage_currency_code)
                + req_entry("value"@, s.value)
                + req_entry("company_event_id"@, s.company_event_id)
                + req_entry("unique_identifier"@, s.unique_identifier)
                + req_entry("comments"@, s.comments)
                + req_entry("portfolio_id"@, s.portfolio_id)
                + req_entry("holding_id"@, s.holding_id)
                + req_entry("instrument_id"@, s.instrument_id)
                + req_entry("state"@, s.state)
                + req_entry("attachment_filename"@, s.attachment_filename)
                + req_entry("attachment_id"@, s.attachment_id),
        )
    }

    fn encode(&self) -> (r: JsonValue) {
        let mut o = JsonObj::new();
        o.put("id", &self.id);
        o.put("transaction_type", &self.transaction_type);
        o.put("transaction_date", &self.transaction_date);
        o.put("market", &self.market);
        o.put("symbol", &self.symbol);
        o.put("quantity", &self.quantity);
        o.put("price", &self.price);
        o.put("exchange_rate", &self.exchange_rate);
        o.put("brokerage", &self.brokerage);
        o.put("brokerage_currency_code", &self.brokerage_currency_code);
        o.put("value", &self.value);
        o.put("company_event_id", &self.company_event_id);
        o.put("unique_identifier", &self.unique_identifier);
        o.put("comments", &self.comments);
        o.put("portfolio_id", &self.portfolio_id);
        o.put("holding_id", &self.holding_id);
        o.put("instrument_id", &self.instrument_id);
        o.put("state", &self.state);
        o.put("attachment_filename", &self.attachment_filename);
        o.put("attachment_id", &self.attachment_id);
        o.finish()
    }
}

impl FromJson for HoldingMergesCreateHoldingMergeTradesSuccess {
    open spec fn decodable(v: Jv) -> bool {
        &&& v is Obj
        &&& req_field_ok::<i64>(v, "id"@)
        &&& req_field_ok::<TradeDescription>(v, "transaction_type"@)
        &&& req_field_ok::<String>(v, "transaction_date"@)
        &&& req_field_ok::<Market>(v, "market"@)
        &&& req_field_ok::<String>(v, "symbol"@)
        &&& req_field_ok::<Decimal>(v, "quantity"@)
        &&& req_field_ok::<Decimal>(v, "price"@)
        &&& req_field_ok::<Decimal>(v, "exchange_rate"@)
        &&& req_field_ok::<Decimal>(v, "brokerage"@)
        &&& req_field_ok::<Currency>(v, "brokerage_currency_code"@)
        &&& req_field_ok::<String>(v, "value"@)
        &&& req_field_ok::<i64>(v, "company_event_id"@)
        &&& req_field_ok::<String>(v, "unique_identifier"@)
        &&& req_field_ok::<String>(v, "comments"@)
        &&& req_field_ok::<i64>(v, "portfolio_id"@)
        &&& req_field_ok::<i64>(v, "holding_id"@)
        &&& req_field_ok::<i64>(v, "instrument_id"@)
        &&& req_field_ok::<String>(v, "state"@)
        &&& req_field_ok::<String>(v, "attachment_filename"@)
        &&& req_field_ok::<String>(v, "attachment_id"@)
    }

    open spec fn rel(v: Jv, s: Self) -> bool {
        &&& v is Obj
        &&& req_field_rel::<i64>(v, "id"@, s.id)
        &&& req_field_rel::<TradeDescription>(v, "transaction_type"@, s.transaction_type)
        &&& req_field_rel::<String>(v, "transaction_date"@, s.transaction_date)
        &&& req_field_rel::<Market>(v, "market"@, s.market)
        &&& req_field_rel::<String>(v, "symbol"@, s.symbol)
        &&& req_field_rel::<Decimal>(v, "quantity"@, s.quantity)
        &&& req_field_rel::<Decimal>(v, "price"@, s.price)
        &&& req_field_rel::<Decimal>(v, "exchange_rate"@, s.exchange_rate)
        &&& req_field_rel::<Decimal>(v, "brokerage"@, s.brokerage)
        &&& req_field_rel::<Currency>(v, "brokerage_currency_code"@, s.brokerage_currency_code)
        &&& req_field_rel::<String>(v, "value"@, s.value)
        &&& req_field_rel::<i64>(v, "company_event_id"@, s.company_event_id)
        &&& req_field_rel::<String>(v, "unique_identifier"@, s.unique_identifier)
        &&& req_field_rel::<String>(v, "comments"@, s.comments)
        &&& req_field_rel::<i64>(v, "portfolio_id"@, s.portfolio_id)
        &&& req_field_rel::<i64>(v, "holding_id"@, s.holding_id)
        &&& req_field_rel::<i64>(v, "instrument_id"@, s.instrument_id)
        &&& req_field_rel::<String>(v, "state"@, s.state)
        &&& req_field_rel::<String>(v, "attachment_filename"@, s.attachment_filename)
        &&& req_field_rel::<String>(v, "attachment_id"@, s.attachment_id)
    }

    fn decode(v: &JsonValue) -> (r: Result<Self, DecodeError>) {
        let id: i64 = match get_field(v, "id") {
            Ok(x) => x,
            Err(e) => {
                return Err(e);
            },
        };
        let transaction_type: TradeDescription = match get_field(v, "transaction_type") {
            Ok(x) => x,
            Err(e) => {
                return Err(e);
            },
        };
        let transaction_date: String = match get_field(v, "transaction_date") {
            Ok(x) => x,
            Err(e) => {
                return Err(e);
            },
        };
        let market: Market = match get_field(v, "market") {
            Ok(x) => x,
            Err(e) => {
                return Err(e);
            },
        };
        let symbol: String = match get_field(v, "symbol") {
            Ok(x) => x,
            Err(e) => {
                return Err(e);
            },
        };
        let quantity: Decimal = match get_field(v, "quantity") {
            Ok(x) => x,
            Err(e) => {
                return Err(e);
            },
        };
        let price: Decimal = match get_field(v, "price") {
            Ok(x) => x,
            Err(e) => {
                return Err(e);
            },
        };
        let exchange_rate: Decimal = match get_field(v, "exchange_rate") {
            Ok(x) => x,
            Err(e) => {
                return Err(e);
            },
        };
        let brokerage: Decimal = match get_field(v, "brokerage") {
            Ok(x) => x,
            Err(e) => {
                return Err(e);
            },
        };
        let brokerage_currency_code: Currency = match get_field(v, "brokerage_currency_code") {
            Ok(x) => x,
            Err(e) => {
                return Err(e);
            },
        };
        let value: String = match get_field(v, "value") {
            Ok(x) => x,
            Err(e) => {
                return Err(e);
            },
        };
        let company_event_id: i64 = match get_field(v, "company_event_id") {
            Ok(x) => x,
            Err(e) => {
                return Err(e);
            },
        };
        let unique_identifier: String = match get_field(v, "unique_identifier") {
            Ok(x) => x,
            Err(e) => {
                return Err(e);
            },
        };
        let comments: String = match get_field(v, "comments") {
            Ok(x) => x,
            Err(e) => {
                return Err(e);
            },
        };
        let portfolio_id: i64 = match get_field(v, "portfolio_id") {
            Ok(x) => x,
            Err(e) => {
                return Err(e);
            },
        };
        let holding_id: i64 = match get_field(v, "holding_id") {
            Ok(x) => x,
            Err(e) => {
                return Err(e);
            },
        };
        let instrument_id: i64 = match get_field(v, "instrument_id") {
            Ok(x) => x,
            Err(e) => {
                return Err(e);
            },
        };
        let state: String = match get_field(v, "state") {
            Ok(x) => x,
            Err(e) => {
                return Err(e);
            },
        };
        let attachment_filename: String = match get_field(v, "attachment_filename") {
            Ok(x) => x,
            Err(e) => {
                return Err(e);
            },
        };
        let attachment_id: String = match get_field(v, "attachment_id") {
            Ok(x) => x,
            Err(e) => {
                return Err(e);
            },
        };
        Ok(HoldingMergesCreateHoldingMergeTradesSuccess { id, transaction_type, transaction_date, market, symbol, quantity, price, exchange_rate, brokerage, brokerage_currency_code, value, company_event_id, unique_identifier, comments, portfolio_id, holding_id, instrument_id, state, attachment_filename, attachment_id })
    }
}

/// `PUT /portfolios/:portfolio_id/holding_merges/:id.json`.
pub struct HoldingMergesUpdate;

/// The parameters of a [`HoldingMergesUpdate`] call, held for URL rendering.
pub struct HoldingMergesUpdateUrlDisplay<'a>(pub &'a HoldingMergesUpdateParameters);

impl<'a> HoldingMergesUpdateUrlDisplay<'a> {
    /// Renders the resolved URL path.
    pub fn render(&self) -> (r: String)
        ensures
            r@ == HoldingMergesUpdate::spec_url(*self.0),
    {
        HoldingMergesUpdate::url(self.0)
    }
}

impl HoldingMergesUpdate {
    /// The URL template of this endpoint.
    pub fn url_template() -> (r: &'static str)
        ensures
            r@ == "/portfolios/:portfolio_id/holding_merges/:id.json"@,
    {
        "/portfolios/:portfolio_id/holding_merges/:id.json"
    }

    /// The HTTP method of this endpoint.
    pub fn http_method() -> (r: ApiHttpMethod)
        ensures
            r == ApiHttpMethod::Put,
    {
        ApiHttpMethod::Put
    }

    /// The URL path that `p` resolves the template to.
    pub open spec fn spec_url(p: HoldingMergesUpdateParameters) -> Seq<char> {
        "/portfolios/"@ + spec_i64_string(p.portfolio_id as int) + "/holding_merges/"@ + spec_i64_string(p.id as int) + ".json"@
    }

    /// Resolves the URL template with the fields of `parameters`:
    /// plain decimal digits for integers, strings as they are.
    pub fn url(parameters: &HoldingMergesUpdateParameters) -> (r: String)
        ensures
            r@ == Self::spec_url(*parameters),
    {
        let mut s = "/portfolios/".to_owned();
        s.append(render_i64(parameters.portfolio_id).as_str());
        s.append("/holding_merges/");
        s.append(render_i64(parameters.id).as_str());
        s.append(".json");
        s
    }

    /// Wraps `parameters` for URL rendering.
    pub fn url_path<'a>(parameters: &'a HoldingMergesUpdateParameters) -> (r: HoldingMergesUpdateUrlDisplay<'a>)
        ensures
            r.0 == parameters,
    {
        HoldingMergesUpdateUrlDisplay(parameters)
    }

    /// Decodes a success payload, naming this endpoint in any
    /// failure.
    pub fn decode_success(v: &JsonValue) -> (r: Result<HoldingMergesUpdateSuccess, DecodeError>)
        ensures
            r matches Ok(s) ==> <HoldingMergesUpdateSuccess as FromJson>::decodable(v@)
                && <HoldingMergesUpdateSuccess as FromJson>::rel(v@, s),
            <HoldingMergesUpdateSuccess as FromJson>::decodable(v@) ==> r is Ok,
            r matches Err(e) ==> spec_starts_with(e.path@, "HoldingMergesUpdate"@),
    {
        match HoldingMergesUpdateSuccess::decode(v) {
            Ok(s) => Ok(s),
            Err(e) => Err(e.in_endpoint("HoldingMergesUpdate")),
        }
    }
}

/// The parameters of a [`HoldingMergesUpdate`] call.
#[derive(Debug, Clone, PartialEq)]
pub struct HoldingMergesUpdateParameters {
    pub portfolio_id: i64,
    pub id: i64,
    pub merge_date: Option<Date>,
    pub quantity: Option<Decimal>,
    pub symbol: Option<String>,
    pub market: Option<Market>,
    pub cancelled_price: Option<Decimal>,
    pub comments: Option<String>,
    pub unique_identifier: Option<String>,
    pub attachment: Option<String>,
    pub attachment_filename: Option<String>,
}

impl ToJson for HoldingMergesUpdateParameters {
    open spec fn enc(s: Self) -> Jv {
        Jv::Obj(
            Seq::<(Seq<char>, Jv)>::empty()
                + req_entry("portfolio_id"@, s.portfolio_id)
                + req_entry("id"@, s.id)
                + opt_entry("merge_date"@, s.merge_date)
                + opt_entry("quantity"@, s.quantity)
                + opt_entry("symbol"@, s.symbol)
                + opt_entry("market"@, s.market)
                + opt_entry("cancelled_price"@, s.cancelled_price)
                + opt_entry("comments"@, s.comments)
                + opt_entry("unique_identifier"@, s.unique_identifier)
                + opt_entry("attachment"@, s.attachment)
                + opt_entry("attachment_filename"@, s.attachment_filename),
        )
    }

    fn encode(&self) -> (r: JsonValue) {
        let mut o = JsonObj::new();
        o.put("portfolio_id", &self.portfolio_id);
        o.put("id", &self.id);
        o.put_opt("merge_date", &self.merge_date);
        o.put_opt("quantity", &self.quantity);
        o.put_opt("symbol", &self.symbol);
        o.put_opt("market", &self.market);
        o.put_opt("cancelled_price", &self.cancelled_price);
        o.put_opt("comments", &self.comments);
        o.put_opt("unique_identifier", &self.unique_identifier);
        o.put_opt("attachment", &self.attachment);
        o.put_opt("attachment_filename", &self.attachment_filename);
        o.finish()
    }
}

impl FromJson for HoldingMergesUpdateParameters {
    open spec fn decodable(v: Jv) -> bool {
        &&& v is Obj
        &&& req_field_ok::<i64>(v, "portfolio_id"@)
        &&& req_field_ok::<i64>(v, "id"@)
        &&& opt_field_ok::<Date>(v, "merge_date"@)
        &&& opt_field_ok::<Decimal>(v, "quantity"@)
        &&& opt_field_ok::<String>(v, "symbol"@)
        &&& opt_field_ok::<Market>(v, "market"@)
        &&& opt_field_ok::<Decimal>(v, "cancelled_price"@)
        &&& opt_field_ok::<String>(v, "comments"@)
        &&& opt_field_ok::<String>(v, "unique_identifier"@)
        &&& opt_field_ok::<String>(v, "attachment"@)
        &&& opt_field_ok::<String>(v, "attachment_filename"@)
    }

    open spec fn rel(v: Jv, s: Self) -> bool {
        &&& v is Obj
        &&& req_field_rel::<i64>(v, "portfolio_id"@, s.portfolio_id)
        &&& req_field_rel::<i64>(v, "id"@, s.id)
        &&& opt_field_rel::<Date>(v, "merge_date"@, s.merge_date)
        &&& opt_field_rel::<Decimal>(v, "quantity"@, s.quantity)
        &&& opt_field_rel::<String>(v, "symbol"@, s.symbol)
        &&& opt_field_rel::<Market>(v, "market"@, s.market)
        &&& opt_field_rel::<Decimal>(v, "cancelled_price"@, s.cancelled_price)
        &&& opt_field_rel::<String>(v, "comments"@, s.comments)
        &&& opt_field_rel::<String>(v, "unique_identifier"@, s.unique_identifier)
        &&& opt_field_rel::<String>(v, "attachment"@, s.attachment)
        &&& opt_field_rel::<String>(v, "attachment_filename"@, s.attachment_filename)
    }

    fn decode(v: &JsonValue) -> (r: Result<Self, DecodeError>) {
        let portfolio_id: i64 = match get_field(v, "portfolio_id") {
            Ok(x) => x,
            Err(e) => {
                return Err(e);
            },
        };
        let id: i64 = match get_field(v, "id") {
            Ok(x) => x,
            Err(e) => {
                return Err(e);
            },
        };
        let merge_date: Option<Date> = match get_opt_field(v, "merge_date") {
            Ok(x) => x,
            Err(e) => {
                return Err(e);
            },
        };
        let quantity: Option<Decimal> = match get_opt_field(v, "quantity") {
            Ok(x) => x,
            Err(e) => {
                return Err(e);
            },
        };
        let symbol: Option<String> = match get_opt_field(v, "symbol") {
            Ok(x) => x,
            Err(e) => {
                return Err(e);
            },
        };
        let market: Option<Market> = match get_opt_field(v, "market") {
            Ok(x) => x,
            Err(e) => {
                return Err(e);
            },
        };
        let cancelled_price: Option<Decimal> = match get_opt_field(v, "cancelled_price") {
            Ok(x) => x,
            Err(e) => {
                return Err(e);
            },
        };
        let comments: Option<String> = match get_opt_field(v, "comments") {
            Ok(x) => x,
            Err(e) => {
                return Err(e);
            },
        };
        let unique_identifier: Option<String> = match get_opt_field(v, "unique_identifier") {
            Ok(x) => x,
            Err(e) => {
                return Err(e);
            },
        };
        let attachment: Option<String> = match get_opt_field(v, "attachment") {
            Ok(x) => x,
            Err(e) => {
                return Err(e);
            },
        };
        let attachment_filename: Option<String> = match get_opt_field(v, "attachment_filename") {
            Ok(x) => x,
            Err(e) => {
                return Err(e);
            },
        };
        Ok(HoldingMergesUpdateParameters { portfolio_id, id, merge_date, quantity, symbol, market, cancelled_price, comments, unique_identifier, attachment, attachment_filename })
    }
}

/// The success response of a [`HoldingMergesUpdate`] call.
#[derive(Debug, Clone, PartialEq)]
pub struct HoldingMergesUpdateSuccess {
    pub holding_merge: HoldingMergesUpdateHoldingMergeSuccess,
}

impl ToJson for HoldingMergesUpdateSuccess {
    open spec fn enc(s: Self) -> Jv {
        Jv::Obj(
            Seq::<(Seq<char>, Jv)>::empty()
                + req_entry("holding_merge"@, s.holding_merge),
        )
    }

    fn encode(&self) -> (r: JsonValue) {
        let mut o = JsonObj::new();
        o.put("holding_merge", &self.holding_merge);
        o.finish()
    }
}

impl FromJson for HoldingMergesUpdateSuccess {
    open spec fn decodable(v: Jv) -> bool {
        &&& v is Obj
        &&& req_field_ok::<HoldingMergesUpdateHoldingMergeSuccess>(v, "holding_merge"@)
    }

    open spec fn rel(v: Jv, s: Self) -> bool {
        &&& v is Obj
        &&& req_field_rel::<HoldingMergesUpdateHoldingMergeSuccess>(v, "holding_merge"@, s.holding_merge)
    }

    fn decode(v: &JsonValue) -> (r: Result<Self, DecodeError>) {
        let holding_merge: HoldingMergesUpdateHoldingMergeSuccess = match get_field(v, "holding_merge") {
            Ok(x) => x,
            Err(e) => {
                return Err(e);
            },
        };
        Ok(HoldingMergesUpdateSuccess { holding_merge })
    }
}

/// A nested response shape of [`HoldingMergesUpdate`].
#[derive(Debug, Clone, PartialEq)]
pub struct HoldingMergesUpdateHoldingMergeSuccess {
    pub id: i64,
    pub trades: Vec<HoldingMergesUpdateHoldingMergeTradesSuccess>,
}

impl ToJson for HoldingMergesUpdateHoldingMergeSuccess {
    open spec fn enc(s: Self) -> Jv {
        Jv::Obj(
            Seq::<(Seq<char>, Jv)>::empty()
                + req_entry("id"@, s.id)
                + req_entry("trades"@, s.trades),
        )
    }

    fn encode(&self) -> (r: JsonValue) {
        let mut o = JsonObj::new();
        o.put("id", &self.id);
        o.put("trades", &self.trades);
        o.finish()
    }
}

impl FromJson for HoldingMergesUpdateHoldingMergeSuccess {
    open spec fn decodable(v: Jv) -> bool {
        &&& v is Obj
        &&& req_field_ok::<i64>(v, "id"@)
        &&& req_field_ok::<Vec<HoldingMergesUpdateHoldingMergeTradesSuccess>>(v, "trades"@)
    }

    open spec fn rel(v: Jv, s: Self) -> bool {
        &&& v is Obj
        &&& req_field_rel::<i64>(v, "id"@, s.id)
        &&& req_field_rel::<Vec<HoldingMergesUpdateHoldingMergeTradesSuccess>>(v, "trades"@, s.trades)
    }

    fn decode(v: &JsonValue) -> (r: Result<Self, DecodeError>) {
        let id: i64 = match get_field(v, "id") {
            Ok(x) => x,
            Err(e) => {
                return Err(e);
            },
        };
        let trades: Vec<HoldingMergesUpdateHoldingMergeTradesSuccess> = match get_field(v, "trades") {
            Ok(x) => x,
            Err(e) => {
                return Err(e);
            },
        };
        Ok(HoldingMergesUpdateHoldingMergeSuccess { id, trades })
    }
}

/// A nested response shape of [`HoldingMergesUpdate`].
#[derive(Debug, Clone, PartialEq)]
pub struct HoldingMergesUpdateHoldingMergeTradesSuccess {
    pub id: i64,
    pub transaction_type: TradeDescription,
    pub transaction_date: String,
    pub market: Market,
    pub symbol: String,
    pub quantity: Decimal,
    pub price: Decimal,
    pub exchange_rate: Decimal,
    pub brokerage: Decimal,
    pub brokerage_currency_code: Currency,
    pub value: String,
    pub company_event_id: i64,
    pub unique_identifier: String,
    pub comments: String,
    pub portfolio_id: i64,
    pub holding_id: i64,
    pub instrument_id: i64,
    pub state: String,
    pub attachment_filename: String,
    pub attachment_id: String,
}

impl ToJson for HoldingMergesUpdateHoldingMergeTradesSuccess {
    open spec fn enc(s: Self) -> Jv {
        Jv::Obj(
            Seq::<(Seq<char>, Jv)>::empty()
                + req_entry("id"@, s.id)
                + req_entry("transaction_type"@, s.transaction_type)
                + req_entry("transaction_date"@, s.transaction_date)
                + req_entry("market"@, s.market)
                + req_entry("symbol"@, s.symbol)
                + req_entry("quantity"@, s.quantity)
                + req_entry("price"@, s.price)
                + req_entry("exchange_rate"@, s.exchange_rate)
                + req_entry("brokerage"@, s.brokerage)
                + req_entry("brokerage_currency_code"@, s.brokerage_currency_code)
                + req_entry("value"@, s.value)
                + req_entry("company_event_id"@, s.company_event_id)
                + req_entry("unique_identifier"@, s.unique_identifier)
                + req_entry("comments"@, s.comments)
                + req_entry("portfolio_id"@, s.portfolio_id)
                + req_entry("holding_id"@, s.holding_id)
                + req_entry("instrument_id"@, s.instrument_id)
                + req_entry("state"@, s.state)
                + req_entry("attachment_filename"@, s.attachment_filename)
                + req_entry("attachment_id"@, s.attachment_id),
        )
    }

    fn encode(&self) -> (r: JsonValue) {
        let mut o = JsonObj::new();
        o.put("id", &self.id);
        o.put("transaction_type", &self.transaction_type);
        o.put("transaction_date", &self.transaction_date);
        o.put("market", &self.market);
        o.put("symbol", &self.symbol);
        o.put("quantity", &self.quantity);
        o.put("price", &self.price);
        o.put("exchange_rate", &self.exchange_rate);
        o.put("brokerage", &self.brokerage);
        o.put("brokerage_currency_code", &self.brokerage_currency_code);
        o.put("value", &self.value);
        o.put("company_event_id", &self.company_event_id);
        o.put("unique_identifier", &self.unique_identifier);
        o.put("comments", &self.comments);
        o.put("portfolio_id", &self.portfolio_id);
        o.put("holding_id", &self.holding_id);
        o.put("instrument_id", &self.instrument_id);
        o.put("state", &self.state);
        o.put("attachment_filename", &self.attachment_filename);
        o.put("attachment_id", &self.attachment_id);
        o.finish()
    }
}

impl FromJson for HoldingMergesUpdateHoldingMergeTradesSuccess {
    open spec fn decodable(v: Jv) -> bool {
        &&& v is Obj
        &&& req_field_ok::<i64>(v, "id"@)
        &&& req_field_ok::<TradeDescription>(v, "transaction_type"@)
        &&& req_field_ok::<String>(v, "transaction_date"@)
        &&& req_field_ok::<Market>(v, "market"@)
        &&& req_field_ok::<String>(v, "symbol"@)
        &&& req_field_ok::<Decimal>(v, "quantity"@)
        &&& req_field_ok::<Decimal>(v, "price"@)
        &&& req_field_ok::<Decimal>(v, "exchange_rate"@)
        &&& req_field_ok::<Decimal>(v, "brokerage"@)
        &&& req_field_ok::<Currency>(v, "brokerage_currency_code"@)
        &&& req_field_ok::<String>(v, "value"@)
        &&& req_field_ok::<i64>(v, "company_event_id"@)
        &&& req_field_ok::<String>(v, "unique_identifier"@)
        &&& req_field_ok::<String>(v, "comments"@)
        &&& req_field_ok::<i64>(v, "portfolio_id"@)
        &&& req_field_ok::<i64>(v, "holding_id"@)
        &&& req_field_ok::<i64>(v, "instrument_id"@)
        &&& req_field_ok::<String>(v, "state"@)
        &&& req_field_ok::<String>(v, "attachment_filename"@)
        &&& req_field_ok::<String>(v, "attachment_id"@)
    }

    open spec fn rel(v: Jv, s: Self) -> bool {
        &&& v is Obj
        &&& req_field_rel::<i64>(v, "id"@, s.id)
        &&& req_field_rel::<TradeDescription>(v, "transaction_type"@, s.transaction_type)
        &&& req_field_rel::<String>(v, "transaction_date"@, s.transaction_date)
        &&& req_field_rel::<Market>(v, "market"@, s.market)
        &&& req_field_rel::<String>(v, "symbol"@, s.symbol)
        &&& req_field_rel::<Decimal>(v, "quantity"@, s.quantity)
        &&& req_field_rel::<Decimal>(v, "price"@, s.price)
        &&& req_field_rel::<Decimal>(v, "exchange_rate"@, s.exchange_rate)
        &&& req_field_rel::<Decimal>(v, "brokerage"@, s.brokerage)
        &&& req_field_rel::<Currency>(v, "brokerage_currency_code"@, s.brokerage_currency_code)
        &&& req_field_rel::<String>(v, "value"@, s.value)
        &&& req_field_rel::<i64>(v, "company_event_id"@, s.company_event_id)
        &&& req_field_rel::<String>(v, "unique_identifier"@, s.unique_identifier)
        &&& req_field_rel::<String>(v, "comments"@, s.comments)
        &&& req_field_rel::<i64>(v, "portfolio_id"@, s.portfolio_id)
        &&& req_field_rel::<i64>(v, "holding_id"@, s.holding_id)
        &&& req_field_rel::<i64>(v, "instrument_id"@, s.instrument_id)
        &&& req_field_rel::<String>(v, "state"@, s.state)
        &&& req_field_rel::<String>(v, "attachment_filename"@, s.attachment_filename)
        &&& req_field_rel::<String>(v, "attachment_id"@, s.attachment_id)
    }

    fn decode(v: &JsonValue) -> (r: Result<Self, DecodeError>) {
        let id: i64 = match get_field(v, "id") {
            Ok(x) => x,
            Err(e) => {
                return Err(e);
            },
        };
        let transaction_type: TradeDescription = match get_field(v, "transaction_type") {
            Ok(x) => x,
            Err(e) => {
                return Err(e);
            },
        };
        let transaction_date: String = match get_field(v, "transaction_date") {
            Ok(x) => x,
            Err(e) => {
                return Err(e);
            },
        };
        let market: Market = match get_field(v, "market") {
            Ok(x) => x,
            Err(e) => {
                return Err(e);
            },
        };
        let symbol: String = match get_field(v, "symbol") {
            Ok(x) => x,
            Err(e) => {
                return Err(e);
            },
        };
        let quantity: Decimal = match get_field(v, "quantity") {
            Ok(x) => x,
            Err(e) => {
                return Err(e);
            },
        };
        let price: Decimal = match get_field(v, "price") {
            Ok(x) => x,
            Err(e) => {
                return Err(e);
            },
        };
        let exchange_rate: Decimal = match get_field(v, "exchange_rate") {
            Ok(x) => x,
            Err(e) => {
                return Err(e);
            },
        };
        let brokerage: Decimal = match get_field(v, "brokerage") {
            Ok(x) => x,
            Err(e) => {
                return Err(e);
            },
        };
        let brokerage_currency_code: Currency = match get_field(v, "brokerage_currency_code") {
            Ok(x) => x,
            Err(e) => {
                return Err(e);
            },
        };
        let value: String = match get_field(v, "value") {
            Ok(x) => x,
            Err(e) => {
                return Err(e);
            },
        };
        let company_event_id: i64 = match get_field(v, "company_event_id") {
            Ok(x) => x,
            Err(e) => {
                return Err(e);
            },
        };
        let unique_identifier: String = match get_field(v, "unique_identifier") {
            Ok(x) => x,
            Err(e) => {
                return Err(e);
            },
        };
        let comments: String = match get_field(v, "comments") {
            Ok(x) => x,
            Err(e) => {
                return Err(e);
            },
        };
        let portfolio_id: i64 = match get_field(v, "portfolio_id") {
            Ok(x) => x,
            Err(e) => {
                return Err(e);
            },
        };
        let holding_id: i64 = match get_field(v, "holding_id") {
            Ok(x) => x,
            Err(e) => {
                return Err(e);
            },
        };
        let instrument_id: i64 = match get_field(v, "instrument_id") {
            Ok(x) => x,
            Err(e) => {
                return Err(e);
            },
        };
        let state: String = match get_field(v, "state") {
            Ok(x) => x,
            Err(e) => {
                return Err(e);
            },
        };
        let attachment_filename: String = match get_field(v, "attachment_filename") {
            Ok(x) => x,
            Err(e) => {
                return Err(e);
            },
        };
        let attachment_id: String = match get_field(v, "attachment_id") {
            Ok(x) => x,
            Err(e) => {
                return Err(e);
            },
        };
        Ok(HoldingMergesUpdateHoldingMergeTradesSuccess { id, transaction_type, transaction_date, market, symbol, quantity, price, exchange_rate, brokerage, brokerage_currency_code, value, company_event_id, unique_identifier, comments, portfolio_id, holding_id, instrument_id, state, attachment_filename, attachment_id })
    }
}

/// `GET /holdings/:holding_id/trades.json`.
pub struct HoldingTrades;

/// The parameters of a [`HoldingTrades`] call, held for URL rendering.
pub struct HoldingTradesUrlDisplay<'a>(pub &'a HoldingTradesParameters);

impl<'a> HoldingTradesUrlDisplay<'a> {
    /// Renders the resolved URL path.
    pub fn render(&self) -> (r: String)
        ensures
            r@ == HoldingTrades::spec_url(*self.0),
    {
        HoldingTrades::url(self.0)
    }
}

impl HoldingTrades {
    /// The URL template of this endpoint.
    pub fn url_template() -> (r: &'static str)
        ensures
            r@ == "/holdings/:holding_id/trades.json"@,
    {
        "/holdings/:holding_id/trades.json"
    }

    /// The HTTP method of this endpoint.
    pub fn http_method() -> (r: ApiHttpMethod)
        ensures
            r == ApiHttpMethod::Get,
    {
        ApiHttpMethod::Get
    }

    /// The URL path that `p` resolves the template to.
    pub open spec fn spec_url(p: HoldingTradesParameters) -> Seq<char> {
        "/holdings/"@ + p.holding_id@ + "/trades.json"@
    }

    /// Resolves the URL template with the fields of `parameters`:
    /// plain decimal digits for integers, strings as they are.
    pub fn url(parameters: &HoldingTradesParameters) -> (r: String)
        ensures
            r@ == Self::spec_url(*parameters),
    {
        let mut s = "/holdings/".to_owned();
        s.append(parameters.holding_id.as_str());
        s.append("/trades.json");
        s
    }

    /// Wraps `parameters` for URL rendering.
    pub fn url_path<'a>(parameters: &'a HoldingTradesParameters) -> (r: HoldingTradesUrlDisplay<'a>)
        ensures
            r.0 == parameters,
    {
        HoldingTradesUrlDisplay(parameters)
    }

    /// Decodes a success payload, naming this endpoint in any
    /// failure.
    pub fn decode_success(v: &JsonValue) -> (r: Result<HoldingTradesSuccess, DecodeError>)
        ensures
            r matches Ok(s) ==> <HoldingTradesSuccess as FromJson>::decodable(v@)
                && <HoldingTradesSuccess as FromJson>::rel(v@, s),
            <HoldingTradesSuccess as FromJson>::decodable(v@) ==> r is Ok,
            r matches Err(e) ==> spec_starts_with(e.path@, "HoldingTrades"@),
    {
        match HoldingTradesSuccess::decode(v) {
            Ok(s) => Ok(s),
            Err(e) => Err(e.in_endpoint("HoldingTrades")),
        }
    }
}

/// The parameters of a [`HoldingTrades`] call.
#[derive(Debug, Clone, PartialEq)]
pub struct HoldingTradesParameters {
    pub holding_id: String,
    pub unique_identifier: Option<String>,
}

impl ToJson for HoldingTradesParameters {
    open spec fn enc(s: Self) -> Jv {
        Jv::Obj(
            Seq::<(Seq<char>, Jv)>::empty()
                + req_entry("holding_id"@, s.holding_id)
                + opt_entry("unique_identifier"@, s.unique_identifier),
        )
    }

    fn encode(&self) -> (r: JsonValue) {
        let mut o = JsonObj::new();
        o.put("holding_id", &self.holding_id);
        o.put_opt("unique_identifier", &self.unique_identifier);
        o.finish()
    }
}

impl FromJson for HoldingTradesParameters {
    open spec fn decodable(v: Jv) -> bool {
        &&& v is Obj
        &&& req_field_ok::<String>(v, "holding_id"@)
        &&& opt_field_ok::<String>(v, "unique_identifier"@)
    }

    open spec fn rel(v: Jv, s: Self) -> bool {
        &&& v is Obj
        &&& req_field_rel::<String>(v, "holding_id"@, s.holding_id)
        &&& opt_field_rel::<String>(v, "unique_identifier"@, s.unique_identifier)
    }

    fn decode(v: &JsonValue) -> (r: Result<Self, DecodeError>) {
        let holding_id: String = match get_field(v, "holding_id") {
            Ok(x) => x,
            Err(e) => {
                return Err(e);
            },
        };
        let unique_identifier: Option<String> = match get_opt_field(v, "unique_identifier") {
            Ok(x) => x,
            Err(e) => {
                return Err(e);
            },
        };
        Ok(HoldingTradesParameters { holding_id, unique_identifier })
    }
}

/// The success response of a [`HoldingTrades`] call.
#[derive(Debug, Clone, PartialEq)]
pub struct HoldingTradesSuccess {
    pub trades: Vec<String>,
    pub api_transaction: HoldingTradesApiTransactionSuccess,
}

impl ToJson for HoldingTradesSuccess {
    open spec fn enc(s: Self) -> Jv {
        Jv::Obj(
            Seq::<(Seq<char>, Jv)>::empty()
                + req_entry("trades"@, s.trades)
                + req_entry("api_transaction"@, s.api_transaction),
        )
    }

    fn encode(&self) -> (r: JsonValue) {
        let mut o = JsonObj::new();
        o.put("trades", &self.trades);
        o.put("api_transaction", &self.api_transaction);
        o.finish()
    }
}

impl FromJson for HoldingTradesSuccess {
    open spec fn decodable(v: Jv) -> bool {
        &&& v is Obj
        &&& req_field_ok::<Vec<String>>(v, "trades"@)
        &&& req_field_ok::<HoldingTradesApiTransactionSuccess>(v, "api_transaction"@)
    }

    open spec fn rel(v: Jv, s: Self) -> bool {
        &&& v is Obj
        &&& req_field_rel::<Vec<String>>(v, "trades"@, s.trades)
        &&& req_field_rel::<HoldingTradesApiTransactionSuccess>(v, "api_transaction"@, s.api_transaction)
    }

    fn decode(v: &JsonValue) -> (r: Result<Self, DecodeError>) {
        let trades: Vec<String> = match get_field(v, "trades") {
            Ok(x) => x,
            Err(e) => {
                return Err(e);
            },
        };
        let api_transaction: HoldingTradesApiTransactionSuccess = match get_field(v, "api_transaction") {
            Ok(x) => x,
            Err(e) => {
                return Err(e);
            },
        };
        Ok(HoldingTradesSuccess { trades, api_transaction })
    }
}

/// A nested response shape of [`HoldingTrades`].
#[derive(Debug, Clone, PartialEq)]
pub struct HoldingTradesTradesSuccess {
    pub id: String,
    pub unique_identifier: String,
    pub transaction_date: Date,
    pub quantity: Decimal,
    pub price: Decimal,
    pub cost_base: Decimal,
    pub exchange_rate: Decimal,
    pub brokerage: Decimal,
    pub brokerage_currency_code: Currency,
    pub value: Decimal,
    pub paid_on: Date,
    pub company_event_id: i64,
    pub comments: String,
    pub portfolio_id: i64,
    pub holding_id: i64,
    pub state: String,
    pub transaction_type: TradeDescription,
    pub instrument_id: i64,
    pub symbol: String,
    pub market: Market,
    pub attachment_filename: String,
    pub attachment_id: i64,
    pub confirmed: bool,
}

impl ToJson for HoldingTradesTradesSuccess {
    open spec fn enc(s: Self) -> Jv {
        Jv::Obj(
            Seq::<(Seq<char>, Jv)>::empty()
                + req_entry("id"@, s.id)
                + req_entry("unique_identifier"@, s.unique_identifier)
                + req_entry("transaction_date"@, s.transaction_date)
                + req_entry("quantity"@, s.quantity)
                + req_entry("price"@, s.price)
                + req_entry("cost_base"@, s.cost_base)
                + req_entry("exchange_rate"@, s.exchange_rate)
                + req_entry("brokerage"@, s.brokerage)
                + req_entry("brokerage_currency_code"@, s.brokerage_currency_code)
                + req_entry("value"@, s.value)
                + req_entry("paid_on"@, s.paid_on)
                + req_entry("company_event_id"@, s.company_event_id)
                + req_entry("comments"@, s.comments)
                + req_entry("portfolio_id"@, s.portfolio_id)
                + req_entry("holding_id"@, s.holding_id)
                + req_entry("state"@, s.state)
                + req_entry("transaction_type"@, s.transaction_type)
                + req_entry("instrument_id"@, s.instrument_id)
                + req_entry("symbol"@, s.symbol)
                + req_entry("market"@, s.market)
                + req_entry("attachment_filename"@, s.attachment_filename)
                + req_entry("attachment_id"@, s.attachment_id)
                + req_entry("confirmed"@, s.confirmed),
        )
    }

    fn encode(&self) -> (r: JsonValue) {
        let mut o = JsonObj::new();
        o.put("id", &self.id);
        o.put("unique_identifier", &self.unique_identifier);
        o.put("transaction_date", &self.transaction_date);
        o.put("quantity", &self.quantity);
        o.put("price", &self.price);
        o.put("cost_base", &self.cost_base);
        o.put("exchange_rate", &self.exchange_rate);
        o.put("brokerage", &self.brokerage);
        o.put("brokerage_currency_code", &self.brokerage_currency_code);
        o.put("value", &self.value);
        o.put("paid_on", &self.paid_on);
        o.put("company_event_id", &self.company_event_id);
        o.put("comments", &self.comments);
        o.put("portfolio_id", &self.portfolio_id);
        o.put("holding_id", &self.holding_id);
        o.put("state", &self.state);
        o.put("transaction_type", &self.transaction_type);
        o.put("instrument_id", &self.instrument_id);
        o.put("symbol", &self.symbol);
        o.put("market", &self.market);
        o.put("attachment_filename", &self.attachment_filename);
        o.put("attachment_id", &self.attachment_id);
        o.put("confirmed", &self.confirmed);
        o.finish()
    }
}

impl FromJson for HoldingTradesTradesSuccess {
    open spec fn decodable(v: Jv) -> bool {
        &&& v is Obj
        &&& req_field_ok::<String>(v, "id"@)
        &&& req_field_ok::<String>(v, "unique_identifier"@)
        &&& req_field_ok::<Date>(v, "transaction_date"@)
        &&& req_field_ok::<Decimal>(v, "quantity"@)
        &&& req_field_ok::<Decimal>(v, "price"@)
        &&& req_field_ok::<Decimal>(v, "cost_base"@)
        &&& req_field_ok::<Decimal>(v, "exchange_rate"@)
        &&& req_field_ok::<Decimal>(v, "brokerage"@)
        &&& req_field_ok::<Currency>(v, "brokerage_currency_code"@)
        &&& req_field_ok::<Decimal>(v, "value"@)
        &&& req_field_ok::<Date>(v, "paid_on"@)
        &&& req_field_ok::<i64>(v, "company_event_id"@)
        &&& req_field_ok::<String>(v, "comments"@)
        &&& req_field_ok::<i64>(v, "portfolio_id"@)
        &&& req_field_ok::<i64>(v, "holding_id"@)
        &&& req_field_ok::<String>(v, "state"@)
        &&& req_field_ok::<TradeDescription>(v, "transaction_type"@)
        &&& req_field_ok::<i64>(v, "instrument_id"@)
        &&& req_field_ok::<String>(v, "symbol"@)
        &&& req_field_ok::<Market>(v, "market"@)
        &&& req_field_ok::<String>(v, "attachment_filename"@)
        &&& req_field_ok::<i64>(v, "attachment_id"@)
        &&& req_field_ok::<bool>(v, "confirmed"@)
    }

    open spec fn rel(v: Jv, s: Self) -> bool {
        &&& v is Obj
        &&& req_field_rel::<String>(v, "id"@, s.id)
        &&& req_field_rel::<String>(v, "unique_identifier"@, s.unique_identifier)
        &&& req_field_rel::<Date>(v, "transaction_date"@, s.transaction_date)
        &&& req_field_rel::<Decimal>(v, "quantity"@, s.quantity)
        &&& req_field_rel::<Decimal>(v, "price"@, s.price)
        &&& req_field_rel::<Decimal>(v, "cost_base"@, s.cost_base)
        &&& req_field_rel::<Decimal>(v, "exchange_rate"@, s.exchange_rate)
        &&& req_field_rel::<Decimal>(v, "brokerage"@, s.brokerage)
        &&& req_field_rel::<Currency>(v, "brokerage_currency_code"@, s.brokerage_currency_code)
        &&& req_field_rel::<Decimal>(v, "value"@, s.value)
        &&& req_field_rel::<Date>(v, "paid_on"@, s.paid_on)
        &&& req_field_rel::<i64>(v, "company_event_id"@, s.company_event_id)
        &&& req_field_rel::<String>(v, "comments"@, s.comments)
        &&& req_field_rel::<i64>(v, "portfolio_id"@, s.portfolio_id)
        &&& req_field_rel::<i64>(v, "holding_id"@, s.holding_id)
        &&& req_field_rel::<String>(v, "state"@, s.state)
        &&& req_field_rel::<TradeDescription>(v, "transaction_type"@, s.transaction_type)
        &&& req_field_rel::<i64>(v, "instrument_id"@, s.instrument_id)
        &&& req_field_rel::<String>(v, "symbol"@, s.symbol)
        &&& req_field_rel::<Market>(v, "market"@, s.market)
        &&& req_field_rel::<String>(v, "attachment_filename"@, s.attachment_filename)
        &&& req_field_rel::<i64>(v, "attachment_id"@, s.attachment_id)
        &&& req_field_rel::<bool>(v, "confirmed"@, s.confirmed)
    }

    fn decode(v: &JsonValue) -> (r: Result<Self, DecodeError>) {
        let id: String = match get_field(v, "id") {
            Ok(x) => x,
            Err(e) => {
                return Err(e);
            },
        };
        let unique_identifier: String = match get_field(v, "unique_identifier") {
            Ok(x) => x,
            Err(e) => {
                return Err(e);
            },
        };
        let transaction_date: Date = match get_field(v, "transaction_date") {
            Ok(x) => x,
            Err(e) => {
                return Err(e);
            },
        };
        let quantity: Decimal = match get_field(v, "quantity") {
            Ok(x) => x,
            Err(e) => {
                return Err(e);
            },
        };
        let price: Decimal = match get_field(v, "price") {
            Ok(x) => x,
            Err(e) => {
                return Err(e);
            },
        };
        let cost_base: Decimal = match get_field(v, "cost_base") {
            Ok(x) => x,
            Err(e) => {
                return Err(e);
            },
        };
        let exchange_rate: Decimal = match get_field(v, "exchange_rate") {
            Ok(x) => x,
            Err(e) => {
                return Err(e);
            },
        };
        let brokerage: Decimal = match get_field(v, "brokerage") {
            Ok(x) => x,
            Err(e) => {
                return Err(e);
            },
        };
        let brokerage_currency_code: Currency = match get_field(v, "brokerage_currency_code") {
            Ok(x) => x,
            Err(e) => {
                return Err(e);
            },
        };
        let value: Decimal = match get_field(v, "value") {
            Ok(x) => x,
            Err(e) => {
                return Err(e);
            },
        };
        let paid_on: Date = match get_field(v, "paid_on") {
            Ok(x) => x,
            Err(e) => {
                return Err(e);
            },
        };
        let company_event_id: i64 = match get_field(v, "company_event_id") {
            Ok(x) => x,
            Err(e) => {
                return Err(e);
            },
        };
        let comments: String = match get_field(v, "comments") {
            Ok(x) => x,
            Err(e) => {
                return Err(e);
            },
        };
        let portfolio_id: i64 = match get_field(v, "portfolio_id") {
            Ok(x) => x,
            Err(e) => {
                return Err(e);
            },
        };
        let holding_id: i64 = match get_field(v, "holding_id") {
            Ok(x) => x,
            Err(e) => {
                return Err(e);
            },
        };
        let state: String = match get_field(v, "state") {
            Ok(x) => x,
            Err(e) => {
                return Err(e);
            },
        };
        let transaction_type: TradeDescription = match get_field(v, "transaction_type") {
            Ok(x) => x,
            Err(e) => {
                return Err(e);
            },
        };
        let instrument_id: i64 = match get_field(v, "instrument_id") {
            Ok(x) => x,
            Err(e) => {
                return Err(e);
            },
        };
        let symbol: String = match get_field(v, "symbol") {
            Ok(x) => x,
            Err(e) => {
                return Err(e);
            },
        };
        let market: Market = match get_field(v, "market") {
            Ok(x) => x,
            Err(e) => {
                return Err(e);
            },
        };
        let attachment_filename: String = match get_field(v, "attachment_filename") {
            Ok(x) => x,
            Err(e) => {
                return Err(e);
            },
        };
        let attachment_id: i64 = match get_field(v, "attachment_id") {
            Ok(x) => x,
            Err(e) => {
                return Err(e);
            },
        };
        let confirmed: bool = match get_field(v, "confirmed") {
            Ok(x) => x,
            Err(e) => {
                return Err(e);
            },
        };
        Ok(HoldingTradesTradesSuccess { id, unique_identifier, transaction_date, quantity, price, cost_base, exchange_rate, brokerage, brokerage_currency_code, value, paid_on, company_event_id, comments, portfolio_id, holding_id, state, transaction_type, instrument_id, symbol, market, attachment_filename, attachment_id, confirmed })
    }
}

/// A nested response shape of [`HoldingTrades`].
#[derive(Debug, Clone, PartialEq)]
pub struct HoldingTradesApiTransactionSuccess {
    pub id: i64,
    pub version: i64,
    pub action: String,
    pub timestamp: String,
}

impl ToJson for HoldingTradesApiTransactionSuccess {
    open spec fn enc(s: Self) -> Jv {
        Jv::Obj(
            Seq::<(Seq<char>, Jv)>::empty()
                + req_entry("id"@, s.id)
                + req_entry("version"@, s.version)
                + req_entry("action"@, s.action)
                + req_entry("timestamp"@, s.timestamp),
        )
    }

    fn encode(&self) -> (r: JsonValue) {
        let mut o = JsonObj::new();
        o.put("id", &self.id);
        o.put("version", &self.version);
        o.put("action", &self.action);
        o.put("timestamp", &self.timestamp);
        o.finish()
    }
}

impl FromJson for HoldingTradesApiTransactionSuccess {
    open spec fn decodable(v: Jv) -> bool {
        &&& v is Obj
        &&& req_field_ok::<i64>(v, "id"@)
        &&& req_field_ok::<i64>(v, "version"@)
        &&& req_field_ok::<String>(v, "action"@)
        &&& req_field_ok::<String>(v, "timestamp"@)
    }

    open spec fn rel(v: Jv, s: Self) -> bool {
        &&& v is Obj
        &&& req_field_rel::<i64>(v, "id"@, s.id)
        &&& req_field_rel::<i64>(v, "version"@, s.version)
        &&& req_field_rel::<String>(v, "action"@, s.action)
        &&& req_field_rel::<String>(v, "timestamp"@, s.timestamp)
    }

    fn decode(v: &JsonValue) -> (r: Result<Self, DecodeError>) {
        let id: i64 = match get_field(v, "id") {
            Ok(x) => x,
            Err(e) => {
                return Err(e);
            },
        };
        let version: i64 = match get_field(v, "version") {
            Ok(x) => x,
            Err(e) => {
                return Err(e);
            },
        };
        let action: String = match get_field(v, "action") {
            Ok(x) => x,
            Err(e) => {
                return Err(e);
            },
        };
        let timestamp: String = match get_field(v, "timestamp") {
            Ok(x) => x,
            Err(e) => {
                return Err(e);
            },
        };
        Ok(HoldingTradesApiTransactionSuccess { id, version, action, timestamp })
    }
}

/// `GET /holdings/:holding_id/rejected_trades.json`.
pub struct HoldingTradesRejected;

/// The parameters of a [`HoldingTradesRejected`] call, held for URL rendering.
pub struct HoldingTradesRejectedUrlDisplay<'a>(pub &'a HoldingTradesRejectedParameters);

impl<'a> HoldingTradesRejectedUrlDisplay<'a> {
    /// Renders the resolved URL path.
    pub fn render(&self) -> (r: String)
        ensures
            r@ == HoldingTradesRejected::spec_url(*self.0),
    {
        HoldingTradesRejected::url(self.0)
    }
}

impl HoldingTradesRejected {
    /// The URL template of this endpoint.
    pub fn url_template() -> (r: &'static str)
        ensures
            r@ == "/holdings/:holding_id/rejected_trades.json"@,
    {
        "/holdings/:holding_id/rejected_trades.json"
    }

    /// The HTTP method of this endpoint.
    pub fn http_method() -> (r: ApiHttpMethod)
        ensures
            r == ApiHttpMethod::Get,
    {
        ApiHttpMethod::Get
    }

    /// The URL path that `p` resolves the template to.
    pub open spec fn spec_url(p: HoldingTradesRejectedParameters) -> Seq<char> {
        "/holdings/"@ + p.holding_id@ + "/rejected_trades.json"@
    }

    /// Resolves the URL template with the fields of `parameters`:
    /// plain decimal digits for integers, strings as they are.
    pub fn url(parameters: &HoldingTradesRejectedParameters) -> (r: String)
        ensures
            r@ == Self::spec_url(*parameters),
    {
        let mut s = "/holdings/".to_owned();
        s.append(parameters.holding_id.as_str());
        s.append("/rejected_trades.json");
        s
    }

    /// Wraps `parameters` for URL rendering.
    pub fn url_path<'a>(parameters: &'a HoldingTradesRejectedParameters) -> (r: HoldingTradesRejectedUrlDisplay<'a>)
        ensures
            r.0 == parameters,
    {
        HoldingTradesRejectedUrlDisplay(parameters)
    }

    /// Decodes a success payload, naming this endpoint in any
    /// failure.
    pub fn decode_success(v: &JsonValue) -> (r: Result<HoldingTradesRejectedSuccess, DecodeError>)
        ensures
            r matches Ok(s) ==> <HoldingTradesRejectedSuccess as FromJson>::decodable(v@)
                && <HoldingTradesRejectedSuccess as FromJson>::rel(v@, s),
            <HoldingTradesRejectedSuccess as FromJson>::decodable(v@) ==> r is Ok,
            r matches Err(e) ==> spec_starts_with(e.path@, "HoldingTradesRejected"@),
    {
        match HoldingTradesRejectedSuccess::decode(v) {
            Ok(s) => Ok(s),
            Err(e) => Err(e.in_endpoint("HoldingTradesRejected")),
        }
    }
}

/// The parameters of a [`HoldingTradesRejected`] call.
#[derive(Debug, Clone, PartialEq)]
pub struct HoldingTradesRejectedParameters {
    pub holding_id: String,
}

impl ToJson for HoldingTradesRejectedParameters {
    open spec fn enc(s: Self) -> Jv {
        Jv::Obj(
            Seq::<(Seq<char>, Jv)>::empty()
                + req_entry("holding_id"@, s.holding_id),
        )
    }

    fn encode(&self) -> (r: JsonValue) {
        let mut o = JsonObj::new();
        o.put("holding_id", &self.holding_id);
        o.finish()
    }
}

impl FromJson for HoldingTradesRejectedParameters {
    open spec fn decodable(v: Jv) -> bool {
        &&& v is Obj
        &&& req_field_ok::<String>(v, "holding_id"@)
    }

    open spec fn rel(v: Jv, s: Self) -> bool {
        &&& v is Obj
        &&& req_field_rel::<String>(v, "holding_id"@, s.holding_id)
    }

    fn decode(v: &JsonValue) -> (r: Result<Self, DecodeError>) {
        let holding_id: String = match get_field(v, "holding_id") {
            Ok(x) => x,
            Err(e) => {
                return Err(e);
            },
        };
        Ok(HoldingTradesRejectedParameters { holding_id })
    }
}

/// The success response of a [`HoldingTradesRejected`] call.
#[derive(Debug, Clone, PartialEq)]
pub struct HoldingTradesRejectedSuccess {
    pub trades: Vec<String>,
    pub api_transaction: HoldingTradesRejectedApiTransactionSuccess,
}

impl ToJson for HoldingTradesRejectedSuccess {
    open spec fn enc(s: Self) -> Jv {
        Jv::Obj(
            Seq::<(Seq<char>, Jv)>::empty()
                + req_entry("trades"@, s.trades)
                + req_entry("api_transaction"@, s.api_transaction),
        )
    }

    fn encode(&self) -> (r: JsonValue) {
        let mut o = JsonObj::new();
        o.put("trades", &self.trades);
        o.put("api_transaction", &self.api_transaction);
        o.finish()
    }
}

impl FromJson for HoldingTradesRejectedSuccess {
    open spec fn decodable(v: Jv) -> bool {
        &&& v is Obj
        &&& req_field_ok::<Vec<String>>(v, "trades"@)
        &&& req_field_ok::<HoldingTradesRejectedApiTransactionSuccess>(v, "api_transaction"@)
    }

    open spec fn rel(v: Jv, s: Self) -> bool {
        &&& v is Obj
        &&& req_field_rel::<Vec<String>>(v, "trades"@, s.trades)
        &&& req_field_rel::<HoldingTradesRejectedApiTransactionSuccess>(v, "api_transaction"@, s.api_transaction)
    }

    fn decode(v: &JsonValue) -> (r: Result<Self, DecodeError>) {
        let trades: Vec<String> = match get_field(v, "trades") {
            Ok(x) => x,
            Err(e) => {
                return Err(e);
            },
        };
        let api_transaction: HoldingTradesRejectedApiTransactionSuccess = match get_field(v, "api_transaction") {
            Ok(x) => x,
            Err(e) => {
                return Err(e);
            },
        };
        Ok(HoldingTradesRejectedSuccess { trades, api_transaction })
    }
}

/// A nested response shape of [`HoldingTradesRejected`].
#[derive(Debug, Clone, PartialEq)]
pub struct HoldingTradesRejectedTradesSuccess {
    pub id: String,
    pub unique_identifier: String,
    pub transaction_date: Date,
    pub quantity: Decimal,
    pub price: Decimal,
    pub cost_base: Decimal,
    pub exchange_rate: Decimal,
    pub brokerage: Decimal,
    pub brokerage_currency_code: Currency,
    pub value: Decimal,
    pub paid_on: Date,
    pub company_event_id: i64,
    pub comments: String,
    pub portfolio_id: i64,
    pub holding_id: i64,
    pub state: String,
    pub transaction_type: TradeDescription,
    pub instrument_id: i64,
    pub symbol: String,
    pub market: Market,
    pub attachment_filename: String,
    pub attachment_id: i64,
    pub confirmed: bool,
}

impl ToJson for HoldingTradesRejectedTradesSuccess {
    open spec fn enc(s: Self) -> Jv {
        Jv::Obj(
            Seq::<(Seq<char>, Jv)>::empty()
                + req_entry("id"@, s.id)
                + req_entry("unique_identifier"@, s.unique_identifier)
                + req_entry("transaction_date"@, s.transaction_date)
                + req_entry("quantity"@, s.quantity)
                + req_entry("price"@, s.price)
                + req_entry("cost_base"@, s.cost_base)
                + req_entry("exchange_rate"@, s.exchange_rate)
                + req_entry("brokerage"@, s.brokerage)
                + req_entry("brokerage_currency_code"@, s.brokerage_currency_code)
                + req_entry("value"@, s.value)
                + req_entry("paid_on"@, s.paid_on)
                + req_entry("company_event_id"@, s.company_event_id)
                + req_entry("comments"@, s.comments)
                + req_entry("portfolio_id"@, s.portfolio_id)
                + req_entry("holding_id"@, s.holding_id)
                + req_entry("state"@, s.state)
                + req_entry("transaction_type"@, s.transaction_type)
                + req_entry("instrument_id"@, s.instrument_id)
                + req_entry("symbol"@, s.symbol)
                + req_entry("market"@, s.market)
                + req_entry("attachment_filename"@, s.attachment_filename)
                + req_entry("attachment_id"@, s.attachment_id)
                + req_entry("confirmed"@, s.confirmed),
        )
    }

    fn encode(&self) -> (r: JsonValue) {
        let mut o = JsonObj::new();
        o.put("id", &self.id);
        o.put("unique_identifier", &self.unique_identifier);
        o.put("transaction_date", &self.transaction_date);
        o.put("quantity", &self.quantity);
        o.put("price", &self.price);
        o.put("cost_base", &self.cost_base);
        o.put("exchange_rate", &self.exchange_rate);
        o.put("brokerage", &self.brokerage);
        o.put("brokerage_currency_code", &self.brokerage_currency_code);
        o.put("value", &self.value);
        o.put("paid_on", &self.paid_on);
        o.put("company_event_id", &self.company_event_id);
        o.put("comments", &self.comments);
        o.put("portfolio_id", &self.portfolio_id);
        o.put("holding_id", &self.holding_id);
        o.put("state", &self.state);
        o.put("transaction_type", &self.transaction_type);
        o.put("instrument_id", &self.instrument_id);
        o.put("symbol", &self.symbol);
        o.put("market", &self.market);
        o.put("attachment_filename", &self.attachment_filename);
        o.put("attachment_id", &self.attachment_id);
        o.put("confirmed", &self.confirmed);
        o.finish()
    }
}

impl FromJson for HoldingTradesRejectedTradesSuccess {
    open spec fn decodable(v: Jv) -> bool {
        &&& v is Obj
        &&& req_field_ok::<String>(v, "id"@)
        &&& req_field_ok::<String>(v, "unique_identifier"@)
        &&& req_field_ok::<Date>(v, "transaction_date"@)
        &&& req_field_ok::<Decimal>(v, "quantity"@)
        &&& req_field_ok::<Decimal>(v, "price"@)
        &&& req_field_ok::<Decimal>(v, "cost_base"@)
        &&& req_field_ok::<Decimal>(v, "exchange_rate"@)
        &&& req_field_ok::<Decimal>(v, "brokerage"@)
        &&& req_field_ok::<Currency>(v, "brokerage_currency_code"@)
        &&& req_field_ok::<Decimal>(v, "value"@)
        &&& req_field_ok::<Date>(v, "paid_on"@)
        &&& req_field_ok::<i64>(v, "company_event_id"@)
        &&& req_field_ok::<String>(v, "comments"@)
        &&& req_field_ok::<i64>(v, "portfolio_id"@)
        &&& req_field_ok::<i64>(v, "holding_id"@)
        &&& req_field_ok::<String>(v, "state"@)
        &&& req_field_ok::<TradeDescription>(v, "transaction_type"@)
        &&& req_field_ok::<i64>(v, "instrument_id"@)
        &&& req_field_ok::<String>(v, "symbol"@)
        &&& req_field_ok::<Market>(v, "market"@)
        &&& req_field_ok::<String>(v, "attachment_filename"@)
        &&& req_field_ok::<i64>(v, "attachment_id"@)
        &&& req_field_ok::<bool>(v, "confirmed"@)
    }

    open spec fn rel(v: Jv, s: Self) -> bool {
        &&& v is Obj
        &&& req_field_rel::<String>(v, "id"@, s.id)
        &&& req_field_rel::<String>(v, "unique_identifier"@, s.unique_identifier)
        &&& req_field_rel::<Date>(v, "transaction_date"@, s.transaction_date)
        &&& req_field_rel::<Decimal>(v, "quantity"@, s.quantity)
        &&& req_field_rel::<Decimal>(v, "price"@, s.price)
        &&& req_field_rel::<Decimal>(v, "cost_base"@, s.cost_base)
        &&& req_field_rel::<Decimal>(v, "exchange_rate"@, s.exchange_rate)
        &&& req_field_rel::<Decimal>(v, "brokerage"@, s.brokerage)
        &&& req_field_rel::<Currency>(v, "brokerage_currency_code"@, s.brokerage_currency_code)
        &&& req_field_rel::<Decimal>(v, "value"@, s.value)
        &&& req_field_rel::<Date>(v, "paid_on"@, s.paid_on)
        &&& req_field_rel::<i64>(v, "company_event_id"@, s.company_event_id)
        &&& req_field_rel::<String>(v, "comments"@, s.comments)
        &&& req_field_rel::<i64>(v, "portfolio_id"@, s.portfolio_id)
        &&& req_field_rel::<i64>(v, "holding_id"@, s.holding_id)
        &&& req_field_rel::<String>(v, "state"@, s.state)
        &&& req_field_rel::<TradeDescription>(v, "transaction_type"@, s.transaction_type)
        &&& req_field_rel::<i64>(v, "instrument_id"@, s.instrument_id)
        &&& req_field_rel::<String>(v, "symbol"@, s.symbol)
        &&& req_field_rel::<Market>(v, "market"@, s.market)
        &&& req_field_rel::<String>(v, "attachment_filename"@, s.attachment_filename)
        &&& req_field_rel::<i64>(v, "attachment_id"@, s.attachment_id)
        &&& req_field_rel::<bool>(v, "confirmed"@, s.confirmed)
    }

    fn decode(v: &JsonValue) -> (r: Result<Self, DecodeError>) {
        let id: String = match get_field(v, "id") {
            Ok(x) => x,
            Err(e) => {
                return Err(e);
            },
        };
        let unique_identifier: String = match get_field(v, "unique_identifier") {
            Ok(x) => x,
            Err(e) => {
                return Err(e);
            },
        };
        let transaction_date: Date = match get_field(v, "transaction_date") {
            Ok(x) => x,
            Err(e) => {
                return Err(e);
            },
        };
        let quantity: Decimal = match get_field(v, "quantity") {
            Ok(x) => x,
            Err(e) => {
                return Err(e);
            },
        };
        let price: Decimal = match get_field(v, "price") {
            Ok(x) => x,
            Err(e) => {
                return Err(e);
            },
        };
        let cost_base: Decimal = match get_field(v, "cost_base") {
            Ok(x) => x,
            Err(e) => {
                return Err(e);
            },
        };
        let exchange_rate: Decimal = match get_field(v, "exchange_rate") {
            Ok(x) => x,
            Err(e) => {
                return Err(e);
            },
        };
        let brokerage: Decimal = match get_field(v, "brokerage") {
            Ok(x) => x,
            Err(e) => {
                return Err(e);
            },
        };
        let brokerage_currency_code: Currency = match get_field(v, "brokerage_currency_code") {
            Ok(x) => x,
            Err(e) => {
                return Err(e);
            },
        };
        let value: Decimal = match get_field(v, "value") {
            Ok(x) => x,
            Err(e) => {
                return Err(e);
            },
        };
        let paid_on: Date = match get_field(v, "paid_on") {
            Ok(x) => x,
            Err(e) => {
                return Err(e);
            },
        };
        let company_event_id: i64 = match get_field(v, "company_event_id") {
            Ok(x) => x,
            Err(e) => {
                return Err(e);
            },
        };
        let comments: String = match get_field(v, "comments") {
            Ok(x) => x,
            Err(e) => {
                return Err(e);
            },
        };
        let portfolio_id: i64 = match get_field(v, "portfolio_id") {
            Ok(x) => x,
            Err(e) => {
                return Err(e);
            },
        };
        let holding_id: i64 = match get_field(v, "holding_id") {
            Ok(x) => x,
            Err(e) => {
                return Err(e);
            },
        };
        let state: String = match get_field(v, "state") {
            Ok(x) => x,
            Err(e) => {
                return Err(e);
            },
        };
        let transaction_type: TradeDescription = match get_field(v, "transaction_type") {
            Ok(x) => x,
            Err(e) => {
                return Err(e);
            },
        };
        let instrument_id: i64 = match get_field(v, "instrument_id") {
            Ok(x) => x,
            Err(e) => {
                return Err(e);
            },
        };
        let symbol: String = match get_field(v, "symbol") {
            Ok(x) => x,
            Err(e) => {
                return Err(e);
            },
        };
        let market: Market = match get_field(v, "market") {
            Ok(x) => x,
            Err(e) => {
                return Err(e);
            },
        };
        let attachment_filename: String = match get_field(v, "attachment_filename") {
            Ok(x) => x,
            Err(e) => {
                return Err(e);
            },
        };
        let attachment_id: i64 = match get_field(v, "attachment_id") {
            Ok(x) => x,
            Err(e) => {
                return Err(e);
            },
        };
        let confirmed: bool = match get_field(v, "confirmed") {
            Ok(x) => x,
            Err(e) => {
                return Err(e);
            },
        };
        Ok(HoldingTradesRejectedTradesSuccess { id, unique_identifier, transaction_date, quantity, price, cost_base, exchange_rate, brokerage, brokerage_currency_code, value, paid_on, company_event_id, comments, portfolio_id, holding_id, state, transaction_type, instrument_id, symbol, market, attachment_filename, attachment_id, confirmed })
    }
}

/// A nested response shape of [`HoldingTradesRejected`].
#[derive(Debug, Clone, PartialEq)]
pub struct HoldingTradesRejectedApiTransactionSuccess {
    pub id: i64,
    pub version: i64,
    pub action: String,
    pub timestamp: String,
}

impl ToJson for HoldingTradesRejectedApiTransactionSuccess {
    open spec fn enc(s: Self) -> Jv {
        Jv::Obj(
            Seq::<(Seq<char>, Jv)>::empty()
                + req_entry("id"@, s.id)
                + req_entry("version"@, s.version)
                + req_entry("action"@, s.action)
                + req_entry("timestamp"@, s.timestamp),
        )
    }

    fn encode(&self) -> (r: JsonValue) {
        let mut o = JsonObj::new();
        o.put("id", &self.id);
        o.put("version", &self.version);
        o.put("action", &self.action);
        o.put("timestamp", &self.timestamp);
        o.finish()
    }
}

impl FromJson for HoldingTradesRejectedApiTransactionSuccess {
    open spec fn decodable(v: Jv) -> bool {
        &&& v is Obj
        &&& req_field_ok::<i64>(v, "id"@)
        &&& req_field_ok::<i64>(v, "version"@)
        &&& req_field_ok::<String>(v, "action"@)
        &&& req_field_ok::<String>(v, "timestamp"@)
    }

    open spec fn rel(v: Jv, s: Self) -> bool {
        &&& v is Obj
        &&& req_field_rel::<i64>(v, "id"@, s.id)
        &&& req_field_rel::<i64>(v, "version"@, s.version)
        &&& req_field_rel::<String>(v, "action"@, s.action)
        &&& req_field_rel::<String>(v, "timestamp"@, s.timestamp)
    }

    fn decode(v: &JsonValue) -> (r: Result<Self, DecodeError>) {
        let id: i64 = match get_field(v, "id") {
            Ok(x) => x,
            Err(e) => {
                return Err(e);
            },
        };
        let version: i64 = match get_field(v, "version") {
            Ok(x) => x,
            Err(e) => {
                return Err(e);
            },
        };
        let action: String = match get_field(v, "action") {
            Ok(x) => x,
            Err(e) => {
                return Err(e);
            },
        };
        let timestamp: String = match get_field(v, "timestamp") {
            Ok(x) => x,
            Err(e) => {
                return Err(e);
            },
        };
        Ok(HoldingTradesRejectedApiTransactionSuccess { id, version, action, timestamp })
    }
}

/// `GET /user_instruments.json`.
pub struct ListUserInstruments;

impl ListUserInstruments {
    /// The URL template of this endpoint.
    pub fn url_template() -> (r: &'static str)
        ensures
            r@ == "/user_instruments.json"@,
    {
        "/user_instruments.json"
    }

    /// The HTTP method of this endpoint.
    pub fn http_method() -> (r: ApiHttpMethod)
        ensures
            r == ApiHttpMethod::Get,
    {
        ApiHttpMethod::Get
    }

    /// The URL path of this endpoint; it takes no parameters.
    pub fn url_path() -> (r: &'static str)
        ensures
            r@ == "/user_instruments.json"@,
    {
        "/user_instruments.json"
    }

    /// Decodes a success payload, naming this endpoint in any
    /// failure.
    pub fn decode_success(v: &JsonValue) -> (r: Result<ListUserInstrumentsSuccess, DecodeError>)
        ensures
            r matches Ok(s) ==> <ListUserInstrumentsSuccess as FromJson>::decodable(v@)
                && <ListUserInstrumentsSuccess as FromJson>::rel(v@, s),
            <ListUserInstrumentsSuccess as FromJson>::decodable(v@) ==> r is Ok,
            r matches Err(e) ==> spec_starts_with(e.path@, "ListUserInstruments"@),
    {
        match ListUserInstrumentsSuccess::decode(v) {
            Ok(s) => Ok(s),
            Err(e) => Err(e.in_endpoint("ListUserInstruments")),
        }
    }
}

/// The success response of a [`ListUserInstruments`] call.
#[derive(Debug, Clone, PartialEq)]
pub struct ListUserInstrumentsSuccess {
    pub instruments: Vec<ListUserInstrumentsInstrumentsSuccess>,
}

impl ToJson for ListUserInstrumentsSuccess {
    open spec fn enc(s: Self) -> Jv {
        Jv::Obj(
            Seq::<(Seq<char>, Jv)>::empty()
                + req_entry("instruments"@, s.instruments),
        )
    }

    fn encode(&self) -> (r: JsonValue) {
        let mut o = JsonObj::new();
        o.put("instruments", &self.instruments);
        o.finish()
    }
}

impl FromJson for ListUserInstrumentsSuccess {
    open spec fn decodable(v: Jv) -> bool {
        &&& v is Obj
        &&& req_field_ok::<Vec<ListUserInstrumentsInstrumentsSuccess>>(v, "instruments"@)
    }

    open spec fn rel(v: Jv, s: Self) -> bool {
        &&& v is Obj
        &&& req_field_rel::<Vec<ListUserInstrumentsInstrumentsSuccess>>(v, "instruments"@, s.instruments)
    }

    fn decode(v: &JsonValue) -> (r: Result<Self, DecodeError>) {
        let instruments: Vec<ListUserInstrumentsInstrumentsSuccess> = match get_field(v, "instruments") {
            Ok(x) => x,
            Err(e) => {
                return Err(e);
            },
        };
        Ok(ListUserInstrumentsSuccess { instruments })
    }
}

/// A nested response shape of [`ListUserInstruments`].
#[derive(Debug, Clone, PartialEq)]
pub struct ListUserInstrumentsInstrumentsSuccess {
    pub id: i64,
    pub code: String,
    pub market_code: Market,
    pub name: String,
    pub currency_code: Currency,
    pub pe_ratio: Option<Decimal>,
    pub nta: Option<Decimal>,
    pub eps: Option<Decimal>,
    pub current_price: Decimal,
    pub current_price_updated_at: DateTime,
    pub sector_classification_name: String,
    pub industry_classification_name: String,
    pub security_type: Option<String>,
    pub friendly_instrument_description: String,
    pub registry_name: Option<String>,
}

impl ToJson for ListUserInstrumentsInstrumentsSuccess {
    open spec fn enc(s: Self) -> Jv {
        Jv::Obj(
            Seq::<(Seq<char>, Jv)>::empty()
                + req_entry("id"@, s.id)
                + req_entry("code"@, s.code)
                + req_entry("market_code"@, s.market_code)
                + req_entry("name"@, s.name)
                + req_entry("currency_code"@, s.currency_code)
                + opt_entry("pe_ratio"@, s.pe_ratio)
                + opt_entry("nta"@, s.nta)
                + opt_entry("eps"@, s.eps)
                + req_entry("current_price"@, s.current_price)
                + req_entry("current_price_updated_at"@, s.current_price_updated_at)
                + req_entry("sector_classification_name"@, s.sector_classification_name)
                + req_entry("industry_classification_name"@, s.industry_classification_name)
                + opt_entry("security_type"@, s.security_type)
                + req_entry("friendly_instrument_description"@, s.friendly_instrument_description)
                + opt_entry("registry_name"@, s.registry_name),
        )
    }

    fn encode(&self) -> (r: JsonValue) {
        let mut o = JsonObj::new();
        o.put("id", &self.id);
        o.put("code", &self.code);
        o.put("market_code", &self.market_code);
        o.put("name", &self.name);
        o.put("currency_code", &self.currency_code);
        o.put_opt("pe_ratio", &self.pe_ratio);
        o.put_opt("nta", &self.nta);
        o.put_opt("eps", &self.eps);
        o.put("current_price", &self.current_price);
        o.put("current_price_updated_at", &self.current_price_updated_at);
        o.put("sector_classification_name", &self.sector_classification_name);
        o.put("industry_classification_name", &self.industry_classification_name);
        o.put_opt("security_type", &self.security_type);
        o.put("friendly_instrument_description", &self.friendly_instrument_description);
        o.put_opt("registry_name", &self.registry_name);
        o.finish()
    }
}

impl FromJson for ListUserInstrumentsInstrumentsSuccess {
    open spec fn decodable(v: Jv) -> bool {
        &&& v is Obj
        &&& req_field_ok::<i64>(v, "id"@)
        &&& req_field_ok::<String>(v, "code"@)
        &&& req_field_ok::<Market>(v, "market_code"@)
        &&& req_field_ok::<String>(v, "name"@)
        &&& req_field_ok::<Currency>(v, "currency_code"@)
        &&& opt_field_ok::<Decimal>(v, "pe_ratio"@)
        &&& opt_field_ok::<Decimal>(v, "nta"@)
        &&& opt_field_ok::<Decimal>(v, "eps"@)
        &&& req_field_ok::<Decimal>(v, "current_price"@)
        &&& req_field_ok::<DateTime>(v, "current_price_updated_at"@)
        &&& req_field_ok::<String>(v, "sector_classification_name"@)
        &&& req_field_ok::<String>(v, "industry_classification_name"@)
        &&& opt_field_ok::<String>(v, "security_type"@)
        &&& req_field_ok::<String>(v, "friendly_instrument_description"@)
        &&& opt_field_ok::<String>(v, "registry_name"@)
    }

    open spec fn rel(v: Jv, s: Self) -> bool {
        &&& v is Obj
        &&& req_field_rel::<i64>(v, "id"@, s.id)
        &&& req_field_rel::<String>(v, "code"@, s.code)
        &&& req_field_rel::<Market>(v, "market_code"@, s.market_code)
        &&& req_field_rel::<String>(v, "name"@, s.name)
        &&& req_field_rel::<Currency>(v, "currency_code"@, s.currency_code)
        &&& opt_field_rel::<Decimal>(v, "pe_ratio"@, s.pe_ratio)
        &&& opt_field_rel::<Decimal>(v, "nta"@, s.nta)
        &&& opt_field_rel::<Decimal>(v, "eps"@, s.eps)
        &&& req_field_rel::<Decimal>(v, "current_price"@, s.current_price)
        &&& req_field_rel::<DateTime>(v, "current_price_updated_at"@, s.current_price_updated_at)
        &&& req_field_rel::<String>(v, "sector_classification_name"@, s.sector_classification_name)
        &&& req_field_rel::<String>(v, "industry_classification_name"@, s.industry_classification_name)
        &&& opt_field_rel::<String>(v, "security_type"@, s.security_type)
        &&& req_field_rel::<String>(v, "friendly_instrument_description"@, s.friendly_instrument_description)
        &&& opt_field_rel::<String>(v, "registry_name"@, s.registry_name)
    }

    fn decode(v: &JsonValue) -> (r: Result<Self, DecodeError>) {
        let id: i64 = match get_field(v, "id") {
            Ok(x) => x,
            Err(e) => {
                return Err(e);
            },
        };
        let code: String = match get_field(v, "code") {
            Ok(x) => x,
            Err(e) => {
                return Err(e);
            },
        };
        let market_code: Market = match get_field(v, "market_code") {
            Ok(x) => x,
            Err(e) => {
                return Err(e);
            },
        };
        let name: String = match get_field(v, "name") {
            Ok(x) => x,
            Err(e) => {
                return Err(e);
            },
        };
        let currency_code: Currency = match get_field(v, "currency_code") {
            Ok(x) => x,
            Err(e) => {
                return Err(e);
            },
        };
        let pe_ratio: Option<Decimal> = match get_opt_field(v, "pe_ratio") {
            Ok(x) => x,
            Err(e) => {
                return Err(e);
            },
        };
        let nta: Option<Decimal> = match get_opt_field(v, "nta") {
            Ok(x) => x,
            Err(e) => {
                return Err(e);
            },
        };
        let eps: Option<Decimal> = match get_opt_field(v, "eps") {
            Ok(x) => x,
            Err(e) => {
                return Err(e);
            },
        };
        let current_price: Decimal = match get_field(v, "current_price") {
            Ok(x) => x,
            Err(e) => {
                return Err(e);
            },
        };
        let current_price_updated_at: DateTime = match get_field(v, "current_price_updated_at") {
            Ok(x) => x,
            Err(e) => {
                return Err(e);
            },
        };
        let sector_classification_name: String = match get_field(v, "sector_classification_name") {
            Ok(x) => x,
            Err(e) => {
                return Err(e);
            },
        };
        let industry_classification_name: String = match get_field(v, "industry_classification_name") {
            Ok(x) => x,
            Err(e) => {
                return Err(e);
            },
        };
        let security_type: Option<String> = match get_opt_field(v, "security_type") {
            Ok(x) => x,
            Err(e) => {
                return Err(e);
            },
        };
        let friendly_instrument_description: String = match get_field(v, "friendly_instrument_description") {
            Ok(x) => x,
            Err(e) => {
                return Err(e);
            },
        };
        let registry_name: Option<String> = match get_opt_field(v, "registry_name") {
            Ok(x) => x,
            Err(e) => {
                return Err(e);
            },
        };
        Ok(ListUserInstrumentsInstrumentsSuccess { id, code, market_code, name, currency_code, pe_ratio, nta, eps, current_price, current_price_updated_at, sector_classification_name, industry_classification_name, security_type, friendly_instrument_description, registry_name })
    }
}

/// `GET /documents/:id.json`.
pub struct DocumentShow;

/// The parameters of a [`DocumentShow`] call, held for URL rendering.
pub struct DocumentShowUrlDisplay<'a>(pub &'a DocumentShowParameters);

impl<'a> DocumentShowUrlDisplay<'a> {
    /// Renders the resolved URL path.
    pub fn render(&self) -> (r: String)
        ensures
            r@ == DocumentShow::spec_url(*self.0),
    {
        DocumentShow::url(self.0)
    }
}

impl DocumentShow {
    /// The URL template of this endpoint.
    pub fn url_template() -> (r: &'static str)
        ensures
            r@ == "/documents/:id.json"@,
    {
        "/documents/:id.json"
    }

    /// The HTTP method of this endpoint.
    pub fn http_method() -> (r: ApiHttpMethod)
        ensures
            r == ApiHttpMethod::Get,
    {
        ApiHttpMethod::Get
    }

    /// The URL path that `p` resolves the template to.
    pub open spec fn spec_url(p: DocumentShowParameters) -> Seq<char> {
        "/documents/"@ + spec_i64_string(p.id as int) + ".json"@
    }

    /// Resolves the URL template with the fields of `parameters`:
    /// plain decimal digits for integers, strings as they are.
    pub fn url(parameters: &DocumentShowParameters) -> (r: String)
        ensures
            r@ == Self::spec_url(*parameters),
    {
        let mut s = "/documents/".to_owned();
        s.append(render_i64(parameters.id).as_str());
        s.append(".json");
        s
    }

    /// Wraps `parameters` for URL rendering.
    pub fn url_path<'a>(parameters: &'a DocumentShowParameters) -> (r: DocumentShowUrlDisplay<'a>)
        ensures
            r.0 == parameters,
    {
        DocumentShowUrlDisplay(parameters)
    }

    /// Decodes a success payload, naming this endpoint in any
    /// failure.
    pub fn decode_success(v: &JsonValue) -> (r: Result<DocumentShowSuccess, DecodeError>)
        ensures
            r matches Ok(s) ==> <DocumentShowSuccess as FromJson>::decodable(v@)
                && <DocumentShowSuccess as FromJson>::rel(v@, s),
            <DocumentShowSuccess as FromJson>::decodable(v@) ==> r is Ok,
            r matches Err(e) ==> spec_starts_with(e.path@, "DocumentShow"@),
    {
        match DocumentShowSuccess::decode(v) {
            Ok(s) => Ok(s),
            Err(e) => Err(e.in_endpoint("DocumentShow")),
        }
    }
}

/// The parameters of a [`DocumentShow`] call.
#[derive(Debug, Clone, PartialEq)]
pub struct DocumentShowParameters {
    pub id: i64,
}

impl ToJson for DocumentShowParameters {
    open spec fn enc(s: Self) -> Jv {
        Jv::Obj(
            Seq::<(Seq<char>, Jv)>::empty()
                + req_entry("id"@, s.id),
        )
    }

    fn encode(&self) -> (r: JsonValue) {
        let mut o = JsonObj::new();
        o.put("id", &self.id);
        o.finish()
    }
}

impl FromJson for DocumentShowParameters {
    open spec fn decodable(v: Jv) -> bool {
        &&& v is Obj
        &&& req_field_ok::<i64>(v, "id"@)
    }

    open spec fn rel(v: Jv, s: Self) -> bool {
        &&& v is Obj
        &&& req_field_rel::<i64>(v, "id"@, s.id)
    }

    fn decode(v: &JsonValue) -> (r: Result<Self, DecodeError>) {
        let id: i64 = match get_field(v, "id") {
            Ok(x) => x,
            Err(e) => {
                return Err(e);
            },
        };
        Ok(DocumentShowParameters { id })
    }
}

/// The success response of a [`DocumentShow`] call.
#[derive(Debug, Clone, PartialEq)]
pub struct DocumentShowSuccess {
    pub file: Ignored,
}

impl ToJson for DocumentShowSuccess {
    open spec fn enc(s: Self) -> Jv {
        Jv::Obj(
            Seq::<(Seq<char>, Jv)>::empty()
                + req_entry("file"@, s.file),
        )
    }

    fn encode(&self) -> (r: JsonValue) {
        let mut o = JsonObj::new();
        o.put("file", &self.file);
        o.finish()
    }
}

impl FromJson for DocumentShowSuccess {
    open spec fn decodable(v: Jv) -> bool {
        &&& v is Obj
        &&& req_field_ok::<Ignored>(v, "file"@)
    }

    open spec fn rel(v: Jv, s: Self) -> bool {
        &&& v is Obj
        &&& req_field_rel::<Ignored>(v, "file"@, s.file)
    }

    fn decode(v: &JsonValue) -> (r: Result<Self, DecodeError>) {
        let file: Ignored = match get_field(v, "file") {
            Ok(x) => x,
            Err(e) => {
                return Err(e);
            },
        };
        Ok(DocumentShowSuccess { file })
    }
}

} // verus!
