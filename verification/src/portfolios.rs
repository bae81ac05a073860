//! Portfolio and group endpoints.

use vstd::prelude::*;
use vstd::string::StringExecFns;
use crate::api::ApiHttpMethod;
use crate::codec::DecodeError;
use crate::codec::Ignored;
use crate::codec::FromJson;
use crate::codec::JsonObj;
use crate::codec::ToJson;
use crate::codec::get_field;
use crate::codec::get_opt_field;
use crate::codec::opt_entry;
use crate::codec::opt_field_ok;
use crate::codec::opt_field_rel;
use crate::codec::req_entry;
use crate::codec::req_field_ok;
use crate::codec::req_field_rel;
use crate::codec::spec_starts_with;
use crate::date::Date;
use crate::enums::Currency;
use crate::enums::Country;
use crate::enums::SaleAllocationMethod;
use crate::json::Decimal;
use crate::json::JsonValue;
use crate::json::Jv;
use crate::num::render_i64;
use crate::num::spec_i64_string;

verus! {

/// `POST /portfolios.json`.
pub struct PortfolioCreate;

impl PortfolioCreate {
    /// The URL template of this endpoint.
    pub fn url_template() -> (r: &'static str)
        ensures
            r@ == "/portfolios.json"@,
    {
        "/portfolios.json"
    }

    /// The HTTP method of this endpoint.
    pub fn http_method() -> (r: ApiHttpMethod)
        ensures
            r == ApiHttpMethod::Post,
    {
        ApiHttpMethod::Post
    }

    /// The URL path of this endpoint; it takes no parameters.
    pub fn url_path() -> (r: &'static str)
        ensures
            r@ == "/portfolios.json"@,
    {
        "/portfolios.json"
    }
}

/// The parameters of a [`PortfolioCreate`] call.
#[derive(Debug, Clone, PartialEq)]
pub struct PortfolioCreateParameters {
    pub name: String,
    pub broker_email_api_enabled: bool,
    pub financial_year_end_month_id: i64,
    pub financial_year_end: String,
    pub default_sale_allocation_method: SaleAllocationMethod,
    pub interest_method: String,
    pub trader: bool,
    pub tax_entity_type: String,
    pub disable_automatic_transactions: Option<bool>,
    pub cg_discount_id: i64,
    pub rwtr_rate: Decimal,
    pub country_code: Option<Country>,
    pub apply_cash_account_adjustments: Option<bool>,
    pub buy_trade_settlement_delay: Option<i64>,
    pub sell_trade_settlement_delay: Option<i64>,
    pub account_for_delayed_cash_transactions: Option<bool>,
}

impl ToJson for PortfolioCreateParameters {
    open spec fn enc(s: Self) -> Jv {
        Jv::Obj(
            Seq::<(Seq<char>, Jv)>::empty()
                + req_entry("name"@, s.name)
                + req_entry("broker_email_api_enabled"@, s.broker_email_api_enabled)
                + req_entry("financial_year_end_month_id"@, s.financial_year_end_month_id)
                + req_entry("financial_year_end"@, s.financial_year_end)
                + req_entry("default_sale_allocation_method"@, s.default_sale_allocation_method)
                + req_entry("interest_method"@, s.interest_method)
                + req_entry("trader"@, s.trader)
                + req_entry("tax_entity_type"@, s.tax_entity_type)
                + opt_entry("disable_automatic_transactions"@, s.disable_automatic_transactions)
                + req_entry("cg_discount_id"@, s.cg_discount_id)
                + req_entry("rwtr_rate"@, s.rwtr_rate)
                + opt_entry("country_code"@, s.country_code)
                + opt_entry("apply_cash_account_adjustments"@, s.apply_cash_account_adjustments)
                + opt_entry("buy_trade_settlement_delay"@, s.buy_trade_settlement_delay)
                + opt_entry("sell_trade_settlement_delay"@, s.sell_trade_settlement_delay)
                + opt_entry("account_for_delayed_cash_transactions"@, s.account_for_delayed_cash_transactions),
        )
    }

    fn encode(&self) -> (r: JsonValue) {
        let mut o = JsonObj::new();
        o.put("name", &self.name);
        o.put("broker_email_api_enabled", &self.broker_email_api_enabled);
        o.put("financial_year_end_month_id", &self.financial_year_end_month_id);
        o.put("financial_year_end", &self.financial_year_end);
        o.put("default_sale_allocation_method", &self.default_sale_allocation_method);
        o.put("interest_method", &self.interest_method);
        o.put("trader", &self.trader);
        o.put("tax_entity_type", &self.tax_entity_type);
        o.put_opt("disable_automatic_transactions", &self.disable_automatic_transactions);
        o.put("cg_discount_id", &self.cg_discount_id);
        o.put("rwtr_rate", &self.rwtr_rate);
        o.put_opt("country_code", &self.country_code);
        o.put_opt("apply_cash_account_adjustments", &self.apply_cash_account_adjustments);
        o.put_opt("buy_trade_settlement_delay", &self.buy_trade_settlement_delay);
        o.put_opt("sell_trade_settlement_delay", &self.sell_trade_settlement_delay);
        o.put_opt("account_for_delayed_cash_transactions", &self.account_for_delayed_cash_transactions);
        o.finish()
    }
}

impl FromJson for PortfolioCreateParameters {
    open spec fn decodable(v: Jv) -> bool {
        &&& v is Obj
        &&& req_field_ok::<String>(v, "name"@)
        &&& req_field_ok::<bool>(v, "broker_email_api_enabled"@)
        &&& req_field_ok::<i64>(v, "financial_year_end_month_id"@)
        &&& req_field_ok::<String>(v, "financial_year_end"@)
        &&& req_field_ok::<SaleAllocationMethod>(v, "default_sale_allocation_method"@)
        &&& req_field_ok::<String>(v, "interest_method"@)
        &&& req_field_ok::<bool>(v, "trader"@)
        &&& req_field_ok::<String>(v, "tax_entity_type"@)
        &&& opt_field_ok::<bool>(v, "disable_automatic_transactions"@)
        &&& req_field_ok::<i64>(v, "cg_discount_id"@)
        &&& req_field_ok::<Decimal>(v, "rwtr_rate"@)
        &&& opt_field_ok::<Country>(v, "country_code"@)
        &&& opt_field_ok::<bool>(v, "apply_cash_account_adjustments"@)
        &&& opt_field_ok::<i64>(v, "buy_trade_settlement_delay"@)
        &&& opt_field_ok::<i64>(v, "sell_trade_settlement_delay"@)
        &&& opt_field_ok::<bool>(v, "account_for_delayed_cash_transactions"@)
    }

    open spec fn rel(v: Jv, s: Self) -> bool {
        &&& v is Obj
        &&& req_field_rel::<String>(v, "name"@, s.name)
        &&& req_field_rel::<bool>(v, "broker_email_api_enabled"@, s.broker_email_api_enabled)
        &&& req_field_rel::<i64>(v, "financial_year_end_month_id"@, s.financial_year_end_month_id)
        &&& req_field_rel::<String>(v, "financial_year_end"@, s.financial_year_end)
        &&& req_field_rel::<SaleAllocationMethod>(v, "default_sale_allocation_method"@, s.default_sale_allocation_method)
        &&& req_field_rel::<String>(v, "interest_method"@, s.interest_method)
        &&& req_field_rel::<bool>(v, "trader"@, s.trader)
        &&& req_field_rel::<String>(v, "tax_entity_type"@, s.tax_entity_type)
        &&& opt_field_rel::<bool>(v, "disable_automatic_transactions"@, s.disable_automatic_transactions)
        &&& req_field_rel::<i64>(v, "cg_discount_id"@, s.cg_discount_id)
        &&& req_field_rel::<Decimal>(v, "rwtr_rate"@, s.rwtr_rate)
        &&& opt_field_rel::<Country>(v, "country_code"@, s.country_code)
        &&& opt_field_rel::<bool>(v, "apply_cash_account_adjustments"@, s.apply_cash_account_adjustments)
        &&& opt_field_rel::<i64>(v, "buy_trade_settlement_delay"@, s.buy_trade_settlement_delay)
        &&& opt_field_rel::<i64>(v, "sell_trade_settlement_delay"@, s.sell_trade_settlement_delay)
        &&& opt_field_rel::<bool>(v, "account_for_delayed_cash_transactions"@, s.account_for_delayed_cash_transactions)
    }

    fn decode(v: &JsonValue) -> (r: Result<Self, DecodeError>) {
        let name: String = match get_field(v, "name") {
            Ok(x) => x,
            Err(e) => {
                return Err(e);
            },
        };
        let broker_email_api_enabled: bool = match get_field(v, "broker_email_api_enabled") {
            Ok(x) => x,
            Err(e) => {
                return Err(e);
            },
        };
        let financial_year_end_month_id: i64 = match get_field(v, "financial_year_end_month_id") {
            Ok(x) => x,
            Err(e) => {
                return Err(e);
            },
        };
        let financial_year_end: String = match get_field(v, "financial_year_end") {
            Ok(x) => x,
            Err(e) => {
                return Err(e);
            },
        };
        let default_sale_allocation_method: SaleAllocationMethod = match get_field(v, "default_sale_allocation_method") {
            Ok(x) => x,
            Err(e) => {
                return Err(e);
            },
        };
        let interest_method: String = match get_field(v, "interest_method") {
            Ok(x) => x,
            Err(e) => {
                return Err(e);
            },
        };
        let trader: bool = match get_field(v, "trader") {
            Ok(x) => x,
            Err(e) => {
                return Err(e);
            },
        };
        let tax_entity_type: String = match get_field(v, "tax_entity_type") {
            Ok(x) => x,
            Err(e) => {
                return Err(e);
            },
        };
        let disable_automatic_transactions: Option<bool> = match get_opt_field(v, "disable_automatic_transactions") {
            Ok(x) => x,
            Err(e) => {
                return Err(e);
            },
        };
        let cg_discount_id: i64 = match get_field(v, "cg_discount_id") {
            Ok(x) => x,
            Err(e) => {
                return Err(e);
            },
        };
        let rwtr_rate: Decimal = match get_field(v, "rwtr_rate") {
            Ok(x) => x,
            Err(e) => {
                return Err(e);
            },
        };
        let country_code: Option<Country> = match get_opt_field(v, "country_code") {
            Ok(x) => x,
            Err(e) => {
                return Err(e);
            },
        };
        let apply_cash_account_adjustments: Option<bool> = match get_opt_field(v, "apply_cash_account_adjustments") {
            Ok(x) => x,
            Err(e) => {
                return Err(e);
            },
        };
        let buy_trade_settlement_delay: Option<i64> = match get_opt_field(v, "buy_trade_settlement_delay") {
            Ok(x) => x,
            Err(e) => {
                return Err(e);
            },
        };
        let sell_trade_settlement_delay: Option<i64> = match get_opt_field(v, "sell_trade_settlement_delay") {
            Ok(x) => x,
            Err(e) => {
                return Err(e);
            },
        };
        let account_for_delayed_cash_transactions: Option<bool> = match get_opt_field(v, "account_for_delayed_cash_transactions") {
            Ok(x) => x,
            Err(e) => {
                return Err(e);
            },
        };
        Ok(PortfolioCreateParameters { name, broker_email_api_enabled, financial_year_end_month_id, financial_year_end, default_sale_allocation_method, interest_method, trader, tax_entity_type, disable_automatic_transactions, cg_discount_id, rwtr_rate, country_code, apply_cash_account_adjustments, buy_trade_settlement_delay, sell_trade_settlement_delay, account_for_delayed_cash_transactions })
    }
}

/// `DELETE /portfolios/:id.json`.
pub struct PortfolioDelete;

/// The parameters of a [`PortfolioDelete`] call, held for URL rendering.
pub struct PortfolioDeleteUrlDisplay<'a>(pub &'a PortfolioDeleteParameters);

impl<'a> PortfolioDeleteUrlDisplay<'a> {
    /// Renders the resolved URL path.
    pub fn render(&self) -> (r: String)
        ensures
            r@ == PortfolioDelete::spec_url(*self.0),
    {
        PortfolioDelete::url(self.0)
    }
}

impl PortfolioDelete {
    /// The URL template of this endpoint.
    pub fn url_template() -> (r: &'static str)
        ensures
            r@ == "/portfolios/:id.json"@,
    {
        "/portfolios/:id.json"
    }

    /// The HTTP method of this endpoint.
    pub fn http_method() -> (r: ApiHttpMethod)
        ensures
            r == ApiHttpMethod::Delete,
    {
        ApiHttpMethod::Delete
    }

    /// The URL path that `p` resolves the template to.
    pub open spec fn spec_url(p: PortfolioDeleteParameters) -> Seq<char> {
        "/portfolios/"@ + spec_i64_string(p.id as int) + ".json"@
    }

    /// Resolves the URL template with the fields of `parameters`:
    /// plain decimal digits for integers, strings as they are.
    pub fn url(parameters: &PortfolioDeleteParameters) -> (r: String)
        ensures
            r@ == Self::spec_url(*parameters),
    {
        let mut s = "/portfolios/".to_owned();
        s.append(render_i64(parameters.id).as_str());
        s.append(".json");
        s
    }

    /// Wraps `parameters` for URL rendering.
    pub fn url_path<'a>(parameters: &'a PortfolioDeleteParameters) -> (r: PortfolioDeleteUrlDisplay<'a>)
        ensures
            r.0 == parameters,
    {
        PortfolioDeleteUrlDisplay(parameters)
    }

    /// Decodes a success payload, naming this endpoint in any
    /// failure.
    pub fn decode_success(v: &JsonValue) -> (r: Result<PortfolioDeleteSuccess, DecodeError>)
        ensures
            r matches Ok(s) ==> <PortfolioDeleteSuccess as FromJson>::decodable(v@)
                && <PortfolioDeleteSuccess as FromJson>::rel(v@, s),
            <PortfolioDeleteSuccess as FromJson>::decodable(v@) ==> r is Ok,
            r matches Err(e) ==> spec_starts_with(e.path@, "PortfolioDelete"@),
    {
        match PortfolioDeleteSuccess::decode(v) {
            Ok(s) => Ok(s),
            Err(e) => Err(e.in_endpoint("PortfolioDelete")),
        }
    }
}

/// The parameters of a [`PortfolioDelete`] call.
#[derive(Debug, Clone, PartialEq)]
pub struct PortfolioDeleteParameters {
    pub id: i64,
}

impl ToJson for PortfolioDeleteParameters {
    open spec fn enc(s: Self) -> Jv {
        Jv::Obj(
            Seq::<(Seq<char>, Jv)>::empty()
                + req_entry("id"@, s.id),
        )
    }

    fn encode(&self) -> (r: JsonValue) {
        let mut o = JsonObj::new();
        o.put("id", &self.id);
        o.finish()
    }
}

impl FromJson for PortfolioDeleteParameters {
    open spec fn decodable(v: Jv) -> bool {
        &&& v is Obj
        &&& req_field_ok::<i64>(v, "id"@)
    }

    open spec fn rel(v: Jv, s: Self) -> bool {
        &&& v is Obj
        &&& req_field_rel::<i64>(v, "id"@, s.id)
    }

    fn decode(v: &JsonValue) -> (r: Result<Self, DecodeError>) {
        let id: i64 = match get_field(v, "id") {
            Ok(x) => x,
            Err(e) => {
                return Err(e);
            },
        };
        Ok(PortfolioDeleteParameters { id })
    }
}

/// The success response of a [`PortfolioDelete`] call.
#[derive(Debug, Clone, PartialEq)]
pub struct PortfolioDeleteSuccess {
    pub status: Ignored,
}

impl ToJson for PortfolioDeleteSuccess {
    open spec fn enc(s: Self) -> Jv {
        Jv::Obj(
            Seq::<(Seq<char>, Jv)>::empty()
                + req_entry("status"@, s.status),
        )
    }

    fn encode(&self) -> (r: JsonValue) {
        let mut o = JsonObj::new();
        o.put("status", &self.status);
        o.finish()
    }
}

impl FromJson for PortfolioDeleteSuccess {
    open spec fn decodable(v: Jv) -> bool {
        &&& v is Obj
        &&& req_field_ok::<Ignored>(v, "status"@)
    }

    open spec fn rel(v: Jv, s: Self) -> bool {
        &&& v is Obj
        &&& req_field_rel::<Ignored>(v, "status"@, s.status)
    }

    fn decode(v: &JsonValue) -> (r: Result<Self, DecodeError>) {
        let status: Ignored = match get_field(v, "status") {
            Ok(x) => x,
            Err(e) => {
                return Err(e);
            },
        };
        Ok(PortfolioDeleteSuccess { status })
    }
}

/// `GET /portfolios.json`.
pub struct PortfolioList;

impl PortfolioList {
    /// The URL template of this endpoint.
    pub fn url_template() -> (r: &'static str)
        ensures
            r@ == "/portfolios.json"@,
    {
        "/portfolios.json"
    }

    /// The HTTP method of this endpoint.
    pub fn http_method() -> (r: ApiHttpMethod)
        ensures
            r == ApiHttpMethod::Get,
    {
        ApiHttpMethod::Get
    }

    /// The URL path of this endpoint; it takes no parameters.
    pub fn url_path() -> (r: &'static str)
        ensures
            r@ == "/portfolios.json"@,
    {
        "/portfolios.json"
    }

    /// Decodes a success payload, naming this endpoint in any
    /// failure.
    pub fn decode_success(v: &JsonValue) -> (r: Result<PortfolioListSuccess, DecodeError>)
        ensures
            r matches Ok(s) ==> <PortfolioListSuccess as FromJson>::decodable(v@)
                && <PortfolioListSuccess as FromJson>::rel(v@, s),
            <PortfolioListSuccess as FromJson>::decodable(v@) ==> r is Ok,
            r matches Err(e) ==> spec_starts_with(e.path@, "PortfolioList"@),
    {
        match PortfolioListSuccess::decode(v) {
            Ok(s) => Ok(s),
            Err(e) => Err(e.in_endpoint("PortfolioList")),
        }
    }
}

/// The success response of a [`PortfolioList`] call.
#[derive(Debug, Clone, PartialEq)]
pub struct PortfolioListSuccess {
    pub portfolios: Vec<PortfolioListPortfoliosSuccess>,
    pub trade_sync_cash_account_id: Option<i64>,
    pub links: PortfolioListLinksSuccess,
}

impl ToJson for PortfolioListSuccess {
    open spec fn enc(s: Self) -> Jv {
        Jv::Obj(
            Seq::<(Seq<char>, Jv)>::empty()
                + req_entry("portfolios"@, s.portfolios)
                + opt_entry("trade_sync_cash_account_id"@, s.trade_sync_cash_account_id)
                + req_entry("links"@, s.links),
        )
    }

    fn encode(&self) -> (r: JsonValue) {
        let mut o = JsonObj::new();
        o.put("portfolios", &self.portfolios);
        o.put_opt("trade_sync_cash_account_id", &self.trade_sync_cash_account_id);
        o.put("links", &self.links);
        o.finish()
    }
}

impl FromJson for PortfolioListSuccess {
    open spec fn decodable(v: Jv) -> bool {
        &&& v is Obj
        &&& req_field_ok::<Vec<PortfolioListPortfoliosSuccess>>(v, "portfolios"@)
        &&& opt_field_ok::<i64>(v, "trade_sync_cash_account_id"@)
        &&& req_field_ok::<PortfolioListLinksSuccess>(v, "links"@)
    }

    open spec fn rel(v: Jv, s: Self) -> bool {
        &&& v is Obj
        &&& req_field_rel::<Vec<PortfolioListPortfoliosSuccess>>(v, "portfolios"@, s.portfolios)
        &&& opt_field_rel::<i64>(v, "trade_sync_cash_account_id"@, s.trade_sync_cash_account_id)
        &&& req_field_rel::<PortfolioListLinksSuccess>(v, "links"@, s.links)
    }

    fn decode(v: &JsonValue) -> (r: Result<Self, DecodeError>) {
        let portfolios: Vec<PortfolioListPortfoliosSuccess> = match get_field(v, "portfolios") {
            Ok(x) => x,
            Err(e) => {
                return Err(e);
            },
        };
        let trade_sync_cash_account_id: Option<i64> = match get_opt_field(v, "trade_sync_cash_account_id") {
            Ok(x) => x,
            Err(e) => {
                return Err(e);
            },
        };
        let links: PortfolioListLinksSuccess = match get_field(v, "links") {
            Ok(x) => x,
            Err(e) => {
                return Err(e);
            },
        };
        Ok(PortfolioListSuccess { portfolios, trade_sync_cash_account_id, links })
    }
}

/// A nested response shape of [`PortfolioList`].
#[derive(Debug, Clone, PartialEq)]
pub struct PortfolioListPortfoliosSuccess {
    pub id: i64,
    pub name: String,
    pub default_sale_allocation_method: SaleAllocationMethod,
    pub cg_discount: String,
    pub rwtr_rate: Decimal,
    pub trader: Option<bool>,
    pub disable_automatic_transactions: bool,
    pub broker_email_api_enabled: bool,
    pub broker_email_key: String,
    pub financial_year_end_month_id: i64,
    pub financial_year_end: String,
    pub interest_method: String,
    pub country_code: Country,
    pub currency_code: Currency,
    pub inception_date: Date,
    pub tz_name: String,
    pub apply_cash_account_adjustments: bool,
    pub buy_trade_settlement_delay: Option<i64>,
    pub sell_trade_settlement_delay: Option<i64>,
    pub account_for_delayed_cash_transactions: bool,
    pub links: PortfolioListPortfoliosLinksSuccess,
}

impl ToJson for PortfolioListPortfoliosSuccess {
    open spec fn enc(s: Self) -> Jv {
        Jv::Obj(
            Seq::<(Seq<char>, Jv)>::empty()
                + req_entry("id"@, s.id)
                + req_entry("name"@, s.name)
                + req_entry("default_sale_allocation_method"@, s.default_sale_allocation_method)
                + req_entry("cg_discount"@, s.cg_discount)
                + req_entry("rwtr_rate"@, s.rwtr_rate)
                + opt_entry("trader"@, s.trader)
                + req_entry("disable_automatic_transactions"@, s.disable_automatic_transactions)
                + req_entry("broker_email_api_enabled"@, s.broker_email_api_enabled)
                + req_entry("broker_email_key"@, s.broker_email_key)
                + req_entry("financial_year_end_month_id"@, s.financial_year_end_month_id)
                + req_entry("financial_year_end"@, s.financial_year_end)
                + req_entry("interest_method"@, s.interest_method)
                + req_entry("country_code"@, s.country_code)
                + req_entry("currency_code"@, s.currency_code)
                + req_entry("inception_date"@, s.inception_date)
                + req_entry("tz_name"@, s.tz_name)
                + req_entry("apply_cash_account_adjustments"@, s.apply_cash_account_adjustments)
                + opt_entry("buy_trade_settlement_delay"@, s.buy_trade_settlement_delay)
                + opt_entry("sell_trade_settlement_delay"@, s.sell_trade_settlement_delay)
                + req_entry("account_for_delayed_cash_transactions"@, s.account_for_delayed_cash_transactions)
                + req_entry("links"@, s.links),
        )
    }

    fn encode(&self) -> (r: JsonValue) {
        let mut o = JsonObj::new();
        o.put("id", &self.id);
        o.put("name", &self.name);
        o.put("default_sale_allocation_method", &self.default_sale_allocation_method);
        o.put("cg_discount", &self.cg_discount);
        o.put("rwtr_rate", &self.rwtr_rate);
        o.put_opt("trader", &self.trader);
        o.put("disable_automatic_transactions", &self.disable_automatic_transactions);
        o.put("broker_email_api_enabled", &self.broker_email_api_enabled);
        o.put("broker_email_key", &self.broker_email_key);
        o.put("financial_year_end_month_id", &self.financial_year_end_month_id);
        o.put("financial_year_end", &self.financial_year_end);
        o.put("interest_method", &self.interest_method);
        o.put("country_code", &self.country_code);
        o.put("currency_code", &self.currency_code);
        o.put("inception_date", &self.inception_date);
        o.put("tz_name", &self.tz_name);
        o.put("apply_cash_account_adjustments", &self.apply_cash_account_adjustments);
        o.put_opt("buy_trade_settlement_delay", &self.buy_trade_settlement_delay);
        o.put_opt("sell_trade_settlement_delay", &self.sell_trade_settlement_delay);
        o.put("account_for_delayed_cash_transactions", &self.account_for_delayed_cash_transactions);
        o.put("links", &self.links);
        o.finish()
    }
}

impl FromJson for PortfolioListPortfoliosSuccess {
    open spec fn decodable(v: Jv) -> bool {
        &&& v is Obj
        &&& req_field_ok::<i64>(v, "id"@)
        &&& req_field_ok::<String>(v, "name"@)
        &&& req_field_ok::<SaleAllocationMethod>(v, "default_sale_allocation_method"@)
        &&& req_field_ok::<String>(v, "cg_discount"@)
        &&& req_field_ok::<Decimal>(v, "rwtr_rate"@)
        &&& opt_field_ok::<bool>(v, "trader"@)
        &&& req_field_ok::<bool>(v, "disable_automatic_transactions"@)
        &&& req_field_ok::<bool>(v, "broker_email_api_enabled"@)
        &&& req_field_ok::<String>(v, "broker_email_key"@)
        &&& req_field_ok::<i64>(v, "financial_year_end_month_id"@)
        &&& req_field_ok::<String>(v, "financial_year_end"@)
        &&& req_field_ok::<String>(v, "interest_method"@)
        &&& req_field_ok::<Country>(v, "country_code"@)
        &&& req_field_ok::<Currency>(v, "currency_code"@)
        &&& req_field_ok::<Date>(v, "inception_date"@)
        &&& req_field_ok::<String>(v, "tz_name"@)
        &&& req_field_ok::<bool>(v, "apply_cash_account_adjustments"@)
        &&& opt_field_ok::<i64>(v, "buy_trade_settlement_delay"@)
        &&& opt_field_ok::<i64>(v, "sell_trade_settlement_delay"@)
        &&& req_field_ok::<bool>(v, "account_for_delayed_cash_transactions"@)
        &&& req_field_ok::<PortfolioListPortfoliosLinksSuccess>(v, "links"@)
    }

    open spec fn rel(v: Jv, s: Self) -> bool {
        &&& v is Obj
        &&& req_field_rel::<i64>(v, "id"@, s.id)
        &&& req_field_rel::<String>(v, "name"@, s.name)
        &&& req_field_rel::<SaleAllocationMethod>(v, "default_sale_allocation_method"@, s.default_sale_allocation_method)
        &&& req_field_rel::<String>(v, "cg_discount"@, s.cg_discount)
        &&& req_field_rel::<Decimal>(v, "rwtr_rate"@, s.rwtr_rate)
        &&& opt_field_rel::<bool>(v, "trader"@, s.trader)
        &&& req_field_rel::<bool>(v, "disable_automatic_transactions"@, s.disable_automatic_transactions)
        &&& req_field_rel::<bool>(v, "broker_email_api_enabled"@, s.broker_email_api_enabled)
        &&& req_field_rel::<String>(v, "broker_email_key"@, s.broker_email_key)
        &&& req_field_rel::<i64>(v, "financial_year_end_month_id"@, s.financial_year_end_month_id)
        &&& req_field_rel::<String>(v, "financial_year_end"@, s.financial_year_end)
        &&& req_field_rel::<String>(v, "interest_method"@, s.interest_method)
        &&& req_field_rel::<Country>(v, "country_code"@, s.country_code)
        &&& req_field_rel::<Currency>(v, "currency_code"@, s.currency_code)
        &&& req_field_rel::<Date>(v, "inception_date"@, s.inception_date)
        &&& req_field_rel::<String>(v, "tz_name"@, s.tz_name)
        &&& req_field_rel::<bool>(v, "apply_cash_account_adjustments"@, s.apply_cash_account_adjustments)
        &&& opt_field_rel::<i64>(v, "buy_trade_settlement_delay"@, s.buy_trade_settlement_delay)
        &&& opt_field_rel::<i64>(v, "sell_trade_settlement_delay"@, s.sell_trade_settlement_delay)
        &&& req_field_rel::<bool>(v, "account_for_delayed_cash_transactions"@, s.account_for_delayed_cash_transactions)
        &&& req_field_rel::<PortfolioListPortfoliosLinksSuccess>(v, "links"@, s.links)
    }

    fn decode(v: &JsonValue) -> (r: Result<Self, DecodeError>) {
        let id: i64 = match get_field(v, "id") {
            Ok(x) => x,
            Err(e) => {
                return Err(e);
            },
        };
        let name: String = match get_field(v, "name") {
            Ok(x) => x,
            Err(e) => {
                return Err(e);
            },
        };
        let default_sale_allocation_method: SaleAllocationMethod = match get_field(v, "default_sale_allocation_method") {
            Ok(x) => x,
            Err(e) => {
                return Err(e);
            },
        };
        let cg_discount: String = match get_field(v, "cg_discount") {
            Ok(x) => x,
            Err(e) => {
                return Err(e);
            },
        };
        let rwtr_rate: Decimal = match get_field(v, "rwtr_rate") {
            Ok(x) => x,
            Err(e) => {
                return Err(e);
            },
        };
        let trader: Option<bool> = match get_opt_field(v, "trader") {
            Ok(x) => x,
            Err(e) => {
                return Err(e);
            },
        };
        let disable_automatic_transactions: bool = match get_field(v, "disable_automatic_transactions") {
            Ok(x) => x,
            Err(e) => {
                return Err(e);
            },
        };
        let broker_email_api_enabled: bool = match get_field(v, "broker_email_api_enabled") {
            Ok(x) => x,
            Err(e) => {
                return Err(e);
            },
        };
        let broker_email_key: String = match get_field(v, "broker_email_key") {
            Ok(x) => x,
            Err(e) => {
                return Err(e);
            },
        };
        let financial_year_end_month_id: i64 = match get_field(v, "financial_year_end_month_id") {
            Ok(x) => x,
            Err(e) => {
                return Err(e);
            },
        };
        let financial_year_end: String = match get_field(v, "financial_year_end") {
            Ok(x) => x,
            Err(e) => {
                return Err(e);
            },
        };
        let interest_method: String = match get_field(v, "interest_method") {
            Ok(x) => x,
            Err(e) => {
                return Err(e);
            },
        };
        let country_code: Country = match get_field(v, "country_code") {
            Ok(x) => x,
            Err(e) => {
                return Err(e);
            },
        };
        let currency_code: Currency = match get_field(v, "currency_code") {
            Ok(x) => x,
            Err(e) => {
                return Err(e);
            },
        };
        let inception_date: Date = match get_field(v, "inception_date") {
            Ok(x) => x,
            Err(e) => {
                return Err(e);
            },
        };
        let tz_name: String = match get_field(v, "tz_name") {
            Ok(x) => x,
            Err(e) => {
                return Err(e);
            },
        };
        let apply_cash_account_adjustments: bool = match get_field(v, "apply_cash_account_adjustments") {
            Ok(x) => x,
            Err(e) => {
                return Err(e);
            },
        };
        let buy_trade_settlement_delay: Option<i64> = match get_opt_field(v, "buy_trade_settlement_delay") {
            Ok(x) => x,
            Err(e) => {
                return Err(e);
            },
        };
        let sell_trade_settlement_delay: Option<i64> = match get_opt_field(v, "sell_trade_settlement_delay") {
            Ok(x) => x,
            Err(e) => {
                return Err(e);
            },
        };
        let account_for_delayed_cash_transactions: bool = match get_field(v, "account_for_delayed_cash_transactions") {
            Ok(x) => x,
            Err(e) => {
                return Err(e);
            },
        };
        let links: PortfolioListPortfoliosLinksSuccess = match get_field(v, "links") {
            Ok(x) => x,
            Err(e) => {
                return Err(e);
            },
        };
        Ok(PortfolioListPortfoliosSuccess { id, name, default_sale_allocation_method, cg_discount, rwtr_rate, trader, disable_automatic_transactions, broker_email_api_enabled, broker_email_key, financial_year_end_month_id, financial_year_end, interest_method, country_code, currency_code, inception_date, tz_name, apply_cash_account_adjustments, buy_trade_settlement_delay, sell_trade_settlement_delay, account_for_delayed_cash_transactions, links })
    }
}

/// A nested response shape of [`PortfolioList`].
#[derive(Debug, Clone, PartialEq)]
pub struct PortfolioListPortfoliosLinksSuccess {
    pub portfolio: String,
}

impl ToJson for PortfolioListPortfoliosLinksSuccess {
    open spec fn enc(s: Self) -> Jv {
        Jv::Obj(
            Seq::<(Seq<char>, Jv)>::empty()
                + req_entry("portfolio"@, s.portfolio),
        )
    }

    fn encode(&self) -> (r: JsonValue) {
        let mut o = JsonObj::new();
        o.put("portfolio", &self.portfolio);
        o.finish()
    }
}

impl FromJson for PortfolioListPortfoliosLinksSuccess {
    open spec fn decodable(v: Jv) -> bool {
        &&& v is Obj
        &&& req_field_ok::<String>(v, "portfolio"@)
    }

    open spec fn rel(v: Jv, s: Self) -> bool {
        &&& v is Obj
        &&& req_field_rel::<String>(v, "portfolio"@, s.portfolio)
    }

    fn decode(v: &JsonValue) -> (r: Result<Self, DecodeError>) {
        let portfolio: String = match get_field(v, "portfolio") {
            Ok(x) => x,
            Err(e) => {
                return Err(e);
            },
        };
        Ok(PortfolioListPortfoliosLinksSuccess { portfolio })
    }
}

/// A nested response shape of [`PortfolioList`].
#[derive(Debug, Clone, PartialEq)]
pub struct PortfolioListLinksSuccess {
    pub itself: String,
}

impl ToJson for PortfolioListLinksSuccess {
    open spec fn enc(s: Self) -> Jv {
        Jv::Obj(
            Seq::<(Seq<char>, Jv)>::empty()
                + req_entry("self"@, s.itself),
        )
    }

    fn encode(&self) -> (r: JsonValue) {
        let mut o = JsonObj::new();
        o.put("self", &self.itself);
        o.finish()
    }
}

impl FromJson for PortfolioListLinksSuccess {
    open spec fn decodable(v: Jv) -> bool {
        &&& v is Obj
        &&& req_field_ok::<String>(v, "self"@)
    }

    open spec fn rel(v: Jv, s: Self) -> bool {
        &&& v is Obj
        &&& req_field_rel::<String>(v, "self"@, s.itself)
    }

    fn decode(v: &JsonValue) -> (r: Result<Self, DecodeError>) {
        let itself: String = match get_field(v, "self") {
            Ok(x) => x,
            Err(e) => {
                return Err(e);
            },
        };
        Ok(PortfolioListLinksSuccess { itself })
    }
}

/// `GET /portfolios/:id.json`.
pub struct PortfolioShow;

/// The parameters of a [`PortfolioShow`] call, held for URL rendering.
pub struct PortfolioShowUrlDisplay<'a>(pub &'a PortfolioShowParameters);

impl<'a> PortfolioShowUrlDisplay<'a> {
    /// Renders the resolved URL path.
    pub fn render(&self) -> (r: String)
        ensures
            r@ == PortfolioShow::spec_url(*self.0),
    {
        PortfolioShow::url(self.0)
    }
}

impl PortfolioShow {
    /// The URL template of this endpoint.
    pub fn url_template() -> (r: &'static str)
        ensures
            r@ == "/portfolios/:id.json"@,
    {
        "/portfolios/:id.json"
    }

    /// The HTTP method of this endpoint.
    pub fn http_method() -> (r: ApiHttpMethod)
        ensures
            r == ApiHttpMethod::Get,
    {
        ApiHttpMethod::Get
    }

    /// The URL path that `p` resolves the template to.
    pub open spec fn spec_url(p: PortfolioShowParameters) -> Seq<char> {
        "/portfolios/"@ + spec_i64_string(p.id as int) + ".json"@
    }

    /// Resolves the URL template with the fields of `parameters`:
    /// plain decimal digits for integers, strings as they are.
    pub fn url(parameters: &PortfolioShowParameters) -> (r: String)
        ensures
            r@ == Self::spec_url(*parameters),
    {
        let mut s = "/portfolios/".to_owned();
        s.append(render_i64(parameters.id).as_str());
        s.append(".json");
        s
    }

    /// Wraps `parameters` for URL rendering.
    pub fn url_path<'a>(parameters: &'a PortfolioShowParameters) -> (r: PortfolioShowUrlDisplay<'a>)
        ensures
            r.0 == parameters,
    {
        PortfolioShowUrlDisplay(parameters)
    }

    /// Decodes a success payload, naming this endpoint in any
    /// failure.
    pub fn decode_success(v: &JsonValue) -> (r: Result<PortfolioShowSuccess, DecodeError>)
        ensures
            r matches Ok(s) ==> <PortfolioShowSuccess as FromJson>::decodable(v@)
                && <PortfolioShowSuccess as FromJson>::rel(v@, s),
            <PortfolioShowSuccess as FromJson>::decodable(v@) ==> r is Ok,
            r matches Err(e) ==> spec_starts_with(e.path@, "PortfolioShow"@),
    {
        match PortfolioShowSuccess::decode(v) {
            Ok(s) => Ok(s),
            Err(e) => Err(e.in_endpoint("PortfolioShow")),
        }
    }
}

/// The parameters of a [`PortfolioShow`] call.
#[derive(Debug, Clone, PartialEq)]
pub struct PortfolioShowParameters {
    pub id: i64,
}

impl ToJson for PortfolioShowParameters {
    open spec fn enc(s: Self) -> Jv {
        Jv::Obj(
            Seq::<(Seq<char>, Jv)>::empty()
                + req_entry("id"@, s.id),
        )
    }

    fn encode(&self) -> (r: JsonValue) {
        let mut o = JsonObj::new();
        o.put("id", &self.id);
        o.finish()
    }
}

impl FromJson for PortfolioShowParameters {
    open spec fn decodable(v: Jv) -> bool {
        &&& v is Obj
        &&& req_field_ok::<i64>(v, "id"@)
    }

    open spec fn rel(v: Jv, s: Self) -> bool {
        &&& v is Obj
        &&& req_field_rel::<i64>(v, "id"@, s.id)
    }

    fn decode(v: &JsonValue) -> (r: Result<Self, DecodeError>) {
        let id: i64 = match get_field(v, "id") {
            Ok(x) => x,
            Err(e) => {
                return Err(e);
            },
        };
        Ok(PortfolioShowParameters { id })
    }
}

/// The success response of a [`PortfolioShow`] call.
#[derive(Debug, Clone, PartialEq)]
pub struct PortfolioShowSuccess {
    pub id: i64,
    pub name: String,
    pub default_sale_allocation_method: SaleAllocationMethod,
    pub cg_discount: String,
    pub rwtr_rate: Decimal,
    pub trader: bool,
    pub disable_automatic_transactions: bool,
    pub tax_entity_type: String,
    pub broker_email_api_enabled: bool,
    pub broker_email_key: String,
    pub financial_year_end_month_id: i64,
    pub financial_year_end: String,
    pub interest_method: String,
    pub country_code: Country,
    pub currency_code: Currency,
    pub inception_date: Date,
    pub tz_name: String,
    pub apply_cash_account_adjustments: bool,
    pub buy_trade_settlement_delay: i64,
    pub sell_trade_settlement_delay: i64,
    pub account_for_delayed_cash_transactions: bool,
    pub trade_sync_cash_account_id: i64,
    pub links: PortfolioShowLinksSuccess,
}

impl ToJson for PortfolioShowSuccess {
    open spec fn enc(s: Self) -> Jv {
        Jv::Obj(
            Seq::<(Seq<char>, Jv)>::empty()
                + req_entry("id"@, s.id)
                + req_entry("name"@, s.name)
                + req_entry("default_sale_allocation_method"@, s.default_sale_allocation_method)
                + req_entry("cg_discount"@, s.cg_discount)
                + req_entry("rwtr_rate"@, s.rwtr_rate)
                + req_entry("trader"@, s.trader)
                + req_entry("disable_automatic_transactions"@, s.disable_automatic_transactions)
                + req_entry("tax_entity_type"@, s.tax_entity_type)
                + req_entry("broker_email_api_enabled"@, s.broker_email_api_enabled)
                + req_entry("broker_email_key"@, s.broker_email_key)
                + req_entry("financial_year_end_month_id"@, s.financial_year_end_month_id)
                + req_entry("financial_year_end"@, s.financial_year_end)
                + req_entry("interest_method"@, s.interest_method)
                + req_entry("country_code"@, s.country_code)
                + req_entry("currency_code"@, s.currency_code)
                + req_entry("inception_date"@, s.inception_date)
                + req_entry("tz_name"@, s.tz_name)
                + req_entry("apply_cash_account_adjustments"@, s.apply_cash_account_adjustments)
                + req_entry("buy_trade_settlement_delay"@, s.buy_trade_settlement_delay)
                + req_entry("sell_trade_settlement_delay"@, s.sell_trade_settlement_delay)
                + req_entry("account_for_delayed_cash_transactions"@, s.account_for_delayed_cash_transactions)
                + req_entry("trade_sync_cash_account_id"@, s.trade_sync_cash_account_id)
                + req_entry("links"@, s.links),
        )
    }

    fn encode(&self) -> (r: JsonValue) {
        let mut o = JsonObj::new();
        o.put("id", &self.id);
        o.put("name", &self.name);
        o.put("default_sale_allocation_method", &self.default_sale_allocation_method);
        o.put("cg_discount", &self.cg_discount);
        o.put("rwtr_rate", &self.rwtr_rate);
        o.put("trader", &self.trader);
        o.put("disable_automatic_transactions", &self.disable_automatic_transactions);
        o.put("tax_entity_type", &self.tax_entity_type);
        o.put("broker_email_api_enabled", &self.broker_email_api_enabled);
        o.put("broker_email_key", &self.broker_email_key);
        o.put("financial_year_end_month_id", &self.financial_year_end_month_id);
        o.put("financial_year_end", &self.financial_year_end);
        o.put("interest_method", &self.interest_method);
        o.put("country_code", &self.country_code);
        o.put("currency_code", &self.currency_code);
        o.put("inception_date", &self.inception_date);
        o.put("tz_name", &self.tz_name);
        o.put("apply_cash_account_adjustments", &self.apply_cash_account_adjustments);
        o.put("buy_trade_settlement_delay", &self.buy_trade_settlement_delay);
        o.put("sell_trade_settlement_delay", &self.sell_trade_settlement_delay);
        o.put("account_for_delayed_cash_transactions", &self.account_for_delayed_cash_transactions);
        o.put("trade_sync_cash_account_id", &self.trade_sync_cash_account_id);
        o.put("links", &self.links);
        o.finish()
    }
}

impl FromJson for PortfolioShowSuccess {
    open spec fn decodable(v: Jv) -> bool {
        &&& v is Obj
        &&& req_field_ok::<i64>(v, "id"@)
        &&& req_field_ok::<String>(v, "name"@)
        &&& req_field_ok::<SaleAllocationMethod>(v, "default_sale_allocation_method"@)
        &&& req_field_ok::<String>(v, "cg_discount"@)
        &&& req_field_ok::<Decimal>(v, "rwtr_rate"@)
        &&& req_field_ok::<bool>(v, "trader"@)
        &&& req_field_ok::<bool>(v, "disable_automatic_transactions"@)
        &&& req_field_ok::<String>(v, "tax_entity_type"@)
        &&& req_field_ok::<bool>(v, "broker_email_api_enabled"@)
        &&& req_field_ok::<String>(v, "broker_email_key"@)
        &&& req_field_ok::<i64>(v, "financial_year_end_month_id"@)
        &&& req_field_ok::<String>(v, "financial_year_end"@)
        &&& req_field_ok::<String>(v, "interest_method"@)
        &&& req_field_ok::<Country>(v, "country_code"@)
        &&& req_field_ok::<Currency>(v, "currency_code"@)
        &&& req_field_ok::<Date>(v, "inception_date"@)
        &&& req_field_ok::<String>(v, "tz_name"@)
        &&& req_field_ok::<bool>(v, "apply_cash_account_adjustments"@)
        &&& req_field_ok::<i64>(v, "buy_trade_settlement_delay"@)
        &&& req_field_ok::<i64>(v, "sell_trade_settlement_delay"@)
        &&& req_field_ok::<bool>(v, "account_for_delayed_cash_transactions"@)
        &&& req_field_ok::<i64>(v, "trade_sync_cash_account_id"@)
        &&& req_field_ok::<PortfolioShowLinksSuccess>(v, "links"@)
    }

    open spec fn rel(v: Jv, s: Self) -> bool {
        &&& v is Obj
        &&& req_field_rel::<i64>(v, "id"@, s.id)
        &&& req_field_rel::<String>(v, "name"@, s.name)
        &&& req_field_rel::<SaleAllocationMethod>(v, "default_sale_allocation_method"@, s.default_sale_allocation_method)
        &&& req_field_rel::<String>(v, "cg_discount"@, s.cg_discount)
        &&& req_field_rel::<Decimal>(v, "rwtr_rate"@, s.rwtr_rate)
        &&& req_field_rel::<bool>(v, "trader"@, s.trader)
        &&& req_field_rel::<bool>(v, "disable_automatic_transactions"@, s.disable_automatic_transactions)
        &&& req_field_rel::<String>(v, "tax_entity_type"@, s.tax_entity_type)
        &&& req_field_rel::<bool>(v, "broker_email_api_enabled"@, s.broker_email_api_enabled)
        &&& req_field_rel::<String>(v, "broker_email_key"@, s.broker_email_key)
        &&& req_field_rel::<i64>(v, "financial_year_end_month_id"@, s.financial_year_end_month_id)
        &&& req_field_rel::<String>(v, "financial_year_end"@, s.financial_year_end)
        &&& req_field_rel::<String>(v, "interest_method"@, s.interest_method)
        &&& req_field_rel::<Country>(v, "country_code"@, s.country_code)
        &&& req_field_rel::<Currency>(v, "currency_code"@, s.currency_code)
        &&& req_field_rel::<Date>(v, "inception_date"@, s.inception_date)
        &&& req_field_rel::<String>(v, "tz_name"@, s.tz_name)
        &&& req_field_rel::<bool>(v, "apply_cash_account_adjustments"@, s.apply_cash_account_adjustments)
        &&& req_field_rel::<i64>(v, "buy_trade_settlement_delay"@, s.buy_trade_settlement_delay)
        &&& req_field_rel::<i64>(v, "sell_trade_settlement_delay"@, s.sell_trade_settlement_delay)
        &&& req_field_rel::<bool>(v, "account_for_delayed_cash_transactions"@, s.account_for_delayed_cash_transactions)
        &&& req_field_rel::<i64>(v, "trade_sync_cash_account_id"@, s.trade_sync_cash_account_id)
        &&& req_field_rel::<PortfolioShowLinksSuccess>(v, "links"@, s.links)
    }

    fn decode(v: &JsonValue) -> (r: Result<Self, DecodeError>) {
        let id: i64 = match get_field(v, "id") {
            Ok(x) => x,
            Err(e) => {
                return Err(e);
            },
        };
        let name: String = match get_field(v, "name") {
            Ok(x) => x,
            Err(e) => {
                return Err(e);
            },
        };
        let default_sale_allocation_method: SaleAllocationMethod = match get_field(v, "default_sale_allocation_method") {
            Ok(x) => x,
            Err(e) => {
                return Err(e);
            },
        };
        let cg_discount: String = match get_field(v, "cg_discount") {
            Ok(x) => x,
            Err(e) => {
                return Err(e);
            },
        };
        let rwtr_rate: Decimal = match get_field(v, "rwtr_rate") {
            Ok(x) => x,
            Err(e) => {
                return Err(e);
            },
        };
        let trader: bool = match get_field(v, "trader") {
            Ok(x) => x,
            Err(e) => {
                return Err(e);
            },
        };
        let disable_automatic_transactions: bool = match get_field(v, "disable_automatic_transactions") {
            Ok(x) => x,
            Err(e) => {
                return Err(e);
            },
        };
        let tax_entity_type: String = match get_field(v, "tax_entity_type") {
            Ok(x) => x,
            Err(e) => {
                return Err(e);
            },
        };
        let broker_email_api_enabled: bool = match get_field(v, "broker_email_api_enabled") {
            Ok(x) => x,
            Err(e) => {
                return Err(e);
            },
        };
        let broker_email_key: String = match get_field(v, "broker_email_key") {
            Ok(x) => x,
            Err(e) => {
                return Err(e);
            },
        };
        let financial_year_end_month_id: i64 = match get_field(v, "financial_year_end_month_id") {
            Ok(x) => x,
            Err(e) => {
                return Err(e);
            },
        };
        let financial_year_end: String = match get_field(v, "financial_year_end") {
            Ok(x) => x,
            Err(e) => {
                return Err(e);
            },
        };
        let interest_method: String = match get_field(v, "interest_method") {
            Ok(x) => x,
            Err(e) => {
                return Err(e);
            },
        };
        let country_code: Country = match get_field(v, "country_code") {
            Ok(x) => x,
            Err(e) => {
                return Err(e);
            },
        };
        let currency_code: Currency = match get_field(v, "currency_code") {
            Ok(x) => x,
            Err(e) => {
                return Err(e);
            },
        };
        let inception_date: Date = match get_field(v, "inception_date") {
            Ok(x) => x,
            Err(e) => {
                return Err(e);
            },
        };
        let tz_name: String = match get_field(v, "tz_name") {
            Ok(x) => x,
            Err(e) => {
                return Err(e);
            },
        };
        let apply_cash_account_adjustments: bool = match get_field(v, "apply_cash_account_adjustments") {
            Ok(x) => x,
            Err(e) => {
                return Err(e);
            },
        };
        let buy_trade_settlement_delay: i64 = match get_field(v, "buy_trade_settlement_delay") {
            Ok(x) => x,
            Err(e) => {
                return Err(e);
            },
        };
        let sell_trade_settlement_delay: i64 = match get_field(v, "sell_trade_settlement_delay") {
            Ok(x) => x,
            Err(e) => {
                return Err(e);
            },
        };
        let account_for_delayed_cash_transactions: bool = match get_field(v, "account_for_delayed_cash_transactions") {
            Ok(x) => x,
            Err(e) => {
                return Err(e);
            },
        };
        let trade_sync_cash_account_id: i64 = match get_field(v, "trade_sync_cash_account_id") {
            Ok(x) => x,
            Err(e) => {
                return Err(e);
            },
        };
        let links: PortfolioShowLinksSuccess = match get_field(v, "links") {
            Ok(x) => x,
            Err(e) => {
                return Err(e);
            },
        };
        Ok(PortfolioShowSuccess { id, name, default_sale_allocation_method, cg_discount, rwtr_rate, trader, disable_automatic_transactions, tax_entity_type, broker_email_api_enabled, broker_email_key, financial_year_end_month_id, financial_year_end, interest_method, country_code, currency_code, inception_date, tz_name, apply_cash_account_adjustments, buy_trade_settlement_delay, sell_trade_settlement_delay, account_for_delayed_cash_transactions, trade_sync_cash_account_id, links })
    }
}

/// A nested response shape of [`PortfolioShow`].
#[derive(Debug, Clone, PartialEq)]
pub struct PortfolioShowLinksSuccess {
    pub itself: String,
    pub portfolio: String,
}

impl ToJson for PortfolioShowLinksSuccess {
    open spec fn enc(s: Self) -> Jv {
        Jv::Obj(
            Seq::<(Seq<char>, Jv)>::empty()
                + req_entry("self"@, s.itself)
                + req_entry("portfolio"@, s.portfolio),
        )
    }

    fn encode(&self) -> (r: JsonValue) {
        let mut o = JsonObj::new();
        o.put("self", &self.itself);
        o.put("portfolio", &self.portfolio);
        o.finish()
    }
}

impl FromJson for PortfolioShowLinksSuccess {
    open spec fn decodable(v: Jv) -> bool {
        &&& v is Obj
        &&& req_field_ok::<String>(v, "self"@)
        &&& req_field_ok::<String>(v, "portfolio"@)
    }

    open spec fn rel(v: Jv, s: Self) -> bool {
        &&& v is Obj
        &&& req_field_rel::<String>(v, "self"@, s.itself)
        &&& req_field_rel::<String>(v, "portfolio"@, s.portfolio)
    }

    fn decode(v: &JsonValue) -> (r: Result<Self, DecodeError>) {
        let itself: String = match get_field(v, "self") {
            Ok(x) => x,
            Err(e) => {
                return Err(e);
            },
        };
        let portfolio: String = match get_field(v, "portfolio") {
            Ok(x) => x,
            Err(e) => {
                return Err(e);
            },
        };
        Ok(PortfolioShowLinksSuccess { itself, portfolio })
    }
}

/// `PUT /portfolios/:id.json`.
pub struct PortfolioUpdate;

/// The parameters of a [`PortfolioUpdate`] call, held for URL rendering.
pub struct PortfolioUpdateUrlDisplay<'a>(pub &'a PortfolioUpdateParameters);

impl<'a> PortfolioUpdateUrlDisplay<'a> {
    /// Renders the resolved URL path.
    pub fn render(&self) -> (r: String)
        ensures
            r@ == PortfolioUpdate::spec_url(*self.0),
    {
        PortfolioUpdate::url(self.0)
    }
}

impl PortfolioUpdate {
    /// The URL template of this endpoint.
    pub fn url_template() -> (r: &'static str)
        ensures
            r@ == "/portfolios/:id.json"@,
    {
        "/portfolios/:id.json"
    }

    /// The HTTP method of this endpoint.
    pub fn http_method() -> (r: ApiHttpMethod)
        ensures
            r == ApiHttpMethod::Put,
    {
        ApiHttpMethod::Put
    }

    /// The URL path that `p` resolves the template to.
    pub open spec fn spec_url(p: PortfolioUpdateParameters) -> Seq<char> {
        "/portfolios/"@ + spec_i64_string(p.id as int) + ".json"@
    }

    /// Resolves the URL template with the fields of `parameters`:
    /// plain decimal digits for integers, strings as they are.
    pub fn url(parameters: &PortfolioUpdateParameters) -> (r: String)
        ensures
            r@ == Self::spec_url(*parameters),
    {
        let mut s = "/portfolios/".to_owned();
        s.append(render_i64(parameters.id).as_str());
        s.append(".json");
        s
    }

    /// Wraps `parameters` for URL rendering.
    pub fn url_path<'a>(parameters: &'a PortfolioUpdateParameters) -> (r: PortfolioUpdateUrlDisplay<'a>)
        ensures
            r.0 == parameters,
    {
        PortfolioUpdateUrlDisplay(parameters)
    }

    /// Decodes a success payload, naming this endpoint in any
    /// failure.
    pub fn decode_success(v: &JsonValue) -> (r: Result<PortfolioUpdateSuccess, DecodeError>)
        ensures
            r matches Ok(s) ==> <PortfolioUpdateSuccess as FromJson>::decodable(v@)
                && <PortfolioUpdateSuccess as FromJson>::rel(v@, s),
            <PortfolioUpdateSuccess as FromJson>::decodable(v@) ==> r is Ok,
            r matches Err(e) ==> spec_starts_with(e.path@, "PortfolioUpdate"@),
    {
        match PortfolioUpdateSuccess::decode(v) {
            Ok(s) => Ok(s),
            Err(e) => Err(e.in_endpoint("PortfolioUpdate")),
        }
    }
}

/// The parameters of a [`PortfolioUpdate`] call.
#[derive(Debug, Clone, PartialEq)]
pub struct PortfolioUpdateParameters {
    pub id: i64,
    pub name: String,
    pub broker_email_api_enabled: bool,
    pub financial_year_end_month_id: i64,
    pub financial_year_end: String,
    pub default_sale_allocation_method: SaleAllocationMethod,
    pub interest_method: String,
    pub trader: bool,
    pub tax_entity_type: String,
    pub cg_discount_id: i64,
    pub rwtr_rate: Decimal,
    pub apply_cash_account_adjustments: Option<bool>,
    pub buy_trade_settlement_delay: Option<i64>,
    pub sell_trade_settlement_delay: Option<i64>,
    pub account_for_delayed_cash_transactions: Option<bool>,
    pub trade_sync_cash_account_id: i64,
}

impl ToJson for PortfolioUpdateParameters {
    open spec fn enc(s: Self) -> Jv {
        Jv::Obj(
            Seq::<(Seq<char>, Jv)>::empty()
                + req_entry("id"@, s.id)
                + req_entry("name"@, s.name)
                + req_entry("broker_email_api_enabled"@, s.broker_email_api_enabled)
                + req_entry("financial_year_end_month_id"@, s.financial_year_end_month_id)
                + req_entry("financial_year_end"@, s.financial_year_end)
                + req_entry("default_sale_allocation_method"@, s.default_sale_allocation_method)
                + req_entry("interest_method"@, s.interest_method)
                + req_entry("trader"@, s.trader)
                + req_entry("tax_entity_type"@, s.tax_entity_type)
                + req_entry("cg_discount_id"@, s.cg_discount_id)
                + req_entry("rwtr_rate"@, s.rwtr_rate)
                + opt_entry("apply_cash_account_adjustments"@, s.apply_cash_account_adjustments)
                + opt_entry("buy_trade_settlement_delay"@, s.buy_trade_settlement_delay)
                + opt_entry("sell_trade_settlement_delay"@, s.sell_trade_settlement_delay)
                + opt_entry("account_for_delayed_cash_transactions"@, s.account_for_delayed_cash_transactions)
                + req_entry("trade_sync_cash_account_id"@, s.trade_sync_cash_account_id),
        )
    }

    fn encode(&self) -> (r: JsonValue) {
        let mut o = JsonObj::new();
        o.put("id", &self.id);
        o.put("name", &self.name);
        o.put("broker_email_api_enabled", &self.broker_email_api_enabled);
        o.put("financial_year_end_month_id", &self.financial_year_end_month_id);
        o.put("financial_year_end", &self.financial_year_end);
        o.put("default_sale_allocation_method", &self.default_sale_allocation_method);
        o.put("interest_method", &self.interest_method);
        o.put("trader", &self.trader);
        o.put("tax_entity_type", &self.tax_entity_type);
        o.put("cg_discount_id", &self.cg_discount_id);
        o.put("rwtr_rate", &self.rwtr_rate);
        o.put_opt("apply_cash_account_adjustments", &self.apply_cash_account_adjustments);
        o.put_opt("buy_trade_settlement_delay", &self.buy_trade_settlement_delay);
        o.put_opt("sell_trade_settlement_delay", &self.sell_trade_settlement_delay);
        o.put_opt("account_for_delayed_cash_transactions", &self.account_for_delayed_cash_transactions);
        o.put("trade_sync_cash_account_id", &self.trade_sync_cash_account_id);
        o.finish()
    }
}

impl FromJson for PortfolioUpdateParameters {
    open spec fn decodable(v: Jv) -> bool {
        &&& v is Obj
        &&& req_field_ok::<i64>(v, "id"@)
        &&& req_field_ok::<String>(v, "name"@)
        &&& req_field_ok::<bool>(v, "broker_email_api_enabled"@)
        &&& req_field_ok::<i64>(v, "financial_year_end_month_id"@)
        &&& req_field_ok::<String>(v, "financial_year_end"@)
        &&& req_field_ok::<SaleAllocationMethod>(v, "default_sale_allocation_method"@)
        &&& req_field_ok::<String>(v, "interest_method"@)
        &&& req_field_ok::<bool>(v, "trader"@)
        &&& req_field_ok::<String>(v, "tax_entity_type"@)
        &&& req_field_ok::<i64>(v, "cg_discount_id"@)
        &&& req_field_ok::<Decimal>(v, "rwtr_rate"@)
        &&& opt_field_ok::<bool>(v, "apply_cash_account_adjustments"@)
        &&& opt_field_ok::<i64>(v, "buy_trade_settlement_delay"@)
        &&& opt_field_ok::<i64>(v, "sell_trade_settlement_delay"@)
        &&& opt_field_ok::<bool>(v, "account_for_delayed_cash_transactions"@)
        &&& req_field_ok::<i64>(v, "trade_sync_cash_account_id"@)
    }

    open spec fn rel(v: Jv, s: Self) -> bool {
        &&& v is Obj
        &&& req_field_rel::<i64>(v, "id"@, s.id)
        &&& req_field_rel::<String>(v, "name"@, s.name)
        &&& req_field_rel::<bool>(v, "broker_email_api_enabled"@, s.broker_email_api_enabled)
        &&& req_field_rel::<i64>(v, "financial_year_end_month_id"@, s.financial_year_end_month_id)
        &&& req_field_rel::<String>(v, "financial_year_end"@, s.financial_year_end)
        &&& req_field_rel::<SaleAllocationMethod>(v, "default_sale_allocation_method"@, s.default_sale_allocation_method)
        &&& req_field_rel::<String>(v, "interest_method"@, s.interest_method)
        &&& req_field_rel::<bool>(v, "trader"@, s.trader)
        &&& req_field_rel::<String>(v, "tax_entity_type"@, s.tax_entity_type)
        &&& req_field_rel::<i64>(v, "cg_discount_id"@, s.cg_discount_id)
        &&& req_field_rel::<Decimal>(v, "rwtr_rate"@, s.rwtr_rate)
        &&& opt_field_rel::<bool>(v, "apply_cash_account_adjustments"@, s.apply_cash_account_adjustments)
        &&& opt_field_rel::<i64>(v, "buy_trade_settlement_delay"@, s.buy_trade_settlement_delay)
        &&& opt_field_rel::<i64>(v, "sell_trade_settlement_delay"@, s.sell_trade_settlement_delay)
        &&& opt_field_rel::<bool>(v, "account_for_delayed_cash_transactions"@, s.account_for_delayed_cash_transactions)
        &&& req_field_rel::<i64>(v, "trade_sync_cash_account_id"@, s.trade_sync_cash_account_id)
    }

    fn decode(v: &JsonValue) -> (r: Result<Self, DecodeError>) {
        let id: i64 = match get_field(v, "id") {
            Ok(x) => x,
            Err(e) => {
                return Err(e);
            },
        };
        let name: String = match get_field(v, "name") {
            Ok(x) => x,
            Err(e) => {
                return Err(e);
            },
        };
        let broker_email_api_enabled: bool = match get_field(v, "broker_email_api_enabled") {
            Ok(x) => x,
            Err(e) => {
                return Err(e);
            },
        };
        let financial_year_end_month_id: i64 = match get_field(v, "financial_year_end_month_id") {
            Ok(x) => x,
            Err(e) => {
                return Err(e);
            },
        };
        let financial_year_end: String = match get_field(v, "financial_year_end") {
            Ok(x) => x,
            Err(e) => {
                return Err(e);
            },
        };
        let default_sale_allocation_method: SaleAllocationMethod = match get_field(v, "default_sale_allocation_method") {
            Ok(x) => x,
            Err(e) => {
                return Err(e);
            },
        };
        let interest_method: String = match get_field(v, "interest_method") {
            Ok(x) => x,
            Err(e) => {
                return Err(e);
            },
        };
        let trader: bool = match get_field(v, "trader") {
            Ok(x) => x,
            Err(e) => {
                return Err(e);
            },
        };
        let tax_entity_type: String = match get_field(v, "tax_entity_type") {
            Ok(x) => x,
            Err(e) => {
                return Err(e);
            },
        };
        let cg_discount_id: i64 = match get_field(v, "cg_discount_id") {
            Ok(x) => x,
            Err(e) => {
                return Err(e);
            },
        };
        let rwtr_rate: Decimal = match get_field(v, "rwtr_rate") {
            Ok(x) => x,
            Err(e) => {
                return Err(e);
            },
        };
        let apply_cash_account_adjustments: Option<bool> = match get_opt_field(v, "apply_cash_account_adjustments") {
            Ok(x) => x,
            Err(e) => {
                return Err(e);
            },
        };
        let buy_trade_settlement_delay: Option<i64> = match get_opt_field(v, "buy_trade_settlement_delay") {
            Ok(x) => x,
            Err(e) => {
                return Err(e);
            },
        };
        let sell_trade_settlement_delay: Option<i64> = match get_opt_field(v, "sell_trade_settlement_delay") {
            Ok(x) => x,
            Err(e) => {
                return Err(e);
            },
        };
        let account_for_delayed_cash_transactions: Option<bool> = match get_opt_field(v, "account_for_delayed_cash_transactions") {
            Ok(x) => x,
            Err(e) => {
                return Err(e);
            },
        };
        let trade_sync_cash_account_id: i64 = match get_field(v, "trade_sync_cash_account_id") {
            Ok(x) => x,
            Err(e) => {
                return Err(e);
            },
        };
        Ok(PortfolioUpdateParameters { id, name, broker_email_api_enabled, financial_year_end_month_id, financial_year_end, default_sale_allocation_method, interest_method, trader, tax_entity_type, cg_discount_id, rwtr_rate, apply_cash_account_adjustments, buy_trade_settlement_delay, sell_trade_settlement_delay, account_for_delayed_cash_transactions, trade_sync_cash_account_id })
    }
}

/// The success response of a [`PortfolioUpdate`] call.
#[derive(Debug, Clone, PartialEq)]
pub struct PortfolioUpdateSuccess {
    pub id: i64,
    pub name: String,
    pub default_sale_allocation_method: SaleAllocationMethod,
    pub cg_discount: String,
    pub rwtr_rate: Decimal,
    pub trader: bool,
    pub tax_entity_type: String,
    pub broker_email_api_enabled: bool,
    pub broker_email_key: String,
    pub financial_year_end_month_id: i64,
    pub financial_year_end: String,
    pub interest_method: String,
    pub country_code: Country,
    pub currency_code: Currency,
    pub apply_cash_account_adjustments: bool,
    pub buy_trade_settlement_delay: i64,
    pub sell_trade_settlement_delay: i64,
    pub account_for_delayed_cash_transactions: bool,
    pub trade_sync_cash_account_id: i64,
    pub links: PortfolioUpdateLinksSuccess,
}

impl ToJson for PortfolioUpdateSuccess {
    open spec fn enc(s: Self) -> Jv {
        Jv::Obj(
            Seq::<(Seq<char>, Jv)>::empty()
                + req_entry("id"@, s.id)
                + req_entry("name"@, s.name)
                + req_entry("default_sale_allocation_method"@, s.default_sale_allocation_method)
                + req_entry("cg_discount"@, s.cg_discount)
                + req_entry("rwtr_rate"@, s.rwtr_rate)
                + req_entry("trader"@, s.trader)
                + req_entry("tax_entity_type"@, s.tax_entity_type)
                + req_entry("broker_email_api_enabled"@, s.broker_email_api_enabled)
                + req_entry("broker_email_key"@, s.broker_email_key)
                + req_entry("financial_year_end_month_id"@, s.financial_year_end_month_id)
                + req_entry("financial_year_end"@, s.financial_year_end)
                + req_entry("interest_method"@, s.interest_method)
                + req_entry("country_code"@, s.country_code)
                + req_entry("currency_code"@, s.currency_code)
                + req_entry("apply_cash_account_adjustments"@, s.apply_cash_account_adjustments)
                + req_entry("buy_trade_settlement_delay"@, s.buy_trade_settlement_delay)
                + req_entry("sell_trade_settlement_delay"@, s.sell_trade_settlement_delay)
                + req_entry("account_for_delayed_cash_transactions"@, s.account_for_delayed_cash_transactions)
                + req_entry("trade_sync_cash_account_id"@, s.trade_sync_cash_account_id)
                + req_entry("links"@, s.links),
        )
    }

    fn encode(&self) -> (r: JsonValue) {
        let mut o = JsonObj::new();
        o.put("id", &self.id);
        o.put("name", &self.name);
        o.put("default_sale_allocation_method", &self.default_sale_allocation_method);
        o.put("cg_discount", &self.cg_discount);
        o.put("rwtr_rate", &self.rwtr_rate);
        o.put("trader", &self.trader);
        o.put("tax_entity_type", &self.tax_entity_type);
        o.put("broker_email_api_enabled", &self.broker_email_api_enabled);
        o.put("broker_email_key", &self.broker_email_key);
        o.put("financial_year_end_month_id", &self.financial_year_end_month_id);
        o.put("financial_year_end", &self.financial_year_end);
        o.put("interest_method", &self.interest_method);
        o.put("country_code", &self.country_code);
        o.put("currency_code", &self.currency_code);
        o.put("apply_cash_account_adjustments", &self.apply_cash_account_adjustments);
        o.put("buy_trade_settlement_delay", &self.buy_trade_settlement_delay);
        o.put("sell_trade_settlement_delay", &self.sell_trade_settlement_delay);
        o.put("account_for_delayed_cash_transactions", &self.account_for_delayed_cash_transactions);
        o.put("trade_sync_cash_account_id", &self.trade_sync_cash_account_id);
        o.put("links", &self.links);
        o.finish()
    }
}

impl FromJson for PortfolioUpdateSuccess {
    open spec fn decodable(v: Jv) -> bool {
        &&& v is Obj
        &&& req_field_ok::<i64>(v, "id"@)
        &&& req_field_ok::<String>(v, "name"@)
        &&& req_field_ok::<SaleAllocationMethod>(v, "default_sale_allocation_method"@)
        &&& req_field_ok::<String>(v, "cg_discount"@)
        &&& req_field_ok::<Decimal>(v, "rwtr_rate"@)
        &&& req_field_ok::<bool>(v, "trader"@)
        &&& req_field_ok::<String>(v, "tax_entity_type"@)
        &&& req_field_ok::<bool>(v, "broker_email_api_enabled"@)
        &&& req_field_ok::<String>(v, "broker_email_key"@)
        &&& req_field_ok::<i64>(v, "financial_year_end_month_id"@)
        &&& req_field_ok::<String>(v, "financial_year_end"@)
        &&& req_field_ok::<String>(v, "interest_method"@)
        &&& req_field_ok::<Country>(v, "country_code"@)
        &&& req_field_ok::<Currency>(v, "currency_code"@)
        &&& req_field_ok::<bool>(v, "apply_cash_account_adjustments"@)
        &&& req_field_ok::<i64>(v, "buy_trade_settlement_delay"@)
        &&& req_field_ok::<i64>(v, "sell_trade_settlement_delay"@)
        &&& req_field_ok::<bool>(v, "account_for_delayed_cash_transactions"@)
        &&& req_field_ok::<i64>(v, "trade_sync_cash_account_id"@)
        &&& req_field_ok::<PortfolioUpdateLinksSuccess>(v, "links"@)
    }

    open spec fn rel(v: Jv, s: Self) -> bool {
        &&& v is Obj
        &&& req_field_rel::<i64>(v, "id"@, s.id)
        &&& req_field_rel::<String>(v, "name"@, s.name)
        &&& req_field_rel::<SaleAllocationMethod>(v, "default_sale_allocation_method"@, s.default_sale_allocation_method)
        &&& req_field_rel::<String>(v, "cg_discount"@, s.cg_discount)
        &&& req_field_rel::<Decimal>(v, "rwtr_rate"@, s.rwtr_rate)
        &&& req_field_rel::<bool>(v, "trader"@, s.trader)
        &&& req_field_rel::<String>(v, "tax_entity_type"@, s.tax_entity_type)
        &&& req_field_rel::<bool>(v, "broker_email_api_enabled"@, s.broker_email_api_enabled)
        &&& req_field_rel::<String>(v, "broker_email_key"@, s.broker_email_key)
        &&& req_field_rel::<i64>(v, "financial_year_end_month_id"@, s.financial_year_end_month_id)
        &&& req_field_rel::<String>(v, "financial_year_end"@, s.financial_year_end)
        &&& req_field_rel::<String>(v, "interest_method"@, s.interest_method)
        &&& req_field_rel::<Country>(v, "country_code"@, s.country_code)
        &&& req_field_rel::<Currency>(v, "currency_code"@, s.currency_code)
        &&& req_field_rel::<bool>(v, "apply_cash_account_adjustments"@, s.apply_cash_account_adjustments)
        &&& req_field_rel::<i64>(v, "buy_trade_settlement_delay"@, s.buy_trade_settlement_delay)
        &&& req_field_rel::<i64>(v, "sell_trade_settlement_delay"@, s.sell_trade_settlement_delay)
        &&& req_field_rel::<bool>(v, "account_for_delayed_cash_transactions"@, s.account_for_delayed_cash_transactions)
        &&& req_field_rel::<i64>(v, "trade_sync_cash_account_id"@, s.trade_sync_cash_account_id)
        &&& req_field_rel::<PortfolioUpdateLinksSuccess>(v, "links"@, s.links)
    }

    fn decode(v: &JsonValue) -> (r: Result<Self, DecodeError>) {
        let id: i64 = match get_field(v, "id") {
            Ok(x) => x,
            Err(e) => {
                return Err(e);
            },
        };
        let name: String = match get_field(v, "name") {
            Ok(x) => x,
            Err(e) => {
                return Err(e);
            },
        };
        let default_sale_allocation_method: SaleAllocationMethod = match get_field(v, "default_sale_allocation_method") {
            Ok(x) => x,
            Err(e) => {
                return Err(e);
            },
        };
        let cg_discount: String = match get_field(v, "cg_discount") {
            Ok(x) => x,
            Err(e) => {
                return Err(e);
            },
        };
        let rwtr_rate: Decimal = match get_field(v, "rwtr_rate") {
            Ok(x) => x,
            Err(e) => {
                return Err(e);
            },
        };
        let trader: bool = match get_field(v, "trader") {
            Ok(x) => x,
            Err(e) => {
                return Err(e);
            },
        };
        let tax_entity_type: String = match get_field(v, "tax_entity_type") {
            Ok(x) => x,
            Err(e) => {
                return Err(e);
            },
        };
        let broker_email_api_enabled: bool = match get_field(v, "broker_email_api_enabled") {
            Ok(x) => x,
            Err(e) => {
                return Err(e);
            },
        };
        let broker_email_key: String = match get_field(v, "broker_email_key") {
            Ok(x) => x,
            Err(e) => {
                return Err(e);
            },
        };
        let financial_year_end_month_id: i64 = match get_field(v, "financial_year_end_month_id") {
            Ok(x) => x,
            Err(e) => {
                return Err(e);
            },
        };
        let financial_year_end: String = match get_field(v, "financial_year_end") {
            Ok(x) => x,
            Err(e) => {
                return Err(e);
            },
        };
        let interest_method: String = match get_field(v, "interest_method") {
            Ok(x) => x,
            Err(e) => {
                return Err(e);
            },
        };
        let country_code: Country = match get_field(v, "country_code") {
            Ok(x) => x,
            Err(e) => {
                return Err(e);
            },
        };
        let currency_code: Currency = match get_field(v, "currency_code") {
            Ok(x) => x,
            Err(e) => {
                return Err(e);
            },
        };
        let apply_cash_account_adjustments: bool = match get_field(v, "apply_cash_account_adjustments") {
            Ok(x) => x,
            Err(e) => {
                return Err(e);
            },
        };
        let buy_trade_settlement_delay: i64 = match get_field(v, "buy_trade_settlement_delay") {
            Ok(x) => x,
            Err(e) => {
                return Err(e);
            },
        };
        let sell_trade_settlement_delay: i64 = match get_field(v, "sell_trade_settlement_delay") {
            Ok(x) => x,
            Err(e) => {
                return Err(e);
            },
        };
        let account_for_delayed_cash_transactions: bool = match get_field(v, "account_for_delayed_cash_transactions") {
            Ok(x) => x,
            Err(e) => {
                return Err(e);
            },
        };
        let trade_sync_cash_account_id: i64 = match get_field(v, "trade_sync_cash_account_id") {
            Ok(x) => x,
            Err(e) => {
                return Err(e);
            },
        };
        let links: PortfolioUpdateLinksSuccess = match get_field(v, "links") {
            Ok(x) => x,
            Err(e) => {
                return Err(e);
            },
        };
        Ok(PortfolioUpdateSuccess { id, name, default_sale_allocation_method, cg_discount, rwtr_rate, trader, tax_entity_type, broker_email_api_enabled, broker_email_key, financial_year_end_month_id, financial_year_end, interest_method, country_code, currency_code, apply_cash_account_adjustments, buy_trade_settlement_delay, sell_trade_settlement_delay, account_for_delayed_cash_transactions, trade_sync_cash_account_id, links })
    }
}

/// A nested response shape of [`PortfolioUpdate`].
#[derive(Debug, Clone, PartialEq)]
pub struct PortfolioUpdateLinksSuccess {
    pub itself: String,
    pub portfolio: String,
}

impl ToJson for PortfolioUpdateLinksSuccess {
    open spec fn enc(s: Self) -> Jv {
        Jv::Obj(
            Seq::<(Seq<char>, Jv)>::empty()
                + req_entry("self"@, s.itself)
                + req_entry("portfolio"@, s.portfolio),
        )
    }

    fn encode(&self) -> (r: JsonValue) {
        let mut o = JsonObj::new();
        o.put("self", &self.itself);
        o.put("portfolio", &self.portfolio);
        o.finish()
    }
}

impl FromJson for PortfolioUpdateLinksSuccess {
    open spec fn decodable(v: Jv) -> bool {
        &&& v is Obj
        &&& req_field_ok::<String>(v, "self"@)
        &&& req_field_ok::<String>(v, "portfolio"@)
    }

    open spec fn rel(v: Jv, s: Self) -> bool {
        &&& v is Obj
        &&& req_field_rel::<String>(v, "self"@, s.itself)
        &&& req_field_rel::<String>(v, "portfolio"@, s.portfolio)
    }

    fn decode(v: &JsonValue) -> (r: Result<Self, DecodeError>) {
        let itself: String = match get_field(v, "self") {
            Ok(x) => x,
            Err(e) => {
                return Err(e);
            },
        };
        let portfolio: String = match get_field(v, "portfolio") {
            Ok(x) => x,
            Err(e) => {
                return Err(e);
            },
        };
        Ok(PortfolioUpdateLinksSuccess { itself, portfolio })
    }
}

/// `GET /groups.json`.
pub struct GroupsList;

impl GroupsList {
    /// The URL template of this endpoint.
    pub fn url_template() -> (r: &'static str)
        ensures
            r@ == "/groups.json"@,
    {
        "/groups.json"
    }

    /// The HTTP method of this endpoint.
    pub fn http_method() -> (r: ApiHttpMethod)
        ensures
            r == ApiHttpMethod::Get,
    {
        ApiHttpMethod::Get
    }

    /// The URL path of this endpoint; it takes no parameters.
    pub fn url_path() -> (r: &'static str)
        ensures
            r@ == "/groups.json"@,
    {
        "/groups.json"
    }

    /// Decodes a success payload, naming this endpoint in any
    /// failure.
    pub fn decode_success(v: &JsonValue) -> (r: Result<GroupsListSuccess, DecodeError>)
        ensures
            r matches Ok(s) ==> <GroupsListSuccess as FromJson>::decodable(v@)
                && <GroupsListSuccess as FromJson>::rel(v@, s),
            <GroupsListSuccess as FromJson>::decodable(v@) ==> r is Ok,
            r matches Err(e) ==> spec_starts_with(e.path@, "GroupsList"@),
    {
        match GroupsListSuccess::decode(v) {
            Ok(s) => Ok(s),
            Err(e) => Err(e.in_endpoint("GroupsList")),
        }
    }
}

/// The success response of a [`GroupsList`] call.
#[derive(Debug, Clone, PartialEq)]
pub struct GroupsListSuccess {
    pub groups: Vec<GroupsListGroupsSuccess>,
}

impl ToJson for GroupsListSuccess {
    open spec fn enc(s: Self) -> Jv {
        Jv::Obj(
            Seq::<(Seq<char>, Jv)>::empty()
                + req_entry("groups"@, s.groups),
        )
    }

    fn encode(&self) -> (r: JsonValue) {
        let mut o = JsonObj::new();
        o.put("groups", &self.groups);
        o.finish()
    }
}

impl FromJson for GroupsListSuccess {
    open spec fn decodable(v: Jv) -> bool {
        &&& v is Obj
        &&& req_field_ok::<Vec<GroupsListGroupsSuccess>>(v, "groups"@)
    }

    open spec fn rel(v: Jv, s: Self) -> bool {
        &&& v is Obj
        &&& req_field_rel::<Vec<GroupsListGroupsSuccess>>(v, "groups"@, s.groups)
    }

    fn decode(v: &JsonValue) -> (r: Result<Self, DecodeError>) {
        let groups: Vec<GroupsListGroupsSuccess> = match get_field(v, "groups") {
            Ok(x) => x,
            Err(e) => {
                return Err(e);
            },
        };
        Ok(GroupsListSuccess { groups })
    }
}

/// A nested response shape of [`GroupsList`].
#[derive(Debug, Clone, PartialEq)]
pub struct GroupsListGroupsSuccess {
    pub id: String,
    pub name: String,
    pub custom: String,
    pub portfolio_ids: Vec<i64>,
}

impl ToJson for GroupsListGroupsSuccess {
    open spec fn enc(s: Self) -> Jv {
        Jv::Obj(
            Seq::<(Seq<char>, Jv)>::empty()
                + req_entry("id"@, s.id)
                + req_entry("name"@, s.name)
                + req_entry("custom"@, s.custom)
                + req_entry("portfolio_ids"@, s.portfolio_ids),
        )
    }

    fn encode(&self) -> (r: JsonValue) {
        let mut o = JsonObj::new();
        o.put("id", &self.id);
        o.put("name", &self.name);
        o.put("custom", &self.custom);
        o.put("portfolio_ids", &self.portfolio_ids);
        o.finish()
    }
}

impl FromJson for GroupsListGroupsSuccess {
    open spec fn decodable(v: Jv) -> bool {
        &&& v is Obj
        &&& req_field_ok::<String>(v, "id"@)
        &&& req_field_ok::<String>(v, "name"@)
        &&& req_field_ok::<String>(v, "custom"@)
        &&& req_field_ok::<Vec<i64>>(v, "portfolio_ids"@)
    }

    open spec fn rel(v: Jv, s: Self) -> bool {
        &&& v is Obj
        &&& req_field_rel::<String>(v, "id"@, s.id)
        &&& req_field_rel::<String>(v, "name"@, s.name)
        &&& req_field_rel::<String>(v, "custom"@, s.custom)
        &&& req_field_rel::<Vec<i64>>(v, "portfolio_ids"@, s.portfolio_ids)
    }

    fn decode(v: &JsonValue) -> (r: Result<Self, DecodeError>) {
        let id: String = match get_field(v, "id") {
            Ok(x) => x,
            Err(e) => {
                return Err(e);
            },
        };
        let name: String = match get_field(v, "name") {
            Ok(x) => x,
            Err(e) => {
                return Err(e);
            },
        };
        let custom: String = match get_field(v, "custom") {
            Ok(x) => x,
            Err(e) => {
                return Err(e);
            },
        };
        let portfolio_ids: Vec<i64> = match get_field(v, "portfolio_ids") {
            Ok(x) => x,
            Err(e) => {
                return Err(e);
            },
        };
        Ok(GroupsListGroupsSuccess { id, name, custom, portfolio_ids })
    }
}

} // verus!
