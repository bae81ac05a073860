//! Portfolio report endpoints: capital gains, diversity, performance, unrealised capital gains tax, and valuation.

use vstd::prelude::*;
use vstd::string::StringExecFns;
use crate::api::ApiHttpMethod;
use crate::codec::DecodeError;
use crate::codec::FromJson;
use crate::codec::JsonObj;
use crate::codec::ToJson;
use crate::codec::get_field;
use crate::codec::get_opt_field;
use crate::codec::opt_entry;
use crate::codec::opt_field_ok;
use crate::codec::opt_field_rel;
use crate::codec::req_entry;
use crate::codec::req_field_ok;
use crate::codec::req_field_rel;
use crate::codec::spec_starts_with;
use crate::date::Date;
use crate::enums::Currency;
use crate::enums::Market;
use crate::json::Decimal;
use crate::json::JsonValue;
use crate::json::Jv;
use crate::num::render_i64;
use crate::num::spec_i64_string;

verus! {

/// `GET /portfolios/:portfolio_id/capital_gains.json`.
pub struct CapitalGains;

/// The parameters of a [`CapitalGains`] call, held for URL rendering.
pub struct CapitalGainsUrlDisplay<'a>(pub &'a CapitalGainsParameters);

impl<'a> CapitalGainsUrlDisplay<'a> {
    /// Renders the resolved URL path.
    pub fn render(&self) -> (r: String)
        ensures
            r@ == CapitalGains::spec_url(*self.0),
    {
        CapitalGains::url(self.0)
    }
}

impl CapitalGains {
    /// The URL template of this endpoint.
    pub fn url_template() -> (r: &'static str)
        ensures
            r@ == "/portfolios/:portfolio_id/capital_gains.json"@,
    {
        "/portfolios/:portfolio_id/capital_gains.json"
    }

    /// The HTTP method of this endpoint.
    pub fn http_method() -> (r: ApiHttpMethod)
        ensures
            r == ApiHttpMethod::Get,
    {
        ApiHttpMethod::Get
    }

    /// The URL path that `p` resolves the template to.
    pub open spec fn spec_url(p: CapitalGainsParameters) -> Seq<char> {
        "/portfolios/"@ + spec_i64_string(p.portfolio_id as int) + "/capital_gains.json"@
    }

    /// Resolves the URL template with the fields of `parameters`:
    /// plain decimal digits for integers, strings as they are.
    pub fn url(parameters: &CapitalGainsParameters) -> (r: String)
        ensures
            r@ == Self::spec_url(*parameters),
    {
        let mut s = "/portfolios/".to_owned();
        s.append(render_i64(parameters.portfolio_id).as_str());
        s.append("/capital_gains.json");
        s
    }

    /// Wraps `parameters` for URL rendering.
    pub fn url_path<'a>(parameters: &'a CapitalGainsParameters) -> (r: CapitalGainsUrlDisplay<'a>)
        ensures
            r.0 == parameters,
    {
        CapitalGainsUrlDisplay(parameters)
    }

    /// Decodes a success payload, naming this endpoint in any
    /// failure.
    pub fn decode_success(v: &JsonValue) -> (r: Result<CapitalGainsSuccess, DecodeError>)
        ensures
            r matches Ok(s) ==> <CapitalGainsSuccess as FromJson>::decodable(v@)
                && <CapitalGainsSuccess as FromJson>::rel(v@, s),
            <CapitalGainsSuccess as FromJson>::decodable(v@) ==> r is Ok,
            r matches Err(e) ==> spec_starts_with(e.path@, "CapitalGains"@),
    {
        match CapitalGainsSuccess::decode(v) {
            Ok(s) => Ok(s),
            Err(e) => Err(e.in_endpoint("CapitalGains")),
        }
    }
}

/// The parameters of a [`CapitalGains`] call.
#[derive(Debug, Clone, PartialEq)]
pub struct CapitalGainsParameters {
    pub portfolio_id: i64,
    pub start_date: Option<Date>,
    pub end_date: Option<Date>,
}

impl ToJson for CapitalGainsParameters {
    open spec fn enc(s: Self) -> Jv {
        Jv::Obj(
            Seq::<(Seq<char>, Jv)>::empty()
                + req_entry("portfolio_id"@, s.portfolio_id)
                + opt_entry("start_date"@, s.start_date)
                + opt_entry("end_date"@, s.end_date),
        )
    }

    fn encode(&self) -> (r: JsonValue) {
        let mut o = JsonObj::new();
        o.put("portfolio_id", &self.portfolio_id);
        o.put_opt("start_date", &self.start_date);
        o.put_opt("end_date", &self.end_date);
        o.finish()
    }
}

impl FromJson for CapitalGainsParameters {
    open spec fn decodable(v: Jv) -> bool {
        &&& v is Obj
        &&& req_field_ok::<i64>(v, "portfolio_id"@)
        &&& opt_field_ok::<Date>(v, "start_date"@)
        &&& opt_field_ok::<Date>(v, "end_date"@)
    }

    open spec fn rel(v: Jv, s: Self) -> bool {
        &&& v is Obj
        &&& req_field_rel::<i64>(v, "portfolio_id"@, s.portfolio_id)
        &&& opt_field_rel::<Date>(v, "start_date"@, s.start_date)
        &&& opt_field_rel::<Date>(v, "end_date"@, s.end_date)
    }

    fn decode(v: &JsonValue) -> (r: Result<Self, DecodeError>) {
        let portfolio_id: i64 = match get_field(v, "portfolio_id") {
            Ok(x) => x,
            Err(e) => {
                return Err(e);
            },
        };
        let start_date: Option<Date> = match get_opt_field(v, "start_date") {
            Ok(x) => x,
            Err(e) => {
                return Err(e);
            },
        };
        let end_date: Option<Date> = match get_opt_field(v, "end_date") {
            Ok(x) => x,
            Err(e) => {
                return Err(e);
            },
        };
        Ok(CapitalGainsParameters { portfolio_id, start_date, end_date })
    }
}

/// The success response of a [`CapitalGains`] call.
#[derive(Debug, Clone, PartialEq)]
pub struct CapitalGainsSuccess {
    pub short_term_gains: Decimal,
    pub long_term_gains: Decimal,
    pub losses: Decimal,
    pub short_term_losses: Decimal,
    pub long_term_losses: Decimal,
    pub total_discounted_capital_gain_distributions: Decimal,
    pub total_non_discounted_capital_gain_distributions: Decimal,
    pub cgt_concession_rate: Decimal,
    pub cgt_concession_amount: Decimal,
    pub market_value: Decimal,
    pub tax_gain_loss: Decimal,
    pub discounted_capital_gain_distributions: Vec<CapitalGainsDiscountedCapitalGainDistributionsSuccess>,
    pub non_discounted_capital_gain_distributions: Vec<CapitalGainsNonDiscountedCapitalGainDistributionsSuccess>,
    pub short_term_parcels: Vec<CapitalGainsShortTermParcelsSuccess>,
    pub long_term_parcels: Vec<CapitalGainsLongTermParcelsSuccess>,
    pub loss_parcels: Vec<CapitalGainsLossParcelsSuccess>,
    pub start_date: Date,
    pub end_date: Date,
    pub portfolio_id: i64,
}

impl ToJson for CapitalGainsSuccess {
    open spec fn enc(s: Self) -> Jv {
        Jv::Obj(
            Seq::<(Seq<char>, Jv)>::empty()
                + req_entry("short_term_gains"@, s.short_term_gains)
                + req_entry("long_term_gains"@, s.long_term_gains)
                + req_entry("losses"@, s.losses)
                + req_entry("short_term_losses"@, s.short_term_losses)
                + req_entry("long_term_losses"@, s.long_term_losses)
                + req_entry("total_discounted_capital_gain_distributions"@, s.total_discounted_capital_gain_distributions)
                + req_entry("total_non_discounted_capital_gain_distributions"@, s.total_non_discounted_capital_gain_distributions)
                + req_entry("cgt_concession_rate"@, s.cgt_concession_rate)
                + req_entry("cgt_concession_amount"@, s.cgt_concession_amount)
                + req_entry("market_value"@, s.market_value)
                + req_entry("tax_gain_loss"@, s.tax_gain_loss)
                + req_entry("discounted_capital_gain_distributions"@, s.discounted_capital_gain_distributions)
                + req_entry("non_discounted_capital_gain_distributions"@, s.non_discounted_capital_gain_distributions)
                + req_entry("short_term_parcels"@, s.short_term_parcels)
                + req_entry("long_term_parcels"@, s.long_term_parcels)
                + req_entry("loss_parcels"@, s.loss_parcels)
                + req_entry("start_date"@, s.start_date)
                + req_entry("end_date"@, s.end_date)
                + req_entry("portfolio_id"@, s.portfolio_id),
        )
    }

    fn encode(&self) -> (r: JsonValue) {
        let mut o = JsonObj::new();
        o.put("short_term_gains", &self.short_term_gains);
        o.put("long_term_gains", &self.long_term_gains);
        o.put("losses", &self.losses);
        o.put("short_term_losses", &self.short_term_losses);
        o.put("long_term_losses", &self.long_term_losses);
        o.put("total_discounted_capital_gain_distributions", &self.total_discounted_capital_gain_distributions);
        o.put("total_non_discounted_capital_gain_distributions", &self.total_non_discounted_capital_gain_distributions);
        o.put("cgt_concession_rate", &self.cgt_concession_rate);
        o.put("cgt_concession_amount", &self.cgt_concession_amount);
        o.put("market_value", &self.market_value);
        o.put("tax_gain_loss", &self.tax_gain_loss);
        o.put("discounted_capital_gain_distributions", &self.discounted_capital_gain_distributions);
        o.put("non_discounted_capital_gain_distributions", &self.non_discounted_capital_gain_distributions);
        o.put("short_term_parcels", &self.short_term_parcels);
        o.put("long_term_parcels", &self.long_term_parcels);
        o.put("loss_parcels", &self.loss_parcels);
        o.put("start_date", &self.start_date);
        o.put("end_date", &self.end_date);
        o.put("portfolio_id", &self.portfolio_id);
        o.finish()
    }
}

impl FromJson for CapitalGainsSuccess {
    open spec fn decodable(v: Jv) -> bool {
        &&& v is Obj
        &&& req_field_ok::<Decimal>(v, "short_term_gains"@)
        &&& req_field_ok::<Decimal>(v, "long_term_gains"@)
        &&& req_field_ok::<Decimal>(v, "losses"@)
        &&& req_field_ok::<Decimal>(v, "short_term_losses"@)
        &&& req_field_ok::<Decimal>(v, "long_term_losses"@)
        &&& req_field_ok::<Decimal>(v, "total_discounted_capital_gain_distributions"@)
        &&& req_field_ok::<Decimal>(v, "total_non_discounted_capital_gain_distributions"@)
        &&& req_field_ok::<Decimal>(v, "cgt_concession_rate"@)
        &&& req_field_ok::<Decimal>(v, "cgt_concession_amount"@)
        &&& req_field_ok::<Decimal>(v, "market_value"@)
        &&& req_field_ok::<Decimal>(v, "tax_gain_loss"@)
        &&& req_field_ok::<Vec<CapitalGainsDiscountedCapitalGainDistributionsSuccess>>(v, "discounted_capital_gain_distributions"@)
        &&& req_field_ok::<Vec<CapitalGainsNonDiscountedCapitalGainDistributionsSuccess>>(v, "non_discounted_capital_gain_distributions"@)
        &&& req_field_ok::<Vec<CapitalGainsShortTermParcelsSuccess>>(v, "short_term_parcels"@)
        &&& req_field_ok::<Vec<CapitalGainsLongTermParcelsSuccess>>(v, "long_term_parcels"@)
        &&& req_field_ok::<Vec<CapitalGainsLossParcelsSuccess>>(v, "loss_parcels"@)
        &&& req_field_ok::<Date>(v, "start_date"@)
        &&& req_field_ok::<Date>(v, "end_date"@)
        &&& req_field_ok::<i64>(v, "portfolio_id"@)
    }

    open spec fn rel(v: Jv, s: Self) -> bool {
        &&& v is Obj
        &&& req_field_rel::<Decimal>(v, "short_term_gains"@, s.short_term_gains)
        &&& req_field_rel::<Decimal>(v, "long_term_gains"@, s.long_term_gains)
        &&& req_field_rel::<Decimal>(v, "losses"@, s.losses)
        &&& req_field_rel::<Decimal>(v, "short_term_losses"@, s.short_term_losses)
        &&& req_field_rel::<Decimal>(v, "long_term_losses"@, s.long_term_losses)
        &&& req_field_rel::<Decimal>(v, "total_discounted_capital_gain_distributions"@, s.total_discounted_capital_gain_distributions)
        &&& req_field_rel::<Decimal>(v, "total_non_discounted_capital_gain_distributions"@, s.total_non_discounted_capital_gain_distributions)
        &&& req_field_rel::<Decimal>(v, "cgt_concession_rate"@, s.cgt_concession_rate)
        &&& req_field_rel::<Decimal>(v, "cgt_concession_amount"@, s.cgt_concession_amount)
        &&& req_field_rel::<Decimal>(v, "market_value"@, s.market_value)
        &&& req_field_rel::<Decimal>(v, "tax_gain_loss"@, s.tax_gain_loss)
        &&& req_field_rel::<Vec<CapitalGainsDiscountedCapitalGainDistributionsSuccess>>(v, "discounted_capital_gain_distributions"@, s.discounted_capital_gain_distributions)
        &&& req_field_rel::<Vec<CapitalGainsNonDiscountedCapitalGainDistributionsSuccess>>(v, "non_discounted_capital_gain_distributions"@, s.non_discounted_capital_gain_distributions)
        &&& req_field_rel::<Vec<CapitalGainsShortTermParcelsSuccess>>(v, "short_term_parcels"@, s.short_term_parcels)
        &&& req_field_rel::<Vec<CapitalGainsLongTermParcelsSuccess>>(v, "long_term_parcels"@, s.long_term_parcels)
        &&& req_field_rel::<Vec<CapitalGainsLossParcelsSuccess>>(v, "loss_parcels"@, s.loss_parcels)
        &&& req_field_rel::<Date>(v, "start_date"@, s.start_date)
        &&& req_field_rel::<Date>(v, "end_date"@, s.end_date)
        &&& req_field_rel::<i64>(v, "portfolio_id"@, s.portfolio_id)
    }

    fn decode(v: &JsonValue) -> (r: Result<Self, DecodeError>) {
        let short_term_gains: Decimal = match get_field(v, "short_term_gains") {
            Ok(x) => x,
            Err(e) => {
                return Err(e);
            },
        };
        let long_term_gains: Decimal = match get_field(v, "long_term_gains") {
            Ok(x) => x,
            Err(e) => {
                return Err(e);
            },
        };
        let losses: Decimal = match get_field(v, "losses") {
            Ok(x) => x,
            Err(e) => {
                return Err(e);
            },
        };
        let short_term_losses: Decimal = match get_field(v, "short_term_losses") {
            Ok(x) => x,
            Err(e) => {
                return Err(e);
            },
        };
        let long_term_losses: Decimal = match get_field(v, "long_term_losses") {
            Ok(x) => x,
            Err(e) => {
                return Err(e);
            },
        };
        let total_discounted_capital_gain_distributions: Decimal = match get_field(v, "total_discounted_capital_gain_distributions") {
            Ok(x) => x,
            Err(e) => {
                return Err(e);
            },
        };
        let total_non_discounted_capital_gain_distributions: Decimal = match get_field(v, "total_non_discounted_capital_gain_distributions") {
            Ok(x) => x,
            Err(e) => {
                return Err(e);
            },
        };
        let cgt_concession_rate: Decimal = match get_field(v, "cgt_concession_rate") {
            Ok(x) => x,
            Err(e) => {
                return Err(e);
            },
        };
        let cgt_concession_amount: Decimal = match get_field(v, "cgt_concession_amount") {
            Ok(x) => x,
            Err(e) => {
                return Err(e);
            },
        };
        let market_value: Decimal = match get_field(v, "market_value") {
            Ok(x) => x,
            Err(e) => {
                return Err(e);
            },
        };
        let tax_gain_loss: Decimal = match get_field(v, "tax_gain_loss") {
            Ok(x) => x,
            Err(e) => {
                return Err(e);
            },
        };
        let discounted_capital_gain_distributions: Vec<CapitalGainsDiscountedCapitalGainDistributionsSuccess> = match get_field(v, "discounted_capital_gain_distributions") {
            Ok(x) => x,
            Err(e) => {
                return Err(e);
            },
        };
        let non_discounted_capital_gain_distributions: Vec<CapitalGainsNonDiscountedCapitalGainDistributionsSuccess> = match get_field(v, "non_discounted_capital_gain_distributions") {
            Ok(x) => x,
            Err(e) => {
                return Err(e);
            },
        };
        let short_term_parcels: Vec<CapitalGainsShortTermParcelsSuccess> = match get_field(v, "short_term_parcels") {
            Ok(x) => x,
            Err(e) => {
                return Err(e);
            },
        };
        let long_term_parcels: Vec<CapitalGainsLongTermParcelsSuccess> = match get_field(v, "long_term_parcels") {
            Ok(x) => x,
            Err(e) => {
                return Err(e);
            },
        };
        let loss_parcels: Vec<CapitalGainsLossParcelsSuccess> = match get_field(v, "loss_parcels") {
            Ok(x) => x,
            Err(e) => {
                return Err(e);
            },
        };
        let start_date: Date = match get_field(v, "start_date") {
            Ok(x) => x,
            Err(e) => {
                return Err(e);
            },
        };
        let end_date: Date = match get_field(v, "end_date") {
            Ok(x) => x,
            Err(e) => {
                return Err(e);
            },
        };
        let portfolio_id: i64 = match get_field(v, "portfolio_id") {
            Ok(x) => x,
            Err(e) => {
                return Err(e);
            },
        };
        Ok(CapitalGainsSuccess { short_term_gains, long_term_gains, losses, short_term_losses, long_term_losses, total_discounted_capital_gain_distributions, total_non_discounted_capital_gain_distributions, cgt_concession_rate, cgt_concession_amount, market_value, tax_gain_loss, discounted_capital_gain_distributions, non_discounted_capital_gain_distributions, short_term_parcels, long_term_parcels, loss_parcels, start_date, end_date, portfolio_id })
    }
}

/// A nested response shape of [`CapitalGains`].
#[derive(Debug, Clone, PartialEq)]
pub struct CapitalGainsDiscountedCapitalGainDistributionsSuccess {
    pub market: Market,
    pub symbol: String,
    pub name: String,
    pub gain: Decimal,
    pub gain_date: Date,
}

impl ToJson for CapitalGainsDiscountedCapitalGainDistributionsSuccess {
    open spec fn enc(s: Self) -> Jv {
        Jv::Obj(
            Seq::<(Seq<char>, Jv)>::empty()
                + req_entry("market"@, s.market)
                + req_entry("symbol"@, s.symbol)
                + req_entry("name"@, s.name)
                + req_entry("gain"@, s.gain)
                + req_entry("gain_date"@, s.gain_date),
        )
    }

    fn encode(&self) -> (r: JsonValue) {
        let mut o = JsonObj::new();
        o.put("market", &self.market);
        o.put("symbol", &self.symbol);
        o.put("name", &self.name);
        o.put("gain", &self.gain);
        o.put("gain_date", &self.gain_date);
        o.finish()
    }
}

impl FromJson for CapitalGainsDiscountedCapitalGainDistributionsSuccess {
    open spec fn decodable(v: Jv) -> bool {
        &&& v is Obj
        &&& req_field_ok::<Market>(v, "market"@)
        &&& req_field_ok::<String>(v, "symbol"@)
        &&& req_field_ok::<String>(v, "name"@)
        &&& req_field_ok::<Decimal>(v, "gain"@)
        &&& req_field_ok::<Date>(v, "gain_date"@)
    }

    open spec fn rel(v: Jv, s: Self) -> bool {
        &&& v is Obj
        &&& req_field_rel::<Market>(v, "market"@, s.market)
        &&& req_field_rel::<String>(v, "symbol"@, s.symbol)
        &&& req_field_rel::<String>(v, "name"@, s.name)
        &&& req_field_rel::<Decimal>(v, "gain"@, s.gain)
        &&& req_field_rel::<Date>(v, "gain_date"@, s.gain_date)
    }

    fn decode(v: &JsonValue) -> (r: Result<Self, DecodeError>) {
        let market: Market = match get_field(v, "market") {
            Ok(x) => x,
            Err(e) => {
                return Err(e);
            },
        };
        let symbol: String = match get_field(v, "symbol") {
            Ok(x) => x,
            Err(e) => {
                return Err(e);
            },
        };
        let name: String = match get_field(v, "name") {
            Ok(x) => x,
            Err(e) => {
                return Err(e);
            },
        };
        let gain: Decimal = match get_field(v, "gain") {
            Ok(x) => x,
            Err(e) => {
                return Err(e);
            },
        };
        let gain_date: Date = match get_field(v, "gain_date") {
            Ok(x) => x,
            Err(e) => {
                return Err(e);
            },
        };
        Ok(CapitalGainsDiscountedCapitalGainDistributionsSuccess { market, symbol, name, gain, gain_date })
    }
}

/// A nested response shape of [`CapitalGains`].
#[derive(Debug, Clone, PartialEq)]
pub struct CapitalGainsNonDiscountedCapitalGainDistributionsSuccess {
    pub market: Market,
    pub symbol: String,
    pub name: String,
    pub gain: Decimal,
    pub gain_date: Date,
}

impl ToJson for CapitalGainsNonDiscountedCapitalGainDistributionsSuccess {
    open spec fn enc(s: Self) -> Jv {
        Jv::Obj(
            Seq::<(Seq<char>, Jv)>::empty()
                + req_entry("market"@, s.market)
                + req_entry("symbol"@, s.symbol)
                + req_entry("name"@, s.name)
                + req_entry("gain"@, s.gain)
                + req_entry("gain_date"@, s.gain_date),
        )
    }

    fn encode(&self) -> (r: JsonValue) {
        let mut o = JsonObj::new();
        o.put("market", &self.market);
        o.put("symbol", &self.symbol);
        o.put("name", &self.name);
        o.put("gain", &self.gain);
        o.put("gain_date", &self.gain_date);
        o.finish()
    }
}

impl FromJson for CapitalGainsNonDiscountedCapitalGainDistributionsSuccess {
    open spec fn decodable(v: Jv) -> bool {
        &&& v is Obj
        &&& req_field_ok::<Market>(v, "market"@)
        &&& req_field_ok::<String>(v, "symbol"@)
        &&& req_field_ok::<String>(v, "name"@)
        &&& req_field_ok::<Decimal>(v, "gain"@)
        &&& req_field_ok::<Date>(v, "gain_date"@)
    }

    open spec fn rel(v: Jv, s: Self) -> bool {
        &&& v is Obj
        &&& req_field_rel::<Market>(v, "market"@, s.market)
        &&& req_field_rel::<String>(v, "symbol"@, s.symbol)
        &&& req_field_rel::<String>(v, "name"@, s.name)
        &&& req_field_rel::<Decimal>(v, "gain"@, s.gain)
        &&& req_field_rel::<Date>(v, "gain_date"@, s.gain_date)
    }

    fn decode(v: &JsonValue) -> (r: Result<Self, DecodeError>) {
        let market: Market = match get_field(v, "market") {
            Ok(x) => x,
            Err(e) => {
                return Err(e);
            },
        };
        let symbol: String = match get_field(v, "symbol") {
            Ok(x) => x,
            Err(e) => {
                return Err(e);
            },
        };
        let name: String = match get_field(v, "name") {
            Ok(x) => x,
            Err(e) => {
                return Err(e);
            },
        };
        let gain: Decimal = match get_field(v, "gain") {
            Ok(x) => x,
            Err(e) => {
                return Err(e);
            },
        };
        let gain_date: Date = match get_field(v, "gain_date") {
            Ok(x) => x,
            Err(e) => {
                return Err(e);
            },
        };
        Ok(CapitalGainsNonDiscountedCapitalGainDistributionsSuccess { market, symbol, name, gain, gain_date })
    }
}

/// A nested response shape of [`CapitalGains`].
#[derive(Debug, Clone, PartialEq)]
pub struct CapitalGainsShortTermParcelsSuccess {
    pub market: Market,
    pub symbol: String,
    pub name: String,
    pub allocation_method: String,
    pub purchase_date: Date,
    pub quantity: Decimal,
    pub cost_base: Decimal,
    pub market_value: Decimal,
    pub gain: Decimal,
    pub gain_date: Date,
}

impl ToJson for CapitalGainsShortTermParcelsSuccess {
    open spec fn enc(s: Self) -> Jv {
        Jv::Obj(
            Seq::<(Seq<char>, Jv)>::empty()
                + req_entry("market"@, s.market)
                + req_entry("symbol"@, s.symbol)
                + req_entry("name"@, s.name)
                + req_entry("allocation_method"@, s.allocation_method)
                + req_entry("purchase_date"@, s.purchase_date)
                + req_entry("quantity"@, s.quantity)
                + req_entry("cost_base"@, s.cost_base)
                + req_entry("market_value"@, s.market_value)
                + req_entry("gain"@, s.gain)
                + req_entry("gain_date"@, s.gain_date),
        )
    }

    fn encode(&self) -> (r: JsonValue) {
        let mut o = JsonObj::new();
        o.put("market", &self.market);
        o.put("symbol", &self.symbol);
        o.put("name", &self.name);
        o.put("allocation_method", &self.allocation_method);
        o.put("purchase_date", &self.purchase_date);
        o.put("quantity", &self.quantity);
        o.put("cost_base", &self.cost_base);
        o.put("market_value", &self.market_value);
        o.put("gain", &self.gain);
        o.put("gain_date", &self.gain_date);
        o.finish()
    }
}

impl FromJson for CapitalGainsShortTermParcelsSuccess {
    open spec fn decodable(v: Jv) -> bool {
        &&& v is Obj
        &&& req_field_ok::<Market>(v, "market"@)
        &&& req_field_ok::<String>(v, "symbol"@)
        &&& req_field_ok::<String>(v, "name"@)
        &&& req_field_ok::<String>(v, "allocation_method"@)
        &&& req_field_ok::<Date>(v, "purchase_date"@)
        &&& req_field_ok::<Decimal>(v, "quantity"@)
        &&& req_field_ok::<Decimal>(v, "cost_base"@)
        &&& req_field_ok::<Decimal>(v, "market_value"@)
        &&& req_field_ok::<Decimal>(v, "gain"@)
        &&& req_field_ok::<Date>(v, "gain_date"@)
    }

    open spec fn rel(v: Jv, s: Self) -> bool {
        &&& v is Obj
        &&& req_field_rel::<Market>(v, "market"@, s.market)
        &&& req_field_rel::<String>(v, "symbol"@, s.symbol)
        &&& req_field_rel::<String>(v, "name"@, s.name)
        &&& req_field_rel::<String>(v, "allocation_method"@, s.allocation_method)
        &&& req_field_rel::<Date>(v, "purchase_date"@, s.purchase_date)
        &&& req_field_rel::<Decimal>(v, "quantity"@, s.quantity)
        &&& req_field_rel::<Decimal>(v, "cost_base"@, s.cost_base)
        &&& req_field_rel::<Decimal>(v, "market_value"@, s.market_value)
        &&& req_field_rel::<Decimal>(v, "gain"@, s.gain)
        &&& req_field_rel::<Date>(v, "gain_date"@, s.gain_date)
    }

    fn decode(v: &JsonValue) -> (r: Result<Self, DecodeError>) {
        let market: Market = match get_field(v, "market") {
            Ok(x) => x,
            Err(e) => {
                return Err(e);
            },
        };
        let symbol: String = match get_field(v, "symbol") {
            Ok(x) => x,
            Err(e) => {
                return Err(e);
            },
        };
        let name: String = match get_field(v, "name") {
            Ok(x) => x,
            Err(e) => {
                return Err(e);
            },
        };
        let allocation_method: String = match get_field(v, "allocation_method") {
            Ok(x) => x,
            Err(e) => {
                return Err(e);
            },
        };
        let purchase_date: Date = match get_field(v, "purchase_date") {
            Ok(x) => x,
            Err(e) => {
                return Err(e);
            },
        };
        let quantity: Decimal = match get_field(v, "quantity") {
            Ok(x) => x,
            Err(e) => {
                return Err(e);
            },
        };
        let cost_base: Decimal = match get_field(v, "cost_base") {
            Ok(x) => x,
            Err(e) => {
                return Err(e);
            },
        };
        let market_value: Decimal = match get_field(v, "market_value") {
            Ok(x) => x,
            Err(e) => {
                return Err(e);
            },
        };
        let gain: Decimal = match get_field(v, "gain") {
            Ok(x) => x,
            Err(e) => {
                return Err(e);
            },
        };
        let gain_date: Date = match get_field(v, "gain_date") {
            Ok(x) => x,
            Err(e) => {
                return Err(e);
            },
        };
        Ok(CapitalGainsShortTermParcelsSuccess { market, symbol, name, allocation_method, purchase_date, quantity, cost_base, market_value, gain, gain_date })
    }
}

/// A nested response shape of [`CapitalGains`].
#[derive(Debug, Clone, PartialEq)]
pub struct CapitalGainsLongTermParcelsSuccess {
    pub market: Market,
    pub symbol: String,
    pub name: String,
    pub allocation_method: String,
    pub purchase_date: Date,
    pub quantity: Decimal,
    pub cost_base: Decimal,
    pub market_value: Decimal,
    pub gain: Decimal,
    pub gain_date: Date,
}

impl ToJson for CapitalGainsLongTermParcelsSuccess {
    open spec fn enc(s: Self) -> Jv {
        Jv::Obj(
            Seq::<(Seq<char>, Jv)>::empty()
                + req_entry("market"@, s.market)
                + req_entry("symbol"@, s.symbol)
                + req_entry("name"@, s.name)
                + req_entry("allocation_method"@, s.allocation_method)
                + req_entry("purchase_date"@, s.purchase_date)
                + req_entry("quantity"@, s.quantity)
                + req_entry("cost_base"@, s.cost_base)
                + req_entry("market_value"@, s.market_value)
                + req_entry("gain"@, s.gain)
                + req_entry("gain_date"@, s.gain_date),
        )
    }

    fn encode(&self) -> (r: JsonValue) {
        let mut o = JsonObj::new();
        o.put("market", &self.market);
        o.put("symbol", &self.symbol);
        o.put("name", &self.name);
        o.put("allocation_method", &self.allocation_method);
        o.put("purchase_date", &self.purchase_date);
        o.put("quantity", &self.quantity);
        o.put("cost_base", &self.cost_base);
        o.put("market_value", &self.market_value);
        o.put("gain", &self.gain);
        o.put("gain_date", &self.gain_date);
        o.finish()
    }
}

impl FromJson for CapitalGainsLongTermParcelsSuccess {
    open spec fn decodable(v: Jv) -> bool {
        &&& v is Obj
        &&& req_field_ok::<Market>(v, "market"@)
        &&& req_field_ok::<String>(v, "symbol"@)
        &&& req_field_ok::<String>(v, "name"@)
        &&& req_field_ok::<String>(v, "allocation_method"@)
        &&& req_field_ok::<Date>(v, "purchase_date"@)
        &&& req_field_ok::<Decimal>(v, "quantity"@)
        &&& req_field_ok::<Decimal>(v, "cost_base"@)
        &&& req_field_ok::<Decimal>(v, "market_value"@)
        &&& req_field_ok::<Decimal>(v, "gain"@)
        &&& req_field_ok::<Date>(v, "gain_date"@)
    }

    open spec fn rel(v: Jv, s: Self) -> bool {
        &&& v is Obj
        &&& req_field_rel::<Market>(v, "market"@, s.market)
        &&& req_field_rel::<String>(v, "symbol"@, s.symbol)
        &&& req_field_rel::<String>(v, "name"@, s.name)
        &&& req_field_rel::<String>(v, "allocation_method"@, s.allocation_method)
        &&& req_field_rel::<Date>(v, "purchase_date"@, s.purchase_date)
        &&& req_field_rel::<Decimal>(v, "quantity"@, s.quantity)
        &&& req_field_rel::<Decimal>(v, "cost_base"@, s.cost_base)
        &&& req_field_rel::<Decimal>(v, "market_value"@, s.market_value)
        &&& req_field_rel::<Decimal>(v, "gain"@, s.gain)
        &&& req_field_rel::<Date>(v, "gain_date"@, s.gain_date)
    }

    fn decode(v: &JsonValue) -> (r: Result<Self, DecodeError>) {
        let market: Market = match get_field(v, "market") {
            Ok(x) => x,
            Err(e) => {
                return Err(e);
            },
        };
        let symbol: String = match get_field(v, "symbol") {
            Ok(x) => x,
            Err(e) => {
                return Err(e);
            },
        };
        let name: String = match get_field(v, "name") {
            Ok(x) => x,
            Err(e) => {
                return Err(e);
            },
        };
        let allocation_method: String = match get_field(v, "allocation_method") {
            Ok(x) => x,
            Err(e) => {
                return Err(e);
            },
        };
        let purchase_date: Date = match get_field(v, "purchase_date") {
            Ok(x) => x,
            Err(e) => {
                return Err(e);
            },
        };
        let quantity: Decimal = match get_field(v, "quantity") {
            Ok(x) => x,
            Err(e) => {
                return Err(e);
            },
        };
        let cost_base: Decimal = match get_field(v, "cost_base") {
            Ok(x) => x,
            Err(e) => {
                return Err(e);
            },
        };
        let market_value: Decimal = match get_field(v, "market_value") {
            Ok(x) => x,
            Err(e) => {
                return Err(e);
            },
        };
        let gain: Decimal = match get_field(v, "gain") {
            Ok(x) => x,
            Err(e) => {
                return Err(e);
            },
        };
        let gain_date: Date = match get_field(v, "gain_date") {
            Ok(x) => x,
            Err(e) => {
                return Err(e);
            },
        };
        Ok(CapitalGainsLongTermParcelsSuccess { market, symbol, name, allocation_method, purchase_date, quantity, cost_base, market_value, gain, gain_date })
    }
}

/// A nested response shape of [`CapitalGains`].
#[derive(Debug, Clone, PartialEq)]
pub struct CapitalGainsLossParcelsSuccess {
    pub market: Market,
    pub symbol: String,
    pub name: String,
    pub allocation_method: String,
    pub purchase_date: Date,
    pub quantity: Decimal,
    pub cost_base: Decimal,
    pub market_value: Decimal,
    pub gain: Decimal,
    pub gain_date: Date,
}

impl ToJson for CapitalGainsLossParcelsSuccess {
    open spec fn enc(s: Self) -> Jv {
        Jv::Obj(
            Seq::<(Seq<char>, Jv)>::empty()
                + req_entry("market"@, s.market)
                + req_entry("symbol"@, s.symbol)
                + req_entry("name"@, s.name)
                + req_entry("allocation_method"@, s.allocation_method)
                + req_entry("purchase_date"@, s.purchase_date)
                + req_entry("quantity"@, s.quantity)
                + req_entry("cost_base"@, s.cost_base)
                + req_entry("market_value"@, s.market_value)
                + req_entry("gain"@, s.gain)
                + req_entry("gain_date"@, s.gain_date),
        )
    }

    fn encode(&self) -> (r: JsonValue) {
        let mut o = JsonObj::new();
        o.put("market", &self.market);
        o.put("symbol", &self.symbol);
        o.put("name", &self.name);
        o.put("allocation_method", &self.allocation_method);
        o.put("purchase_date", &self.purchase_date);
        o.put("quantity", &self.quantity);
        o.put("cost_base", &self.cost_base);
        o.put("market_value", &self.market_value);
        o.put("gain", &self.gain);
        o.put("gain_date", &self.gain_date);
        o.finish()
    }
}

impl FromJson for CapitalGainsLossParcelsSuccess {
    open spec fn decodable(v: Jv) -> bool {
        &&& v is Obj
        &&& req_field_ok::<Market>(v, "market"@)
        &&& req_field_ok::<String>(v, "symbol"@)
        &&& req_field_ok::<String>(v, "name"@)
        &&& req_field_ok::<String>(v, "allocation_method"@)
        &&& req_field_ok::<Date>(v, "purchase_date"@)
        &&& req_field_ok::<Decimal>(v, "quantity"@)
        &&& req_field_ok::<Decimal>(v, "cost_base"@)
        &&& req_field_ok::<Decimal>(v, "market_value"@)
        &&& req_field_ok::<Decimal>(v, "gain"@)
        &&& req_field_ok::<Date>(v, "gain_date"@)
    }

    open spec fn rel(v: Jv, s: Self) -> bool {
        &&& v is Obj
        &&& req_field_rel::<Market>(v, "market"@, s.market)
        &&& req_field_rel::<String>(v, "symbol"@, s.symbol)
        &&& req_field_rel::<String>(v, "name"@, s.name)
        &&& req_field_rel::<String>(v, "allocation_method"@, s.allocation_method)
        &&& req_field_rel::<Date>(v, "purchase_date"@, s.purchase_date)
        &&& req_field_rel::<Decimal>(v, "quantity"@, s.quantity)
        &&& req_field_rel::<Decimal>(v, "cost_base"@, s.cost_base)
        &&& req_field_rel::<Decimal>(v, "market_value"@, s.market_value)
        &&& req_field_rel::<Decimal>(v, "gain"@, s.gain)
        &&& req_field_rel::<Date>(v, "gain_date"@, s.gain_date)
    }

    fn decode(v: &JsonValue) -> (r: Result<Self, DecodeError>) {
        let market: Market = match get_field(v, "market") {
            Ok(x) => x,
            Err(e) => {
                return Err(e);
            },
        };
        let symbol: String = match get_field(v, "symbol") {
            Ok(x) => x,
            Err(e) => {
                return Err(e);
            },
        };
        let name: String = match get_field(v, "name") {
            Ok(x) => x,
            Err(e) => {
                return Err(e);
            },
        };
        let allocation_method: String = match get_field(v, "allocation_method") {
            Ok(x) => x,
            Err(e) => {
                return Err(e);
            },
        };
        let purchase_date: Date = match get_field(v, "purchase_date") {
            Ok(x) => x,
            Err(e) => {
                return Err(e);
            },
        };
        let quantity: Decimal = match get_field(v, "quantity") {
            Ok(x) => x,
            Err(e) => {
                return Err(e);
            },
        };
        let cost_base: Decimal = match get_field(v, "cost_base") {
            Ok(x) => x,
            Err(e) => {
                return Err(e);
            },
        };
        let market_value: Decimal = match get_field(v, "market_value") {
            Ok(x) => x,
            Err(e) => {
                return Err(e);
            },
        };
        let gain: Decimal = match get_field(v, "gain") {
            Ok(x) => x,
            Err(e) => {
                return Err(e);
            },
        };
        let gain_date: Date = match get_field(v, "gain_date") {
            Ok(x) => x,
            Err(e) => {
                return Err(e);
            },
        };
        Ok(CapitalGainsLossParcelsSuccess { market, symbol, name, allocation_method, purchase_date, quantity, cost_base, market_value, gain, gain_date })
    }
}

/// `GET /portfolios/:portfolio_id/diversity.json`.
pub struct Diversity;

/// The parameters of a [`Diversity`] call, held for URL rendering.
pub struct DiversityUrlDisplay<'a>(pub &'a DiversityParameters);

impl<'a> DiversityUrlDisplay<'a> {
    /// Renders the resolved URL path.
    pub fn render(&self) -> (r: String)
        ensures
            r@ == Diversity::spec_url(*self.0),
    {
        Diversity::url(self.0)
    }
}

impl Diversity {
    /// The URL template of this endpoint.
    pub fn url_template() -> (r: &'static str)
        ensures
            r@ == "/portfolios/:portfolio_id/diversity.json"@,
    {
        "/portfolios/:portfolio_id/diversity.json"
    }

    /// The HTTP method of this endpoint.
    pub fn http_method() -> (r: ApiHttpMethod)
        ensures
            r == ApiHttpMethod::Get,
    {
        ApiHttpMethod::Get
    }

    /// The URL path that `p` resolves the template to.
    pub open spec fn spec_url(p: DiversityParameters) -> Seq<char> {
        "/portfolios/"@ + spec_i64_string(p.portfolio_id as int) + "/diversity.json"@
    }

    /// Resolves the URL template with the fields of `parameters`:
    /// plain decimal digits for integers, strings as they are.
    pub fn url(parameters: &DiversityParameters) -> (r: String)
        ensures
            r@ == Self::spec_url(*parameters),
    {
        let mut s = "/portfolios/".to_owned();
        s.append(render_i64(parameters.portfolio_id).as_str());
        s.append("/diversity.json");
        s
    }

    /// Wraps `parameters` for URL rendering.
    pub fn url_path<'a>(parameters: &'a DiversityParameters) -> (r: DiversityUrlDisplay<'a>)
        ensures
            r.0 == parameters,
    {
        DiversityUrlDisplay(parameters)
    }

    /// Decodes a success payload, naming this endpoint in any
    /// failure.
    pub fn decode_success(v: &JsonValue) -> (r: Result<DiversitySuccess, DecodeError>)
        ensures
            r matches Ok(s) ==> <DiversitySuccess as FromJson>::decodable(v@)
                && <DiversitySuccess as FromJson>::rel(v@, s),
            <DiversitySuccess as FromJson>::decodable(v@) ==> r is Ok,
            r matches Err(e) ==> spec_starts_with(e.path@, "Diversity"@),
    {
        match DiversitySuccess::decode(v) {
            Ok(s) => Ok(s),
            Err(e) => Err(e.in_endpoint("Diversity")),
        }
    }
}

/// The parameters of a [`Diversity`] call.
#[derive(Debug, Clone, PartialEq)]
pub struct DiversityParameters {
    pub portfolio_id: i64,
    pub consolidated: Option<bool>,
    pub date: Option<Date>,
    pub grouping: Option<String>,
    pub custom_group_id: Option<i64>,
}

impl ToJson for DiversityParameters {
    open spec fn enc(s: Self) -> Jv {
        Jv::Obj(
            Seq::<(Seq<char>, Jv)>::empty()
                + req_entry("portfolio_id"@, s.portfolio_id)
                + opt_entry("consolidated"@, s.consolidated)
                + opt_entry("date"@, s.date)
                + opt_entry("grouping"@, s.grouping)
                + opt_entry("custom_group_id"@, s.custom_group_id),
        )
    }

    fn encode(&self) -> (r: JsonValue) {
        let mut o = JsonObj::new();
        o.put("portfolio_id", &self.portfolio_id);
        o.put_opt("consolidated", &self.consolidated);
        o.put_opt("date", &self.date);
        o.put_opt("grouping", &self.grouping);
        o.put_opt("custom_group_id", &self.custom_group_id);
        o.finish()
    }
}

impl FromJson for DiversityParameters {
    open spec fn decodable(v: Jv) -> bool {
        &&& v is Obj
        &&& req_field_ok::<i64>(v, "portfolio_id"@)
        &&& opt_field_ok::<bool>(v, "consolidated"@)
        &&& opt_field_ok::<Date>(v, "date"@)
        &&& opt_field_ok::<String>(v, "grouping"@)
        &&& opt_field_ok::<i64>(v, "custom_group_id"@)
    }

    open spec fn rel(v: Jv, s: Self) -> bool {
        &&& v is Obj
        &&& req_field_rel::<i64>(v, "portfolio_id"@, s.portfolio_id)
        &&& opt_field_rel::<bool>(v, "consolidated"@, s.consolidated)
        &&& opt_field_rel::<Date>(v, "date"@, s.date)
        &&& opt_field_rel::<String>(v, "grouping"@, s.grouping)
        &&& opt_field_rel::<i64>(v, "custom_group_id"@, s.custom_group_id)
    }

    fn decode(v: &JsonValue) -> (r: Result<Self, DecodeError>) {
        let portfolio_id: i64 = match get_field(v, "portfolio_id") {
            Ok(x) => x,
            Err(e) => {
                return Err(e);
            },
        };
        let consolidated: Option<bool> = match get_opt_field(v, "consolidated") {
            Ok(x) => x,
            Err(e) => {
                return Err(e);
            },
        };
        let date: Option<Date> = match get_opt_field(v, "date") {
            Ok(x) => x,
            Err(e) => {
                return Err(e);
            },
        };
        let grouping: Option<String> = match get_opt_field(v, "grouping") {
            Ok(x) => x,
            Err(e) => {
                return Err(e);
            },
        };
        let custom_group_id: Option<i64> = match get_opt_field(v, "custom_group_id") {
            Ok(x) => x,
            Err(e) => {
                return Err(e);
            },
        };
        Ok(DiversityParameters { portfolio_id, consolidated, date, grouping, custom_group_id })
    }
}

/// The success response of a [`Diversity`] call.
#[derive(Debug, Clone, PartialEq)]
pub struct DiversitySuccess {
    pub groups: Vec<DiversityGroupsSuccess>,
    pub percentage: Decimal,
    pub value: Decimal,
    pub date: Date,
}

impl ToJson for DiversitySuccess {
    open spec fn enc(s: Self) -> Jv {
        Jv::Obj(
            Seq::<(Seq<char>, Jv)>::empty()
                + req_entry("groups"@, s.groups)
                + req_entry("percentage"@, s.percentage)
                + req_entry("value"@, s.value)
                + req_entry("date"@, s.date),
        )
    }

    fn encode(&self) -> (r: JsonValue) {
        let mut o = JsonObj::new();
        o.put("groups", &self.groups);
        o.put("percentage", &self.percentage);
        o.put("value", &self.value);
        o.put("date", &self.date);
        o.finish()
    }
}

impl FromJson for DiversitySuccess {
    open spec fn decodable(v: Jv) -> bool {
        &&& v is Obj
        &&& req_field_ok::<Vec<DiversityGroupsSuccess>>(v, "groups"@)
        &&& req_field_ok::<Decimal>(v, "percentage"@)
        &&& req_field_ok::<Decimal>(v, "value"@)
        &&& req_field_ok::<Date>(v, "date"@)
    }

    open spec fn rel(v: Jv, s: Self) -> bool {
        &&& v is Obj
        &&& req_field_rel::<Vec<DiversityGroupsSuccess>>(v, "groups"@, s.groups)
        &&& req_field_rel::<Decimal>(v, "percentage"@, s.percentage)
        &&& req_field_rel::<Decimal>(v, "value"@, s.value)
        &&& req_field_rel::<Date>(v, "date"@, s.date)
    }

    fn decode(v: &JsonValue) -> (r: Result<Self, DecodeError>) {
        let groups: Vec<DiversityGroupsSuccess> = match get_field(v, "groups") {
            Ok(x) => x,
            Err(e) => {
                return Err(e);
            },
        };
        let percentage: Decimal = match get_field(v, "percentage") {
            Ok(x) => x,
            Err(e) => {
                return Err(e);
            },
        };
        let value: Decimal = match get_field(v, "value") {
            Ok(x) => x,
            Err(e) => {
                return Err(e);
            },
        };
        let date: Date = match get_field(v, "date") {
            Ok(x) => x,
            Err(e) => {
                return Err(e);
            },
        };
        Ok(DiversitySuccess { groups, percentage, value, date })
    }
}

/// A nested response shape of [`Diversity`].
#[derive(Debug, Clone, PartialEq)]
pub struct DiversityGroupsSuccess {
    pub group: DiversityGroupsGroupSuccess,
}

impl ToJson for DiversityGroupsSuccess {
    open spec fn enc(s: Self) -> Jv {
        Jv::Obj(
            Seq::<(Seq<char>, Jv)>::empty()
                + req_entry("group"@, s.group),
        )
    }

    fn encode(&self) -> (r: JsonValue) {
        let mut o = JsonObj::new();
        o.put("group", &self.group);
        o.finish()
    }
}

impl FromJson for DiversityGroupsSuccess {
    open spec fn decodable(v: Jv) -> bool {
        &&& v is Obj
        &&& req_field_ok::<DiversityGroupsGroupSuccess>(v, "group"@)
    }

    open spec fn rel(v: Jv, s: Self) -> bool {
        &&& v is Obj
        &&& req_field_rel::<DiversityGroupsGroupSuccess>(v, "group"@, s.group)
    }

    fn decode(v: &JsonValue) -> (r: Result<Self, DecodeError>) {
        let group: DiversityGroupsGroupSuccess = match get_field(v, "group") {
            Ok(x) => x,
            Err(e) => {
                return Err(e);
            },
        };
        Ok(DiversityGroupsSuccess { group })
    }
}

/// A nested response shape of [`Diversity`].
#[derive(Debug, Clone, PartialEq)]
pub struct DiversityGroupsGroupSuccess {
    pub elements: Vec<DiversityGroupsGroupElementsSuccess>,
    pub percentage: Decimal,
    pub value: Decimal,
}

impl ToJson for DiversityGroupsGroupSuccess {
    open spec fn enc(s: Self) -> Jv {
        Jv::Obj(
            Seq::<(Seq<char>, Jv)>::empty()
                + req_entry("elements"@, s.elements)
                + req_entry("percentage"@, s.percentage)
                + req_entry("value"@, s.value),
        )
    }

    fn encode(&self) -> (r: JsonValue) {
        let mut o = JsonObj::new();
        o.put("elements", &self.elements);
        o.put("percentage", &self.percentage);
        o.put("value", &self.value);
        o.finish()
    }
}

impl FromJson for DiversityGroupsGroupSuccess {
    open spec fn decodable(v: Jv) -> bool {
        &&& v is Obj
        &&& req_field_ok::<Vec<DiversityGroupsGroupElementsSuccess>>(v, "elements"@)
        &&& req_field_ok::<Decimal>(v, "percentage"@)
        &&& req_field_ok::<Decimal>(v, "value"@)
    }

    open spec fn rel(v: Jv, s: Self) -> bool {
        &&& v is Obj
        &&& req_field_rel::<Vec<DiversityGroupsGroupElementsSuccess>>(v, "elements"@, s.elements)
        &&& req_field_rel::<Decimal>(v, "percentage"@, s.percentage)
        &&& req_field_rel::<Decimal>(v, "value"@, s.value)
    }

    fn decode(v: &JsonValue) -> (r: Result<Self, DecodeError>) {
        let elements: Vec<DiversityGroupsGroupElementsSuccess> = match get_field(v, "elements") {
            Ok(x) => x,
            Err(e) => {
                return Err(e);
            },
        };
        let percentage: Decimal = match get_field(v, "percentage") {
            Ok(x) => x,
            Err(e) => {
                return Err(e);
            },
        };
        let value: Decimal = match get_field(v, "value") {
            Ok(x) => x,
            Err(e) => {
                return Err(e);
            },
        };
        Ok(DiversityGroupsGroupSuccess { elements, percentage, value })
    }
}

/// A nested response shape of [`Diversity`].
#[derive(Debug, Clone, PartialEq)]
pub struct DiversityGroupsGroupElementsSuccess {
    pub name: String,
    pub code: String,
    pub market: Market,
    pub percentage: Decimal,
    pub value: Decimal,
}

impl ToJson for DiversityGroupsGroupElementsSuccess {
    open spec fn enc(s: Self) -> Jv {
        Jv::Obj(
            Seq::<(Seq<char>, Jv)>::empty()
                + req_entry("name"@, s.name)
                + req_entry("code"@, s.code)
                + req_entry("market"@, s.market)
                + req_entry("percentage"@, s.percentage)
                + req_entry("value"@, s.value),
        )
    }

    fn encode(&self) -> (r: JsonValue) {
        let mut o = JsonObj::new();
        o.put("name", &self.name);
        o.put("code", &self.code);
        o.put("market", &self.market);
        o.put("percentage", &self.percentage);
        o.put("value", &self.value);
        o.finish()
    }
}

impl FromJson for DiversityGroupsGroupElementsSuccess {
    open spec fn decodable(v: Jv) -> bool {
        &&& v is Obj
        &&& req_field_ok::<String>(v, "name"@)
        &&& req_field_ok::<String>(v, "code"@)
        &&& req_field_ok::<Market>(v, "market"@)
        &&& req_field_ok::<Decimal>(v, "percentage"@)
        &&& req_field_ok::<Decimal>(v, "value"@)
    }

    open spec fn rel(v: Jv, s: Self) -> bool {
        &&& v is Obj
        &&& req_field_rel::<String>(v, "name"@, s.name)
        &&& req_field_rel::<String>(v, "code"@, s.code)
        &&& req_field_rel::<Market>(v, "market"@, s.market)
        &&& req_field_rel::<Decimal>(v, "percentage"@, s.percentage)
        &&& req_field_rel::<Decimal>(v, "value"@, s.value)
    }

    fn decode(v: &JsonValue) -> (r: Result<Self, DecodeError>) {
        let name: String = match get_field(v, "name") {
            Ok(x) => x,
            Err(e) => {
                return Err(e);
            },
        };
        let code: String = match get_field(v, "code") {
            Ok(x) => x,
            Err(e) => {
                return Err(e);
            },
        };
        let market: Market = match get_field(v, "market") {
            Ok(x) => x,
            Err(e) => {
                return Err(e);
            },
        };
        let percentage: Decimal = match get_field(v, "percentage") {
            Ok(x) => x,
            Err(e) => {
                return Err(e);
            },
        };
        let value: Decimal = match get_field(v, "value") {
            Ok(x) => x,
            Err(e) => {
                return Err(e);
            },
        };
        Ok(DiversityGroupsGroupElementsSuccess { name, code, market, percentage, value })
    }
}

/// `GET /portfolios/:portfolio_id/performance.json`.
pub struct Performance;

/// The parameters of a [`Performance`] call, held for URL rendering.
pub struct PerformanceUrlDisplay<'a>(pub &'a PerformanceParameters);

impl<'a> PerformanceUrlDisplay<'a> {
    /// Renders the resolved URL path.
    pub fn render(&self) -> (r: String)
        ensures
            r@ == Performance::spec_url(*self.0),
    {
        Performance::url(self.0)
    }
}

impl Performance {
    /// The URL template of this endpoint.
    pub fn url_template() -> (r: &'static str)
        ensures
            r@ == "/portfolios/:portfolio_id/performance.json"@,
    {
        "/portfolios/:portfolio_id/performance.json"
    }

    /// The HTTP method of this endpoint.
    pub fn http_method() -> (r: ApiHttpMethod)
        ensures
            r == ApiHttpMethod::Get,
    {
        ApiHttpMethod::Get
    }

    /// The URL path that `p` resolves the template to.
    pub open spec fn spec_url(p: PerformanceParameters) -> Seq<char> {
        "/portfolios/"@ + spec_i64_string(p.portfolio_id as int) + "/performance.json"@
    }

    /// Resolves the URL template with the fields of `parameters`:
    /// plain decimal digits for integers, strings as they are.
    pub fn url(parameters: &PerformanceParameters) -> (r: String)
        ensures
            r@ == Self::spec_url(*parameters),
    {
        let mut s = "/portfolios/".to_owned();
        s.append(render_i64(parameters.portfolio_id).as_str());
        s.append("/performance.json");
        s
    }

    /// Wraps `parameters` for URL rendering.
    pub fn url_path<'a>(parameters: &'a PerformanceParameters) -> (r: PerformanceUrlDisplay<'a>)
        ensures
            r.0 == parameters,
    {
        PerformanceUrlDisplay(parameters)
    }

    /// Decodes a success payload, naming this endpoint in any
    /// failure.
    pub fn decode_success(v: &JsonValue) -> (r: Result<PerformanceSuccess, DecodeError>)
        ensures
            r matches Ok(s) ==> <PerformanceSuccess as FromJson>::decodable(v@)
                && <PerformanceSuccess as FromJson>::rel(v@, s),
            <PerformanceSuccess as FromJson>::decodable(v@) ==> r is Ok,
            r matches Err(e) ==> spec_starts_with(e.path@, "Performance"@),
    {
        match PerformanceSuccess::decode(v) {
            Ok(s) => Ok(s),
            Err(e) => Err(e.in_endpoint("Performance")),
        }
    }
}

/// The parameters of a [`Performance`] call.
#[derive(Debug, Clone, PartialEq)]
pub struct PerformanceParameters {
    pub start_date: Option<Date>,
    pub end_date: Option<Date>,
    pub portfolio_id: i64,
    pub consolidated: Option<bool>,
    pub include_sales: Option<bool>,
    pub grouping: Option<String>,
    pub custom_group_id: Option<i64>,
}

impl ToJson for PerformanceParameters {
    open spec fn enc(s: Self) -> Jv {
        Jv::Obj(
            Seq::<(Seq<char>, Jv)>::empty()
                + opt_entry("start_date"@, s.start_date)
                + opt_entry("end_date"@, s.end_date)
                + req_entry("portfolio_id"@, s.portfolio_id)
                + opt_entry("consolidated"@, s.consolidated)
                + opt_entry("include_sales"@, s.include_sales)
                + opt_entry("grouping"@, s.grouping)
                + opt_entry("custom_group_id"@, s.custom_group_id),
        )
    }

    fn encode(&self) -> (r: JsonValue) {
        let mut o = JsonObj::new();
        o.put_opt("start_date", &self.start_date);
        o.put_opt("end_date", &self.end_date);
        o.put("portfolio_id", &self.portfolio_id);
        o.put_opt("consolidated", &self.consolidated);
        o.put_opt("include_sales", &self.include_sales);
        o.put_opt("grouping", &self.grouping);
        o.put_opt("custom_group_id", &self.custom_group_id);
        o.finish()
    }
}

impl FromJson for PerformanceParameters {
    open spec fn decodable(v: Jv) -> bool {
        &&& v is Obj
        &&& opt_field_ok::<Date>(v, "start_date"@)
        &&& opt_field_ok::<Date>(v, "end_date"@)
        &&& req_field_ok::<i64>(v, "portfolio_id"@)
        &&& opt_field_ok::<bool>(v, "consolidated"@)
        &&& opt_field_ok::<bool>(v, "include_sales"@)
        &&& opt_field_ok::<String>(v, "grouping"@)
        &&& opt_field_ok::<i64>(v, "custom_group_id"@)
    }

    open spec fn rel(v: Jv, s: Self) -> bool {
        &&& v is Obj
        &&& opt_field_rel::<Date>(v, "start_date"@, s.start_date)
        &&& opt_field_rel::<Date>(v, "end_date"@, s.end_date)
        &&& req_field_rel::<i64>(v, "portfolio_id"@, s.portfolio_id)
        &&& opt_field_rel::<bool>(v, "consolidated"@, s.consolidated)
        &&& opt_field_rel::<bool>(v, "include_sales"@, s.include_sales)
        &&& opt_field_rel::<String>(v, "grouping"@, s.grouping)
        &&& opt_field_rel::<i64>(v, "custom_group_id"@, s.custom_group_id)
    }

    fn decode(v: &JsonValue) -> (r: Result<Self, DecodeError>) {
        let start_date: Option<Date> = match get_opt_field(v, "start_date") {
            Ok(x) => x,
            Err(e) => {
                return Err(e);
            },
        };
        let end_date: Option<Date> = match get_opt_field(v, "end_date") {
            Ok(x) => x,
            Err(e) => {
                return Err(e);
            },
        };
        let portfolio_id: i64 = match get_field(v, "portfolio_id") {
            Ok(x) => x,
            Err(e) => {
                return Err(e);
            },
        };
        let consolidated: Option<bool> = match get_opt_field(v, "consolidated") {
            Ok(x) => x,
            Err(e) => {
                return Err(e);
            },
        };
        let include_sales: Option<bool> = match get_opt_field(v, "include_sales") {
            Ok(x) => x,
            Err(e) => {
                return Err(e);
            },
        };
        let grouping: Option<String> = match get_opt_field(v, "grouping") {
            Ok(x) => x,
            Err(e) => {
                return Err(e);
            },
        };
        let custom_group_id: Option<i64> = match get_opt_field(v, "custom_group_id") {
            Ok(x) => x,
            Err(e) => {
                return Err(e);
            },
        };
        Ok(PerformanceParameters { start_date, end_date, portfolio_id, consolidated, include_sales, grouping, custom_group_id })
    }
}

/// The success response of a [`Performance`] call.
#[derive(Debug, Clone, PartialEq)]
pub struct PerformanceSuccess {
    pub id: String,
    pub portfolio_id: String,
    pub grouping: String,
    pub custom_group_id: String,
    pub value: Decimal,
    pub capital_gain: Decimal,
    pub capital_gain_percent: Decimal,
    pub payout_gain: Decimal,
    pub payout_gain_percent: Decimal,
    pub currency_gain: Decimal,
    pub currency_gain_percent: Decimal,
    pub total_gain: Decimal,
    pub total_gain_percent: Decimal,
    pub start_date: Date,
    pub end_date: Date,
    pub include_sales: Date,
    pub holdings: Vec<PerformanceHoldingsSuccess>,
    pub cash_accounts: Vec<PerformanceCashAccountsSuccess>,
    pub sub_totals: Vec<PerformanceSubTotalsSuccess>,
}

impl ToJson for PerformanceSuccess {
    open spec fn enc(s: Self) -> Jv {
        Jv::Obj(
            Seq::<(Seq<char>, Jv)>::empty()
                + req_entry("id"@, s.id)
                + req_entry("portfolio_id"@, s.portfolio_id)
                + req_entry("grouping"@, s.grouping)
                + req_entry("custom_group_id"@, s.custom_group_id)
                + req_entry("value"@, s.value)
                + req_entry("capital_gain"@, s.capital_gain)
                + req_entry("capital_gain_percent"@, s.capital_gain_percent)
                + req_entry("payout_gain"@, s.payout_gain)
                + req_entry("payout_gain_percent"@, s.payout_gain_percent)
                + req_entry("currency_gain"@, s.currency_gain)
                + req_entry("currency_gain_percent"@, s.currency_gain_percent)
                + req_entry("total_gain"@, s.total_gain)
                + req_entry("total_gain_percent"@, s.total_gain_percent)
                + req_entry("start_date"@, s.start_date)
                + req_entry("end_date"@, s.end_date)
                + req_entry("include_sales"@, s.include_sales)
                + req_entry("holdings"@, s.holdings)
                + req_entry("cash_accounts"@, s.cash_accounts)
                + req_entry("sub_totals"@, s.sub_totals),
        )
    }

    fn encode(&self) -> (r: JsonValue) {
        let mut o = JsonObj::new();
        o.put("id", &self.id);
        o.put("portfolio_id", &self.portfolio_id);
        o.put("grouping", &self.grouping);
        o.put("custom_group_id", &self.custom_group_id);
        o.put("value", &self.value);
        o.put("capital_gain", &self.capital_gain);
        o.put("capital_gain_percent", &self.capital_gain_percent);
        o.put("payout_gain", &self.payout_gain);
        o.put("payout_gain_percent", &self.payout_gain_percent);
        o.put("currency_gain", &self.currency_gain);
        o.put("currency_gain_percent", &self.currency_gain_percent);
        o.put("total_gain", &self.total_gain);
        o.put("total_gain_percent", &self.total_gain_percent);
        o.put("start_date", &self.start_date);
        o.put("end_date", &self.end_date);
        o.put("include_sales", &self.include_sales);
        o.put("holdings", &self.holdings);
        o.put("cash_accounts", &self.cash_accounts);
        o.put("sub_totals", &self.sub_totals);
        o.finish()
    }
}

impl FromJson for PerformanceSuccess {
    open spec fn decodable(v: Jv) -> bool {
        &&& v is Obj
        &&& req_field_ok::<String>(v, "id"@)
        &&& req_field_ok::<String>(v, "portfolio_id"@)
        &&& req_field_ok::<String>(v, "grouping"@)
        &&& req_field_ok::<String>(v, "custom_group_id"@)
        &&& req_field_ok::<Decimal>(v, "value"@)
        &&& req_field_ok::<Decimal>(v, "capital_gain"@)
        &&& req_field_ok::<Decimal>(v, "capital_gain_percent"@)
        &&& req_field_ok::<Decimal>(v, "payout_gain"@)
        &&& req_field_ok::<Decimal>(v, "payout_gain_percent"@)
        &&& req_field_ok::<Decimal>(v, "currency_gain"@)
        &&& req_field_ok::<Decimal>(v, "currency_gain_percent"@)
        &&& req_field_ok::<Decimal>(v, "total_gain"@)
        &&& req_field_ok::<Decimal>(v, "total_gain_percent"@)
        &&& req_field_ok::<Date>(v, "start_date"@)
        &&& req_field_ok::<Date>(v, "end_date"@)
        &&& req_field_ok::<Date>(v, "include_sales"@)
        &&& req_field_ok::<Vec<PerformanceHoldingsSuccess>>(v, "holdings"@)
        &&& req_field_ok::<Vec<PerformanceCashAccountsSuccess>>(v, "cash_accounts"@)
        &&& req_field_ok::<Vec<PerformanceSubTotalsSuccess>>(v, "sub_totals"@)
    }

    open spec fn rel(v: Jv, s: Self) -> bool {
        &&& v is Obj
        &&& req_field_rel::<String>(v, "id"@, s.id)
        &&& req_field_rel::<String>(v, "portfolio_id"@, s.portfolio_id)
        &&& req_field_rel::<String>(v, "grouping"@, s.grouping)
        &&& req_field_rel::<String>(v, "custom_group_id"@, s.custom_group_id)
        &&& req_field_rel::<Decimal>(v, "value"@, s.value)
        &&& req_field_rel::<Decimal>(v, "capital_gain"@, s.capital_gain)
        &&& req_field_rel::<Decimal>(v, "capital_gain_percent"@, s.capital_gain_percent)
        &&& req_field_rel::<Decimal>(v, "payout_gain"@, s.payout_gain)
        &&& req_field_rel::<Decimal>(v, "payout_gain_percent"@, s.payout_gain_percent)
        &&& req_field_rel::<Decimal>(v, "currency_gain"@, s.currency_gain)
        &&& req_field_rel::<Decimal>(v, "currency_gain_percent"@, s.currency_gain_percent)
        &&& req_field_rel::<Decimal>(v, "total_gain"@, s.total_gain)
        &&& req_field_rel::<Decimal>(v, "total_gain_percent"@, s.total_gain_percent)
        &&& req_field_rel::<Date>(v, "start_date"@, s.start_date)
        &&& req_field_rel::<Date>(v, "end_date"@, s.end_date)
        &&& req_field_rel::<Date>(v, "include_sales"@, s.include_sales)
        &&& req_field_rel::<Vec<PerformanceHoldingsSuccess>>(v, "holdings"@, s.holdings)
        &&& req_field_rel::<Vec<PerformanceCashAccountsSuccess>>(v, "cash_accounts"@, s.cash_accounts)
        &&& req_field_rel::<Vec<PerformanceSubTotalsSuccess>>(v, "sub_totals"@, s.sub_totals)
    }

    fn decode(v: &JsonValue) -> (r: Result<Self, DecodeError>) {
        let id: String = match get_field(v, "id") {
            Ok(x) => x,
            Err(e) => {
                return Err(e);
            },
        };
        let portfolio_id: String = match get_field(v, "portfolio_id") {
            Ok(x) => x,
            Err(e) => {
                return Err(e);
            },
        };
        let grouping: String = match get_field(v, "grouping") {
            Ok(x) => x,
            Err(e) => {
                return Err(e);
            },
        };
        let custom_group_id: String = match get_field(v, "custom_group_id") {
            Ok(x) => x,
            Err(e) => {
                return Err(e);
            },
        };
        let value: Decimal = match get_field(v, "value") {
            Ok(x) => x,
            Err(e) => {
                return Err(e);
            },
        };
        let capital_gain: Decimal = match get_field(v, "capital_gain") {
            Ok(x) => x,
            Err(e) => {
                return Err(e);
            },
        };
        let capital_gain_percent: Decimal = match get_field(v, "capital_gain_percent") {
            Ok(x) => x,
            Err(e) => {
                return Err(e);
            },
        };
        let payout_gain: Decimal = match get_field(v, "payout_gain") {
            Ok(x) => x,
            Err(e) => {
                return Err(e);
            },
        };
        let payout_gain_percent: Decimal = match get_field(v, "payout_gain_percent") {
            Ok(x) => x,
            Err(e) => {
                return Err(e);
            },
        };
        let currency_gain: Decimal = match get_field(v, "currency_gain") {
            Ok(x) => x,
            Err(e) => {
                return Err(e);
            },
        };
        let currency_gain_percent: Decimal = match get_field(v, "currency_gain_percent") {
            Ok(x) => x,
            Err(e) => {
                return Err(e);
            },
        };
        let total_gain: Decimal = match get_field(v, "total_gain") {
            Ok(x) => x,
            Err(e) => {
                return Err(e);
            },
        };
        let total_gain_percent: Decimal = match get_field(v, "total_gain_percent") {
            Ok(x) => x,
            Err(e) => {
                return Err(e);
            },
        };
        let start_date: Date = match get_field(v, "start_date") {
            Ok(x) => x,
            Err(e) => {
                return Err(e);
            },
        };
        let end_date: Date = match get_field(v, "end_date") {
            Ok(x) => x,
            Err(e) => {
                return Err(e);
            },
        };
        let include_sales: Date = match get_field(v, "include_sales") {
            Ok(x) => x,
            Err(e) => {
                return Err(e);
            },
        };
        let holdings: Vec<PerformanceHoldingsSuccess> = match get_field(v, "holdings") {
            Ok(x) => x,
            Err(e) => {
                return Err(e);
            },
        };
        let cash_accounts: Vec<PerformanceCashAccountsSuccess> = match get_field(v, "cash_accounts") {
            Ok(x) => x,
            Err(e) => {
                return Err(e);
            },
        };
        let sub_totals: Vec<PerformanceSubTotalsSuccess> = match get_field(v, "sub_totals") {
            Ok(x) => x,
            Err(e) => {
                return Err(e);
            },
        };
        Ok(PerformanceSuccess { id, portfolio_id, grouping, custom_group_id, value, capital_gain, capital_gain_percent, payout_gain, payout_gain_percent, currency_gain, currency_gain_percent, total_gain, total_gain_percent, start_date, end_date, include_sales, holdings, cash_accounts, sub_totals })
    }
}

/// A nested response shape of [`Performance`].
#[derive(Debug, Clone, PartialEq)]
pub struct PerformanceHoldingsSuccess {
    pub id: String,
    pub symbol: String,
    pub instrument_id: String,
    pub market: Market,
    pub _group_type_: String,
    pub grouping: String,
    pub name: String,
    pub value: Decimal,
    pub quantity: Decimal,
    pub capital_gain: Decimal,
    pub capital_gain_percent: Decimal,
    pub payout_gain: Decimal,
    pub payout_gain_percent: Decimal,
    pub currency_gain: Decimal,
    pub currency_gain_percent: Decimal,
    pub total_gain: Decimal,
    pub total_gain_percent: Decimal,
}

impl ToJson for PerformanceHoldingsSuccess {
    open spec fn enc(s: Self) -> Jv {
        Jv::Obj(
            Seq::<(Seq<char>, Jv)>::empty()
                + req_entry("id"@, s.id)
                + req_entry("symbol"@, s.symbol)
                + req_entry("instrument_id"@, s.instrument_id)
                + req_entry("market"@, s.market)
                + req_entry("_group_type_"@, s._group_type_)
                + req_entry("grouping"@, s.grouping)
                + req_entry("name"@, s.name)
                + req_entry("value"@, s.value)
                + req_entry("quantity"@, s.quantity)
                + req_entry("capital_gain"@, s.capital_gain)
                + req_entry("capital_gain_percent"@, s.capital_gain_percent)
                + req_entry("payout_gain"@, s.payout_gain)
                + req_entry("payout_gain_percent"@, s.payout_gain_percent)
                + req_entry("currency_gain"@, s.currency_gain)
                + req_entry("currency_gain_percent"@, s.currency_gain_percent)
                + req_entry("total_gain"@, s.total_gain)
                + req_entry("total_gain_percent"@, s.total_gain_percent),
        )
    }

    fn encode(&self) -> (r: JsonValue) {
        let mut o = JsonObj::new();
        o.put("id", &self.id);
        o.put("symbol", &self.symbol);
        o.put("instrument_id", &self.instrument_id);
        o.put("market", &self.market);
        o.put("_group_type_", &self._group_type_);
        o.put("grouping", &self.grouping);
        o.put("name", &self.name);
        o.put("value", &self.value);
        o.put("quantity", &self.quantity);
        o.put("capital_gain", &self.capital_gain);
        o.put("capital_gain_percent", &self.capital_gain_percent);
        o.put("payout_gain", &self.payout_gain);
        o.put("payout_gain_percent", &self.payout_gain_percent);
        o.put("currency_gain", &self.currency_gain);
        o.put("currency_gain_percent", &self.currency_gain_percent);
        o.put("total_gain", &self.total_gain);
        o.put("total_gain_percent", &self.total_gain_percent);
        o.finish()
    }
}

impl FromJson for PerformanceHoldingsSuccess {
    open spec fn decodable(v: Jv) -> bool {
        &&& v is Obj
        &&& req_field_ok::<String>(v, "id"@)
        &&& req_field_ok::<String>(v, "symbol"@)
        &&& req_field_ok::<String>(v, "instrument_id"@)
        &&& req_field_ok::<Market>(v, "market"@)
        &&& req_field_ok::<String>(v, "_group_type_"@)
        &&& req_field_ok::<String>(v, "grouping"@)
        &&& req_field_ok::<String>(v, "name"@)
        &&& req_field_ok::<Decimal>(v, "value"@)
        &&& req_field_ok::<Decimal>(v, "quantity"@)
        &&& req_field_ok::<Decimal>(v, "capital_gain"@)
        &&& req_field_ok::<Decimal>(v, "capital_gain_percent"@)
        &&& req_field_ok::<Decimal>(v, "payout_gain"@)
        &&& req_field_ok::<Decimal>(v, "payout_gain_percent"@)
        &&& req_field_ok::<Decimal>(v, "currency_gain"@)
        &&& req_field_ok::<Decimal>(v, "currency_gain_percent"@)
        &&& req_field_ok::<Decimal>(v, "total_gain"@)
        &&& req_field_ok::<Decimal>(v, "total_gain_percent"@)
    }

    open spec fn rel(v: Jv, s: Self) -> bool {
        &&& v is Obj
        &&& req_field_rel::<String>(v, "id"@, s.id)
        &&& req_field_rel::<String>(v, "symbol"@, s.symbol)
        &&& req_field_rel::<String>(v, "instrument_id"@, s.instrument_id)
        &&& req_field_rel::<Market>(v, "market"@, s.market)
        &&& req_field_rel::<String>(v, "_group_type_"@, s._group_type_)
        &&& req_field_rel::<String>(v, "grouping"@, s.grouping)
        &&& req_field_rel::<String>(v, "name"@, s.name)
        &&& req_field_rel::<Decimal>(v, "value"@, s.value)
        &&& req_field_rel::<Decimal>(v, "quantity"@, s.quantity)
        &&& req_field_rel::<Decimal>(v, "capital_gain"@, s.capital_gain)
        &&& req_field_rel::<Decimal>(v, "capital_gain_percent"@, s.capital_gain_percent)
        &&& req_field_rel::<Decimal>(v, "payout_gain"@, s.payout_gain)
        &&& req_field_rel::<Decimal>(v, "payout_gain_percent"@, s.payout_gain_percent)
        &&& req_field_rel::<Decimal>(v, "currency_gain"@, s.currency_gain)
        &&& req_field_rel::<Decimal>(v, "currency_gain_percent"@, s.currency_gain_percent)
        &&& req_field_rel::<Decimal>(v, "total_gain"@, s.total_gain)
        &&& req_field_rel::<Decimal>(v, "total_gain_percent"@, s.total_gain_percent)
    }

    fn decode(v: &JsonValue) -> (r: Result<Self, DecodeError>) {
        let id: String = match get_field(v, "id") {
            Ok(x) => x,
            Err(e) => {
                return Err(e);
            },
        };
        let symbol: String = match get_field(v, "symbol") {
            Ok(x) => x,
            Err(e) => {
                return Err(e);
            },
        };
        let instrument_id: String = match get_field(v, "instrument_id") {
            Ok(x) => x,
            Err(e) => {
                return Err(e);
            },
        };
        let market: Market = match get_field(v, "market") {
            Ok(x) => x,
            Err(e) => {
                return Err(e);
            },
        };
        let _group_type_: String = match get_field(v, "_group_type_") {
            Ok(x) => x,
            Err(e) => {
                return Err(e);
            },
        };
        let grouping: String = match get_field(v, "grouping") {
            Ok(x) => x,
            Err(e) => {
                return Err(e);
            },
        };
        let name: String = match get_field(v, "name") {
            Ok(x) => x,
            Err(e) => {
                return Err(e);
            },
        };
        let value: Decimal = match get_field(v, "value") {
            Ok(x) => x,
            Err(e) => {
                return Err(e);
            },
        };
        let quantity: Decimal = match get_field(v, "quantity") {
            Ok(x) => x,
            Err(e) => {
                return Err(e);
            },
        };
        let capital_gain: Decimal = match get_field(v, "capital_gain") {
            Ok(x) => x,
            Err(e) => {
                return Err(e);
            },
        };
        let capital_gain_percent: Decimal = match get_field(v, "capital_gain_percent") {
            Ok(x) => x,
            Err(e) => {
                return Err(e);
            },
        };
        let payout_gain: Decimal = match get_field(v, "payout_gain") {
            Ok(x) => x,
            Err(e) => {
                return Err(e);
            },
        };
        let payout_gain_percent: Decimal = match get_field(v, "payout_gain_percent") {
            Ok(x) => x,
            Err(e) => {
                return Err(e);
            },
        };
        let currency_gain: Decimal = match get_field(v, "currency_gain") {
            Ok(x) => x,
            Err(e) => {
                return Err(e);
            },
        };
        let currency_gain_percent: Decimal = match get_field(v, "currency_gain_percent") {
            Ok(x) => x,
            Err(e) => {
                return Err(e);
            },
        };
        let total_gain: Decimal = match get_field(v, "total_gain") {
            Ok(x) => x,
            Err(e) => {
                return Err(e);
            },
        };
        let total_gain_percent: Decimal = match get_field(v, "total_gain_percent") {
            Ok(x) => x,
            Err(e) => {
                return Err(e);
            },
        };
        Ok(PerformanceHoldingsSuccess { id, symbol, instrument_id, market, _group_type_, grouping, name, value, quantity, capital_gain, capital_gain_percent, payout_gain, payout_gain_percent, currency_gain, currency_gain_percent, total_gain, total_gain_percent })
    }
}

/// A nested response shape of [`Performance`].
#[derive(Debug, Clone, PartialEq)]
pub struct PerformanceCashAccountsSuccess {
    pub id: String,
    pub cash_account_id: String,
    pub name: String,
    pub value: Decimal,
    pub currency: Currency,
    pub currency_code: Currency,
}

impl ToJson for PerformanceCashAccountsSuccess {
    open spec fn enc(s: Self) -> Jv {
        Jv::Obj(
            Seq::<(Seq<char>, Jv)>::empty()
                + req_entry("id"@, s.id)
                + req_entry("cash_account_id"@, s.cash_account_id)
                + req_entry("name"@, s.name)
                + req_entry("value"@, s.value)
                + req_entry("currency"@, s.currency)
                + req_entry("currency_code"@, s.currency_code),
        )
    }

    fn encode(&self) -> (r: JsonValue) {
        let mut o = JsonObj::new();
        o.put("id", &self.id);
        o.put("cash_account_id", &self.cash_account_id);
        o.put("name", &self.name);
        o.put("value", &self.value);
        o.put("currency", &self.currency);
        o.put("currency_code", &self.currency_code);
        o.finish()
    }
}

impl FromJson for PerformanceCashAccountsSuccess {
    open spec fn decodable(v: Jv) -> bool {
        &&& v is Obj
        &&& req_field_ok::<String>(v, "id"@)
        &&& req_field_ok::<String>(v, "cash_account_id"@)
        &&& req_field_ok::<String>(v, "name"@)
        &&& req_field_ok::<Decimal>(v, "value"@)
        &&& req_field_ok::<Currency>(v, "currency"@)
        &&& req_field_ok::<Currency>(v, "currency_code"@)
    }

    open spec fn rel(v: Jv, s: Self) -> bool {
        &&& v is Obj
        &&& req_field_rel::<String>(v, "id"@, s.id)
        &&& req_field_rel::<String>(v, "cash_account_id"@, s.cash_account_id)
        &&& req_field_rel::<String>(v, "name"@, s.name)
        &&& req_field_rel::<Decimal>(v, "value"@, s.value)
        &&& req_field_rel::<Currency>(v, "currency"@, s.currency)
        &&& req_field_rel::<Currency>(v, "currency_code"@, s.currency_code)
    }

    fn decode(v: &JsonValue) -> (r: Result<Self, DecodeError>) {
        let id: String = match get_field(v, "id") {
            Ok(x) => x,
            Err(e) => {
                return Err(e);
            },
        };
        let cash_account_id: String = match get_field(v, "cash_account_id") {
            Ok(x) => x,
            Err(e) => {
                return Err(e);
            },
        };
        let name: String = match get_field(v, "name") {
            Ok(x) => x,
            Err(e) => {
                return Err(e);
            },
        };
        let value: Decimal = match get_field(v, "value") {
            Ok(x) => x,
            Err(e) => {
                return Err(e);
            },
        };
        let currency: Currency = match get_field(v, "currency") {
            Ok(x) => x,
            Err(e) => {
                return Err(e);
            },
        };
        let currency_code: Currency = match get_field(v, "currency_code") {
            Ok(x) => x,
            Err(e) => {
                return Err(e);
            },
        };
        Ok(PerformanceCashAccountsSuccess { id, cash_account_id, name, value, currency, currency_code })
    }
}

/// A nested response shape of [`Performance`].
#[derive(Debug, Clone, PartialEq)]
pub struct PerformanceSubTotalsSuccess {
    pub _group_type_: String,
    pub value: Decimal,
    pub capital_gain: Decimal,
    pub capital_gain_percent: Decimal,
    pub payout_gain: Decimal,
    pub payout_gain_percent: Decimal,
    pub currency_gain: Decimal,
    pub currency_gain_percent: Decimal,
    pub total_gain: Decimal,
    pub total_gain_percent: Decimal,
}

impl ToJson for PerformanceSubTotalsSuccess {
    open spec fn enc(s: Self) -> Jv {
        Jv::Obj(
            Seq::<(Seq<char>, Jv)>::empty()
                + req_entry("_group_type_"@, s._group_type_)
                + req_entry("value"@, s.value)
                + req_entry("capital_gain"@, s.capital_gain)
                + req_entry("capital_gain_percent"@, s.capital_gain_percent)
                + req_entry("payout_gain"@, s.payout_gain)
                + req_entry("payout_gain_percent"@, s.payout_gain_percent)
                + req_entry("currency_gain"@, s.currency_gain)
                + req_entry("currency_gain_percent"@, s.currency_gain_percent)
                + req_entry("total_gain"@, s.total_gain)
                + req_entry("total_gain_percent"@, s.total_gain_percent),
        )
    }

    fn encode(&self) -> (r: JsonValue) {
        let mut o = JsonObj::new();
        o.put("_group_type_", &self._group_type_);
        o.put("value", &self.value);
        o.put("capital_gain", &self.capital_gain);
        o.put("capital_gain_percent", &self.capital_gain_percent);
        o.put("payout_gain", &self.payout_gain);
        o.put("payout_gain_percent", &self.payout_gain_percent);
        o.put("currency_gain", &self.currency_gain);
        o.put("currency_gain_percent", &self.currency_gain_percent);
        o.put("total_gain", &self.total_gain);
        o.put("total_gain_percent", &self.total_gain_percent);
        o.finish()
    }
}

impl FromJson for PerformanceSubTotalsSuccess {
    open spec fn decodable(v: Jv) -> bool {
        &&& v is Obj
        &&& req_field_ok::<String>(v, "_group_type_"@)
        &&& req_field_ok::<Decimal>(v, "value"@)
        &&& req_field_ok::<Decimal>(v, "capital_gain"@)
        &&& req_field_ok::<Decimal>(v, "capital_gain_percent"@)
        &&& req_field_ok::<Decimal>(v, "payout_gain"@)
        &&& req_field_ok::<Decimal>(v, "payout_gain_percent"@)
        &&& req_field_ok::<Decimal>(v, "currency_gain"@)
        &&& req_field_ok::<Decimal>(v, "currency_gain_percent"@)
        &&& req_field_ok::<Decimal>(v, "total_gain"@)
        &&& req_field_ok::<Decimal>(v, "total_gain_percent"@)
    }

    open spec fn rel(v: Jv, s: Self) -> bool {
        &&& v is Obj
        &&& req_field_rel::<String>(v, "_group_type_"@, s._group_type_)
        &&& req_field_rel::<Decimal>(v, "value"@, s.value)
        &&& req_field_rel::<Decimal>(v, "capital_gain"@, s.capital_gain)
        &&& req_field_rel::<Decimal>(v, "capital_gain_percent"@, s.capital_gain_percent)
        &&& req_field_rel::<Decimal>(v, "payout_gain"@, s.payout_gain)
        &&& req_field_rel::<Decimal>(v, "payout_gain_percent"@, s.payout_gain_percent)
        &&& req_field_rel::<Decimal>(v, "currency_gain"@, s.currency_gain)
        &&& req_field_rel::<Decimal>(v, "currency_gain_percent"@, s.currency_gain_percent)
        &&& req_field_rel::<Decimal>(v, "total_gain"@, s.total_gain)
        &&& req_field_rel::<Decimal>(v, "total_gain_percent"@, s.total_gain_percent)
    }

    fn decode(v: &JsonValue) -> (r: Result<Self, DecodeError>) {
        let _group_type_: String = match get_field(v, "_group_type_") {
            Ok(x) => x,
            Err(e) => {
                return Err(e);
            },
        };
        let value: Decimal = match get_field(v, "value") {
            Ok(x) => x,
            Err(e) => {
                return Err(e);
            },
        };
        let capital_gain: Decimal = match get_field(v, "capital_gain") {
            Ok(x) => x,
            Err(e) => {
                return Err(e);
            },
        };
        let capital_gain_percent: Decimal = match get_field(v, "capital_gain_percent") {
            Ok(x) => x,
            Err(e) => {
                return Err(e);
            },
        };
        let payout_gain: Decimal = match get_field(v, "payout_gain") {
            Ok(x) => x,
            Err(e) => {
                return Err(e);
            },
        };
        let payout_gain_percent: Decimal = match get_field(v, "payout_gain_percent") {
            Ok(x) => x,
            Err(e) => {
                return Err(e);
            },
        };
        let currency_gain: Decimal = match get_field(v, "currency_gain") {
            Ok(x) => x,
            Err(e) => {
                return Err(e);
            },
        };
        let currency_gain_percent: Decimal = match get_field(v, "currency_gain_percent") {
            Ok(x) => x,
            Err(e) => {
                return Err(e);
            },
        };
        let total_gain: Decimal = match get_field(v, "total_gain") {
            Ok(x) => x,
            Err(e) => {
                return Err(e);
            },
        };
        let total_gain_percent: Decimal = match get_field(v, "total_gain_percent") {
            Ok(x) => x,
            Err(e) => {
                return Err(e);
            },
        };
        Ok(PerformanceSubTotalsSuccess { _group_type_, value, capital_gain, capital_gain_percent, payout_gain, payout_gain_percent, currency_gain, currency_gain_percent, total_gain, total_gain_percent })
    }
}

/// `GET /portfolios/:portfolio_id/unrealised_cgt.json`.
pub struct UnrealisedCgt;

/// The parameters of a [`UnrealisedCgt`] call, held for URL rendering.
pub struct UnrealisedCgtUrlDisplay<'a>(pub &'a UnrealisedCgtParameters);

impl<'a> UnrealisedCgtUrlDisplay<'a> {
    /// Renders the resolved URL path.
    pub fn render(&self) -> (r: String)
        ensures
            r@ == UnrealisedCgt::spec_url(*self.0),
    {
        UnrealisedCgt::url(self.0)
    }
}

impl UnrealisedCgt {
    /// The URL template of this endpoint.
    pub fn url_template() -> (r: &'static str)
        ensures
            r@ == "/portfolios/:portfolio_id/unrealised_cgt.json"@,
    {
        "/portfolios/:portfolio_id/unrealised_cgt.json"
    }

    /// The HTTP method of this endpoint.
    pub fn http_method() -> (r: ApiHttpMethod)
        ensures
            r == ApiHttpMethod::Get,
    {
        ApiHttpMethod::Get
    }

    /// The URL path that `p` resolves the template to.
    pub open spec fn spec_url(p: UnrealisedCgtParameters) -> Seq<char> {
        "/portfolios/"@ + spec_i64_string(p.portfolio_id as int) + "/unrealised_cgt.json"@
    }

    /// Resolves the URL template with the fields of `parameters`:
    /// plain decimal digits for integers, strings as they are.
    pub fn url(parameters: &UnrealisedCgtParameters) -> (r: String)
        ensures
            r@ == Self::spec_url(*parameters),
    {
        let mut s = "/portfolios/".to_owned();
        s.append(render_i64(parameters.portfolio_id).as_str());
        s.append("/unrealised_cgt.json");
        s
    }

    /// Wraps `parameters` for URL rendering.
    pub fn url_path<'a>(parameters: &'a UnrealisedCgtParameters) -> (r: UnrealisedCgtUrlDisplay<'a>)
        ensures
            r.0 == parameters,
    {
        UnrealisedCgtUrlDisplay(parameters)
    }

    /// Decodes a success payload, naming this endpoint in any
    /// failure.
    pub fn decode_success(v: &JsonValue) -> (r: Result<UnrealisedCgtSuccess, DecodeError>)
        ensures
            r matches Ok(s) ==> <UnrealisedCgtSuccess as FromJson>::decodable(v@)
                && <UnrealisedCgtSuccess as FromJson>::rel(v@, s),
            <UnrealisedCgtSuccess as FromJson>::decodable(v@) ==> r is Ok,
            r matches Err(e) ==> spec_starts_with(e.path@, "UnrealisedCgt"@),
    {
        match UnrealisedCgtSuccess::decode(v) {
            Ok(s) => Ok(s),
            Err(e) => Err(e.in_endpoint("UnrealisedCgt")),
        }
    }
}

/// The parameters of a [`UnrealisedCgt`] call.
#[derive(Debug, Clone, PartialEq)]
pub struct UnrealisedCgtParameters {
    pub portfolio_id: i64,
    pub balance_date: Date,
}

impl ToJson for UnrealisedCgtParameters {
    open spec fn enc(s: Self) -> Jv {
        Jv::Obj(
            Seq::<(Seq<char>, Jv)>::empty()
                + req_entry("portfolio_id"@, s.portfolio_id)
                + req_entry("balance_date"@, s.balance_date),
        )
    }

    fn encode(&self) -> (r: JsonValue) {
        let mut o = JsonObj::new();
        o.put("portfolio_id", &self.portfolio_id);
        o.put("balance_date", &self.balance_date);
        o.finish()
    }
}

impl FromJson for UnrealisedCgtParameters {
    open spec fn decodable(v: Jv) -> bool {
        &&& v is Obj
        &&& req_field_ok::<i64>(v, "portfolio_id"@)
        &&& req_field_ok::<Date>(v, "balance_date"@)
    }

    open spec fn rel(v: Jv, s: Self) -> bool {
        &&& v is Obj
        &&& req_field_rel::<i64>(v, "portfolio_id"@, s.portfolio_id)
        &&& req_field_rel::<Date>(v, "balance_date"@, s.balance_date)
    }

    fn decode(v: &JsonValue) -> (r: Result<Self, DecodeError>) {
        let portfolio_id: i64 = match get_field(v, "portfolio_id") {
            Ok(x) => x,
            Err(e) => {
                return Err(e);
            },
        };
        let balance_date: Date = match get_field(v, "balance_date") {
            Ok(x) => x,
            Err(e) => {
                return Err(e);
            },
        };
        Ok(UnrealisedCgtParameters { portfolio_id, balance_date })
    }
}

/// The success response of a [`UnrealisedCgt`] call.
#[derive(Debug, Clone, PartialEq)]
pub struct UnrealisedCgtSuccess {
    pub unrealised_short_term_gains: Decimal,
    pub unrealised_long_term_gains: Decimal,
    pub unrealised_losses: Decimal,
    pub cgt_concession_rate: Decimal,
    pub unrealised_cgt_concession_amount: Decimal,
    pub market_value: Decimal,
    pub unrealised_tax_gain_loss: Decimal,
    pub short_term_parcels: Vec<UnrealisedCgtShortTermParcelsSuccess>,
    pub long_term_parcels: Vec<UnrealisedCgtLongTermParcelsSuccess>,
    pub losses: Vec<UnrealisedCgtLossesSuccess>,
    pub balance_date: Date,
    pub portfolio_id: i64,
}

impl ToJson for UnrealisedCgtSuccess {
    open spec fn enc(s: Self) -> Jv {
        Jv::Obj(
            Seq::<(Seq<char>, Jv)>::empty()
                + req_entry("unrealised_short_term_gains"@, s.unrealised_short_term_gains)
                + req_entry("unrealised_long_term_gains"@, s.unrealised_long_term_gains)
                + req_entry("unrealised_losses"@, s.unrealised_losses)
                + req_entry("cgt_concession_rate"@, s.cgt_concession_rate)
                + req_entry("unrealised_cgt_concession_amount"@, s.unrealised_cgt_concession_amount)
                + req_entry("market_value"@, s.market_value)
                + req_entry("unrealised_tax_gain_loss"@, s.unrealised_tax_gain_loss)
                + req_entry("short_term_parcels"@, s.short_term_parcels)
                + req_entry("long_term_parcels"@, s.long_term_parcels)
                + req_entry("losses"@, s.losses)
                + req_entry("balance_date"@, s.balance_date)
                + req_entry("portfolio_id"@, s.portfolio_id),
        )
    }

    fn encode(&self) -> (r: JsonValue) {
        let mut o = JsonObj::new();
        o.put("unrealised_short_term_gains", &self.unrealised_short_term_gains);
        o.put("unrealised_long_term_gains", &self.unrealised_long_term_gains);
        o.put("unrealised_losses", &self.unrealised_losses);
        o.put("cgt_concession_rate", &self.cgt_concession_rate);
        o.put("unrealised_cgt_concession_amount", &self.unrealised_cgt_concession_amount);
        o.put("market_value", &self.market_value);
        o.put("unrealised_tax_gain_loss", &self.unrealised_tax_gain_loss);
        o.put("short_term_parcels", &self.short_term_parcels);
        o.put("long_term_parcels", &self.long_term_parcels);
        o.put("losses", &self.losses);
        o.put("balance_date", &self.balance_date);
        o.put("portfolio_id", &self.portfolio_id);
        o.finish()
    }
}

impl FromJson for UnrealisedCgtSuccess {
    open spec fn decodable(v: Jv) -> bool {
        &&& v is Obj
        &&& req_field_ok::<Decimal>(v, "unrealised_short_term_gains"@)
        &&& req_field_ok::<Decimal>(v, "unrealised_long_term_gains"@)
        &&& req_field_ok::<Decimal>(v, "unrealised_losses"@)
        &&& req_field_ok::<Decimal>(v, "cgt_concession_rate"@)
        &&& req_field_ok::<Decimal>(v, "unrealised_cgt_concession_amount"@)
        &&& req_field_ok::<Decimal>(v, "market_value"@)
        &&& req_field_ok::<Decimal>(v, "unrealised_tax_gain_loss"@)
        &&& req_field_ok::<Vec<UnrealisedCgtShortTermParcelsSuccess>>(v, "short_term_parcels"@)
        &&& req_field_ok::<Vec<UnrealisedCgtLongTermParcelsSuccess>>(v, "long_term_parcels"@)
        &&& req_field_ok::<Vec<UnrealisedCgtLossesSuccess>>(v, "losses"@)
        &&& req_field_ok::<Date>(v, "balance_date"@)
        &&& req_field_ok::<i64>(v, "portfolio_id"@)
    }

    open spec fn rel(v: Jv, s: Self) -> bool {
        &&& v is Obj
        &&& req_field_rel::<Decimal>(v, "unrealised_short_term_gains"@, s.unrealised_short_term_gains)
        &&& req_field_rel::<Decimal>(v, "unrealised_long_term_gains"@, s.unrealised_long_term_gains)
        &&& req_field_rel::<Decimal>(v, "unrealised_losses"@, s.unrealised_losses)
        &&& req_field_rel::<Decimal>(v, "cgt_concession_rate"@, s.cgt_concession_rate)
        &&& req_field_rel::<Decimal>(v, "unrealised_cgt_concession_amount"@, s.unrealised_cgt_concession_amount)
        &&& req_field_rel::<Decimal>(v, "market_value"@, s.market_value)
        &&& req_field_rel::<Decimal>(v, "unrealised_tax_gain_loss"@, s.unrealised_tax_gain_loss)
        &&& req_field_rel::<Vec<UnrealisedCgtShortTermParcelsSuccess>>(v, "short_term_parcels"@, s.short_term_parcels)
        &&& req_field_rel::<Vec<UnrealisedCgtLongTermParcelsSuccess>>(v, "long_term_parcels"@, s.long_term_parcels)
        &&& req_field_rel::<Vec<UnrealisedCgtLossesSuccess>>(v, "losses"@, s.losses)
        &&& req_field_rel::<Date>(v, "balance_date"@, s.balance_date)
        &&& req_field_rel::<i64>(v, "portfolio_id"@, s.portfolio_id)
    }

    fn decode(v: &JsonValue) -> (r: Result<Self, DecodeError>) {
        let unrealised_short_term_gains: Decimal = match get_field(v, "unrealised_short_term_gains") {
            Ok(x) => x,
            Err(e) => {
                return Err(e);
            },
        };
        let unrealised_long_term_gains: Decimal = match get_field(v, "unrealised_long_term_gains") {
            Ok(x) => x,
            Err(e) => {
                return Err(e);
            },
        };
        let unrealised_losses: Decimal = match get_field(v, "unrealised_losses") {
            Ok(x) => x,
            Err(e) => {
                return Err(e);
            },
        };
        let cgt_concession_rate: Decimal = match get_field(v, "cgt_concession_rate") {
            Ok(x) => x,
            Err(e) => {
                return Err(e);
            },
        };
        let unrealised_cgt_concession_amount: Decimal = match get_field(v, "unrealised_cgt_concession_amount") {
            Ok(x) => x,
            Err(e) => {
                return Err(e);
            },
        };
        let market_value: Decimal = match get_field(v, "market_value") {
            Ok(x) => x,
            Err(e) => {
                return Err(e);
            },
        };
        let unrealised_tax_gain_loss: Decimal = match get_field(v, "unrealised_tax_gain_loss") {
            Ok(x) => x,
            Err(e) => {
                return Err(e);
            },
        };
        let short_term_parcels: Vec<UnrealisedCgtShortTermParcelsSuccess> = match get_field(v, "short_term_parcels") {
            Ok(x) => x,
            Err(e) => {
                return Err(e);
            },
        };
        let long_term_parcels: Vec<UnrealisedCgtLongTermParcelsSuccess> = match get_field(v, "long_term_parcels") {
            Ok(x) => x,
            Err(e) => {
                return Err(e);
            },
        };
        let losses: Vec<UnrealisedCgtLossesSuccess> = match get_field(v, "losses") {
            Ok(x) => x,
            Err(e) => {
                return Err(e);
            },
        };
        let balance_date: Date = match get_field(v, "balance_date") {
            Ok(x) => x,
            Err(e) => {
                return Err(e);
            },
        };
        let portfolio_id: i64 = match get_field(v, "portfolio_id") {
            Ok(x) => x,
            Err(e) => {
                return Err(e);
            },
        };
        Ok(UnrealisedCgtSuccess { unrealised_short_term_gains, unrealised_long_term_gains, unrealised_losses, cgt_concession_rate, unrealised_cgt_concession_amount, market_value, unrealised_tax_gain_loss, short_term_parcels, long_term_parcels, losses, balance_date, portfolio_id })
    }
}

/// A nested response shape of [`UnrealisedCgt`].
#[derive(Debug, Clone, PartialEq)]
pub struct UnrealisedCgtShortTermParcelsSuccess {
    pub market: Market,
    pub symbol: String,
    pub name: String,
    pub allocation_method: String,
    pub purchase_date: Date,
    pub quantity: Decimal,
    pub cost_base: Decimal,
    pub market_value: Decimal,
    pub unrealised_gain: Decimal,
}

impl ToJson for UnrealisedCgtShortTermParcelsSuccess {
    open spec fn enc(s: Self) -> Jv {
        Jv::Obj(
            Seq::<(Seq<char>, Jv)>::empty()
                + req_entry("market"@, s.market)
                + req_entry("symbol"@, s.symbol)
                + req_entry("name"@, s.name)
                + req_entry("allocation_method"@, s.allocation_method)
                + req_entry("purchase_date"@, s.purchase_date)
                + req_entry("quantity"@, s.quantity)
                + req_entry("cost_base"@, s.cost_base)
                + req_entry("market_value"@, s.market_value)
                + req_entry("unrealised_gain"@, s.unrealised_gain),
        )
    }

    fn encode(&self) -> (r: JsonValue) {
        let mut o = JsonObj::new();
        o.put("market", &self.market);
        o.put("symbol", &self.symbol);
        o.put("name", &self.name);
        o.put("allocation_method", &self.allocation_method);
        o.put("purchase_date", &self.purchase_date);
        o.put("quantity", &self.quantity);
        o.put("cost_base", &self.cost_base);
        o.put("market_value", &self.market_value);
        o.put("unrealised_gain", &self.unrealised_gain);
        o.finish()
    }
}

impl FromJson for UnrealisedCgtShortTermParcelsSuccess {
    open spec fn decodable(v: Jv) -> bool {
        &&& v is Obj
        &&& req_field_ok::<Market>(v, "market"@)
        &&& req_field_ok::<String>(v, "symbol"@)
        &&& req_field_ok::<String>(v, "name"@)
        &&& req_field_ok::<String>(v, "allocation_method"@)
        &&& req_field_ok::<Date>(v, "purchase_date"@)
        &&& req_field_ok::<Decimal>(v, "quantity"@)
        &&& req_field_ok::<Decimal>(v, "cost_base"@)
        &&& req_field_ok::<Decimal>(v, "market_value"@)
        &&& req_field_ok::<Decimal>(v, "unrealised_gain"@)
    }

    open spec fn rel(v: Jv, s: Self) -> bool {
        &&& v is Obj
        &&& req_field_rel::<Market>(v, "market"@, s.market)
        &&& req_field_rel::<String>(v, "symbol"@, s.symbol)
        &&& req_field_rel::<String>(v, "name"@, s.name)
        &&& req_field_rel::<String>(v, "allocation_method"@, s.allocation_method)
        &&& req_field_rel::<Date>(v, "purchase_date"@, s.purchase_date)
        &&& req_field_rel::<Decimal>(v, "quantity"@, s.quantity)
        &&& req_field_rel::<Decimal>(v, "cost_base"@, s.cost_base)
        &&& req_field_rel::<Decimal>(v, "market_value"@, s.market_value)
        &&& req_field_rel::<Decimal>(v, "unrealised_gain"@, s.unrealised_gain)
    }

    fn decode(v: &JsonValue) -> (r: Result<Self, DecodeError>) {
        let market: Market = match get_field(v, "market") {
            Ok(x) => x,
            Err(e) => {
                return Err(e);
            },
        };
        let symbol: String = match get_field(v, "symbol") {
            Ok(x) => x,
            Err(e) => {
                return Err(e);
            },
        };
        let name: String = match get_field(v, "name") {
            Ok(x) => x,
            Err(e) => {
                return Err(e);
            },
        };
        let allocation_method: String = match get_field(v, "allocation_method") {
            Ok(x) => x,
            Err(e) => {
                return Err(e);
            },
        };
        let purchase_date: Date = match get_field(v, "purchase_date") {
            Ok(x) => x,
            Err(e) => {
                return Err(e);
            },
        };
        let quantity: Decimal = match get_field(v, "quantity") {
            Ok(x) => x,
            Err(e) => {
                return Err(e);
            },
        };
        let cost_base: Decimal = match get_field(v, "cost_base") {
            Ok(x) => x,
            Err(e) => {
                return Err(e);
            },
        };
        let market_value: Decimal = match get_field(v, "market_value") {
            Ok(x) => x,
            Err(e) => {
                return Err(e);
            },
        };
        let unrealised_gain: Decimal = match get_field(v, "unrealised_gain") {
            Ok(x) => x,
            Err(e) => {
                return Err(e);
            },
        };
        Ok(UnrealisedCgtShortTermParcelsSuccess { market, symbol, name, allocation_method, purchase_date, quantity, cost_base, market_value, unrealised_gain })
    }
}

/// A nested response shape of [`UnrealisedCgt`].
#[derive(Debug, Clone, PartialEq)]
pub struct UnrealisedCgtLongTermParcelsSuccess {
    pub market: Market,
    pub symbol: String,
    pub name: String,
    pub allocation_method: String,
    pub purchase_date: Date,
    pub quantity: Decimal,
    pub cost_base: Decimal,
    pub market_value: Decimal,
    pub unrealised_gain: Decimal,
}

impl ToJson for UnrealisedCgtLongTermParcelsSuccess {
    open spec fn enc(s: Self) -> Jv {
        Jv::Obj(
            Seq::<(Seq<char>, Jv)>::empty()
                + req_entry("market"@, s.market)
                + req_entry("symbol"@, s.symbol)
                + req_entry("name"@, s.name)
                + req_entry("allocation_method"@, s.allocation_method)
                + req_entry("purchase_date"@, s.purchase_date)
                + req_entry("quantity"@, s.quantity)
                + req_entry("cost_base"@, s.cost_base)
                + req_entry("market_value"@, s.market_value)
                + req_entry("unrealised_gain"@, s.unrealised_gain),
        )
    }

    fn encode(&self) -> (r: JsonValue) {
        let mut o = JsonObj::new();
        o.put("market", &self.market);
        o.put("symbol", &self.symbol);
        o.put("name", &self.name);
        o.put("allocation_method", &self.allocation_method);
        o.put("purchase_date", &self.purchase_date);
        o.put("quantity", &self.quantity);
        o.put("cost_base", &self.cost_base);
        o.put("market_value", &self.market_value);
        o.put("unrealised_gain", &self.unrealised_gain);
        o.finish()
    }
}

impl FromJson for UnrealisedCgtLongTermParcelsSuccess {
    open spec fn decodable(v: Jv) -> bool {
        &&& v is Obj
        &&& req_field_ok::<Market>(v, "market"@)
        &&& req_field_ok::<String>(v, "symbol"@)
        &&& req_field_ok::<String>(v, "name"@)
        &&& req_field_ok::<String>(v, "allocation_method"@)
        &&& req_field_ok::<Date>(v, "purchase_date"@)
        &&& req_field_ok::<Decimal>(v, "quantity"@)
        &&& req_field_ok::<Decimal>(v, "cost_base"@)
        &&& req_field_ok::<Decimal>(v, "market_value"@)
        &&& req_field_ok::<Decimal>(v, "unrealised_gain"@)
    }

    open spec fn rel(v: Jv, s: Self) -> bool {
        &&& v is Obj
        &&& req_field_rel::<Market>(v, "market"@, s.market)
        &&& req_field_rel::<String>(v, "symbol"@, s.symbol)
        &&& req_field_rel::<String>(v, "name"@, s.name)
        &&& req_field_rel::<String>(v, "allocation_method"@, s.allocation_method)
        &&& req_field_rel::<Date>(v, "purchase_date"@, s.purchase_date)
        &&& req_field_rel::<Decimal>(v, "quantity"@, s.quantity)
        &&& req_field_rel::<Decimal>(v, "cost_base"@, s.cost_base)
        &&& req_field_rel::<Decimal>(v, "market_value"@, s.market_value)
        &&& req_field_rel::<Decimal>(v, "unrealised_gain"@, s.unrealised_gain)
    }

    fn decode(v: &JsonValue) -> (r: Result<Self, DecodeError>) {
        let market: Market = match get_field(v, "market") {
            Ok(x) => x,
            Err(e) => {
                return Err(e);
            },
        };
        let symbol: String = match get_field(v, "symbol") {
            Ok(x) => x,
            Err(e) => {
                return Err(e);
            },
        };
        let name: String = match get_field(v, "name") {
            Ok(x) => x,
            Err(e) => {
                return Err(e);
            },
        };
        let allocation_method: String = match get_field(v, "allocation_method") {
            Ok(x) => x,
            Err(e) => {
                return Err(e);
            },
        };
        let purchase_date: Date = match get_field(v, "purchase_date") {
            Ok(x) => x,
            Err(e) => {
                return Err(e);
            },
        };
        let quantity: Decimal = match get_field(v, "quantity") {
            Ok(x) => x,
            Err(e) => {
                return Err(e);
            },
        };
        let cost_base: Decimal = match get_field(v, "cost_base") {
            Ok(x) => x,
            Err(e) => {
                return Err(e);
            },
        };
        let market_value: Decimal = match get_field(v, "market_value") {
            Ok(x) => x,
            Err(e) => {
                return Err(e);
            },
        };
        let unrealised_gain: Decimal = match get_field(v, "unrealised_gain") {
            Ok(x) => x,
            Err(e) => {
                return Err(e);
            },
        };
        Ok(UnrealisedCgtLongTermParcelsSuccess { market, symbol, name, allocation_method, purchase_date, quantity, cost_base, market_value, unrealised_gain })
    }
}

/// A nested response shape of [`UnrealisedCgt`].
#[derive(Debug, Clone, PartialEq)]
pub struct UnrealisedCgtLossesSuccess {
    pub market: Market,
    pub symbol: String,
    pub name: String,
    pub allocation_method: String,
    pub purchase_date: Date,
    pub quantity: Decimal,
    pub cost_base: Decimal,
    pub market_value: Decimal,
    pub unrealised_gain: Decimal,
}

impl ToJson for UnrealisedCgtLossesSuccess {
    open spec fn enc(s: Self) -> Jv {
        Jv::Obj(
            Seq::<(Seq<char>, Jv)>::empty()
                + req_entry("market"@, s.market)
                + req_entry("symbol"@, s.symbol)
                + req_entry("name"@, s.name)
                + req_entry("allocation_method"@, s.allocation_method)
                + req_entry("purchase_date"@, s.purchase_date)
                + req_entry("quantity"@, s.quantity)
                + req_entry("cost_base"@, s.cost_base)
                + req_entry("market_value"@, s.market_value)
                + req_entry("unrealised_gain"@, s.unrealised_gain),
        )
    }

    fn encode(&self) -> (r: JsonValue) {
        let mut o = JsonObj::new();
        o.put("market", &self.market);
        o.put("symbol", &self.symbol);
        o.put("name", &self.name);
        o.put("allocation_method", &self.allocation_method);
        o.put("purchase_date", &self.purchase_date);
        o.put("quantity", &self.quantity);
        o.put("cost_base", &self.cost_base);
        o.put("market_value", &self.market_value);
        o.put("unrealised_gain", &self.unrealised_gain);
        o.finish()
    }
}

impl FromJson for UnrealisedCgtLossesSuccess {
    open spec fn decodable(v: Jv) -> bool {
        &&& v is Obj
        &&& req_field_ok::<Market>(v, "market"@)
        &&& req_field_ok::<String>(v, "symbol"@)
        &&& req_field_ok::<String>(v, "name"@)
        &&& req_field_ok::<String>(v, "allocation_method"@)
        &&& req_field_ok::<Date>(v, "purchase_date"@)
        &&& req_field_ok::<Decimal>(v, "quantity"@)
        &&& req_field_ok::<Decimal>(v, "cost_base"@)
        &&& req_field_ok::<Decimal>(v, "market_value"@)
        &&& req_field_ok::<Decimal>(v, "unrealised_gain"@)
    }

    open spec fn rel(v: Jv, s: Self) -> bool {
        &&& v is Obj
        &&& req_field_rel::<Market>(v, "market"@, s.market)
        &&& req_field_rel::<String>(v, "symbol"@, s.symbol)
        &&& req_field_rel::<String>(v, "name"@, s.name)
        &&& req_field_rel::<String>(v, "allocation_method"@, s.allocation_method)
        &&& req_field_rel::<Date>(v, "purchase_date"@, s.purchase_date)
        &&& req_field_rel::<Decimal>(v, "quantity"@, s.quantity)
        &&& req_field_rel::<Decimal>(v, "cost_base"@, s.cost_base)
        &&& req_field_rel::<Decimal>(v, "market_value"@, s.market_value)
        &&& req_field_rel::<Decimal>(v, "unrealised_gain"@, s.unrealised_gain)
    }

    fn decode(v: &JsonValue) -> (r: Result<Self, DecodeError>) {
        let market: Market = match get_field(v, "market") {
            Ok(x) => x,
            Err(e) => {
                return Err(e);
            },
        };
        let symbol: String = match get_field(v, "symbol") {
            Ok(x) => x,
            Err(e) => {
                return Err(e);
            },
        };
        let name: String = match get_field(v, "name") {
            Ok(x) => x,
            Err(e) => {
                return Err(e);
            },
        };
        let allocation_method: String = match get_field(v, "allocation_method") {
            Ok(x) => x,
            Err(e) => {
                return Err(e);
            },
        };
        let purchase_date: Date = match get_field(v, "purchase_date") {
            Ok(x) => x,
            Err(e) => {
                return Err(e);
            },
        };
        let quantity: Decimal = match get_field(v, "quantity") {
            Ok(x) => x,
            Err(e) => {
                return Err(e);
            },
        };
        let cost_base: Decimal = match get_field(v, "cost_base") {
            Ok(x) => x,
            Err(e) => {
                return Err(e);
            },
        };
        let market_value: Decimal = match get_field(v, "market_value") {
            Ok(x) => x,
            Err(e) => {
                return Err(e);
            },
        };
        let unrealised_gain: Decimal = match get_field(v, "unrealised_gain") {
            Ok(x) => x,
            Err(e) => {
                return Err(e);
            },
        };
        Ok(UnrealisedCgtLossesSuccess { market, symbol, name, allocation_method, purchase_date, quantity, cost_base, market_value, unrealised_gain })
    }
}

/// `GET /portfolios/:portfolio_id/valuation.json`.
pub struct Valuation;

/// The parameters of a [`Valuation`] call, held for URL rendering.
pub struct ValuationUrlDisplay<'a>(pub &'a ValuationParameters);

impl<'a> ValuationUrlDisplay<'a> {
    /// Renders the resolved URL path.
    pub fn render(&self) -> (r: String)
        ensures
            r@ == Valuation::spec_url(*self.0),
    {
        Valuation::url(self.0)
    }
}

impl Valuation {
    /// The URL template of this endpoint.
    pub fn url_template() -> (r: &'static str)
        ensures
            r@ == "/portfolios/:portfolio_id/valuation.json"@,
    {
        "/portfolios/:portfolio_id/valuation.json"
    }

    /// The HTTP method of this endpoint.
    pub fn http_method() -> (r: ApiHttpMethod)
        ensures
            r == ApiHttpMethod::Get,
    {
        ApiHttpMethod::Get
    }

    /// The URL path that `p` resolves the template to.
    pub open spec fn spec_url(p: ValuationParameters) -> Seq<char> {
        "/portfolios/"@ + spec_i64_string(p.portfolio_id as int) + "/valuation.json"@
    }

    /// Resolves the URL template with the fields of `parameters`:
    /// plain decimal digits for integers, strings as they are.
    pub fn url(parameters: &ValuationParameters) -> (r: String)
        ensures
            r@ == Self::spec_url(*parameters),
    {
        let mut s = "/portfolios/".to_owned();
        s.append(render_i64(parameters.portfolio_id).as_str());
        s.append("/valuation.json");
        s
    }

    /// Wraps `parameters` for URL rendering.
    pub fn url_path<'a>(parameters: &'a ValuationParameters) -> (r: ValuationUrlDisplay<'a>)
        ensures
            r.0 == parameters,
    {
        ValuationUrlDisplay(parameters)
    }

    /// Decodes a success payload, naming this endpoint in any
    /// failure.
    pub fn decode_success(v: &JsonValue) -> (r: Result<ValuationSuccess, DecodeError>)
        ensures
            r matches Ok(s) ==> <ValuationSuccess as FromJson>::decodable(v@)
                && <ValuationSuccess as FromJson>::rel(v@, s),
            <ValuationSuccess as FromJson>::decodable(v@) ==> r is Ok,
            r matches Err(e) ==> spec_starts_with(e.path@, "Valuation"@),
    {
        match ValuationSuccess::decode(v) {
            Ok(s) => Ok(s),
            Err(e) => Err(e.in_endpoint("Valuation")),
        }
    }
}

/// The parameters of a [`Valuation`] call.
#[derive(Debug, Clone, PartialEq)]
pub struct ValuationParameters {
    pub balance_date: Option<Date>,
    pub portfolio_id: i64,
    pub consolidated: Option<bool>,
    pub include_sales: Option<bool>,
    pub grouping: Option<String>,
    pub custom_group_id: Option<i64>,
}

impl ToJson for ValuationParameters {
    open spec fn enc(s: Self) -> Jv {
        Jv::Obj(
            Seq::<(Seq<char>, Jv)>::empty()
                + opt_entry("balance_date"@, s.balance_date)
                + req_entry("portfolio_id"@, s.portfolio_id)
                + opt_entry("consolidated"@, s.consolidated)
                + opt_entry("include_sales"@, s.include_sales)
                + opt_entry("grouping"@, s.grouping)
                + opt_entry("custom_group_id"@, s.custom_group_id),
        )
    }

    fn encode(&self) -> (r: JsonValue) {
        let mut o = JsonObj::new();
        o.put_opt("balance_date", &self.balance_date);
        o.put("portfolio_id", &self.portfolio_id);
        o.put_opt("consolidated", &self.consolidated);
        o.put_opt("include_sales", &self.include_sales);
        o.put_opt("grouping", &self.grouping);
        o.put_opt("custom_group_id", &self.custom_group_id);
        o.finish()
    }
}

impl FromJson for ValuationParameters {
    open spec fn decodable(v: Jv) -> bool {
        &&& v is Obj
        &&& opt_field_ok::<Date>(v, "balance_date"@)
        &&& req_field_ok::<i64>(v, "portfolio_id"@)
        &&& opt_field_ok::<bool>(v, "consolidated"@)
        &&& opt_field_ok::<bool>(v, "include_sales"@)
        &&& opt_field_ok::<String>(v, "grouping"@)
        &&& opt_field_ok::<i64>(v, "custom_group_id"@)
    }

    open spec fn rel(v: Jv, s: Self) -> bool {
        &&& v is Obj
        &&& opt_field_rel::<Date>(v, "balance_date"@, s.balance_date)
        &&& req_field_rel::<i64>(v, "portfolio_id"@, s.portfolio_id)
        &&& opt_field_rel::<bool>(v, "consolidated"@, s.consolidated)
        &&& opt_field_rel::<bool>(v, "include_sales"@, s.include_sales)
        &&& opt_field_rel::<String>(v, "grouping"@, s.grouping)
        &&& opt_field_rel::<i64>(v, "custom_group_id"@, s.custom_group_id)
    }

    fn decode(v: &JsonValue) -> (r: Result<Self, DecodeError>) {
        let balance_date: Option<Date> = match get_opt_field(v, "balance_date") {
            Ok(x) => x,
            Err(e) => {
                return Err(e);
            },
        };
        let portfolio_id: i64 = match get_field(v, "portfolio_id") {
            Ok(x) => x,
            Err(e) => {
                return Err(e);
            },
        };
        let consolidated: Option<bool> = match get_opt_field(v, "consolidated") {
            Ok(x) => x,
            Err(e) => {
                return Err(e);
            },
        };
        let include_sales: Option<bool> = match get_opt_field(v, "include_sales") {
            Ok(x) => x,
            Err(e) => {
                return Err(e);
            },
        };
        let grouping: Option<String> = match get_opt_field(v, "grouping") {
            Ok(x) => x,
            Err(e) => {
                return Err(e);
            },
        };
        let custom_group_id: Option<i64> = match get_opt_field(v, "custom_group_id") {
            Ok(x) => x,
            Err(e) => {
                return Err(e);
            },
        };
        Ok(ValuationParameters { balance_date, portfolio_id, consolidated, include_sales, grouping, custom_group_id })
    }
}

/// The success response of a [`Valuation`] call.
#[derive(Debug, Clone, PartialEq)]
pub struct ValuationSuccess {
    pub id: String,
    pub balance_date: Date,
    pub portfolio_id: String,
    pub grouping: String,
    pub custom_group_id: String,
    pub value: Decimal,
    pub holdings: Vec<ValuationHoldingsSuccess>,
    pub cash_accounts: Vec<ValuationCashAccountsSuccess>,
    pub sub_totals: Vec<ValuationSubTotalsSuccess>,
}

impl ToJson for ValuationSuccess {
    open spec fn enc(s: Self) -> Jv {
        Jv::Obj(
            Seq::<(Seq<char>, Jv)>::empty()
                + req_entry("id"@, s.id)
                + req_entry("balance_date"@, s.balance_date)
                + req_entry("portfolio_id"@, s.portfolio_id)
                + req_entry("grouping"@, s.grouping)
                + req_entry("custom_group_id"@, s.custom_group_id)
                + req_entry("value"@, s.value)
                + req_entry("holdings"@, s.holdings)
                + req_entry("cash_accounts"@, s.cash_accounts)
                + req_entry("sub_totals"@, s.sub_totals),
        )
    }

    fn encode(&self) -> (r: JsonValue) {
        let mut o = JsonObj::new();
        o.put("id", &self.id);
        o.put("balance_date", &self.balance_date);
        o.put("portfolio_id", &self.portfolio_id);
        o.put("grouping", &self.grouping);
        o.put("custom_group_id", &self.custom_group_id);
        o.put("value", &self.value);
        o.put("holdings", &self.holdings);
        o.put("cash_accounts", &self.cash_accounts);
        o.put("sub_totals", &self.sub_totals);
        o.finish()
    }
}

impl FromJson for ValuationSuccess {
    open spec fn decodable(v: Jv) -> bool {
        &&& v is Obj
        &&& req_field_ok::<String>(v, "id"@)
        &&& req_field_ok::<Date>(v, "balance_date"@)
        &&& req_field_ok::<String>(v, "portfolio_id"@)
        &&& req_field_ok::<String>(v, "grouping"@)
        &&& req_field_ok::<String>(v, "custom_group_id"@)
        &&& req_field_ok::<Decimal>(v, "value"@)
        &&& req_field_ok::<Vec<ValuationHoldingsSuccess>>(v, "holdings"@)
        &&& req_field_ok::<Vec<ValuationCashAccountsSuccess>>(v, "cash_accounts"@)
        &&& req_field_ok::<Vec<ValuationSubTotalsSuccess>>(v, "sub_totals"@)
    }

    open spec fn rel(v: Jv, s: Self) -> bool {
        &&& v is Obj
        &&& req_field_rel::<String>(v, "id"@, s.id)
        &&& req_field_rel::<Date>(v, "balance_date"@, s.balance_date)
        &&& req_field_rel::<String>(v, "portfolio_id"@, s.portfolio_id)
        &&& req_field_rel::<String>(v, "grouping"@, s.grouping)
        &&& req_field_rel::<String>(v, "custom_group_id"@, s.custom_group_id)
        &&& req_field_rel::<Decimal>(v, "value"@, s.value)
        &&& req_field_rel::<Vec<ValuationHoldingsSuccess>>(v, "holdings"@, s.holdings)
        &&& req_field_rel::<Vec<ValuationCashAccountsSuccess>>(v, "cash_accounts"@, s.cash_accounts)
        &&& req_field_rel::<Vec<ValuationSubTotalsSuccess>>(v, "sub_totals"@, s.sub_totals)
    }

    fn decode(v: &JsonValue) -> (r: Result<Self, DecodeError>) {
        let id: String = match get_field(v, "id") {
            Ok(x) => x,
            Err(e) => {
                return Err(e);
            },
        };
        let balance_date: Date = match get_field(v, "balance_date") {
            Ok(x) => x,
            Err(e) => {
                return Err(e);
            },
        };
        let portfolio_id: String = match get_field(v, "portfolio_id") {
            Ok(x) => x,
            Err(e) => {
                return Err(e);
            },
        };
        let grouping: String = match get_field(v, "grouping") {
            Ok(x) => x,
            Err(e) => {
                return Err(e);
            },
        };
        let custom_group_id: String = match get_field(v, "custom_group_id") {
            Ok(x) => x,
            Err(e) => {
                return Err(e);
            },
        };
        let value: Decimal = match get_field(v, "value") {
            Ok(x) => x,
            Err(e) => {
                return Err(e);
            },
        };
        let holdings: Vec<ValuationHoldingsSuccess> = match get_field(v, "holdings") {
            Ok(x) => x,
            Err(e) => {
                return Err(e);
            },
        };
        let cash_accounts: Vec<ValuationCashAccountsSuccess> = match get_field(v, "cash_accounts") {
            Ok(x) => x,
            Err(e) => {
                return Err(e);
            },
        };
        let sub_totals: Vec<ValuationSubTotalsSuccess> = match get_field(v, "sub_totals") {
            Ok(x) => x,
            Err(e) => {
                return Err(e);
            },
        };
        Ok(ValuationSuccess { id, balance_date, portfolio_id, grouping, custom_group_id, value, holdings, cash_accounts, sub_totals })
    }
}

/// A nested response shape of [`Valuation`].
#[derive(Debug, Clone, PartialEq)]
pub struct ValuationHoldingsSuccess {
    pub id: String,
    pub symbol: String,
    pub instrument_id: String,
    pub market: Market,
    pub _group_type_: String,
    pub grouping: String,
    pub name: String,
    pub value: Decimal,
    pub quantity: Decimal,
}

impl ToJson for ValuationHoldingsSuccess {
    open spec fn enc(s: Self) -> Jv {
        Jv::Obj(
            Seq::<(Seq<char>, Jv)>::empty()
                + req_entry("id"@, s.id)
                + req_entry("symbol"@, s.symbol)
                + req_entry("instrument_id"@, s.instrument_id)
                + req_entry("market"@, s.market)
                + req_entry("_group_type_"@, s._group_type_)
                + req_entry("grouping"@, s.grouping)
                + req_entry("name"@, s.name)
                + req_entry("value"@, s.value)
                + req_entry("quantity"@, s.quantity),
        )
    }

    fn encode(&self) -> (r: JsonValue) {
        let mut o = JsonObj::new();
        o.put("id", &self.id);
        o.put("symbol", &self.symbol);
        o.put("instrument_id", &self.instrument_id);
        o.put("market", &self.market);
        o.put("_group_type_", &self._group_type_);
        o.put("grouping", &self.grouping);
        o.put("name", &self.name);
        o.put("value", &self.value);
        o.put("quantity", &self.quantity);
        o.finish()
    }
}

impl FromJson for ValuationHoldingsSuccess {
    open spec fn decodable(v: Jv) -> bool {
        &&& v is Obj
        &&& req_field_ok::<String>(v, "id"@)
        &&& req_field_ok::<String>(v, "symbol"@)
        &&& req_field_ok::<String>(v, "instrument_id"@)
        &&& req_field_ok::<Market>(v, "market"@)
        &&& req_field_ok::<String>(v, "_group_type_"@)
        &&& req_field_ok::<String>(v, "grouping"@)
        &&& req_field_ok::<String>(v, "name"@)
        &&& req_field_ok::<Decimal>(v, "value"@)
        &&& req_field_ok::<Decimal>(v, "quantity"@)
    }

    open spec fn rel(v: Jv, s: Self) -> bool {
        &&& v is Obj
        &&& req_field_rel::<String>(v, "id"@, s.id)
        &&& req_field_rel::<String>(v, "symbol"@, s.symbol)
        &&& req_field_rel::<String>(v, "instrument_id"@, s.instrument_id)
        &&& req_field_rel::<Market>(v, "market"@, s.market)
        &&& req_field_rel::<String>(v, "_group_type_"@, s._group_type_)
        &&& req_field_rel::<String>(v, "grouping"@, s.grouping)
        &&& req_field_rel::<String>(v, "name"@, s.name)
        &&& req_field_rel::<Decimal>(v, "value"@, s.value)
        &&& req_field_rel::<Decimal>(v, "quantity"@, s.quantity)
    }

    fn decode(v: &JsonValue) -> (r: Result<Self, DecodeError>) {
        let id: String = match get_field(v, "id") {
            Ok(x) => x,
            Err(e) => {
                return Err(e);
            },
        };
        let symbol: String = match get_field(v, "symbol") {
            Ok(x) => x,
            Err(e) => {
                return Err(e);
            },
        };
        let instrument_id: String = match get_field(v, "instrument_id") {
            Ok(x) => x,
            Err(e) => {
                return Err(e);
            },
        };
        let market: Market = match get_field(v, "market") {
            Ok(x) => x,
            Err(e) => {
                return Err(e);
            },
        };
        let _group_type_: String = match get_field(v, "_group_type_") {
            Ok(x) => x,
            Err(e) => {
                return Err(e);
            },
        };
        let grouping: String = match get_field(v, "grouping") {
            Ok(x) => x,
            Err(e) => {
                return Err(e);
            },
        };
        let name: String = match get_field(v, "name") {
            Ok(x) => x,
            Err(e) => {
                return Err(e);
            },
        };
        let value: Decimal = match get_field(v, "value") {
            Ok(x) => x,
            Err(e) => {
                return Err(e);
            },
        };
        let quantity: Decimal = match get_field(v, "quantity") {
            Ok(x) => x,
            Err(e) => {
                return Err(e);
            },
        };
        Ok(ValuationHoldingsSuccess { id, symbol, instrument_id, market, _group_type_, grouping, name, value, quantity })
    }
}

/// A nested response shape of [`Valuation`].
#[derive(Debug, Clone, PartialEq)]
pub struct ValuationCashAccountsSuccess {
    pub id: String,
    pub cash_account_id: String,
    pub name: String,
    pub value: Decimal,
    pub currency: Currency,
    pub currency_code: Currency,
}

impl ToJson for ValuationCashAccountsSuccess {
    open spec fn enc(s: Self) -> Jv {
        Jv::Obj(
            Seq::<(Seq<char>, Jv)>::empty()
                + req_entry("id"@, s.id)
                + req_entry("cash_account_id"@, s.cash_account_id)
                + req_entry("name"@, s.name)
                + req_entry("value"@, s.value)
                + req_entry("currency"@, s.currency)
                + req_entry("currency_code"@, s.currency_code),
        )
    }

    fn encode(&self) -> (r: JsonValue) {
        let mut o = JsonObj::new();
        o.put("id", &self.id);
        o.put("cash_account_id", &self.cash_account_id);
        o.put("name", &self.name);
        o.put("value", &self.value);
        o.put("currency", &self.currency);
        o.put("currency_code", &self.currency_code);
        o.finish()
    }
}

impl FromJson for ValuationCashAccountsSuccess {
    open spec fn decodable(v: Jv) -> bool {
        &&& v is Obj
        &&& req_field_ok::<String>(v, "id"@)
        &&& req_field_ok::<String>(v, "cash_account_id"@)
        &&& req_field_ok::<String>(v, "name"@)
        &&& req_field_ok::<Decimal>(v, "value"@)
        &&& req_field_ok::<Currency>(v, "currency"@)
        &&& req_field_ok::<Currency>(v, "currency_code"@)
    }

    open spec fn rel(v: Jv, s: Self) -> bool {
        &&& v is Obj
        &&& req_field_rel::<String>(v, "id"@, s.id)
        &&& req_field_rel::<String>(v, "cash_account_id"@, s.cash_account_id)
        &&& req_field_rel::<String>(v, "name"@, s.name)
        &&& req_field_rel::<Decimal>(v, "value"@, s.value)
        &&& req_field_rel::<Currency>(v, "currency"@, s.currency)
        &&& req_field_rel::<Currency>(v, "currency_code"@, s.currency_code)
    }

    fn decode(v: &JsonValue) -> (r: Result<Self, DecodeError>) {
        let id: String = match get_field(v, "id") {
            Ok(x) => x,
            Err(e) => {
                return Err(e);
            },
        };
        let cash_account_id: String = match get_field(v, "cash_account_id") {
            Ok(x) => x,
            Err(e) => {
                return Err(e);
            },
        };
        let name: String = match get_field(v, "name") {
            Ok(x) => x,
            Err(e) => {
                return Err(e);
            },
        };
        let value: Decimal = match get_field(v, "value") {
            Ok(x) => x,
            Err(e) => {
                return Err(e);
            },
        };
        let currency: Currency = match get_field(v, "currency") {
            Ok(x) => x,
            Err(e) => {
                return Err(e);
            },
        };
        let currency_code: Currency = match get_field(v, "currency_code") {
            Ok(x) => x,
            Err(e) => {
                return Err(e);
            },
        };
        Ok(ValuationCashAccountsSuccess { id, cash_account_id, name, value, currency, currency_code })
    }
}

/// A nested response shape of [`Valuation`].
#[derive(Debug, Clone, PartialEq)]
pub struct ValuationSubTotalsSuccess {
    pub _group_type_: String,
    pub value: Decimal,
}

impl ToJson for ValuationSubTotalsSuccess {
    open spec fn enc(s: Self) -> Jv {
        Jv::Obj(
            Seq::<(Seq<char>, Jv)>::empty()
                + req_entry("_group_type_"@, s._group_type_)
                + req_entry("value"@, s.value),
        )
    }

    fn encode(&self) -> (r: JsonValue) {
        let mut o = JsonObj::new();
        o.put("_group_type_", &self._group_type_);
        o.put("value", &self.value);
        o.finish()
    }
}

impl FromJson for ValuationSubTotalsSuccess {
    open spec fn decodable(v: Jv) -> bool {
        &&& v is Obj
        &&& req_field_ok::<String>(v, "_group_type_"@)
        &&& req_field_ok::<Decimal>(v, "value"@)
    }

    open spec fn rel(v: Jv, s: Self) -> bool {
        &&& v is Obj
        &&& req_field_rel::<String>(v, "_group_type_"@, s._group_type_)
        &&& req_field_rel::<Decimal>(v, "value"@, s.value)
    }

    fn decode(v: &JsonValue) -> (r: Result<Self, DecodeError>) {
        let _group_type_: String = match get_field(v, "_group_type_") {
            Ok(x) => x,
            Err(e) => {
                return Err(e);
            },
        };
        let value: Decimal = match get_field(v, "value") {
            Ok(x) => x,
            Err(e) => {
                return Err(e);
            },
        };
        Ok(ValuationSubTotalsSuccess { _group_type_, value })
    }
}

} // verus!
