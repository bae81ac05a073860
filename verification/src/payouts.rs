//! Payout endpoints.

use vstd::prelude::*;
use vstd::string::StringExecFns;
use crate::api::ApiHttpMethod;
use crate::codec::DecodeError;
use crate::codec::FromJson;
use crate::codec::JsonObj;
use crate::codec::ToJson;
use crate::codec::get_field;
use crate::codec::get_opt_field;
use crate::codec::opt_entry;
use crate::codec::opt_field_ok;
use crate::codec::opt_field_rel;
use crate::codec::req_entry;
use crate::codec::req_field_ok;
use crate::codec::req_field_rel;
use crate::codec::spec_starts_with;
use crate::date::Date;
use crate::enums::Currency;
use crate::enums::Market;
use crate::enums::PayoutDescription;
use crate::json::Decimal;
use crate::json::JsonValue;
use crate::json::Jv;
use crate::num::render_i64;
use crate::num::spec_i64_string;

verus! {

/// `GET /holdings/:holding_id/payouts.json`.
pub struct ListHoldingPayouts;

/// The parameters of a [`ListHoldingPayouts`] call, held for URL rendering.
pub struct ListHoldingPayoutsUrlDisplay<'a>(pub &'a ListHoldingPayoutsParameters);

impl<'a> ListHoldingPayoutsUrlDisplay<'a> {
    /// Renders the resolved URL path.
    pub fn render(&self) -> (r: String)
        ensures
            r@ == ListHoldingPayouts::spec_url(*self.0),
    {
        ListHoldingPayouts::url(self.0)
    }
}

impl ListHoldingPayouts {
    /// The URL template of this endpoint.
    pub fn url_template() -> (r: &'static str)
        ensures
            r@ == "/holdings/:holding_id/payouts.json"@,
    {
        "/holdings/:holding_id/payouts.json"
    }

    /// The HTTP method of this endpoint.
    pub fn http_method() -> (r: ApiHttpMethod)
        ensures
            r == ApiHttpMethod::Get,
    {
        ApiHttpMethod::Get
    }

    /// The URL path that `p` resolves the template to.
    pub open spec fn spec_url(p: ListHoldingPayoutsParameters) -> Seq<char> {
        "/holdings/"@ + spec_i64_string(p.holding_id as int) + "/payouts.json"@
    }

    /// Resolves the URL template with the fields of `parameters`:
    /// plain decimal digits for integers, strings as they are.
    pub fn url(parameters: &ListHoldingPayoutsParameters) -> (r: String)
        ensures
            r@ == Self::spec_url(*parameters),
    {
        let mut s = "/holdings/".to_owned();
        s.append(render_i64(parameters.holding_id).as_str());
        s.append("/payouts.json");
        s
    }

    /// Wraps `parameters` for URL rendering.
    pub fn url_path<'a>(parameters: &'a ListHoldingPayoutsParameters) -> (r: ListHoldingPayoutsUrlDisplay<'a>)
        ensures
            r.0 == parameters,
    {
        ListHoldingPayoutsUrlDisplay(parameters)
    }

    /// Decodes a success payload, naming this endpoint in any
    /// failure.
    pub fn decode_success(v: &JsonValue) -> (r: Result<ListHoldingPayoutsSuccess, DecodeError>)
        ensures
            r matches Ok(s) ==> <ListHoldingPayoutsSuccess as FromJson>::decodable(v@)
                && <ListHoldingPayoutsSuccess as FromJson>::rel(v@, s),
            <ListHoldingPayoutsSuccess as FromJson>::decodable(v@) ==> r is Ok,
            r matches Err(e) ==> spec_starts_with(e.path@, "ListHoldingPayouts"@),
    {
        match ListHoldingPayoutsSuccess::decode(v) {
            Ok(s) => Ok(s),
            Err(e) => Err(e.in_endpoint("ListHoldingPayouts")),
        }
    }
}

/// The parameters of a [`ListHoldingPayouts`] call.
#[derive(Debug, Clone, PartialEq)]
pub struct ListHoldingPayoutsParameters {
    pub holding_id: i64,
    pub start_date: Option<Date>,
    pub end_date: Option<Date>,
    pub use_date: Option<String>,
}

impl ToJson for ListHoldingPayoutsParameters {
    open spec fn enc(s: Self) -> Jv {
        Jv::Obj(
            Seq::<(Seq<char>, Jv)>::empty()
                + req_entry("holding_id"@, s.holding_id)
                + opt_entry("start_date"@, s.start_date)
                + opt_entry("end_date"@, s.end_date)
                + opt_entry("use_date"@, s.use_date),
        )
    }

    fn encode(&self) -> (r: JsonValue) {
        let mut o = JsonObj::new();
        o.put("holding_id", &self.holding_id);
        o.put_opt("start_date", &self.start_date);
        o.put_opt("end_date", &self.end_date);
        o.put_opt("use_date", &self.use_date);
        o.finish()
    }
}

impl FromJson for ListHoldingPayoutsParameters {
    open spec fn decodable(v: Jv) -> bool {
        &&& v is Obj
        &&& req_field_ok::<i64>(v, "holding_id"@)
        &&& opt_field_ok::<Date>(v, "start_date"@)
        &&& opt_field_ok::<Date>(v, "end_date"@)
        &&& opt_field_ok::<String>(v, "use_date"@)
    }

    open spec fn rel(v: Jv, s: Self) -> bool {
        &&& v is Obj
        &&& req_field_rel::<i64>(v, "holding_id"@, s.holding_id)
        &&& opt_field_rel::<Date>(v, "start_date"@, s.start_date)
        &&& opt_field_rel::<Date>(v, "end_date"@, s.end_date)
        &&& opt_field_rel::<String>(v, "use_date"@, s.use_date)
    }

    fn decode(v: &JsonValue) -> (r: Result<Self, DecodeError>) {
        let holding_id: i64 = match get_field(v, "holding_id") {
            Ok(x) => x,
            Err(e) => {
                return Err(e);
            },
        };
        let start_date: Option<Date> = match get_opt_field(v, "start_date") {
            Ok(x) => x,
            Err(e) => {
                return Err(e);
            },
        };
        let end_date: Option<Date> = match get_opt_field(v, "end_date") {
            Ok(x) => x,
            Err(e) => {
                return Err(e);
            },
        };
        let use_date: Option<String> = match get_opt_field(v, "use_date") {
            Ok(x) => x,
            Err(e) => {
                return Err(e);
            },
        };
        Ok(ListHoldingPayoutsParameters { holding_id, start_date, end_date, use_date })
    }
}

/// The success response of a [`ListHoldingPayouts`] call.
#[derive(Debug, Clone, PartialEq)]
pub struct ListHoldingPayoutsSuccess {
    pub payouts: Vec<ListHoldingPayoutsPayoutsSuccess>,
    pub links: ListHoldingPayoutsLinksSuccess,
}

impl ToJson for ListHoldingPayoutsSuccess {
    open spec fn enc(s: Self) -> Jv {
        Jv::Obj(
            Seq::<(Seq<char>, Jv)>::empty()
                + req_entry("payouts"@, s.payouts)
                + req_entry("links"@, s.links),
        )
    }

    fn encode(&self) -> (r: JsonValue) {
        let mut o = JsonObj::new();
        o.put("payouts", &self.payouts);
        o.put("links", &self.links);
        o.finish()
    }
}

impl FromJson for ListHoldingPayoutsSuccess {
    open spec fn decodable(v: Jv) -> bool {
        &&& v is Obj
        &&& req_field_ok::<Vec<ListHoldingPayoutsPayoutsSuccess>>(v, "payouts"@)
        &&& req_field_ok::<ListHoldingPayoutsLinksSuccess>(v, "links"@)
    }

    open spec fn rel(v: Jv, s: Self) -> bool {
        &&& v is Obj
        &&& req_field_rel::<Vec<ListHoldingPayoutsPayoutsSuccess>>(v, "payouts"@, s.payouts)
        &&& req_field_rel::<ListHoldingPayoutsLinksSuccess>(v, "links"@, s.links)
    }

    fn decode(v: &JsonValue) -> (r: Result<Self, DecodeError>) {
        let payouts: Vec<ListHoldingPayoutsPayoutsSuccess> = match get_field(v, "payouts") {
            Ok(x) => x,
            Err(e) => {
                return Err(e);
            },
        };
        let links: ListHoldingPayoutsLinksSuccess = match get_field(v, "links") {
            Ok(x) => x,
            Err(e) => {
                return Err(e);
            },
        };
        Ok(ListHoldingPayoutsSuccess { payouts, links })
    }
}

/// A nested response shape of [`ListHoldingPayouts`].
#[derive(Debug, Clone, PartialEq)]
pub struct ListHoldingPayoutsPayoutsSuccess {
    pub id: String,
    pub symbol: String,
    pub market: Market,
    pub paid_on: String,
    pub ex_date: String,
    pub amount: Decimal,
    pub gross_amount: Decimal,
    pub transaction_description: PayoutDescription,
    pub resident_withholding_tax: Decimal,
    pub non_resident_withholding_tax: Decimal,
    pub tax_credit: Decimal,
    pub currency: Currency,
    pub exchange_rate: Decimal,
    pub non_taxable: bool,
    pub comments: String,
    pub other_net_fsi: Decimal,
    pub lic_capital_gain: Decimal,
    pub company_event_id: i64,
    pub state: String,
    pub drp_trade_attributes: ListHoldingPayoutsPayoutsDrpTradeAttributesSuccess,
    pub franked_amount: Decimal,
    pub unfranked_amount: Decimal,
    pub trust: bool,
    pub extra_interest_payment_amount: Decimal,
    pub capital_gains: Decimal,
    pub discounted_capital_gains: Decimal,
    pub interest_payment: Decimal,
    pub foreign_source_income: Decimal,
    pub deferred_income: Decimal,
    pub non_assessable: bool,
    pub cgt_concession_amount: Decimal,
    pub amit_decrease_amount: Decimal,
    pub amit_increase_amount: Decimal,
    pub links: ListHoldingPayoutsPayoutsLinksSuccess,
}

impl ToJson for ListHoldingPayoutsPayoutsSuccess {
    open spec fn enc(s: Self) -> Jv {
        Jv::Obj(
            Seq::<(Seq<char>, Jv)>::empty()
                + req_entry("id"@, s.id)
                + req_entry("symbol"@, s.symbol)
                + req_entry("market"@, s.market)
                + req_entry("paid_on"@, s.paid_on)
                + req_entry("ex_date"@, s.ex_date)
                + req_entry("amount"@, s.amount)
                + req_entry("gross_amount"@, s.gross_amount)
                + req_entry("transaction_description"@, s.transaction_description)
                + req_entry("resident_withholding_tax"@, s.resident_withholding_tax)
                + req_entry("non_resident_withholding_tax"@, s.non_resident_withholding_tax)
                + req_entry("tax_credit"@, s.tax_credit)
                + req_entry("currency"@, s.currency)
                + req_entry("exchange_rate"@, s.exchange_rate)
                + req_entry("non_taxable"@, s.non_taxable)
                + req_entry("comments"@, s.comments)
                + req_entry("other_net_fsi"@, s.other_net_fsi)
                + req_entry("lic_capital_gain"@, s.lic_capital_gain)
                + req_entry("company_event_id"@, s.company_event_id)
                + req_entry("state"@, s.state)
                + req_entry("drp_trade_attributes"@, s.drp_trade_attributes)
                + req_entry("franked_amount"@, s.franked_amount)
                + req_entry("unfranked_amount"@, s.unfranked_amount)
                + req_entry("trust"@, s.trust)
                + req_entry("extra_interest_payment_amount"@, s.extra_interest_payment_amount)
                + req_entry("capital_gains"@, s.capital_gains)
                + req_entry("discounted_capital_gains"@, s.discounted_capital_gains)
                + req_entry("interest_payment"@, s.interest_payment)
                + req_entry("foreign_source_income"@, s.foreign_source_income)
                + req_entry("deferred_income"@, s.deferred_income)
                + req_entry("non_assessable"@, s.non_assessable)
                + req_entry("cgt_concession_amount"@, s.cgt_concession_amount)
                + req_entry("amit_decrease_amount"@, s.amit_decrease_amount)
                + req_entry("amit_increase_amount"@, s.amit_increase_amount)
                + req_entry("links"@, s.links),
        )
    }

    fn encode(&self) -> (r: JsonValue) {
        let mut o = JsonObj::new();
        o.put("id", &self.id);
        o.put("symbol", &self.symbol);
        o.put("market", &self.market);
        o.put("paid_on", &self.paid_on);
        o.put("ex_date", &self.ex_date);
        o.put("amount", &self.amount);
        o.put("gross_amount", &self.gross_amount);
        o.put("transaction_description", &self.transaction_description);
        o.put("resident_withholding_tax", &self.resident_withholding_tax);
        o.put("non_resident_withholding_tax", &self.non_resident_withholding_tax);
        o.put("tax_credit", &self.tax_credit);
        o.put("currency", &self.currency);
        o.put("exchange_rate", &self.exchange_rate);
        o.put("non_taxable", &self.non_taxable);
        o.put("comments", &self.comments);
        o.put("other_net_fsi", &self.other_net_fsi);
        o.put("lic_capital_gain", &self.lic_capital_gain);
        o.put("company_event_id", &self.company_event_id);
        o.put("state", &self.state);
        o.put("drp_trade_attributes", &self.drp_trade_attributes);
        o.put("franked_amount", &self.franked_amount);
        o.put("unfranked_amount", &self.unfranked_amount);
        o.put("trust", &self.trust);
        o.put("extra_interest_payment_amount", &self.extra_interest_payment_amount);
        o.put("capital_gains", &self.capital_gains);
        o.put("discounted_capital_gains", &self.discounted_capital_gains);
        o.put("interest_payment", &self.interest_payment);
        o.put("foreign_source_income", &self.foreign_source_income);
        o.put("deferred_income", &self.deferred_income);
        o.put("non_assessable", &self.non_assessable);
        o.put("cgt_concession_amount", &self.cgt_concession_amount);
        o.put("amit_decrease_amount", &self.amit_decrease_amount);
        o.put("amit_increase_amount", &self.amit_increase_amount);
        o.put("links", &self.links);
        o.finish()
    }
}

impl FromJson for ListHoldingPayoutsPayoutsSuccess {
    open spec fn decodable(v: Jv) -> bool {
        &&& v is Obj
        &&& req_field_ok::<String>(v, "id"@)
        &&& req_field_ok::<String>(v, "symbol"@)
        &&& req_field_ok::<Market>(v, "market"@)
        &&& req_field_ok::<String>(v, "paid_on"@)
        &&& req_field_ok::<String>(v, "ex_date"@)
        &&& req_field_ok::<Decimal>(v, "amount"@)
        &&& req_field_ok::<Decimal>(v, "gross_amount"@)
        &&& req_field_ok::<PayoutDescription>(v, "transaction_description"@)
        &&& req_field_ok::<Decimal>(v, "resident_withholding_tax"@)
        &&& req_field_ok::<Decimal>(v, "non_resident_withholding_tax"@)
        &&& req_field_ok::<Decimal>(v, "tax_credit"@)
        &&& req_field_ok::<Currency>(v, "currency"@)
        &&& req_field_ok::<Decimal>(v, "exchange_rate"@)
        &&& req_field_ok::<bool>(v, "non_taxable"@)
        &&& req_field_ok::<String>(v, "comments"@)
        &&& req_field_ok::<Decimal>(v, "other_net_fsi"@)
        &&& req_field_ok::<Decimal>(v, "lic_capital_gain"@)
        &&& req_field_ok::<i64>(v, "company_event_id"@)
        &&& req_field_ok::<String>(v, "state"@)
        &&& req_field_ok::<ListHoldingPayoutsPayoutsDrpTradeAttributesSuccess>(v, "drp_trade_attributes"@)
        &&& req_field_ok::<Decimal>(v, "franked_amount"@)
        &&& req_field_ok::<Decimal>(v, "unfranked_amount"@)
        &&& req_field_ok::<bool>(v, "trust"@)
        &&& req_field_ok::<Decimal>(v, "extra_interest_payment_amount"@)
        &&& req_field_ok::<Decimal>(v, "capital_gains"@)
        &&& req_field_ok::<Decimal>(v, "discounted_capital_gains"@)
        &&& req_field_ok::<Decimal>(v, "interest_payment"@)
        &&& req_field_ok::<Decimal>(v, "foreign_source_income"@)
        &&& req_field_ok::<Decimal>(v, "deferred_income"@)
        &&& req_field_ok::<bool>(v, "non_assessable"@)
        &&& req_field_ok::<Decimal>(v, "cgt_concession_amount"@)
        &&& req_field_ok::<Decimal>(v, "amit_decrease_amount"@)
        &&& req_field_ok::<Decimal>(v, "amit_increase_amount"@)
        &&& req_field_ok::<ListHoldingPayoutsPayoutsLinksSuccess>(v, "links"@)
    }

    open spec fn rel(v: Jv, s: Self) -> bool {
        &&& v is Obj
        &&& req_field_rel::<String>(v, "id"@, s.id)
        &&& req_field_rel::<String>(v, "symbol"@, s.symbol)
        &&& req_field_rel::<Market>(v, "market"@, s.market)
        &&& req_field_rel::<String>(v, "paid_on"@, s.paid_on)
        &&& req_field_rel::<String>(v, "ex_date"@, s.ex_date)
        &&& req_field_rel::<Decimal>(v, "amount"@, s.amount)
        &&& req_field_rel::<Decimal>(v, "gross_amount"@, s.gross_amount)
        &&& req_field_rel::<PayoutDescription>(v, "transaction_description"@, s.transaction_description)
        &&& req_field_rel::<Decimal>(v, "resident_withholding_tax"@, s.resident_withholding_tax)
        &&& req_field_rel::<Decimal>(v, "non_resident_withholding_tax"@, s.non_resident_withholding_tax)
        &&& req_field_rel::<Decimal>(v, "tax_credit"@, s.tax_credit)
        &&& req_field_rel::<Currency>(v, "currency"@, s.currency)
        &&& req_field_rel::<Decimal>(v, "exchange_rate"@, s.exchange_rate)
        &&& req_field_rel::<bool>(v, "non_taxable"@, s.non_taxable)
        &&& req_field_rel::<String>(v, "comments"@, s.comments)
        &&& req_field_rel::<Decimal>(v, "other_net_fsi"@, s.other_net_fsi)
        &&& req_field_rel::<Decimal>(v, "lic_capital_gain"@, s.lic_capital_gain)
        &&& req_field_rel::<i64>(v, "company_event_id"@, s.company_event_id)
        &&& req_field_rel::<String>(v, "state"@, s.state)
        &&& req_field_rel::<ListHoldingPayoutsPayoutsDrpTradeAttributesSuccess>(v, "drp_trade_attributes"@, s.drp_trade_attributes)
        &&& req_field_rel::<Decimal>(v, "franked_amount"@, s.franked_amount)
        &&& req_field_rel::<Decimal>(v, "unfranked_amount"@, s.unfranked_amount)
        &&& req_field_rel::<bool>(v, "trust"@, s.trust)
        &&& req_field_rel::<Decimal>(v, "extra_interest_payment_amount"@, s.extra_interest_payment_amount)
        &&& req_field_rel::<Decimal>(v, "capital_gains"@, s.capital_gains)
        &&& req_field_rel::<Decimal>(v, "discounted_capital_gains"@, s.discounted_capital_gains)
        &&& req_field_rel::<Decimal>(v, "interest_payment"@, s.interest_payment)
        &&& req_field_rel::<Decimal>(v, "foreign_source_income"@, s.foreign_source_income)
        &&& req_field_rel::<Decimal>(v, "deferred_income"@, s.deferred_income)
        &&& req_field_rel::<bool>(v, "non_assessable"@, s.non_assessable)
        &&& req_field_rel::<Decimal>(v, "cgt_concession_amount"@, s.cgt_concession_amount)
        &&& req_field_rel::<Decimal>(v, "amit_decrease_amount"@, s.amit_decrease_amount)
        &&& req_field_rel::<Decimal>(v, "amit_increase_amount"@, s.amit_increase_amount)
        &&& req_field_rel::<ListHoldingPayoutsPayoutsLinksSuccess>(v, "links"@, s.links)
    }

    fn decode(v: &JsonValue) -> (r: Result<Self, DecodeError>) {
        let id: String = match get_field(v, "id") {
            Ok(x) => x,
            Err(e) => {
                return Err(e);
            },
        };
        let symbol: String = match get_field(v, "symbol") {
            Ok(x) => x,
            Err(e) => {
                return Err(e);
            },
        };
        let market: Market = match get_field(v, "market") {
            Ok(x) => x,
            Err(e) => {
                return Err(e);
            },
        };
        let paid_on: String = match get_field(v, "paid_on") {
            Ok(x) => x,
            Err(e) => {
                return Err(e);
            },
        };
        let ex_date: String = match get_field(v, "ex_date") {
            Ok(x) => x,
            Err(e) => {
                return Err(e);
            },
        };
        let amount: Decimal = match get_field(v, "amount") {
            Ok(x) => x,
            Err(e) => {
                return Err(e);
            },
        };
        let gross_amount: Decimal = match get_field(v, "gross_amount") {
            Ok(x) => x,
            Err(e) => {
                return Err(e);
            },
        };
        let transaction_description: PayoutDescription = match get_field(v, "transaction_description") {
            Ok(x) => x,
            Err(e) => {
                return Err(e);
            },
        };
        let resident_withholding_tax: Decimal = match get_field(v, "resident_withholding_tax") {
            Ok(x) => x,
            Err(e) => {
                return Err(e);
            },
        };
        let non_resident_withholding_tax: Decimal = match get_field(v, "non_resident_withholding_tax") {
            Ok(x) => x,
            Err(e) => {
                return Err(e);
            },
        };
        let tax_credit: Decimal = match get_field(v, "tax_credit") {
            Ok(x) => x,
            Err(e) => {
                return Err(e);
            },
        };
        let currency: Currency = match get_field(v, "currency") {
            Ok(x) => x,
            Err(e) => {
                return Err(e);
            },
        };
        let exchange_rate: Decimal = match get_field(v, "exchange_rate") {
            Ok(x) => x,
            Err(e) => {
                return Err(e);
            },
        };
        let non_taxable: bool = match get_field(v, "non_taxable") {
            Ok(x) => x,
            Err(e) => {
                return Err(e);
            },
        };
        let comments: String = match get_field(v, "comments") {
            Ok(x) => x,
            Err(e) => {
                return Err(e);
            },
        };
        let other_net_fsi: Decimal = match get_field(v, "other_net_fsi") {
            Ok(x) => x,
            Err(e) => {
                return Err(e);
            },
        };
        let lic_capital_gain: Decimal = match get_field(v, "lic_capital_gain") {
            Ok(x) => x,
            Err(e) => {
                return Err(e);
            },
        };
        let company_event_id: i64 = match get_field(v, "company_event_id") {
            Ok(x) => x,
            Err(e) => {
                return Err(e);
            },
        };
        let state: String = match get_field(v, "state") {
            Ok(x) => x,
            Err(e) => {
                return Err(e);
            },
        };
        let drp_trade_attributes: ListHoldingPayoutsPayoutsDrpTradeAttributesSuccess = match get_field(v, "drp_trade_attributes") {
            Ok(x) => x,
            Err(e) => {
                return Err(e);
            },
        };
        let franked_amount: Decimal = match get_field(v, "franked_amount") {
            Ok(x) => x,
            Err(e) => {
                return Err(e);
            },
        };
        let unfranked_amount: Decimal = match get_field(v, "unfranked_amount") {
            Ok(x) => x,
            Err(e) => {
                return Err(e);
            },
        };
        let trust: bool = match get_field(v, "trust") {
            Ok(x) => x,
            Err(e) => {
                return Err(e);
            },
        };
        let extra_interest_payment_amount: Decimal = match get_field(v, "extra_interest_payment_amount") {
            Ok(x) => x,
            Err(e) => {
                return Err(e);
            },
        };
        let capital_gains: Decimal = match get_field(v, "capital_gains") {
            Ok(x) => x,
            Err(e) => {
                return Err(e);
            },
        };
        let discounted_capital_gains: Decimal = match get_field(v, "discounted_capital_gains") {
            Ok(x) => x,
            Err(e) => {
                return Err(e);
            },
        };
        let interest_payment: Decimal = match get_field(v, "interest_payment") {
            Ok(x) => x,
            Err(e) => {
                return Err(e);
            },
        };
        let foreign_source_income: Decimal = match get_field(v, "foreign_source_income") {
            Ok(x) => x,
            Err(e) => {
                return Err(e);
            },
        };
        let deferred_income: Decimal = match get_field(v, "deferred_income") {
            Ok(x) => x,
            Err(e) => {
                return Err(e);
            },
        };
        let non_assessable: bool = match get_field(v, "non_assessable") {
            Ok(x) => x,
            Err(e) => {
                return Err(e);
            },
        };
        let cgt_concession_amount: Decimal = match get_field(v, "cgt_concession_amount") {
            Ok(x) => x,
            Err(e) => {
                return Err(e);
            },
        };
        let amit_decrease_amount: Decimal = match get_field(v, "amit_decrease_amount") {
            Ok(x) => x,
            Err(e) => {
                return Err(e);
            },
        };
        let amit_increase_amount: Decimal = match get_field(v, "amit_increase_amount") {
            Ok(x) => x,
            Err(e) => {
                return Err(e);
            },
        };
        let links: ListHoldingPayoutsPayoutsLinksSuccess = match get_field(v, "links") {
            Ok(x) => x,
            Err(e) => {
                return Err(e);
            },
        };
        Ok(ListHoldingPayoutsPayoutsSuccess { id, symbol, market, paid_on, ex_date, amount, gross_amount, transaction_description, resident_withholding_tax, non_resident_withholding_tax, tax_credit, currency, exchange_rate, non_taxable, comments, other_net_fsi, lic_capital_gain, company_event_id, state, drp_trade_attributes, franked_amount, unfranked_amount, trust, extra_interest_payment_amount, capital_gains, discounted_capital_gains, interest_payment, foreign_source_income, deferred_income, non_assessable, cgt_concession_amount, amit_decrease_amount, amit_increase_amount, links })
    }
}

/// A nested response shape of [`ListHoldingPayouts`].
#[derive(Debug, Clone, PartialEq)]
pub struct ListHoldingPayoutsPayoutsDrpTradeAttributesSuccess {
    pub dividend_reinvested: bool,
    pub quantity: Decimal,
    pub price: Decimal,
    pub source_adjustment_id: i64,
}

impl ToJson for ListHoldingPayoutsPayoutsDrpTradeAttributesSuccess {
    open spec fn enc(s: Self) -> Jv {
        Jv::Obj(
            Seq::<(Seq<char>, Jv)>::empty()
                + req_entry("dividend_reinvested"@, s.dividend_reinvested)
                + req_entry("quantity"@, s.quantity)
                + req_entry("price"@, s.price)
                + req_entry("source_adjustment_id"@, s.source_adjustment_id),
        )
    }

    fn encode(&self) -> (r: JsonValue) {
        let mut o = JsonObj::new();
        o.put("dividend_reinvested", &self.dividend_reinvested);
        o.put("quantity", &self.quantity);
        o.put("price", &self.price);
        o.put("source_adjustment_id", &self.source_adjustment_id);
        o.finish()
    }
}

impl FromJson for ListHoldingPayoutsPayoutsDrpTradeAttributesSuccess {
    open spec fn decodable(v: Jv) -> bool {
        &&& v is Obj
        &&& req_field_ok::<bool>(v, "dividend_reinvested"@)
        &&& req_field_ok::<Decimal>(v, "quantity"@)
        &&& req_field_ok::<Decimal>(v, "price"@)
        &&& req_field_ok::<i64>(v, "source_adjustment_id"@)
    }

    open spec fn rel(v: Jv, s: Self) -> bool {
        &&& v is Obj
        &&& req_field_rel::<bool>(v, "dividend_reinvested"@, s.dividend_reinvested)
        &&& req_field_rel::<Decimal>(v, "quantity"@, s.quantity)
        &&& req_field_rel::<Decimal>(v, "price"@, s.price)
        &&& req_field_rel::<i64>(v, "source_adjustment_id"@, s.source_adjustment_id)
    }

    fn decode(v: &JsonValue) -> (r: Result<Self, DecodeError>) {
        let dividend_reinvested: bool = match get_field(v, "dividend_reinvested") {
            Ok(x) => x,
            Err(e) => {
                return Err(e);
            },
        };
        let quantity: Decimal = match get_field(v, "quantity") {
            Ok(x) => x,
            Err(e) => {
                return Err(e);
            },
        };
        let price: Decimal = match get_field(v, "price") {
            Ok(x) => x,
            Err(e) => {
                return Err(e);
            },
        };
        let source_adjustment_id: i64 = match get_field(v, "source_adjustment_id") {
            Ok(x) => x,
            Err(e) => {
                return Err(e);
            },
        };
        Ok(ListHoldingPayoutsPayoutsDrpTradeAttributesSuccess { dividend_reinvested, quantity, price, source_adjustment_id })
    }
}

/// A nested response shape of [`ListHoldingPayouts`].
#[derive(Debug, Clone, PartialEq)]
pub struct ListHoldingPayoutsPayoutsLinksSuccess {
    pub portfolio: String,
}

impl ToJson for ListHoldingPayoutsPayoutsLinksSuccess {
    open spec fn enc(s: Self) -> Jv {
        Jv::Obj(
            Seq::<(Seq<char>, Jv)>::empty()
                + req_entry("portfolio"@, s.portfolio),
        )
    }

    fn encode(&self) -> (r: JsonValue) {
        let mut o = JsonObj::new();
        o.put("portfolio", &self.portfolio);
        o.finish()
    }
}

impl FromJson for ListHoldingPayoutsPayoutsLinksSuccess {
    open spec fn decodable(v: Jv) -> bool {
        &&& v is Obj
        &&& req_field_ok::<String>(v, "portfolio"@)
    }

    open spec fn rel(v: Jv, s: Self) -> bool {
        &&& v is Obj
        &&& req_field_rel::<String>(v, "portfolio"@, s.portfolio)
    }

    fn decode(v: &JsonValue) -> (r: Result<Self, DecodeError>) {
        let portfolio: String = match get_field(v, "portfolio") {
            Ok(x) => x,
            Err(e) => {
                return Err(e);
            },
        };
        Ok(ListHoldingPayoutsPayoutsLinksSuccess { portfolio })
    }
}

/// A nested response shape of [`ListHoldingPayouts`].
#[derive(Debug, Clone, PartialEq)]
pub struct ListHoldingPayoutsLinksSuccess {
    pub itself: String,
}

impl ToJson for ListHoldingPayoutsLinksSuccess {
    open spec fn enc(s: Self) -> Jv {
        Jv::Obj(
            Seq::<(Seq<char>, Jv)>::empty()
                + req_entry("self"@, s.itself),
        )
    }

    fn encode(&self) -> (r: JsonValue) {
        let mut o = JsonObj::new();
        o.put("self", &self.itself);
        o.finish()
    }
}

impl FromJson for ListHoldingPayoutsLinksSuccess {
    open spec fn decodable(v: Jv) -> bool {
        &&& v is Obj
        &&& req_field_ok::<String>(v, "self"@)
    }

    open spec fn rel(v: Jv, s: Self) -> bool {
        &&& v is Obj
        &&& req_field_rel::<String>(v, "self"@, s.itself)
    }

    fn decode(v: &JsonValue) -> (r: Result<Self, DecodeError>) {
        let itself: String = match get_field(v, "self") {
            Ok(x) => x,
            Err(e) => {
                return Err(e);
            },
        };
        Ok(ListHoldingPayoutsLinksSuccess { itself })
    }
}

/// `GET /portfolios/:portfolio_id/payouts.json`.
pub struct ListPortfolioPayouts;

/// The parameters of a [`ListPortfolioPayouts`] call, held for URL rendering.
pub struct ListPortfolioPayoutsUrlDisplay<'a>(pub &'a ListPortfolioPayoutsParameters);

impl<'a> ListPortfolioPayoutsUrlDisplay<'a> {
    /// Renders the resolved URL path.
    pub fn render(&self) -> (r: String)
        ensures
            r@ == ListPortfolioPayouts::spec_url(*self.0),
    {
        ListPortfolioPayouts::url(self.0)
    }
}

impl ListPortfolioPayouts {
    /// The URL template of this endpoint.
    pub fn url_template() -> (r: &'static str)
        ensures
            r@ == "/portfolios/:portfolio_id/payouts.json"@,
    {
        "/portfolios/:portfolio_id/payouts.json"
    }

    /// The HTTP method of this endpoint.
    pub fn http_method() -> (r: ApiHttpMethod)
        ensures
            r == ApiHttpMethod::Get,
    {
        ApiHttpMethod::Get
    }

    /// The URL path that `p` resolves the template to.
    pub open spec fn spec_url(p: ListPortfolioPayoutsParameters) -> Seq<char> {
        "/portfolios/"@ + spec_i64_string(p.portfolio_id as int) + "/payouts.json"@
    }

    /// Resolves the URL template with the fields of `parameters`:
    /// plain decimal digits for integers, strings as they are.
    pub fn url(parameters: &ListPortfolioPayoutsParameters) -> (r: String)
        ensures
            r@ == Self::spec_url(*parameters),
    {
        let mut s = "/portfolios/".to_owned();
        s.append(render_i64(parameters.portfolio_id).as_str());
        s.append("/payouts.json");
        s
    }

    /// Wraps `parameters` for URL rendering.
    pub fn url_path<'a>(parameters: &'a ListPortfolioPayoutsParameters) -> (r: ListPortfolioPayoutsUrlDisplay<'a>)
        ensures
            r.0 == parameters,
    {
        ListPortfolioPayoutsUrlDisplay(parameters)
    }

    /// Decodes a success payload, naming this endpoint in any
    /// failure.
    pub fn decode_success(v: &JsonValue) -> (r: Result<ListPortfolioPayoutsSuccess, DecodeError>)
        ensures
            r matches Ok(s) ==> <ListPortfolioPayoutsSuccess as FromJson>::decodable(v@)
                && <ListPortfolioPayoutsSuccess as FromJson>::rel(v@, s),
            <ListPortfolioPayoutsSuccess as FromJson>::decodable(v@) ==> r is Ok,
            r matches Err(e) ==> spec_starts_with(e.path@, "ListPortfolioPayouts"@),
    {
        match ListPortfolioPayoutsSuccess::decode(v) {
            Ok(s) => Ok(s),
            Err(e) => Err(e.in_endpoint("ListPortfolioPayouts")),
        }
    }
}

/// The parameters of a [`ListPortfolioPayouts`] call.
#[derive(Debug, Clone, PartialEq)]
pub struct ListPortfolioPayoutsParameters {
    pub portfolio_id: i64,
    pub start_date: Option<Date>,
    pub end_date: Option<Date>,
    pub use_date: Option<String>,
}

impl ToJson for ListPortfolioPayoutsParameters {
    open spec fn enc(s: Self) -> Jv {
        Jv::Obj(
            Seq::<(Seq<char>, Jv)>::empty()
                + req_entry("portfolio_id"@, s.portfolio_id)
                + opt_entry("start_date"@, s.start_date)
                + opt_entry("end_date"@, s.end_date)
                + opt_entry("use_date"@, s.use_date),
        )
    }

    fn encode(&self) -> (r: JsonValue) {
        let mut o = JsonObj::new();
        o.put("portfolio_id", &self.portfolio_id);
        o.put_opt("start_date", &self.start_date);
        o.put_opt("end_date", &self.end_date);
        o.put_opt("use_date", &self.use_date);
        o.finish()
    }
}

impl FromJson for ListPortfolioPayoutsParameters {
    open spec fn decodable(v: Jv) -> bool {
        &&& v is Obj
        &&& req_field_ok::<i64>(v, "portfolio_id"@)
        &&& opt_field_ok::<Date>(v, "start_date"@)
        &&& opt_field_ok::<Date>(v, "end_date"@)
        &&& opt_field_ok::<String>(v, "use_date"@)
    }

    open spec fn rel(v: Jv, s: Self) -> bool {
        &&& v is Obj
        &&& req_field_rel::<i64>(v, "portfolio_id"@, s.portfolio_id)
        &&& opt_field_rel::<Date>(v, "start_date"@, s.start_date)
        &&& opt_field_rel::<Date>(v, "end_date"@, s.end_date)
        &&& opt_field_rel::<String>(v, "use_date"@, s.use_date)
    }

    fn decode(v: &JsonValue) -> (r: Result<Self, DecodeError>) {
        let portfolio_id: i64 = match get_field(v, "portfolio_id") {
            Ok(x) => x,
            Err(e) => {
                return Err(e);
            },
        };
        let start_date: Option<Date> = match get_opt_field(v, "start_date") {
            Ok(x) => x,
            Err(e) => {
                return Err(e);
            },
        };
        let end_date: Option<Date> = match get_opt_field(v, "end_date") {
            Ok(x) => x,
            Err(e) => {
                return Err(e);
            },
        };
        let use_date: Option<String> = match get_opt_field(v, "use_date") {
            Ok(x) => x,
            Err(e) => {
                return Err(e);
            },
        };
        Ok(ListPortfolioPayoutsParameters { portfolio_id, start_date, end_date, use_date })
    }
}

/// The success response of a [`ListPortfolioPayouts`] call.
#[derive(Debug, Clone, PartialEq)]
pub struct ListPortfolioPayoutsSuccess {
    pub payouts: Vec<ListPortfolioPayoutsPayoutsSuccess>,
    pub links: ListPortfolioPayoutsLinksSuccess,
}

impl ToJson for ListPortfolioPayoutsSuccess {
    open spec fn enc(s: Self) -> Jv {
        Jv::Obj(
            Seq::<(Seq<char>, Jv)>::empty()
                + req_entry("payouts"@, s.payouts)
                + req_entry("links"@, s.links),
        )
    }

    fn encode(&self) -> (r: JsonValue) {
        let mut o = JsonObj::new();
        o.put("payouts", &self.payouts);
        o.put("links", &self.links);
        o.finish()
    }
}

impl FromJson for ListPortfolioPayoutsSuccess {
    open spec fn decodable(v: Jv) -> bool {
        &&& v is Obj
        &&& req_field_ok::<Vec<ListPortfolioPayoutsPayoutsSuccess>>(v, "payouts"@)
        &&& req_field_ok::<ListPortfolioPayoutsLinksSuccess>(v, "links"@)
    }

    open spec fn rel(v: Jv, s: Self) -> bool {
        &&& v is Obj
        &&& req_field_rel::<Vec<ListPortfolioPayoutsPayoutsSuccess>>(v, "payouts"@, s.payouts)
        &&& req_field_rel::<ListPortfolioPayoutsLinksSuccess>(v, "links"@, s.links)
    }

    fn decode(v: &JsonValue) -> (r: Result<Self, DecodeError>) {
        let payouts: Vec<ListPortfolioPayoutsPayoutsSuccess> = match get_field(v, "payouts") {
            Ok(x) => x,
            Err(e) => {
                return Err(e);
            },
        };
        let links: ListPortfolioPayoutsLinksSuccess = match get_field(v, "links") {
            Ok(x) => x,
            Err(e) => {
                return Err(e);
            },
        };
        Ok(ListPortfolioPayoutsSuccess { payouts, links })
    }
}

/// A nested response shape of [`ListPortfolioPayouts`].
#[derive(Debug, Clone, PartialEq)]
pub struct ListPortfolioPayoutsPayoutsSuccess {
    pub id: String,
    pub portfolio_id: i64,
    pub holding_id: i64,
    pub instrument_id: i64,
    pub symbol: String,
    pub market: Market,
    pub paid_on: String,
    pub ex_date: String,
    pub amount: Decimal,
    pub gross_amount: Decimal,
    pub resident_withholding_tax: Decimal,
    pub non_resident_withholding_tax: Decimal,
    pub tax_credit: Decimal,
    pub currency: Currency,
    pub exchange_rate: Decimal,
    pub non_taxable: String,
    pub comments: String,
    pub other_net_fsi: Decimal,
    pub company_event_id: i64,
    pub state: String,
    pub drp_trade_attributes: ListPortfolioPayoutsPayoutsDrpTradeAttributesSuccess,
    pub franked_amount: Decimal,
    pub unfranked_amount: Decimal,
    pub trust: bool,
    pub extra_interest_payment_amount: Decimal,
    pub capital_gains: Decimal,
    pub discounted_capital_gains: Decimal,
    pub interest_payment: Decimal,
    pub foreign_source_income: Decimal,
    pub deferred_income: Decimal,
    pub non_assessable: bool,
    pub amit_decrease_amount: Decimal,
    pub amit_increase_amount: Decimal,
    pub links: ListPortfolioPayoutsPayoutsLinksSuccess,
}

impl ToJson for ListPortfolioPayoutsPayoutsSuccess {
    open spec fn enc(s: Self) -> Jv {
        Jv::Obj(
            Seq::<(Seq<char>, Jv)>::empty()
                + req_entry("id"@, s.id)
                + req_entry("portfolio_id"@, s.portfolio_id)
                + req_entry("holding_id"@, s.holding_id)
                + req_entry("instrument_id"@, s.instrument_id)
                + req_entry("symbol"@, s.symbol)
                + req_entry("market"@, s.market)
                + req_entry("paid_on"@, s.paid_on)
                + req_entry("ex_date"@, s.ex_date)
                + req_entry("amount"@, s.amount)
                + req_entry("gross_amount"@, s.gross_amount)
                + req_entry("resident_withholding_tax"@, s.resident_withholding_tax)
                + req_entry("non_resident_withholding_tax"@, s.non_resident_withholding_tax)
                + req_entry("tax_credit"@, s.tax_credit)
                + req_entry("currency"@, s.currency)
                + req_entry("exchange_rate"@, s.exchange_rate)
                + req_entry("non_taxable"@, s.non_taxable)
                + req_entry("comments"@, s.comments)
                + req_entry("other_net_fsi"@, s.other_net_fsi)
                + req_entry("company_event_id"@, s.company_event_id)
                + req_entry("state"@, s.state)
                + req_entry("drp_trade_attributes"@, s.drp_trade_attributes)
                + req_entry("franked_amount"@, s.franked_amount)
                + req_entry("unfranked_amount"@, s.unfranked_amount)
                + req_entry("trust"@, s.trust)
                + req_entry("extra_interest_payment_amount"@, s.extra_interest_payment_amount)
                + req_entry("capital_gains"@, s.capital_gains)
                + req_entry("discounted_capital_gains"@, s.discounted_capital_gains)
                + req_entry("interest_payment"@, s.interest_payment)
                + req_entry("foreign_source_income"@, s.foreign_source_income)
                + req_entry("deferred_income"@, s.deferred_income)
                + req_entry("non_assessable"@, s.non_assessable)
                + req_entry("amit_decrease_amount"@, s.amit_decrease_amount)
                + req_entry("amit_increase_amount"@, s.amit_increase_amount)
                + req_entry("links"@, s.links),
        )
    }

    fn encode(&self) -> (r: JsonValue) {
        let mut o = JsonObj::new();
        o.put("id", &self.id);
        o.put("portfolio_id", &self.portfolio_id);
        o.put("holding_id", &self.holding_id);
        o.put("instrument_id", &self.instrument_id);
        o.put("symbol", &self.symbol);
        o.put("market", &self.market);
        o.put("paid_on", &self.paid_on);
        o.put("ex_date", &self.ex_date);
        o.put("amount", &self.amount);
        o.put("gross_amount", &self.gross_amount);
        o.put("resident_withholding_tax", &self.resident_withholding_tax);
        o.put("non_resident_withholding_tax", &self.non_resident_withholding_tax);
        o.put("tax_credit", &self.tax_credit);
        o.put("currency", &self.currency);
        o.put("exchange_rate", &self.exchange_rate);
        o.put("non_taxable", &self.non_taxable);
        o.put("comments", &self.comments);
        o.put("other_net_fsi", &self.other_net_fsi);
        o.put("company_event_id", &self.company_event_id);
        o.put("state", &self.state);
        o.put("drp_trade_attributes", &self.drp_trade_attributes);
        o.put("franked_amount", &self.franked_amount);
        o.put("unfranked_amount", &self.unfranked_amount);
        o.put("trust", &self.trust);
        o.put("extra_interest_payment_amount", &self.extra_interest_payment_amount);
        o.put("capital_gains", &self.capital_gains);
        o.put("discounted_capital_gains", &self.discounted_capital_gains);
        o.put("interest_payment", &self.interest_payment);
        o.put("foreign_source_income", &self.foreign_source_income);
        o.put("deferred_income", &self.deferred_income);
        o.put("non_assessable", &self.non_assessable);
        o.put("amit_decrease_amount", &self.amit_decrease_amount);
        o.put("amit_increase_amount", &self.amit_increase_amount);
        o.put("links", &self.links);
        o.finish()
    }
}

impl FromJson for ListPortfolioPayoutsPayoutsSuccess {
    open spec fn decodable(v: Jv) -> bool {
        &&& v is Obj
        &&& req_field_ok::<String>(v, "id"@)
        &&& req_field_ok::<i64>(v, "portfolio_id"@)
        &&& req_field_ok::<i64>(v, "holding_id"@)
        &&& req_field_ok::<i64>(v, "instrument_id"@)
        &&& req_field_ok::<String>(v, "symbol"@)
        &&& req_field_ok::<Market>(v, "market"@)
        &&& req_field_ok::<String>(v, "paid_on"@)
        &&& req_field_ok::<String>(v, "ex_date"@)
        &&& req_field_ok::<Decimal>(v, "amount"@)
        &&& req_field_ok::<Decimal>(v, "gross_amount"@)
        &&& req_field_ok::<Decimal>(v, "resident_withholding_tax"@)
        &&& req_field_ok::<Decimal>(v, "non_resident_withholding_tax"@)
        &&& req_field_ok::<Decimal>(v, "tax_credit"@)
        &&& req_field_ok::<Currency>(v, "currency"@)
        &&& req_field_ok::<Decimal>(v, "exchange_rate"@)
        &&& req_field_ok::<String>(v, "non_taxable"@)
        &&& req_field_ok::<String>(v, "comments"@)
        &&& req_field_ok::<Decimal>(v, "other_net_fsi"@)
        &&& req_field_ok::<i64>(v, "company_event_id"@)
        &&& req_field_ok::<String>(v, "state"@)
        &&& req_field_ok::<ListPortfolioPayoutsPayoutsDrpTradeAttributesSuccess>(v, "drp_trade_attributes"@)
        &&& req_field_ok::<Decimal>(v, "franked_amount"@)
        &&& req_field_ok::<Decimal>(v, "unfranked_amount"@)
        &&& req_field_ok::<bool>(v, "trust"@)
        &&& req_field_ok::<Decimal>(v, "extra_interest_payment_amount"@)
        &&& req_field_ok::<Decimal>(v, "capital_gains"@)
        &&& req_field_ok::<Decimal>(v, "discounted_capital_gains"@)
        &&& req_field_ok::<Decimal>(v, "interest_payment"@)
        &&& req_field_ok::<Decimal>(v, "foreign_source_income"@)
        &&& req_field_ok::<Decimal>(v, "deferred_income"@)
        &&& req_field_ok::<bool>(v, "non_assessable"@)
        &&& req_field_ok::<Decimal>(v, "amit_decrease_amount"@)
        &&& req_field_ok::<Decimal>(v, "amit_increase_amount"@)
        &&& req_field_ok::<ListPortfolioPayoutsPayoutsLinksSuccess>(v, "links"@)
    }

    open spec fn rel(v: Jv, s: Self) -> bool {
        &&& v is Obj
        &&& req_field_rel::<String>(v, "id"@, s.id)
        &&& req_field_rel::<i64>(v, "portfolio_id"@, s.portfolio_id)
        &&& req_field_rel::<i64>(v, "holding_id"@, s.holding_id)
        &&& req_field_rel::<i64>(v, "instrument_id"@, s.instrument_id)
        &&& req_field_rel::<String>(v, "symbol"@, s.symbol)
        &&& req_field_rel::<Market>(v, "market"@, s.market)
        &&& req_field_rel::<String>(v, "paid_on"@, s.paid_on)
        &&& req_field_rel::<String>(v, "ex_date"@, s.ex_date)
        &&& req_field_rel::<Decimal>(v, "amount"@, s.amount)
        &&& req_field_rel::<Decimal>(v, "gross_amount"@, s.gross_amount)
        &&& req_field_rel::<Decimal>(v, "resident_withholding_tax"@, s.resident_withholding_tax)
        &&& req_field_rel::<Decimal>(v, "non_resident_withholding_tax"@, s.non_resident_withholding_tax)
        &&& req_field_rel::<Decimal>(v, "tax_credit"@, s.tax_credit)
        &&& req_field_rel::<Currency>(v, "currency"@, s.currency)
        &&& req_field_rel::<Decimal>(v, "exchange_rate"@, s.exchange_rate)
        &&& req_field_rel::<String>(v, "non_taxable"@, s.non_taxable)
        &&& req_field_rel::<String>(v, "comments"@, s.comments)
        &&& req_field_rel::<Decimal>(v, "other_net_fsi"@, s.other_net_fsi)
        &&& req_field_rel::<i64>(v, "company_event_id"@, s.company_event_id)
        &&& req_field_rel::<String>(v, "state"@, s.state)
        &&& req_field_rel::<ListPortfolioPayoutsPayoutsDrpTradeAttributesSuccess>(v, "drp_trade_attributes"@, s.drp_trade_attributes)
        &&& req_field_rel::<Decimal>(v, "franked_amount"@, s.franked_amount)
        &&& req_field_rel::<Decimal>(v, "unfranked_amount"@, s.unfranked_amount)
        &&& req_field_rel::<bool>(v, "trust"@, s.trust)
        &&& req_field_rel::<Decimal>(v, "extra_interest_payment_amount"@, s.extra_interest_payment_amount)
        &&& req_field_rel::<Decimal>(v, "capital_gains"@, s.capital_gains)
        &&& req_field_rel::<Decimal>(v, "discounted_capital_gains"@, s.discounted_capital_gains)
        &&& req_field_rel::<Decimal>(v, "interest_payment"@, s.interest_payment)
        &&& req_field_rel::<Decimal>(v, "foreign_source_income"@, s.foreign_source_income)
        &&& req_field_rel::<Decimal>(v, "deferred_income"@, s.deferred_income)
        &&& req_field_rel::<bool>(v, "non_assessable"@, s.non_assessable)
        &&& req_field_rel::<Decimal>(v, "amit_decrease_amount"@, s.amit_decrease_amount)
        &&& req_field_rel::<Decimal>(v, "amit_increase_amount"@, s.amit_increase_amount)
        &&& req_field_rel::<ListPortfolioPayoutsPayoutsLinksSuccess>(v, "links"@, s.links)
    }

    fn decode(v: &JsonValue) -> (r: Result<Self, DecodeError>) {
        let id: String = match get_field(v, "id") {
            Ok(x) => x,
            Err(e) => {
                return Err(e);
            },
        };
        let portfolio_id: i64 = match get_field(v, "portfolio_id") {
            Ok(x) => x,
            Err(e) => {
                return Err(e);
            },
        };
        let holding_id: i64 = match get_field(v, "holding_id") {
            Ok(x) => x,
            Err(e) => {
                return Err(e);
            },
        };
        let instrument_id: i64 = match get_field(v, "instrument_id") {
            Ok(x) => x,
            Err(e) => {
                return Err(e);
            },
        };
        let symbol: String = match get_field(v, "symbol") {
            Ok(x) => x,
            Err(e) => {
                return Err(e);
            },
        };
        let market: Market = match get_field(v, "market") {
            Ok(x) => x,
            Err(e) => {
                return Err(e);
            },
        };
        let paid_on: String = match get_field(v, "paid_on") {
            Ok(x) => x,
            Err(e) => {
                return Err(e);
            },
        };
        let ex_date: String = match get_field(v, "ex_date") {
            Ok(x) => x,
            Err(e) => {
                return Err(e);
            },
        };
        let amount: Decimal = match get_field(v, "amount") {
            Ok(x) => x,
            Err(e) => {
                return Err(e);
            },
        };
        let gross_amount: Decimal = match get_field(v, "gross_amount") {
            Ok(x) => x,
            Err(e) => {
                return Err(e);
            },
        };
        let resident_withholding_tax: Decimal = match get_field(v, "resident_withholding_tax") {
            Ok(x) => x,
            Err(e) => {
                return Err(e);
            },
        };
        let non_resident_withholding_tax: Decimal = match get_field(v, "non_resident_withholding_tax") {
            Ok(x) => x,
            Err(e) => {
                return Err(e);
            },
        };
        let tax_credit: Decimal = match get_field(v, "tax_credit") {
            Ok(x) => x,
            Err(e) => {
                return Err(e);
            },
        };
        let currency: Currency = match get_field(v, "currency") {
            Ok(x) => x,
            Err(e) => {
                return Err(e);
            },
        };
        let exchange_rate: Decimal = match get_field(v, "exchange_rate") {
            Ok(x) => x,
            Err(e) => {
                return Err(e);
            },
        };
        let non_taxable: String = match get_field(v, "non_taxable") {
            Ok(x) => x,
            Err(e) => {
                return Err(e);
            },
        };
        let comments: String = match get_field(v, "comments") {
            Ok(x) => x,
            Err(e) => {
                return Err(e);
            },
        };
        let other_net_fsi: Decimal = match get_field(v, "other_net_fsi") {
            Ok(x) => x,
            Err(e) => {
                return Err(e);
            },
        };
        let company_event_id: i64 = match get_field(v, "company_event_id") {
            Ok(x) => x,
            Err(e) => {
                return Err(e);
            },
        };
        let state: String = match get_field(v, "state") {
            Ok(x) => x,
            Err(e) => {
                return Err(e);
            },
        };
        let drp_trade_attributes: ListPortfolioPayoutsPayoutsDrpTradeAttributesSuccess = match get_field(v, "drp_trade_attributes") {
            Ok(x) => x,
            Err(e) => {
                return Err(e);
            },
        };
        let franked_amount: Decimal = match get_field(v, "franked_amount") {
            Ok(x) => x,
            Err(e) => {
                return Err(e);
            },
        };
        let unfranked_amount: Decimal = match get_field(v, "unfranked_amount") {
            Ok(x) => x,
            Err(e) => {
                return Err(e);
            },
        };
        let trust: bool = match get_field(v, "trust") {
            Ok(x) => x,
            Err(e) => {
                return Err(e);
            },
        };
        let extra_interest_payment_amount: Decimal = match get_field(v, "extra_interest_payment_amount") {
            Ok(x) => x,
            Err(e) => {
                return Err(e);
            },
        };
        let capital_gains: Decimal = match get_field(v, "capital_gains") {
            Ok(x) => x,
            Err(e) => {
                return Err(e);
            },
        };
        let discounted_capital_gains: Decimal = match get_field(v, "discounted_capital_gains") {
            Ok(x) => x,
            Err(e) => {
                return Err(e);
            },
        };
        let interest_payment: Decimal = match get_field(v, "interest_payment") {
            Ok(x) => x,
            Err(e) => {
                return Err(e);
            },
        };
        let foreign_source_income: Decimal = match get_field(v, "foreign_source_income") {
            Ok(x) => x,
            Err(e) => {
                return Err(e);
            },
        };
        let deferred_income: Decimal = match get_field(v, "deferred_income") {
            Ok(x) => x,
            Err(e) => {
                return Err(e);
            },
        };
        let non_assessable: bool = match get_field(v, "non_assessable") {
            Ok(x) => x,
            Err(e) => {
                return Err(e);
            },
        };
        let amit_decrease_amount: Decimal = match get_field(v, "amit_decrease_amount") {
            Ok(x) => x,
            Err(e) => {
                return Err(e);
            },
        };
        let amit_increase_amount: Decimal = match get_field(v, "amit_increase_amount") {
            Ok(x) => x,
            Err(e) => {
                return Err(e);
            },
        };
        let links: ListPortfolioPayoutsPayoutsLinksSuccess = match get_field(v, "links") {
            Ok(x) => x,
            Err(e) => {
                return Err(e);
            },
        };
        Ok(ListPortfolioPayoutsPayoutsSuccess { id, portfolio_id, holding_id, instrument_id, symbol, market, paid_on, ex_date, amount, gross_amount, resident_withholding_tax, non_resident_withholding_tax, tax_credit, currency, exchange_rate, non_taxable, comments, other_net_fsi, company_event_id, state, drp_trade_attributes, franked_amount, unfranked_amount, trust, extra_interest_payment_amount, capital_gains, discounted_capital_gains, interest_payment, foreign_source_income, deferred_income, non_assessable, amit_decrease_amount, amit_increase_amount, links })
    }
}

/// A nested response shape of [`ListPortfolioPayouts`].
#[derive(Debug, Clone, PartialEq)]
pub struct ListPortfolioPayoutsPayoutsDrpTradeAttributesSuccess {
    pub dividend_reinvested: bool,
    pub quantity: Decimal,
    pub price: Decimal,
    pub source_adjustment_id: i64,
}

impl ToJson for ListPortfolioPayoutsPayoutsDrpTradeAttributesSuccess {
    open spec fn enc(s: Self) -> Jv {
        Jv::Obj(
            Seq::<(Seq<char>, Jv)>::empty()
                + req_entry("dividend_reinvested"@, s.dividend_reinvested)
                + req_entry("quantity"@, s.quantity)
                + req_entry("price"@, s.price)
                + req_entry("source_adjustment_id"@, s.source_adjustment_id),
        )
    }

    fn encode(&self) -> (r: JsonValue) {
        let mut o = JsonObj::new();
        o.put("dividend_reinvested", &self.dividend_reinvested);
        o.put("quantity", &self.quantity);
        o.put("price", &self.price);
        o.put("source_adjustment_id", &self.source_adjustment_id);
        o.finish()
    }
}

impl FromJson for ListPortfolioPayoutsPayoutsDrpTradeAttributesSuccess {
    open spec fn decodable(v: Jv) -> bool {
        &&& v is Obj
        &&& req_field_ok::<bool>(v, "dividend_reinvested"@)
        &&& req_field_ok::<Decimal>(v, "quantity"@)
        &&& req_field_ok::<Decimal>(v, "price"@)
        &&& req_field_ok::<i64>(v, "source_adjustment_id"@)
    }

    open spec fn rel(v: Jv, s: Self) -> bool {
        &&& v is Obj
        &&& req_field_rel::<bool>(v, "dividend_reinvested"@, s.dividend_reinvested)
        &&& req_field_rel::<Decimal>(v, "quantity"@, s.quantity)
        &&& req_field_rel::<Decimal>(v, "price"@, s.price)
        &&& req_field_rel::<i64>(v, "source_adjustment_id"@, s.source_adjustment_id)
    }

    fn decode(v: &JsonValue) -> (r: Result<Self, DecodeError>) {
        let dividend_reinvested: bool = match get_field(v, "dividend_reinvested") {
            Ok(x) => x,
            Err(e) => {
                return Err(e);
            },
        };
        let quantity: Decimal = match get_field(v, "quantity") {
            Ok(x) => x,
            Err(e) => {
                return Err(e);
            },
        };
        let price: Decimal = match get_field(v, "price") {
            Ok(x) => x,
            Err(e) => {
                return Err(e);
            },
        };
        let source_adjustment_id: i64 = match get_field(v, "source_adjustment_id") {
            Ok(x) => x,
            Err(e) => {
                return Err(e);
            },
        };
        Ok(ListPortfolioPayoutsPayoutsDrpTradeAttributesSuccess { dividend_reinvested, quantity, price, source_adjustment_id })
    }
}

/// A nested response shape of [`ListPortfolioPayouts`].
#[derive(Debug, Clone, PartialEq)]
pub struct ListPortfolioPayoutsPayoutsLinksSuccess {
    pub portfolio: String,
}

impl ToJson for ListPortfolioPayoutsPayoutsLinksSuccess {
    open spec fn enc(s: Self) -> Jv {
        Jv::Obj(
            Seq::<(Seq<char>, Jv)>::empty()
                + req_entry("portfolio"@, s.portfolio),
        )
    }

    fn encode(&self) -> (r: JsonValue) {
        let mut o = JsonObj::new();
        o.put("portfolio", &self.portfolio);
        o.finish()
    }
}

impl FromJson for ListPortfolioPayoutsPayoutsLinksSuccess {
    open spec fn decodable(v: Jv) -> bool {
        &&& v is Obj
        &&& req_field_ok::<String>(v, "portfolio"@)
    }

    open spec fn rel(v: Jv, s: Self) -> bool {
        &&& v is Obj
        &&& req_field_rel::<String>(v, "portfolio"@, s.portfolio)
    }

    fn decode(v: &JsonValue) -> (r: Result<Self, DecodeError>) {
        let portfolio: String = match get_field(v, "portfolio") {
            Ok(x) => x,
            Err(e) => {
                return Err(e);
            },
        };
        Ok(ListPortfolioPayoutsPayoutsLinksSuccess { portfolio })
    }
}

/// A nested response shape of [`ListPortfolioPayouts`].
#[derive(Debug, Clone, PartialEq)]
pub struct ListPortfolioPayoutsLinksSuccess {
    pub itself: String,
}

impl ToJson for ListPortfolioPayoutsLinksSuccess {
    open spec fn enc(s: Self) -> Jv {
        Jv::Obj(
            Seq::<(Seq<char>, Jv)>::empty()
                + req_entry("self"@, s.itself),
        )
    }

    fn encode(&self) -> (r: JsonValue) {
        let mut o = JsonObj::new();
        o.put("self", &self.itself);
        o.finish()
    }
}

impl FromJson for ListPortfolioPayoutsLinksSuccess {
    open spec fn decodable(v: Jv) -> bool {
        &&& v is Obj
        &&& req_field_ok::<String>(v, "self"@)
    }

    open spec fn rel(v: Jv, s: Self) -> bool {
        &&& v is Obj
        &&& req_field_rel::<String>(v, "self"@, s.itself)
    }

    fn decode(v: &JsonValue) -> (r: Result<Self, DecodeError>) {
        let itself: String = match get_field(v, "self") {
            Ok(x) => x,
            Err(e) => {
                return Err(e);
            },
        };
        Ok(ListPortfolioPayoutsLinksSuccess { itself })
    }
}

/// `POST /payouts.json`.
pub struct PayoutConfirm;

impl PayoutConfirm {
    /// The URL template of this endpoint.
    pub fn url_template() -> (r: &'static str)
        ensures
            r@ == "/payouts.json"@,
    {
        "/payouts.json"
    }

    /// The HTTP method of this endpoint.
    pub fn http_method() -> (r: ApiHttpMethod)
        ensures
            r == ApiHttpMethod::Post,
    {
        ApiHttpMethod::Post
    }

    /// The URL path of this endpoint; it takes no parameters.
    pub fn url_path() -> (r: &'static str)
        ensures
            r@ == "/payouts.json"@,
    {
        "/payouts.json"
    }

    /// Decodes a success payload, naming this endpoint in any
    /// failure.
    pub fn decode_success(v: &JsonValue) -> (r: Result<PayoutConfirmSuccess, DecodeError>)
        ensures
            r matches Ok(s) ==> <PayoutConfirmSuccess as FromJson>::decodable(v@)
                && <PayoutConfirmSuccess as FromJson>::rel(v@, s),
            <PayoutConfirmSuccess as FromJson>::decodable(v@) ==> r is Ok,
            r matches Err(e) ==> spec_starts_with(e.path@, "PayoutConfirm"@),
    {
        match PayoutConfirmSuccess::decode(v) {
            Ok(s) => Ok(s),
            Err(e) => Err(e.in_endpoint("PayoutConfirm")),
        }
    }
}

/// A nested parameter shape of [`PayoutConfirm`].
#[derive(Debug, Clone, PartialEq)]
pub struct PayoutConfirmPayoutParameters {
    pub holding_id: i64,
    pub company_event_id: i64,
    pub paid_on: Date,
    pub state: String,
    pub drp_trade_attributes: Option<PayoutConfirmPayoutDrpTradeAttributesParameters>,
}

impl ToJson for PayoutConfirmPayoutParameters {
    open spec fn enc(s: Self) -> Jv {
        Jv::Obj(
            Seq::<(Seq<char>, Jv)>::empty()
                + req_entry("holding_id"@, s.holding_id)
                + req_entry("company_event_id"@, s.company_event_id)
                + req_entry("paid_on"@, s.paid_on)
                + req_entry("state"@, s.state)
                + opt_entry("drp_trade_attributes"@, s.drp_trade_attributes),
        )
    }

    fn encode(&self) -> (r: JsonValue) {
        let mut o = JsonObj::new();
        o.put("holding_id", &self.holding_id);
        o.put("company_event_id", &self.company_event_id);
        o.put("paid_on", &self.paid_on);
        o.put("state", &self.state);
        o.put_opt("drp_trade_attributes", &self.drp_trade_attributes);
        o.finish()
    }
}

impl FromJson for PayoutConfirmPayoutParameters {
    open spec fn decodable(v: Jv) -> bool {
        &&& v is Obj
        &&& req_field_ok::<i64>(v, "holding_id"@)
        &&& req_field_ok::<i64>(v, "company_event_id"@)
        &&& req_field_ok::<Date>(v, "paid_on"@)
        &&& req_field_ok::<String>(v, "state"@)
        &&& opt_field_ok::<PayoutConfirmPayoutDrpTradeAttributesParameters>(v, "drp_trade_attributes"@)
    }

    open spec fn rel(v: Jv, s: Self) -> bool {
        &&& v is Obj
        &&& req_field_rel::<i64>(v, "holding_id"@, s.holding_id)
        &&& req_field_rel::<i64>(v, "company_event_id"@, s.company_event_id)
        &&& req_field_rel::<Date>(v, "paid_on"@, s.paid_on)
        &&& req_field_rel::<String>(v, "state"@, s.state)
        &&& opt_field_rel::<PayoutConfirmPayoutDrpTradeAttributesParameters>(v, "drp_trade_attributes"@, s.drp_trade_attributes)
    }

    fn decode(v: &JsonValue) -> (r: Result<Self, DecodeError>) {
        let holding_id: i64 = match get_field(v, "holding_id") {
            Ok(x) => x,
            Err(e) => {
                return Err(e);
            },
        };
        let company_event_id: i64 = match get_field(v, "company_event_id") {
            Ok(x) => x,
            Err(e) => {
                return Err(e);
            },
        };
        let paid_on: Date = match get_field(v, "paid_on") {
            Ok(x) => x,
            Err(e) => {
                return Err(e);
            },
        };
        let state: String = match get_field(v, "state") {
            Ok(x) => x,
            Err(e) => {
                return Err(e);
            },
        };
        let drp_trade_attributes: Option<PayoutConfirmPayoutDrpTradeAttributesParameters> = match get_opt_field(v, "drp_trade_attributes") {
            Ok(x) => x,
            Err(e) => {
                return Err(e);
            },
        };
        Ok(PayoutConfirmPayoutParameters { holding_id, company_event_id, paid_on, state, drp_trade_attributes })
    }
}

/// A nested parameter shape of [`PayoutConfirm`].
#[derive(Debug, Clone, PartialEq)]
pub struct PayoutConfirmPayoutDrpTradeAttributesParameters {
    pub dividend_reinvested: Option<bool>,
    pub quantity: Option<Decimal>,
    pub price: Option<Decimal>,
    pub source_adjustment_id: Option<i64>,
}

impl ToJson for PayoutConfirmPayoutDrpTradeAttributesParameters {
    open spec fn enc(s: Self) -> Jv {
        Jv::Obj(
            Seq::<(Seq<char>, Jv)>::empty()
                + opt_entry("dividend_reinvested"@, s.dividend_reinvested)
                + opt_entry("quantity"@, s.quantity)
                + opt_entry("price"@, s.price)
                + opt_entry("source_adjustment_id"@, s.source_adjustment_id),
        )
    }

    fn encode(&self) -> (r: JsonValue) {
        let mut o = JsonObj::new();
        o.put_opt("dividend_reinvested", &self.dividend_reinvested);
        o.put_opt("quantity", &self.quantity);
        o.put_opt("price", &self.price);
        o.put_opt("source_adjustment_id", &self.source_adjustment_id);
        o.finish()
    }
}

impl FromJson for PayoutConfirmPayoutDrpTradeAttributesParameters {
    open spec fn decodable(v: Jv) -> bool {
        &&& v is Obj
        &&& opt_field_ok::<bool>(v, "dividend_reinvested"@)
        &&& opt_field_ok::<Decimal>(v, "quantity"@)
        &&& opt_field_ok::<Decimal>(v, "price"@)
        &&& opt_field_ok::<i64>(v, "source_adjustment_id"@)
    }

    open spec fn rel(v: Jv, s: Self) -> bool {
        &&& v is Obj
        &&& opt_field_rel::<bool>(v, "dividend_reinvested"@, s.dividend_reinvested)
        &&& opt_field_rel::<Decimal>(v, "quantity"@, s.quantity)
        &&& opt_field_rel::<Decimal>(v, "price"@, s.price)
        &&& opt_field_rel::<i64>(v, "source_adjustment_id"@, s.source_adjustment_id)
    }

    fn decode(v: &JsonValue) -> (r: Result<Self, DecodeError>) {
        let dividend_reinvested: Option<bool> = match get_opt_field(v, "dividend_reinvested") {
            Ok(x) => x,
            Err(e) => {
                return Err(e);
            },
        };
        let quantity: Option<Decimal> = match get_opt_field(v, "quantity") {
            Ok(x) => x,
            Err(e) => {
                return Err(e);
            },
        };
        let price: Option<Decimal> = match get_opt_field(v, "price") {
            Ok(x) => x,
            Err(e) => {
                return Err(e);
            },
        };
        let source_adjustment_id: Option<i64> = match get_opt_field(v, "source_adjustment_id") {
            Ok(x) => x,
            Err(e) => {
                return Err(e);
            },
        };
        Ok(PayoutConfirmPayoutDrpTradeAttributesParameters { dividend_reinvested, quantity, price, source_adjustment_id })
    }
}

/// The parameters of a [`PayoutConfirm`] call.
#[derive(Debug, Clone, PartialEq)]
pub struct PayoutConfirmParameters {
    pub payout: PayoutConfirmPayoutParameters,
}

impl ToJson for PayoutConfirmParameters {
    open spec fn enc(s: Self) -> Jv {
        Jv::Obj(
            Seq::<(Seq<char>, Jv)>::empty()
                + req_entry("payout"@, s.payout),
        )
    }

    fn encode(&self) -> (r: JsonValue) {
        let mut o = JsonObj::new();
        o.put("payout", &self.payout);
        o.finish()
    }
}

impl FromJson for PayoutConfirmParameters {
    open spec fn decodable(v: Jv) -> bool {
        &&& v is Obj
        &&& req_field_ok::<PayoutConfirmPayoutParameters>(v, "payout"@)
    }

    open spec fn rel(v: Jv, s: Self) -> bool {
        &&& v is Obj
        &&& req_field_rel::<PayoutConfirmPayoutParameters>(v, "payout"@, s.payout)
    }

    fn decode(v: &JsonValue) -> (r: Result<Self, DecodeError>) {
        let payout: PayoutConfirmPayoutParameters = match get_field(v, "payout") {
            Ok(x) => x,
            Err(e) => {
                return Err(e);
            },
        };
        Ok(PayoutConfirmParameters { payout })
    }
}

/// The success response of a [`PayoutConfirm`] call.
#[derive(Debug, Clone, PartialEq)]
pub struct PayoutConfirmSuccess {
    pub payout: PayoutConfirmPayoutSuccess,
}

impl ToJson for PayoutConfirmSuccess {
    open spec fn enc(s: Self) -> Jv {
        Jv::Obj(
            Seq::<(Seq<char>, Jv)>::empty()
                + req_entry("payout"@, s.payout),
        )
    }

    fn encode(&self) -> (r: JsonValue) {
        let mut o = JsonObj::new();
        o.put("payout", &self.payout);
        o.finish()
    }
}

impl FromJson for PayoutConfirmSuccess {
    open spec fn decodable(v: Jv) -> bool {
        &&& v is Obj
        &&& req_field_ok::<PayoutConfirmPayoutSuccess>(v, "payout"@)
    }

    open spec fn rel(v: Jv, s: Self) -> bool {
        &&& v is Obj
        &&& req_field_rel::<PayoutConfirmPayoutSuccess>(v, "payout"@, s.payout)
    }

    fn decode(v: &JsonValue) -> (r: Result<Self, DecodeError>) {
        let payout: PayoutConfirmPayoutSuccess = match get_field(v, "payout") {
            Ok(x) => x,
            Err(e) => {
                return Err(e);
            },
        };
        Ok(PayoutConfirmSuccess { payout })
    }
}

/// A nested response shape of [`PayoutConfirm`].
#[derive(Debug, Clone, PartialEq)]
pub struct PayoutConfirmPayoutSuccess {
    pub id: i64,
    pub portfolio_id: i64,
    pub holding_id: i64,
    pub instrument_id: i64,
    pub symbol: String,
    pub market: Market,
    pub paid_on: Date,
    pub ex_date: Date,
    pub amount: Decimal,
    pub gross_amount: Decimal,
    pub resident_withholding_tax: Decimal,
    pub non_resident_withholding_tax: Decimal,
    pub tax_credit: Decimal,
    pub currency: Currency,
    pub exchange_rate: Decimal,
    pub non_taxable: String,
    pub comments: String,
    pub company_event_id: i64,
    pub state: String,
}

impl ToJson for PayoutConfirmPayoutSuccess {
    open spec fn enc(s: Self) -> Jv {
        Jv::Obj(
            Seq::<(Seq<char>, Jv)>::empty()
                + req_entry("id"@, s.id)
                + req_entry("portfolio_id"@, s.portfolio_id)
                + req_entry("holding_id"@, s.holding_id)
                + req_entry("instrument_id"@, s.instrument_id)
                + req_entry("symbol"@, s.symbol)
                + req_entry("market"@, s.market)
                + req_entry("paid_on"@, s.paid_on)
                + req_entry("ex_date"@, s.ex_date)
                + req_entry("amount"@, s.amount)
                + req_entry("gross_amount"@, s.gross_amount)
                + req_entry("resident_withholding_tax"@, s.resident_withholding_tax)
                + req_entry("non_resident_withholding_tax"@, s.non_resident_withholding_tax)
                + req_entry("tax_credit"@, s.tax_credit)
                + req_entry("currency"@, s.currency)
                + req_entry("exchange_rate"@, s.exchange_rate)
                + req_entry("non_taxable"@, s.non_taxable)
                + req_entry("comments"@, s.comments)
                + req_entry("company_event_id"@, s.company_event_id)
                + req_entry("state"@, s.state),
        )
    }

    fn encode(&self) -> (r: JsonValue) {
        let mut o = JsonObj::new();
        o.put("id", &self.id);
        o.put("portfolio_id", &self.portfolio_id);
        o.put("holding_id", &self.holding_id);
        o.put("instrument_id", &self.instrument_id);
        o.put("symbol", &self.symbol);
        o.put("market", &self.market);
        o.put("paid_on", &self.paid_on);
        o.put("ex_date", &self.ex_date);
        o.put("amount", &self.amount);
        o.put("gross_amount", &self.gross_amount);
        o.put("resident_withholding_tax", &self.resident_withholding_tax);
        o.put("non_resident_withholding_tax", &self.non_resident_withholding_tax);
        o.put("tax_credit", &self.tax_credit);
        o.put("currency", &self.currency);
        o.put("exchange_rate", &self.exchange_rate);
        o.put("non_taxable", &self.non_taxable);
        o.put("comments", &self.comments);
        o.put("company_event_id", &self.company_event_id);
        o.put("state", &self.state);
        o.finish()
    }
}

impl FromJson for PayoutConfirmPayoutSuccess {
    open spec fn decodable(v: Jv) -> bool {
        &&& v is Obj
        &&& req_field_ok::<i64>(v, "id"@)
        &&& req_field_ok::<i64>(v, "portfolio_id"@)
        &&& req_field_ok::<i64>(v, "holding_id"@)
        &&& req_field_ok::<i64>(v, "instrument_id"@)
        &&& req_field_ok::<String>(v, "symbol"@)
        &&& req_field_ok::<Market>(v, "market"@)
        &&& req_field_ok::<Date>(v, "paid_on"@)
        &&& req_field_ok::<Date>(v, "ex_date"@)
        &&& req_field_ok::<Decimal>(v, "amount"@)
        &&& req_field_ok::<Decimal>(v, "gross_amount"@)
        &&& req_field_ok::<Decimal>(v, "resident_withholding_tax"@)
        &&& req_field_ok::<Decimal>(v, "non_resident_withholding_tax"@)
        &&& req_field_ok::<Decimal>(v, "tax_credit"@)
        &&& req_field_ok::<Currency>(v, "currency"@)
        &&& req_field_ok::<Decimal>(v, "exchange_rate"@)
        &&& req_field_ok::<String>(v, "non_taxable"@)
        &&& req_field_ok::<String>(v, "comments"@)
        &&& req_field_ok::<i64>(v, "company_event_id"@)
        &&& req_field_ok::<String>(v, "state"@)
    }

    open spec fn rel(v: Jv, s: Self) -> bool {
        &&& v is Obj
        &&& req_field_rel::<i64>(v, "id"@, s.id)
        &&& req_field_rel::<i64>(v, "portfolio_id"@, s.portfolio_id)
        &&& req_field_rel::<i64>(v, "holding_id"@, s.holding_id)
        &&& req_field_rel::<i64>(v, "instrument_id"@, s.instrument_id)
        &&& req_field_rel::<String>(v, "symbol"@, s.symbol)
        &&& req_field_rel::<Market>(v, "market"@, s.market)
        &&& req_field_rel::<Date>(v, "paid_on"@, s.paid_on)
        &&& req_field_rel::<Date>(v, "ex_date"@, s.ex_date)
        &&& req_field_rel::<Decimal>(v, "amount"@, s.amount)
        &&& req_field_rel::<Decimal>(v, "gross_amount"@, s.gross_amount)
        &&& req_field_rel::<Decimal>(v, "resident_withholding_tax"@, s.resident_withholding_tax)
        &&& req_field_rel::<Decimal>(v, "non_resident_withholding_tax"@, s.non_resident_withholding_tax)
        &&& req_field_rel::<Decimal>(v, "tax_credit"@, s.tax_credit)
        &&& req_field_rel::<Currency>(v, "currency"@, s.currency)
        &&& req_field_rel::<Decimal>(v, "exchange_rate"@, s.exchange_rate)
        &&& req_field_rel::<String>(v, "non_taxable"@, s.non_taxable)
        &&& req_field_rel::<String>(v, "comments"@, s.comments)
        &&& req_field_rel::<i64>(v, "company_event_id"@, s.company_event_id)
        &&& req_field_rel::<String>(v, "state"@, s.state)
    }

    fn decode(v: &JsonValue) -> (r: Result<Self, DecodeError>) {
        let id: i64 = match get_field(v, "id") {
            Ok(x) => x,
            Err(e) => {
                return Err(e);
            },
        };
        let portfolio_id: i64 = match get_field(v, "portfolio_id") {
            Ok(x) => x,
            Err(e) => {
                return Err(e);
            },
        };
        let holding_id: i64 = match get_field(v, "holding_id") {
            Ok(x) => x,
            Err(e) => {
                return Err(e);
            },
        };
        let instrument_id: i64 = match get_field(v, "instrument_id") {
            Ok(x) => x,
            Err(e) => {
                return Err(e);
            },
        };
        let symbol: String = match get_field(v, "symbol") {
            Ok(x) => x,
            Err(e) => {
                return Err(e);
            },
        };
        let market: Market = match get_field(v, "market") {
            Ok(x) => x,
            Err(e) => {
                return Err(e);
            },
        };
        let paid_on: Date = match get_field(v, "paid_on") {
            Ok(x) => x,
            Err(e) => {
                return Err(e);
            },
        };
        let ex_date: Date = match get_field(v, "ex_date") {
            Ok(x) => x,
            Err(e) => {
                return Err(e);
            },
        };
        let amount: Decimal = match get_field(v, "amount") {
            Ok(x) => x,
            Err(e) => {
                return Err(e);
            },
        };
        let gross_amount: Decimal = match get_field(v, "gross_amount") {
            Ok(x) => x,
            Err(e) => {
                return Err(e);
            },
        };
        let resident_withholding_tax: Decimal = match get_field(v, "resident_withholding_tax") {
            Ok(x) => x,
            Err(e) => {
                return Err(e);
            },
        };
        let non_resident_withholding_tax: Decimal = match get_field(v, "non_resident_withholding_tax") {
            Ok(x) => x,
            Err(e) => {
                return Err(e);
            },
        };
        let tax_credit: Decimal = match get_field(v, "tax_credit") {
            Ok(x) => x,
            Err(e) => {
                return Err(e);
            },
        };
        let currency: Currency = match get_field(v, "currency") {
            Ok(x) => x,
            Err(e) => {
                return Err(e);
            },
        };
        let exchange_rate: Decimal = match get_field(v, "exchange_rate") {
            Ok(x) => x,
            Err(e) => {
                return Err(e);
            },
        };
        let non_taxable: String = match get_field(v, "non_taxable") {
            Ok(x) => x,
            Err(e) => {
                return Err(e);
            },
        };
        let comments: String = match get_field(v, "comments") {
            Ok(x) => x,
            Err(e) => {
                return Err(e);
            },
        };
        let company_event_id: i64 = match get_field(v, "company_event_id") {
            Ok(x) => x,
            Err(e) => {
                return Err(e);
            },
        };
        let state: String = match get_field(v, "state") {
            Ok(x) => x,
            Err(e) => {
                return Err(e);
            },
        };
        Ok(PayoutConfirmPayoutSuccess { id, portfolio_id, holding_id, instrument_id, symbol, market, paid_on, ex_date, amount, gross_amount, resident_withholding_tax, non_resident_withholding_tax, tax_credit, currency, exchange_rate, non_taxable, comments, company_event_id, state })
    }
}

/// `POST /payouts.json`.
pub struct PayoutCreate;

impl PayoutCreate {
    /// The URL template of this endpoint.
    pub fn url_template() -> (r: &'static str)
        ensures
            r@ == "/payouts.json"@,
    {
        "/payouts.json"
    }

    /// The HTTP method of this endpoint.
    pub fn http_method() -> (r: ApiHttpMethod)
        ensures
            r == ApiHttpMethod::Post,
    {
        ApiHttpMethod::Post
    }

    /// The URL path of this endpoint; it takes no parameters.
    pub fn url_path() -> (r: &'static str)
        ensures
            r@ == "/payouts.json"@,
    {
        "/payouts.json"
    }

    /// Decodes a success payload, naming this endpoint in any
    /// failure.
    pub fn decode_success(v: &JsonValue) -> (r: Result<PayoutCreateSuccess, DecodeError>)
        ensures
            r matches Ok(s) ==> <PayoutCreateSuccess as FromJson>::decodable(v@)
                && <PayoutCreateSuccess as FromJson>::rel(v@, s),
            <PayoutCreateSuccess as FromJson>::decodable(v@) ==> r is Ok,
            r matches Err(e) ==> spec_starts_with(e.path@, "PayoutCreate"@),
    {
        match PayoutCreateSuccess::decode(v) {
            Ok(s) => Ok(s),
            Err(e) => Err(e.in_endpoint("PayoutCreate")),
        }
    }
}

/// The parameters of a [`PayoutCreate`] call.
#[derive(Debug, Clone, PartialEq)]
pub struct PayoutCreateParameters {
    pub payout: PayoutCreatePayoutParameters,
}

impl ToJson for PayoutCreateParameters {
    open spec fn enc(s: Self) -> Jv {
        Jv::Obj(
            Seq::<(Seq<char>, Jv)>::empty()
                + req_entry("payout"@, s.payout),
        )
    }

    fn encode(&self) -> (r: JsonValue) {
        let mut o = JsonObj::new();
        o.put("payout", &self.payout);
        o.finish()
    }
}

impl FromJson for PayoutCreateParameters {
    open spec fn decodable(v: Jv) -> bool {
        &&& v is Obj
        &&& req_field_ok::<PayoutCreatePayoutParameters>(v, "payout"@)
    }

    open spec fn rel(v: Jv, s: Self) -> bool {
        &&& v is Obj
        &&& req_field_rel::<PayoutCreatePayoutParameters>(v, "payout"@, s.payout)
    }

    fn decode(v: &JsonValue) -> (r: Result<Self, DecodeError>) {
        let payout: PayoutCreatePayoutParameters = match get_field(v, "payout") {
            Ok(x) => x,
            Err(e) => {
                return Err(e);
            },
        };
        Ok(PayoutCreateParameters { payout })
    }
}

/// A nested parameter shape of [`PayoutCreate`].
#[derive(Debug, Clone, PartialEq)]
pub struct PayoutCreatePayoutParameters {
    pub portfolio_id: i64,
    pub holding_id: i64,
    pub symbol: String,
    pub market: Market,
    pub paid_on: Date,
    pub amount: Decimal,
    pub currency_code: Currency,
    pub goes_ex_on: Option<Date>,
    pub resident_withholding_tax: Option<Decimal>,
    pub non_resident_withholding_tax: Option<Decimal>,
    pub tax_credit: Option<Decimal>,
    pub exchange_rate: Option<Decimal>,
    pub adjustment_id: Option<i64>,
    pub comments: Option<String>,
    pub non_taxable: Option<bool>,
    pub source_payment_date: Option<String>,
    pub send_to_xero: Option<bool>,
    pub banked_amount: Option<Decimal>,
    pub drp_trade_attributes: Option<PayoutCreatePayoutDrpTradeAttributesParameters>,
    pub franked_amount: Decimal,
    pub unfranked_amount: Decimal,
    pub trust: bool,
    pub extra_interest_payment_amount: Option<Decimal>,
    pub capital_gains: Option<Decimal>,
    pub discounted_capital_gains: Option<Decimal>,
    pub foreign_source_income: Option<Decimal>,
    pub lic_capital_gain: Option<Decimal>,
    pub non_assessable: Option<bool>,
    pub deferred_income: Decimal,
    pub cgt_concession_amount: Decimal,
    pub amit_decrease_amount: Decimal,
    pub amit_increase_amount: Decimal,
    pub file_name: String,
    pub file_attachment: String,
}

impl ToJson for PayoutCreatePayoutParameters {
    open spec fn enc(s: Self) -> Jv {
        Jv::Obj(
            Seq::<(Seq<char>, Jv)>::empty()
                + req_entry("portfolio_id"@, s.portfolio_id)
                + req_entry("holding_id"@, s.holding_id)
                + req_entry("symbol"@, s.symbol)
                + req_entry("market"@, s.market)
                + req_entry("paid_on"@, s.paid_on)
                + req_entry("amount"@, s.amount)
                + req_entry("currency_code"@, s.currency_code)
                + opt_entry("goes_ex_on"@, s.goes_ex_on)
                + opt_entry("resident_withholding_tax"@, s.resident_withholding_tax)
                + opt_entry("non_resident_withholding_tax"@, s.non_resident_withholding_tax)
                + opt_entry("tax_credit"@, s.tax_credit)
                + opt_entry("exchange_rate"@, s.exchange_rate)
                + opt_entry("adjustment_id"@, s.adjustment_id)
                + opt_entry("comments"@, s.comments)
                + opt_entry("non_taxable"@, s.non_taxable)
                + opt_entry("source_payment_date"@, s.source_payment_date)
                + opt_entry("send_to_xero"@, s.send_to_xero)
                + opt_entry("banked_amount"@, s.banked_amount)
                + opt_entry("drp_trade_attributes"@, s.drp_trade_attributes)
                + req_entry("franked_amount"@, s.franked_amount)
                + req_entry("unfranked_amount"@, s.unfranked_amount)
                + req_entry("trust"@, s.trust)
                + opt_entry("extra_interest_payment_amount"@, s.extra_interest_payment_amount)
                + opt_entry("capital_gains"@, s.capital_gains)
                + opt_entry("discounted_capital_gains"@, s.discounted_capital_gains)
                + opt_entry("foreign_source_income"@, s.foreign_source_income)
                + opt_entry("lic_capital_gain"@, s.lic_capital_gain)
                + opt_entry("non_assessable"@, s.non_assessable)
                + req_entry("deferred_income"@, s.deferred_income)
                + req_entry("cgt_concession_amount"@, s.cgt_concession_amount)
                + req_entry("amit_decrease_amount"@, s.amit_decrease_amount)
                + req_entry("amit_increase_amount"@, s.amit_increase_amount)
                + req_entry("file_name"@, s.file_name)
                + req_entry("file_attachment"@, s.file_attachment),
        )
    }

    fn encode(&self) -> (r: JsonValue) {
        let mut o = JsonObj::new();
        o.put("portfolio_id", &self.portfolio_id);
        o.put("holding_id", &self.holding_id);
        o.put("symbol", &self.symbol);
        o.put("market", &self.market);
        o.put("paid_on", &self.paid_on);
        o.put("amount", &self.amount);
        o.put("currency_code", &self.currency_code);
        o.put_opt("goes_ex_on", &self.goes_ex_on);
        o.put_opt("resident_withholding_tax", &self.resident_withholding_tax);
        o.put_opt("non_resident_withholding_tax", &self.non_resident_withholding_tax);
        o.put_opt("tax_credit", &self.tax_credit);
        o.put_opt("exchange_rate", &self.exchange_rate);
        o.put_opt("adjustment_id", &self.adjustment_id);
        o.put_opt("comments", &self.comments);
        o.put_opt("non_taxable", &self.non_taxable);
        o.put_opt("source_payment_date", &self.source_payment_date);
        o.put_opt("send_to_xero", &self.send_to_xero);
        o.put_opt("banked_amount", &self.banked_amount);
        o.put_opt("drp_trade_attributes", &self.drp_trade_attributes);
        o.put("franked_amount", &self.franked_amount);
        o.put("unfranked_amount", &self.unfranked_amount);
        o.put("trust", &self.trust);
        o.put_opt("extra_interest_payment_amount", &self.extra_interest_payment_amount);
        o.put_opt("capital_gains", &self.capital_gains);
        o.put_opt("discounted_capital_gains", &self.discounted_capital_gains);
        o.put_opt("foreign_source_income", &self.foreign_source_income);
        o.put_opt("lic_capital_gain", &self.lic_capital_gain);
        o.put_opt("non_assessable", &self.non_assessable);
        o.put("deferred_income", &self.deferred_income);
        o.put("cgt_concession_amount", &self.cgt_concession_amount);
        o.put("amit_decrease_amount", &self.amit_decrease_amount);
        o.put("amit_increase_amount", &self.amit_increase_amount);
        o.put("file_name", &self.file_name);
        o.put("file_attachment", &self.file_attachment);
        o.finish()
    }
}

impl FromJson for PayoutCreatePayoutParameters {
    open spec fn decodable(v: Jv) -> bool {
        &&& v is Obj
        &&& req_field_ok::<i64>(v, "portfolio_id"@)
        &&& req_field_ok::<i64>(v, "holding_id"@)
        &&& req_field_ok::<String>(v, "symbol"@)
        &&& req_field_ok::<Market>(v, "market"@)
        &&& req_field_ok::<Date>(v, "paid_on"@)
        &&& req_field_ok::<Decimal>(v, "amount"@)
        &&& req_field_ok::<Currency>(v, "currency_code"@)
        &&& opt_field_ok::<Date>(v, "goes_ex_on"@)
        &&& opt_field_ok::<Decimal>(v, "resident_withholding_tax"@)
        &&& opt_field_ok::<Decimal>(v, "non_resident_withholding_tax"@)
        &&& opt_field_ok::<Decimal>(v, "tax_credit"@)
        &&& opt_field_ok::<Decimal>(v, "exchange_rate"@)
        &&& opt_field_ok::<i64>(v, "adjustment_id"@)
        &&& opt_field_ok::<String>(v, "comments"@)
        &&& opt_field_ok::<bool>(v, "non_taxable"@)
        &&& opt_field_ok::<String>(v, "source_payment_date"@)
        &&& opt_field_ok::<bool>(v, "send_to_xero"@)
        &&& opt_field_ok::<Decimal>(v, "banked_amount"@)
        &&& opt_field_ok::<PayoutCreatePayoutDrpTradeAttributesParameters>(v, "drp_trade_attributes"@)
        &&& req_field_ok::<Decimal>(v, "franked_amount"@)
        &&& req_field_ok::<Decimal>(v, "unfranked_amount"@)
        &&& req_field_ok::<bool>(v, "trust"@)
        &&& opt_field_ok::<Decimal>(v, "extra_interest_payment_amount"@)
        &&& opt_field_ok::<Decimal>(v, "capital_gains"@)
        &&& opt_field_ok::<Decimal>(v, "discounted_capital_gains"@)
        &&& opt_field_ok::<Decimal>(v, "foreign_source_income"@)
        &&& opt_field_ok::<Decimal>(v, "lic_capital_gain"@)
        &&& opt_field_ok::<bool>(v, "non_assessable"@)
        &&& req_field_ok::<Decimal>(v, "deferred_income"@)
        &&& req_field_ok::<Decimal>(v, "cgt_concession_amount"@)
        &&& req_field_ok::<Decimal>(v, "amit_decrease_amount"@)
        &&& req_field_ok::<Decimal>(v, "amit_increase_amount"@)
        &&& req_field_ok::<String>(v, "file_name"@)
        &&& req_field_ok::<String>(v, "file_attachment"@)
    }

    open spec fn rel(v: Jv, s: Self) -> bool {
        &&& v is Obj
        &&& req_field_rel::<i64>(v, "portfolio_id"@, s.portfolio_id)
        &&& req_field_rel::<i64>(v, "holding_id"@, s.holding_id)
        &&& req_field_rel::<String>(v, "symbol"@, s.symbol)
        &&& req_field_rel::<Market>(v, "market"@, s.market)
        &&& req_field_rel::<Date>(v, "paid_on"@, s.paid_on)
        &&& req_field_rel::<Decimal>(v, "amount"@, s.amount)
        &&& req_field_rel::<Currency>(v, "currency_code"@, s.currency_code)
        &&& opt_field_rel::<Date>(v, "goes_ex_on"@, s.goes_ex_on)
        &&& opt_field_rel::<Decimal>(v, "resident_withholding_tax"@, s.resident_withholding_tax)
        &&& opt_field_rel::<Decimal>(v, "non_resident_withholding_tax"@, s.non_resident_withholding_tax)
        &&& opt_field_rel::<Decimal>(v, "tax_credit"@, s.tax_credit)
        &&& opt_field_rel::<Decimal>(v, "exchange_rate"@, s.exchange_rate)
        &&& opt_field_rel::<i64>(v, "adjustment_id"@, s.adjustment_id)
        &&& opt_field_rel::<String>(v, "comments"@, s.comments)
        &&& opt_field_rel::<bool>(v, "non_taxable"@, s.non_taxable)
        &&& opt_field_rel::<String>(v, "source_payment_date"@, s.source_payment_date)
        &&& opt_field_rel::<bool>(v, "send_to_xero"@, s.send_to_xero)
        &&& opt_field_rel::<Decimal>(v, "banked_amount"@, s.banked_amount)
        &&& opt_field_rel::<PayoutCreatePayoutDrpTradeAttributesParameters>(v, "drp_trade_attributes"@, s.drp_trade_attributes)
        &&& req_field_rel::<Decimal>(v, "franked_amount"@, s.franked_amount)
        &&& req_field_rel::<Decimal>(v, "unfranked_amount"@, s.unfranked_amount)
        &&& req_field_rel::<bool>(v, "trust"@, s.trust)
        &&& opt_field_rel::<Decimal>(v, "extra_interest_payment_amount"@, s.extra_interest_payment_amount)
        &&& opt_field_rel::<Decimal>(v, "capital_gains"@, s.capital_gains)
        &&& opt_field_rel::<Decimal>(v, "discounted_capital_gains"@, s.discounted_capital_gains)
        &&& opt_field_rel::<Decimal>(v, "foreign_source_income"@, s.foreign_source_income)
        &&& opt_field_rel::<Decimal>(v, "lic_capital_gain"@, s.lic_capital_gain)
        &&& opt_field_rel::<bool>(v, "non_assessable"@, s.non_assessable)
        &&& req_field_rel::<Decimal>(v, "deferred_income"@, s.deferred_income)
        &&& req_field_rel::<Decimal>(v, "cgt_concession_amount"@, s.cgt_concession_amount)
        &&& req_field_rel::<Decimal>(v, "amit_decrease_amount"@, s.amit_decrease_amount)
        &&& req_field_rel::<Decimal>(v, "amit_increase_amount"@, s.amit_increase_amount)
        &&& req_field_rel::<String>(v, "file_name"@, s.file_name)
        &&& req_field_rel::<String>(v, "file_attachment"@, s.file_attachment)
    }

    fn decode(v: &JsonValue) -> (r: Result<Self, DecodeError>) {
        let portfolio_id: i64 = match get_field(v, "portfolio_id") {
            Ok(x) => x,
            Err(e) => {
                return Err(e);
            },
        };
        let holding_id: i64 = match get_field(v, "holding_id") {
            Ok(x) => x,
            Err(e) => {
                return Err(e);
            },
        };
        let symbol: String = match get_field(v, "symbol") {
            Ok(x) => x,
            Err(e) => {
                return Err(e);
            },
        };
        let market: Market = match get_field(v, "market") {
            Ok(x) => x,
            Err(e) => {
                return Err(e);
            },
        };
        let paid_on: Date = match get_field(v, "paid_on") {
            Ok(x) => x,
            Err(e) => {
                return Err(e);
            },
        };
        let amount: Decimal = match get_field(v, "amount") {
            Ok(x) => x,
            Err(e) => {
                return Err(e);
            },
        };
        let currency_code: Currency = match get_field(v, "currency_code") {
            Ok(x) => x,
            Err(e) => {
                return Err(e);
            },
        };
        let goes_ex_on: Option<Date> = match get_opt_field(v, "goes_ex_on") {
            Ok(x) => x,
            Err(e) => {
                return Err(e);
            },
        };
        let resident_withholding_tax: Option<Decimal> = match get_opt_field(v, "resident_withholding_tax") {
            Ok(x) => x,
            Err(e) => {
                return Err(e);
            },
        };
        let non_resident_withholding_tax: Option<Decimal> = match get_opt_field(v, "non_resident_withholding_tax") {
            Ok(x) => x,
            Err(e) => {
                return Err(e);
            },
        };
        let tax_credit: Option<Decimal> = match get_opt_field(v, "tax_credit") {
            Ok(x) => x,
            Err(e) => {
                return Err(e);
            },
        };
        let exchange_rate: Option<Decimal> = match get_opt_field(v, "exchange_rate") {
            Ok(x) => x,
            Err(e) => {
                return Err(e);
            },
        };
        let adjustment_id: Option<i64> = match get_opt_field(v, "adjustment_id") {
            Ok(x) => x,
            Err(e) => {
                return Err(e);
            },
        };
        let comments: Option<String> = match get_opt_field(v, "comments") {
            Ok(x) => x,
            Err(e) => {
                return Err(e);
            },
        };
        let non_taxable: Option<bool> = match get_opt_field(v, "non_taxable") {
            Ok(x) => x,
            Err(e) => {
                return Err(e);
            },
        };
        let source_payment_date: Option<String> = match get_opt_field(v, "source_payment_date") {
            Ok(x) => x,
            Err(e) => {
                return Err(e);
            },
        };
        let send_to_xero: Option<bool> = match get_opt_field(v, "send_to_xero") {
            Ok(x) => x,
            Err(e) => {
                return Err(e);
            },
        };
        let banked_amount: Option<Decimal> = match get_opt_field(v, "banked_amount") {
            Ok(x) => x,
            Err(e) => {
                return Err(e);
            },
        };
        let drp_trade_attributes: Option<PayoutCreatePayoutDrpTradeAttributesParameters> = match get_opt_field(v, "drp_trade_attributes") {
            Ok(x) => x,
            Err(e) => {
                return Err(e);
            },
        };
        let franked_amount: Decimal = match get_field(v, "franked_amount") {
            Ok(x) => x,
            Err(e) => {
                return Err(e);
            },
        };
        let unfranked_amount: Decimal = match get_field(v, "unfranked_amount") {
            Ok(x) => x,
            Err(e) => {
                return Err(e);
            },
        };
        let trust: bool = match get_field(v, "trust") {
            Ok(x) => x,
            Err(e) => {
                return Err(e);
            },
        };
        let extra_interest_payment_amount: Option<Decimal> = match get_opt_field(v, "extra_interest_payment_amount") {
            Ok(x) => x,
            Err(e) => {
                return Err(e);
            },
        };
        let capital_gains: Option<Decimal> = match get_opt_field(v, "capital_gains") {
            Ok(x) => x,
            Err(e) => {
                return Err(e);
            },
        };
        let discounted_capital_gains: Option<Decimal> = match get_opt_field(v, "discounted_capital_gains") {
            Ok(x) => x,
            Err(e) => {
                return Err(e);
            },
        };
        let foreign_source_income: Option<Decimal> = match get_opt_field(v, "foreign_source_income") {
            Ok(x) => x,
            Err(e) => {
                return Err(e);
            },
        };
        let lic_capital_gain: Option<Decimal> = match get_opt_field(v, "lic_capital_gain") {
            Ok(x) => x,
            Err(e) => {
                return Err(e);
            },
        };
        let non_assessable: Option<bool> = match get_opt_field(v, "non_assessable") {
            Ok(x) => x,
            Err(e) => {
                return Err(e);
            },
        };
        let deferred_income: Decimal = match get_field(v, "deferred_income") {
            Ok(x) => x,
            Err(e) => {
                return Err(e);
            },
        };
        let cgt_concession_amount: Decimal = match get_field(v, "cgt_concession_amount") {
            Ok(x) => x,
            Err(e) => {
                return Err(e);
            },
        };
        let amit_decrease_amount: Decimal = match get_field(v, "amit_decrease_amount") {
            Ok(x) => x,
            Err(e) => {
                return Err(e);
            },
        };
        let amit_increase_amount: Decimal = match get_field(v, "amit_increase_amount") {
            Ok(x) => x,
            Err(e) => {
                return Err(e);
            },
        };
        let file_name: String = match get_field(v, "file_name") {
            Ok(x) => x,
            Err(e) => {
                return Err(e);
            },
        };
        let file_attachment: String = match get_field(v, "file_attachment") {
            Ok(x) => x,
            Err(e) => {
                return Err(e);
            },
        };
        Ok(PayoutCreatePayoutParameters { portfolio_id, holding_id, symbol, market, paid_on, amount, currency_code, goes_ex_on, resident_withholding_tax, non_resident_withholding_tax, tax_credit, exchange_rate, adjustment_id, comments, non_taxable, source_payment_date, send_to_xero, banked_amount, drp_trade_attributes, franked_amount, unfranked_amount, trust, extra_interest_payment_amount, capital_gains, discounted_capital_gains, foreign_source_income, lic_capital_gain, non_assessable, deferred_income, cgt_concession_amount, amit_decrease_amount, amit_increase_amount, file_name, file_attachment })
    }
}

/// A nested parameter shape of [`PayoutCreate`].
#[derive(Debug, Clone, PartialEq)]
pub struct PayoutCreatePayoutDrpTradeAttributesParameters {
    pub dividend_reinvested: Option<bool>,
    pub quantity: Option<Decimal>,
    pub price: Option<Decimal>,
    pub source_adjustment_id: Option<i64>,
}

impl ToJson for PayoutCreatePayoutDrpTradeAttributesParameters {
    open spec fn enc(s: Self) -> Jv {
        Jv::Obj(
            Seq::<(Seq<char>, Jv)>::empty()
                + opt_entry("dividend_reinvested"@, s.dividend_reinvested)
                + opt_entry("quantity"@, s.quantity)
                + opt_entry("price"@, s.price)
                + opt_entry("source_adjustment_id"@, s.source_adjustment_id),
        )
    }

    fn encode(&self) -> (r: JsonValue) {
        let mut o = JsonObj::new();
        o.put_opt("dividend_reinvested", &self.dividend_reinvested);
        o.put_opt("quantity", &self.quantity);
        o.put_opt("price", &self.price);
        o.put_opt("source_adjustment_id", &self.source_adjustment_id);
        o.finish()
    }
}

impl FromJson for PayoutCreatePayoutDrpTradeAttributesParameters {
    open spec fn decodable(v: Jv) -> bool {
        &&& v is Obj
        &&& opt_field_ok::<bool>(v, "dividend_reinvested"@)
        &&& opt_field_ok::<Decimal>(v, "quantity"@)
        &&& opt_field_ok::<Decimal>(v, "price"@)
        &&& opt_field_ok::<i64>(v, "source_adjustment_id"@)
    }

    open spec fn rel(v: Jv, s: Self) -> bool {
        &&& v is Obj
        &&& opt_field_rel::<bool>(v, "dividend_reinvested"@, s.dividend_reinvested)
        &&& opt_field_rel::<Decimal>(v, "quantity"@, s.quantity)
        &&& opt_field_rel::<Decimal>(v, "price"@, s.price)
        &&& opt_field_rel::<i64>(v, "source_adjustment_id"@, s.source_adjustment_id)
    }

    fn decode(v: &JsonValue) -> (r: Result<Self, DecodeError>) {
        let dividend_reinvested: Option<bool> = match get_opt_field(v, "dividend_reinvested") {
            Ok(x) => x,
            Err(e) => {
                return Err(e);
            },
        };
        let quantity: Option<Decimal> = match get_opt_field(v, "quantity") {
            Ok(x) => x,
            Err(e) => {
                return Err(e);
            },
        };
        let price: Option<Decimal> = match get_opt_field(v, "price") {
            Ok(x) => x,
            Err(e) => {
                return Err(e);
            },
        };
        let source_adjustment_id: Option<i64> = match get_opt_field(v, "source_adjustment_id") {
            Ok(x) => x,
            Err(e) => {
                return Err(e);
            },
        };
        Ok(PayoutCreatePayoutDrpTradeAttributesParameters { dividend_reinvested, quantity, price, source_adjustment_id })
    }
}

/// The success response of a [`PayoutCreate`] call.
#[derive(Debug, Clone, PartialEq)]
pub struct PayoutCreateSuccess {
    pub payout: PayoutCreatePayoutSuccess,
}

impl ToJson for PayoutCreateSuccess {
    open spec fn enc(s: Self) -> Jv {
        Jv::Obj(
            Seq::<(Seq<char>, Jv)>::empty()
                + req_entry("payout"@, s.payout),
        )
    }

    fn encode(&self) -> (r: JsonValue) {
        let mut o = JsonObj::new();
        o.put("payout", &self.payout);
        o.finish()
    }
}

impl FromJson for PayoutCreateSuccess {
    open spec fn decodable(v: Jv) -> bool {
        &&& v is Obj
        &&& req_field_ok::<PayoutCreatePayoutSuccess>(v, "payout"@)
    }

    open spec fn rel(v: Jv, s: Self) -> bool {
        &&& v is Obj
        &&& req_field_rel::<PayoutCreatePayoutSuccess>(v, "payout"@, s.payout)
    }

    fn decode(v: &JsonValue) -> (r: Result<Self, DecodeError>) {
        let payout: PayoutCreatePayoutSuccess = match get_field(v, "payout") {
            Ok(x) => x,
            Err(e) => {
                return Err(e);
            },
        };
        Ok(PayoutCreateSuccess { payout })
    }
}

/// A nested response shape of [`PayoutCreate`].
#[derive(Debug, Clone, PartialEq)]
pub struct PayoutCreatePayoutSuccess {
    pub id: i64,
    pub symbol: String,
    pub market: Market,
    pub paid_on: String,
    pub ex_date: String,
    pub amount: Decimal,
    pub gross_amount: Decimal,
    pub resident_withholding_tax: Decimal,
    pub non_resident_withholding_tax: Decimal,
    pub tax_credit: Decimal,
    pub currency: Currency,
    pub exchange_rate: Decimal,
    pub non_taxable: bool,
    pub franked_amount: Decimal,
    pub unfranked_amount: Decimal,
    pub comments: String,
    pub interest_payment: Decimal,
    pub non_discounted_capital_gains: Decimal,
    pub discounted_capital_gains: Decimal,
    pub foreign_tax_income: Decimal,
    pub non_assessable: Decimal,
    pub trust: bool,
    pub drp_trade_attributes: PayoutCreatePayoutDrpTradeAttributesSuccess,
    pub extra_interest_payment_amount: Decimal,
    pub capital_gains: Decimal,
    pub foreign_source_income: Decimal,
    pub deferred_income: Decimal,
    pub cgt_concession_amount: Decimal,
    pub amit_decrease_amount: Decimal,
    pub amit_increase_amount: Decimal,
    pub attachment_filename: String,
    pub attachment_id: String,
    pub links: PayoutCreatePayoutLinksSuccess,
}

impl ToJson for PayoutCreatePayoutSuccess {
    open spec fn enc(s: Self) -> Jv {
        Jv::Obj(
            Seq::<(Seq<char>, Jv)>::empty()
                + req_entry("id"@, s.id)
                + req_entry("symbol"@, s.symbol)
                + req_entry("market"@, s.market)
                + req_entry("paid_on"@, s.paid_on)
                + req_entry("ex_date"@, s.ex_date)
                + req_entry("amount"@, s.amount)
                + req_entry("gross_amount"@, s.gross_amount)
                + req_entry("resident_withholding_tax"@, s.resident_withholding_tax)
                + req_entry("non_resident_withholding_tax"@, s.non_resident_withholding_tax)
                + req_entry("tax_credit"@, s.tax_credit)
                + req_entry("currency"@, s.currency)
                + req_entry("exchange_rate"@, s.exchange_rate)
                + req_entry("non_taxable"@, s.non_taxable)
                + req_entry("franked_amount"@, s.franked_amount)
                + req_entry("unfranked_amount"@, s.unfranked_amount)
                + req_entry("comments"@, s.comments)
                + req_entry("interest_payment"@, s.interest_payment)
                + req_entry("non_discounted_capital_gains"@, s.non_discounted_capital_gains)
                + req_entry("discounted_capital_gains"@, s.discounted_capital_gains)
                + req_entry("foreign_tax_income"@, s.foreign_tax_income)
                + req_entry("non_assessable"@, s.non_assessable)
                + req_entry("trust"@, s.trust)
                + req_entry("drp_trade_attributes"@, s.drp_trade_attributes)
                + req_entry("extra_interest_payment_amount"@, s.extra_interest_payment_amount)
                + req_entry("capital_gains"@, s.capital_gains)
                + req_entry("foreign_source_income"@, s.foreign_source_income)
                + req_entry("deferred_income"@, s.deferred_income)
                + req_entry("cgt_concession_amount"@, s.cgt_concession_amount)
                + req_entry("amit_decrease_amount"@, s.amit_decrease_amount)
                + req_entry("amit_increase_amount"@, s.amit_increase_amount)
                + req_entry("attachment_filename"@, s.attachment_filename)
                + req_entry("attachment_id"@, s.attachment_id)
                + req_entry("links"@, s.links),
        )
    }

    fn encode(&self) -> (r: JsonValue) {
        let mut o = JsonObj::new();
        o.put("id", &self.id);
        o.put("symbol", &self.symbol);
        o.put("market", &self.market);
        o.put("paid_on", &self.paid_on);
        o.put("ex_date", &self.ex_date);
        o.put("amount", &self.amount);
        o.put("gross_amount", &self.gross_amount);
        o.put("resident_withholding_tax", &self.resident_withholding_tax);
        o.put("non_resident_withholding_tax", &self.non_resident_withholding_tax);
        o.put("tax_credit", &self.tax_credit);
        o.put("currency", &self.currency);
        o.put("exchange_rate", &self.exchange_rate);
        o.put("non_taxable", &self.non_taxable);
        o.put("franked_amount", &self.franked_amount);
        o.put("unfranked_amount", &self.unfranked_amount);
        o.put("comments", &self.comments);
        o.put("interest_payment", &self.interest_payment);
        o.put("non_discounted_capital_gains", &self.non_discounted_capital_gains);
        o.put("discounted_capital_gains", &self.discounted_capital_gains);
        o.put("foreign_tax_income", &self.foreign_tax_income);
        o.put("non_assessable", &self.non_assessable);
        o.put("trust", &self.trust);
        o.put("drp_trade_attributes", &self.drp_trade_attributes);
        o.put("extra_interest_payment_amount", &self.extra_interest_payment_amount);
        o.put("capital_gains", &self.capital_gains);
        o.put("foreign_source_income", &self.foreign_source_income);
        o.put("deferred_income", &self.deferred_income);
        o.put("cgt_concession_amount", &self.cgt_concession_amount);
        o.put("amit_decrease_amount", &self.amit_decrease_amount);
        o.put("amit_increase_amount", &self.amit_increase_amount);
        o.put("attachment_filename", &self.attachment_filename);
        o.put("attachment_id", &self.attachment_id);
        o.put("links", &self.links);
        o.finish()
    }
}

impl FromJson for PayoutCreatePayoutSuccess {
    open spec fn decodable(v: Jv) -> bool {
        &&& v is Obj
        &&& req_field_ok::<i64>(v, "id"@)
        &&& req_field_ok::<String>(v, "symbol"@)
        &&& req_field_ok::<Market>(v, "market"@)
        &&& req_field_ok::<String>(v, "paid_on"@)
        &&& req_field_ok::<String>(v, "ex_date"@)
        &&& req_field_ok::<Decimal>(v, "amount"@)
        &&& req_field_ok::<Decimal>(v, "gross_amount"@)
        &&& req_field_ok::<Decimal>(v, "resident_withholding_tax"@)
        &&& req_field_ok::<Decimal>(v, "non_resident_withholding_tax"@)
        &&& req_field_ok::<Decimal>(v, "tax_credit"@)
        &&& req_field_ok::<Currency>(v, "currency"@)
        &&& req_field_ok::<Decimal>(v, "exchange_rate"@)
        &&& req_field_ok::<bool>(v, "non_taxable"@)
        &&& req_field_ok::<Decimal>(v, "franked_amount"@)
        &&& req_field_ok::<Decimal>(v, "unfranked_amount"@)
        &&& req_field_ok::<String>(v, "comments"@)
        &&& req_field_ok::<Decimal>(v, "interest_payment"@)
        &&& req_field_ok::<Decimal>(v, "non_discounted_capital_gains"@)
        &&& req_field_ok::<Decimal>(v, "discounted_capital_gains"@)
        &&& req_field_ok::<Decimal>(v, "foreign_tax_income"@)
        &&& req_field_ok::<Decimal>(v, "non_assessable"@)
        &&& req_field_ok::<bool>(v, "trust"@)
        &&& req_field_ok::<PayoutCreatePayoutDrpTradeAttributesSuccess>(v, "drp_trade_attributes"@)
        &&& req_field_ok::<Decimal>(v, "extra_interest_payment_amount"@)
        &&& req_field_ok::<Decimal>(v, "capital_gains"@)
        &&& req_field_ok::<Decimal>(v, "foreign_source_income"@)
        &&& req_field_ok::<Decimal>(v, "deferred_income"@)
        &&& req_field_ok::<Decimal>(v, "cgt_concession_amount"@)
        &&& req_field_ok::<Decimal>(v, "amit_decrease_amount"@)
        &&& req_field_ok::<Decimal>(v, "amit_increase_amount"@)
        &&& req_field_ok::<String>(v, "attachment_filename"@)
        &&& req_field_ok::<String>(v, "attachment_id"@)
        &&& req_field_ok::<PayoutCreatePayoutLinksSuccess>(v, "links"@)
    }

    open spec fn rel(v: Jv, s: Self) -> bool {
        &&& v is Obj
        &&& req_field_rel::<i64>(v, "id"@, s.id)
        &&& req_field_rel::<String>(v, "symbol"@, s.symbol)
        &&& req_field_rel::<Market>(v, "market"@, s.market)
        &&& req_field_rel::<String>(v, "paid_on"@, s.paid_on)
        &&& req_field_rel::<String>(v, "ex_date"@, s.ex_date)
        &&& req_field_rel::<Decimal>(v, "amount"@, s.amount)
        &&& req_field_rel::<Decimal>(v, "gross_amount"@, s.gross_amount)
        &&& req_field_rel::<Decimal>(v, "resident_withholding_tax"@, s.resident_withholding_tax)
        &&& req_field_rel::<Decimal>(v, "non_resident_withholding_tax"@, s.non_resident_withholding_tax)
        &&& req_field_rel::<Decimal>(v, "tax_credit"@, s.tax_credit)
        &&& req_field_rel::<Currency>(v, "currency"@, s.currency)
        &&& req_field_rel::<Decimal>(v, "exchange_rate"@, s.exchange_rate)
        &&& req_field_rel::<bool>(v, "non_taxable"@, s.non_taxable)
        &&& req_field_rel::<Decimal>(v, "franked_amount"@, s.franked_amount)
        &&& req_field_rel::<Decimal>(v, "unfranked_amount"@, s.unfranked_amount)
        &&& req_field_rel::<String>(v, "comments"@, s.comments)
        &&& req_field_rel::<Decimal>(v, "interest_payment"@, s.interest_payment)
        &&& req_field_rel::<Decimal>(v, "non_discounted_capital_gains"@, s.non_discounted_capital_gains)
        &&& req_field_rel::<Decimal>(v, "discounted_capital_gains"@, s.discounted_capital_gains)
        &&& req_field_rel::<Decimal>(v, "foreign_tax_income"@, s.foreign_tax_income)
        &&& req_field_rel::<Decimal>(v, "non_assessable"@, s.non_assessable)
        &&& req_field_rel::<bool>(v, "trust"@, s.trust)
        &&& req_field_rel::<PayoutCreatePayoutDrpTradeAttributesSuccess>(v, "drp_trade_attributes"@, s.drp_trade_attributes)
        &&& req_field_rel::<Decimal>(v, "extra_interest_payment_amount"@, s.extra_interest_payment_amount)
        &&& req_field_rel::<Decimal>(v, "capital_gains"@, s.capital_gains)
        &&& req_field_rel::<Decimal>(v, "foreign_source_income"@, s.foreign_source_income)
        &&& req_field_rel::<Decimal>(v, "deferred_income"@, s.deferred_income)
        &&& req_field_rel::<Decimal>(v, "cgt_concession_amount"@, s.cgt_concession_amount)
        &&& req_field_rel::<Decimal>(v, "amit_decrease_amount"@, s.amit_decrease_amount)
        &&& req_field_rel::<Decimal>(v, "amit_increase_amount"@, s.amit_increase_amount)
        &&& req_field_rel::<String>(v, "attachment_filename"@, s.attachment_filename)
        &&& req_field_rel::<String>(v, "attachment_id"@, s.attachment_id)
        &&& req_field_rel::<PayoutCreatePayoutLinksSuccess>(v, "links"@, s.links)
    }

    fn decode(v: &JsonValue) -> (r: Result<Self, DecodeError>) {
        let id: i64 = match get_field(v, "id") {
            Ok(x) => x,
            Err(e) => {
                return Err(e);
            },
        };
        let symbol: String = match get_field(v, "symbol") {
            Ok(x) => x,
            Err(e) => {
                return Err(e);
            },
        };
        let market: Market = match get_field(v, "market") {
            Ok(x) => x,
            Err(e) => {
                return Err(e);
            },
        };
        let paid_on: String = match get_field(v, "paid_on") {
            Ok(x) => x,
            Err(e) => {
                return Err(e);
            },
        };
        let ex_date: String = match get_field(v, "ex_date") {
            Ok(x) => x,
            Err(e) => {
                return Err(e);
            },
        };
        let amount: Decimal = match get_field(v, "amount") {
            Ok(x) => x,
            Err(e) => {
                return Err(e);
            },
        };
        let gross_amount: Decimal = match get_field(v, "gross_amount") {
            Ok(x) => x,
            Err(e) => {
                return Err(e);
            },
        };
        let resident_withholding_tax: Decimal = match get_field(v, "resident_withholding_tax") {
            Ok(x) => x,
            Err(e) => {
                return Err(e);
            },
        };
        let non_resident_withholding_tax: Decimal = match get_field(v, "non_resident_withholding_tax") {
            Ok(x) => x,
            Err(e) => {
                return Err(e);
            },
        };
        let tax_credit: Decimal = match get_field(v, "tax_credit") {
            Ok(x) => x,
            Err(e) => {
                return Err(e);
            },
        };
        let currency: Currency = match get_field(v, "currency") {
            Ok(x) => x,
            Err(e) => {
                return Err(e);
            },
        };
        let exchange_rate: Decimal = match get_field(v, "exchange_rate") {
            Ok(x) => x,
            Err(e) => {
                return Err(e);
            },
        };
        let non_taxable: bool = match get_field(v, "non_taxable") {
            Ok(x) => x,
            Err(e) => {
                return Err(e);
            },
        };
        let franked_amount: Decimal = match get_field(v, "franked_amount") {
            Ok(x) => x,
            Err(e) => {
                return Err(e);
            },
        };
        let unfranked_amount: Decimal = match get_field(v, "unfranked_amount") {
            Ok(x) => x,
            Err(e) => {
                return Err(e);
            },
        };
        let comments: String = match get_field(v, "comments") {
            Ok(x) => x,
            Err(e) => {
                return Err(e);
            },
        };
        let interest_payment: Decimal = match get_field(v, "interest_payment") {
            Ok(x) => x,
            Err(e) => {
                return Err(e);
            },
        };
        let non_discounted_capital_gains: Decimal = match get_field(v, "non_discounted_capital_gains") {
            Ok(x) => x,
            Err(e) => {
                return Err(e);
            },
        };
        let discounted_capital_gains: Decimal = match get_field(v, "discounted_capital_gains") {
            Ok(x) => x,
            Err(e) => {
                return Err(e);
            },
        };
        let foreign_tax_income: Decimal = match get_field(v, "foreign_tax_income") {
            Ok(x) => x,
            Err(e) => {
                return Err(e);
            },
        };
        let non_assessable: Decimal = match get_field(v, "non_assessable") {
            Ok(x) => x,
            Err(e) => {
                return Err(e);
            },
        };
        let trust: bool = match get_field(v, "trust") {
            Ok(x) => x,
            Err(e) => {
                return Err(e);
            },
        };
        let drp_trade_attributes: PayoutCreatePayoutDrpTradeAttributesSuccess = match get_field(v, "drp_trade_attributes") {
            Ok(x) => x,
            Err(e) => {
                return Err(e);
            },
        };
        let extra_interest_payment_amount: Decimal = match get_field(v, "extra_interest_payment_amount") {
            Ok(x) => x,
            Err(e) => {
                return Err(e);
            },
        };
        let capital_gains: Decimal = match get_field(v, "capital_gains") {
            Ok(x) => x,
            Err(e) => {
                return Err(e);
            },
        };
        let foreign_source_income: Decimal = match get_field(v, "foreign_source_income") {
            Ok(x) => x,
            Err(e) => {
                return Err(e);
            },
        };
        let deferred_income: Decimal = match get_field(v, "deferred_income") {
            Ok(x) => x,
            Err(e) => {
                return Err(e);
            },
        };
        let cgt_concession_amount: Decimal = match get_field(v, "cgt_concession_amount") {
            Ok(x) => x,
            Err(e) => {
                return Err(e);
            },
        };
        let amit_decrease_amount: Decimal = match get_field(v, "amit_decrease_amount") {
            Ok(x) => x,
            Err(e) => {
                return Err(e);
            },
        };
        let amit_increase_amount: Decimal = match get_field(v, "amit_increase_amount") {
            Ok(x) => x,
            Err(e) => {
                return Err(e);
            },
        };
        let attachment_filename: String = match get_field(v, "attachment_filename") {
            Ok(x) => x,
            Err(e) => {
                return Err(e);
            },
        };
        let attachment_id: String = match get_field(v, "attachment_id") {
            Ok(x) => x,
            Err(e) => {
                return Err(e);
            },
        };
        let links: PayoutCreatePayoutLinksSuccess = match get_field(v, "links") {
            Ok(x) => x,
            Err(e) => {
                return Err(e);
            },
        };
        Ok(PayoutCreatePayoutSuccess { id, symbol, market, paid_on, ex_date, amount, gross_amount, resident_withholding_tax, non_resident_withholding_tax, tax_credit, currency, exchange_rate, non_taxable, franked_amount, unfranked_amount, comments, interest_payment, non_discounted_capital_gains, discounted_capital_gains, foreign_tax_income, non_assessable, trust, drp_trade_attributes, extra_interest_payment_amount, capital_gains, foreign_source_income, deferred_income, cgt_concession_amount, amit_decrease_amount, amit_increase_amount, attachment_filename, attachment_id, links })
    }
}

/// A nested response shape of [`PayoutCreate`].
#[derive(Debug, Clone, PartialEq)]
pub struct PayoutCreatePayoutDrpTradeAttributesSuccess {
    pub dividend_reinvested: bool,
    pub quantity: Decimal,
    pub price: Decimal,
    pub source_adjustment_id: i64,
}

impl ToJson for PayoutCreatePayoutDrpTradeAttributesSuccess {
    open spec fn enc(s: Self) -> Jv {
        Jv::Obj(
            Seq::<(Seq<char>, Jv)>::empty()
                + req_entry("dividend_reinvested"@, s.dividend_reinvested)
                + req_entry("quantity"@, s.quantity)
                + req_entry("price"@, s.price)
                + req_entry("source_adjustment_id"@, s.source_adjustment_id),
        )
    }

    fn encode(&self) -> (r: JsonValue) {
        let mut o = JsonObj::new();
        o.put("dividend_reinvested", &self.dividend_reinvested);
        o.put("quantity", &self.quantity);
        o.put("price", &self.price);
        o.put("source_adjustment_id", &self.source_adjustment_id);
        o.finish()
    }
}

impl FromJson for PayoutCreatePayoutDrpTradeAttributesSuccess {
    open spec fn decodable(v: Jv) -> bool {
        &&& v is Obj
        &&& req_field_ok::<bool>(v, "dividend_reinvested"@)
        &&& req_field_ok::<Decimal>(v, "quantity"@)
        &&& req_field_ok::<Decimal>(v, "price"@)
        &&& req_field_ok::<i64>(v, "source_adjustment_id"@)
    }

    open spec fn rel(v: Jv, s: Self) -> bool {
        &&& v is Obj
        &&& req_field_rel::<bool>(v, "dividend_reinvested"@, s.dividend_reinvested)
        &&& req_field_rel::<Decimal>(v, "quantity"@, s.quantity)
        &&& req_field_rel::<Decimal>(v, "price"@, s.price)
        &&& req_field_rel::<i64>(v, "source_adjustment_id"@, s.source_adjustment_id)
    }

    fn decode(v: &JsonValue) -> (r: Result<Self, DecodeError>) {
        let dividend_reinvested: bool = match get_field(v, "dividend_reinvested") {
            Ok(x) => x,
            Err(e) => {
                return Err(e);
            },
        };
        let quantity: Decimal = match get_field(v, "quantity") {
            Ok(x) => x,
            Err(e) => {
                return Err(e);
            },
        };
        let price: Decimal = match get_field(v, "price") {
            Ok(x) => x,
            Err(e) => {
                return Err(e);
            },
        };
        let source_adjustment_id: i64 = match get_field(v, "source_adjustment_id") {
            Ok(x) => x,
            Err(e) => {
                return Err(e);
            },
        };
        Ok(PayoutCreatePayoutDrpTradeAttributesSuccess { dividend_reinvested, quantity, price, source_adjustment_id })
    }
}

/// A nested response shape of [`PayoutCreate`].
#[derive(Debug, Clone, PartialEq)]
pub struct PayoutCreatePayoutLinksSuccess {
    pub portfolio: String,
}

impl ToJson for PayoutCreatePayoutLinksSuccess {
    open spec fn enc(s: Self) -> Jv {
        Jv::Obj(
            Seq::<(Seq<char>, Jv)>::empty()
                + req_entry("portfolio"@, s.portfolio),
        )
    }

    fn encode(&self) -> (r: JsonValue) {
        let mut o = JsonObj::new();
        o.put("portfolio", &self.portfolio);
        o.finish()
    }
}

impl FromJson for PayoutCreatePayoutLinksSuccess {
    open spec fn decodable(v: Jv) -> bool {
        &&& v is Obj
        &&& req_field_ok::<String>(v, "portfolio"@)
    }

    open spec fn rel(v: Jv, s: Self) -> bool {
        &&& v is Obj
        &&& req_field_rel::<String>(v, "portfolio"@, s.portfolio)
    }

    fn decode(v: &JsonValue) -> (r: Result<Self, DecodeError>) {
        let portfolio: String = match get_field(v, "portfolio") {
            Ok(x) => x,
            Err(e) => {
                return Err(e);
            },
        };
        Ok(PayoutCreatePayoutLinksSuccess { portfolio })
    }
}

/// `DELETE /payouts/:id.json`.
pub struct PayoutDelete;

/// The parameters of a [`PayoutDelete`] call, held for URL rendering.
pub struct PayoutDeleteUrlDisplay<'a>(pub &'a PayoutDeleteParameters);

impl<'a> PayoutDeleteUrlDisplay<'a> {
    /// Renders the resolved URL path.
    pub fn render(&self) -> (r: String)
        ensures
            r@ == PayoutDelete::spec_url(*self.0),
    {
        PayoutDelete::url(self.0)
    }
}

impl PayoutDelete {
    /// The URL template of this endpoint.
    pub fn url_template() -> (r: &'static str)
        ensures
            r@ == "/payouts/:id.json"@,
    {
        "/payouts/:id.json"
    }

    /// The HTTP method of this endpoint.
    pub fn http_method() -> (r: ApiHttpMethod)
        ensures
            r == ApiHttpMethod::Delete,
    {
        ApiHttpMethod::Delete
    }

    /// The URL path that `p` resolves the template to.
    pub open spec fn spec_url(p: PayoutDeleteParameters) -> Seq<char> {
        "/payouts/"@ + spec_i64_string(p.id as int) + ".json"@
    }

    /// Resolves the URL template with the fields of `parameters`:
    /// plain decimal digits for integers, strings as they are.
    pub fn url(parameters: &PayoutDeleteParameters) -> (r: String)
        ensures
            r@ == Self::spec_url(*parameters),
    {
        let mut s = "/payouts/".to_owned();
        s.append(render_i64(parameters.id).as_str());
        s.append(".json");
        s
    }

    /// Wraps `parameters` for URL rendering.
    pub fn url_path<'a>(parameters: &'a PayoutDeleteParameters) -> (r: PayoutDeleteUrlDisplay<'a>)
        ensures
            r.0 == parameters,
    {
        PayoutDeleteUrlDisplay(parameters)
    }

    /// Decodes a success payload, naming this endpoint in any
    /// failure.
    pub fn decode_success(v: &JsonValue) -> (r: Result<PayoutDeleteSuccess, DecodeError>)
        ensures
            r matches Ok(s) ==> <PayoutDeleteSuccess as FromJson>::decodable(v@)
                && <PayoutDeleteSuccess as FromJson>::rel(v@, s),
            <PayoutDeleteSuccess as FromJson>::decodable(v@) ==> r is Ok,
            r matches Err(e) ==> spec_starts_with(e.path@, "PayoutDelete"@),
    {
        match PayoutDeleteSuccess::decode(v) {
            Ok(s) => Ok(s),
            Err(e) => Err(e.in_endpoint("PayoutDelete")),
        }
    }
}

/// The parameters of a [`PayoutDelete`] call.
#[derive(Debug, Clone, PartialEq)]
pub struct PayoutDeleteParameters {
    pub id: i64,
}

impl ToJson for PayoutDeleteParameters {
    open spec fn enc(s: Self) -> Jv {
        Jv::Obj(
            Seq::<(Seq<char>, Jv)>::empty()
                + req_entry("id"@, s.id),
        )
    }

    fn encode(&self) -> (r: JsonValue) {
        let mut o = JsonObj::new();
        o.put("id", &self.id);
        o.finish()
    }
}

impl FromJson for PayoutDeleteParameters {
    open spec fn decodable(v: Jv) -> bool {
        &&& v is Obj
        &&& req_field_ok::<i64>(v, "id"@)
    }

    open spec fn rel(v: Jv, s: Self) -> bool {
        &&& v is Obj
        &&& req_field_rel::<i64>(v, "id"@, s.id)
    }

    fn decode(v: &JsonValue) -> (r: Result<Self, DecodeError>) {
        let id: i64 = match get_field(v, "id") {
            Ok(x) => x,
            Err(e) => {
                return Err(e);
            },
        };
        Ok(PayoutDeleteParameters { id })
    }
}

/// The success response of a [`PayoutDelete`] call.
#[derive(Debug, Clone, PartialEq)]
pub struct PayoutDeleteSuccess {
    pub deleted: bool,
}

impl ToJson for PayoutDeleteSuccess {
    open spec fn enc(s: Self) -> Jv {
        Jv::Obj(
            Seq::<(Seq<char>, Jv)>::empty()
                + req_entry("deleted"@, s.deleted),
        )
    }

    fn encode(&self) -> (r: JsonValue) {
        let mut o = JsonObj::new();
        o.put("deleted", &self.deleted);
        o.finish()
    }
}

impl FromJson for PayoutDeleteSuccess {
    open spec fn decodable(v: Jv) -> bool {
        &&& v is Obj
        &&& req_field_ok::<bool>(v, "deleted"@)
    }

    open spec fn rel(v: Jv, s: Self) -> bool {
        &&& v is Obj
        &&& req_field_rel::<bool>(v, "deleted"@, s.deleted)
    }

    fn decode(v: &JsonValue) -> (r: Result<Self, DecodeError>) {
        let deleted: bool = match get_field(v, "deleted") {
            Ok(x) => x,
            Err(e) => {
                return Err(e);
            },
        };
        Ok(PayoutDeleteSuccess { deleted })
    }
}

/// `POST /payouts.json`.
pub struct PayoutReject;

impl PayoutReject {
    /// The URL template of this endpoint.
    pub fn url_template() -> (r: &'static str)
        ensures
            r@ == "/payouts.json"@,
    {
        "/payouts.json"
    }

    /// The HTTP method of this endpoint.
    pub fn http_method() -> (r: ApiHttpMethod)
        ensures
            r == ApiHttpMethod::Post,
    {
        ApiHttpMethod::Post
    }

    /// The URL path of this endpoint; it takes no parameters.
    pub fn url_path() -> (r: &'static str)
        ensures
            r@ == "/payouts.json"@,
    {
        "/payouts.json"
    }

    /// Decodes a success payload, naming this endpoint in any
    /// failure.
    pub fn decode_success(v: &JsonValue) -> (r: Result<PayoutRejectSuccess, DecodeError>)
        ensures
            r matches Ok(s) ==> <PayoutRejectSuccess as FromJson>::decodable(v@)
                && <PayoutRejectSuccess as FromJson>::rel(v@, s),
            <PayoutRejectSuccess as FromJson>::decodable(v@) ==> r is Ok,
            r matches Err(e) ==> spec_starts_with(e.path@, "PayoutReject"@),
    {
        match PayoutRejectSuccess::decode(v) {
            Ok(s) => Ok(s),
            Err(e) => Err(e.in_endpoint("PayoutReject")),
        }
    }
}

/// The parameters of a [`PayoutReject`] call.
#[derive(Debug, Clone, PartialEq)]
pub struct PayoutRejectParameters {
    pub holding_id: i64,
    pub company_event_id: i64,
    pub state: String,
}

impl ToJson for PayoutRejectParameters {
    open spec fn enc(s: Self) -> Jv {
        Jv::Obj(
            Seq::<(Seq<char>, Jv)>::empty()
                + req_entry("holding_id"@, s.holding_id)
                + req_entry("company_event_id"@, s.company_event_id)
                + req_entry("state"@, s.state),
        )
    }

    fn encode(&self) -> (r: JsonValue) {
        let mut o = JsonObj::new();
        o.put("holding_id", &self.holding_id);
        o.put("company_event_id", &self.company_event_id);
        o.put("state", &self.state);
        o.finish()
    }
}

impl FromJson for PayoutRejectParameters {
    open spec fn decodable(v: Jv) -> bool {
        &&& v is Obj
        &&& req_field_ok::<i64>(v, "holding_id"@)
        &&& req_field_ok::<i64>(v, "company_event_id"@)
        &&& req_field_ok::<String>(v, "state"@)
    }

    open spec fn rel(v: Jv, s: Self) -> bool {
        &&& v is Obj
        &&& req_field_rel::<i64>(v, "holding_id"@, s.holding_id)
        &&& req_field_rel::<i64>(v, "company_event_id"@, s.company_event_id)
        &&& req_field_rel::<String>(v, "state"@, s.state)
    }

    fn decode(v: &JsonValue) -> (r: Result<Self, DecodeError>) {
        let holding_id: i64 = match get_field(v, "holding_id") {
            Ok(x) => x,
            Err(e) => {
                return Err(e);
            },
        };
        let company_event_id: i64 = match get_field(v, "company_event_id") {
            Ok(x) => x,
            Err(e) => {
                return Err(e);
            },
        };
        let state: String = match get_field(v, "state") {
            Ok(x) => x,
            Err(e) => {
                return Err(e);
            },
        };
        Ok(PayoutRejectParameters { holding_id, company_event_id, state })
    }
}

/// The success response of a [`PayoutReject`] call.
#[derive(Debug, Clone, PartialEq)]
pub struct PayoutRejectSuccess {
    pub payout: PayoutRejectPayoutSuccess,
}

impl ToJson for PayoutRejectSuccess {
    open spec fn enc(s: Self) -> Jv {
        Jv::Obj(
            Seq::<(Seq<char>, Jv)>::empty()
                + req_entry("payout"@, s.payout),
        )
    }

    fn encode(&self) -> (r: JsonValue) {
        let mut o = JsonObj::new();
        o.put("payout", &self.payout);
        o.finish()
    }
}

impl FromJson for PayoutRejectSuccess {
    open spec fn decodable(v: Jv) -> bool {
        &&& v is Obj
        &&& req_field_ok::<PayoutRejectPayoutSuccess>(v, "payout"@)
    }

    open spec fn rel(v: Jv, s: Self) -> bool {
        &&& v is Obj
        &&& req_field_rel::<PayoutRejectPayoutSuccess>(v, "payout"@, s.payout)
    }

    fn decode(v: &JsonValue) -> (r: Result<Self, DecodeError>) {
        let payout: PayoutRejectPayoutSuccess = match get_field(v, "payout") {
            Ok(x) => x,
            Err(e) => {
                return Err(e);
            },
        };
        Ok(PayoutRejectSuccess { payout })
    }
}

/// A nested response shape of [`PayoutReject`].
#[derive(Debug, Clone, PartialEq)]
pub struct PayoutRejectPayoutSuccess {
    pub id: i64,
    pub portfolio_id: i64,
    pub holding_id: i64,
    pub instrument_id: i64,
    pub symbol: String,
    pub market: Market,
    pub paid_on: Date,
    pub ex_date: Date,
    pub amount: Decimal,
    pub gross_amount: Decimal,
    pub resident_withholding_tax: Decimal,
    pub non_resident_withholding_tax: Decimal,
    pub tax_credit: Decimal,
    pub currency: Currency,
    pub exchange_rate: Decimal,
    pub non_taxable: bool,
    pub comments: String,
    pub company_event_id: i64,
    pub state: String,
}

impl ToJson for PayoutRejectPayoutSuccess {
    open spec fn enc(s: Self) -> Jv {
        Jv::Obj(
            Seq::<(Seq<char>, Jv)>::empty()
                + req_entry("id"@, s.id)
                + req_entry("portfolio_id"@, s.portfolio_id)
                + req_entry("holding_id"@, s.holding_id)
                + req_entry("instrument_id"@, s.instrument_id)
                + req_entry("symbol"@, s.symbol)
                + req_entry("market"@, s.market)
                + req_entry("paid_on"@, s.paid_on)
                + req_entry("ex_date"@, s.ex_date)
                + req_entry("amount"@, s.amount)
                + req_entry("gross_amount"@, s.gross_amount)
                + req_entry("resident_withholding_tax"@, s.resident_withholding_tax)
                + req_entry("non_resident_withholding_tax"@, s.non_resident_withholding_tax)
                + req_entry("tax_credit"@, s.tax_credit)
                + req_entry("currency"@, s.currency)
                + req_entry("exchange_rate"@, s.exchange_rate)
                + req_entry("non_taxable"@, s.non_taxable)
                + req_entry("comments"@, s.comments)
                + req_entry("company_event_id"@, s.company_event_id)
                + req_entry("state"@, s.state),
        )
    }

    fn encode(&self) -> (r: JsonValue) {
        let mut o = JsonObj::new();
        o.put("id", &self.id);
        o.put("portfolio_id", &self.portfolio_id);
        o.put("holding_id", &self.holding_id);
        o.put("instrument_id", &self.instrument_id);
        o.put("symbol", &self.symbol);
        o.put("market", &self.market);
        o.put("paid_on", &self.paid_on);
        o.put("ex_date", &self.ex_date);
        o.put("amount", &self.amount);
        o.put("gross_amount", &self.gross_amount);
        o.put("resident_withholding_tax", &self.resident_withholding_tax);
        o.put("non_resident_withholding_tax", &self.non_resident_withholding_tax);
        o.put("tax_credit", &self.tax_credit);
        o.put("currency", &self.currency);
        o.put("exchange_rate", &self.exchange_rate);
        o.put("non_taxable", &self.non_taxable);
        o.put("comments", &self.comments);
        o.put("company_event_id", &self.company_event_id);
        o.put("state", &self.state);
        o.finish()
    }
}

impl FromJson for PayoutRejectPayoutSuccess {
    open spec fn decodable(v: Jv) -> bool {
        &&& v is Obj
        &&& req_field_ok::<i64>(v, "id"@)
        &&& req_field_ok::<i64>(v, "portfolio_id"@)
        &&& req_field_ok::<i64>(v, "holding_id"@)
        &&& req_field_ok::<i64>(v, "instrument_id"@)
        &&& req_field_ok::<String>(v, "symbol"@)
        &&& req_field_ok::<Market>(v, "market"@)
        &&& req_field_ok::<Date>(v, "paid_on"@)
        &&& req_field_ok::<Date>(v, "ex_date"@)
        &&& req_field_ok::<Decimal>(v, "amount"@)
        &&& req_field_ok::<Decimal>(v, "gross_amount"@)
        &&& req_field_ok::<Decimal>(v, "resident_withholding_tax"@)
        &&& req_field_ok::<Decimal>(v, "non_resident_withholding_tax"@)
        &&& req_field_ok::<Decimal>(v, "tax_credit"@)
        &&& req_field_ok::<Currency>(v, "currency"@)
        &&& req_field_ok::<Decimal>(v, "exchange_rate"@)
        &&& req_field_ok::<bool>(v, "non_taxable"@)
        &&& req_field_ok::<String>(v, "comments"@)
        &&& req_field_ok::<i64>(v, "company_event_id"@)
        &&& req_field_ok::<String>(v, "state"@)
    }

    open spec fn rel(v: Jv, s: Self) -> bool {
        &&& v is Obj
        &&& req_field_rel::<i64>(v, "id"@, s.id)
        &&& req_field_rel::<i64>(v, "portfolio_id"@, s.portfolio_id)
        &&& req_field_rel::<i64>(v, "holding_id"@, s.holding_id)
        &&& req_field_rel::<i64>(v, "instrument_id"@, s.instrument_id)
        &&& req_field_rel::<String>(v, "symbol"@, s.symbol)
        &&& req_field_rel::<Market>(v, "market"@, s.market)
        &&& req_field_rel::<Date>(v, "paid_on"@, s.paid_on)
        &&& req_field_rel::<Date>(v, "ex_date"@, s.ex_date)
        &&& req_field_rel::<Decimal>(v, "amount"@, s.amount)
        &&& req_field_rel::<Decimal>(v, "gross_amount"@, s.gross_amount)
        &&& req_field_rel::<Decimal>(v, "resident_withholding_tax"@, s.resident_withholding_tax)
        &&& req_field_rel::<Decimal>(v, "non_resident_withholding_tax"@, s.non_resident_withholding_tax)
        &&& req_field_rel::<Decimal>(v, "tax_credit"@, s.tax_credit)
        &&& req_field_rel::<Currency>(v, "currency"@, s.currency)
        &&& req_field_rel::<Decimal>(v, "exchange_rate"@, s.exchange_rate)
        &&& req_field_rel::<bool>(v, "non_taxable"@, s.non_taxable)
        &&& req_field_rel::<String>(v, "comments"@, s.comments)
        &&& req_field_rel::<i64>(v, "company_event_id"@, s.company_event_id)
        &&& req_field_rel::<String>(v, "state"@, s.state)
    }

    fn decode(v: &JsonValue) -> (r: Result<Self, DecodeError>) {
        let id: i64 = match get_field(v, "id") {
            Ok(x) => x,
            Err(e) => {
                return Err(e);
            },
        };
        let portfolio_id: i64 = match get_field(v, "portfolio_id") {
            Ok(x) => x,
            Err(e) => {
                return Err(e);
            },
        };
        let holding_id: i64 = match get_field(v, "holding_id") {
            Ok(x) => x,
            Err(e) => {
                return Err(e);
            },
        };
        let instrument_id: i64 = match get_field(v, "instrument_id") {
            Ok(x) => x,
            Err(e) => {
                return Err(e);
            },
        };
        let symbol: String = match get_field(v, "symbol") {
            Ok(x) => x,
            Err(e) => {
                return Err(e);
            },
        };
        let market: Market = match get_field(v, "market") {
            Ok(x) => x,
            Err(e) => {
                return Err(e);
            },
        };
        let paid_on: Date = match get_field(v, "paid_on") {
            Ok(x) => x,
            Err(e) => {
                return Err(e);
            },
        };
        let ex_date: Date = match get_field(v, "ex_date") {
            Ok(x) => x,
            Err(e) => {
                return Err(e);
            },
        };
        let amount: Decimal = match get_field(v, "amount") {
            Ok(x) => x,
            Err(e) => {
                return Err(e);
            },
        };
        let gross_amount: Decimal = match get_field(v, "gross_amount") {
            Ok(x) => x,
            Err(e) => {
                return Err(e);
            },
        };
        let resident_withholding_tax: Decimal = match get_field(v, "resident_withholding_tax") {
            Ok(x) => x,
            Err(e) => {
                return Err(e);
            },
        };
        let non_resident_withholding_tax: Decimal = match get_field(v, "non_resident_withholding_tax") {
            Ok(x) => x,
            Err(e) => {
                return Err(e);
            },
        };
        let tax_credit: Decimal = match get_field(v, "tax_credit") {
            Ok(x) => x,
            Err(e) => {
                return Err(e);
            },
        };
        let currency: Currency = match get_field(v, "currency") {
            Ok(x) => x,
            Err(e) => {
                return Err(e);
            },
        };
        let exchange_rate: Decimal = match get_field(v, "exchange_rate") {
            Ok(x) => x,
            Err(e) => {
                return Err(e);
            },
        };
        let non_taxable: bool = match get_field(v, "non_taxable") {
            Ok(x) => x,
            Err(e) => {
                return Err(e);
            },
        };
        let comments: String = match get_field(v, "comments") {
            Ok(x) => x,
            Err(e) => {
                return Err(e);
            },
        };
        let company_event_id: i64 = match get_field(v, "company_event_id") {
            Ok(x) => x,
            Err(e) => {
                return Err(e);
            },
        };
        let state: String = match get_field(v, "state") {
            Ok(x) => x,
            Err(e) => {
                return Err(e);
            },
        };
        Ok(PayoutRejectPayoutSuccess { id, portfolio_id, holding_id, instrument_id, symbol, market, paid_on, ex_date, amount, gross_amount, resident_withholding_tax, non_resident_withholding_tax, tax_credit, currency, exchange_rate, non_taxable, comments, company_event_id, state })
    }
}

/// `GET /payouts/:id.json`.
pub struct PayoutShow;

/// The parameters of a [`PayoutShow`] call, held for URL rendering.
pub struct PayoutShowUrlDisplay<'a>(pub &'a PayoutShowParameters);

impl<'a> PayoutShowUrlDisplay<'a> {
    /// Renders the resolved URL path.
    pub fn render(&self) -> (r: String)
        ensures
            r@ == PayoutShow::spec_url(*self.0),
    {
        PayoutShow::url(self.0)
    }
}

impl PayoutShow {
    /// The URL template of this endpoint.
    pub fn url_template() -> (r: &'static str)
        ensures
            r@ == "/payouts/:id.json"@,
    {
        "/payouts/:id.json"
    }

    /// The HTTP method of this endpoint.
    pub fn http_method() -> (r: ApiHttpMethod)
        ensures
            r == ApiHttpMethod::Get,
    {
        ApiHttpMethod::Get
    }

    /// The URL path that `p` resolves the template to.
    pub open spec fn spec_url(p: PayoutShowParameters) -> Seq<char> {
        "/payouts/"@ + spec_i64_string(p.id as int) + ".json"@
    }

    /// Resolves the URL template with the fields of `parameters`:
    /// plain decimal digits for integers, strings as they are.
    pub fn url(parameters: &PayoutShowParameters) -> (r: String)
        ensures
            r@ == Self::spec_url(*parameters),
    {
        let mut s = "/payouts/".to_owned();
        s.append(render_i64(parameters.id).as_str());
        s.append(".json");
        s
    }

    /// Wraps `parameters` for URL rendering.
    pub fn url_path<'a>(parameters: &'a PayoutShowParameters) -> (r: PayoutShowUrlDisplay<'a>)
        ensures
            r.0 == parameters,
    {
        PayoutShowUrlDisplay(parameters)
    }

    /// Decodes a success payload, naming this endpoint in any
    /// failure.
    pub fn decode_success(v: &JsonValue) -> (r: Result<PayoutShowSuccess, DecodeError>)
        ensures
            r matches Ok(s) ==> <PayoutShowSuccess as FromJson>::decodable(v@)
                && <PayoutShowSuccess as FromJson>::rel(v@, s),
            <PayoutShowSuccess as FromJson>::decodable(v@) ==> r is Ok,
            r matches Err(e) ==> spec_starts_with(e.path@, "PayoutShow"@),
    {
        match PayoutShowSuccess::decode(v) {
            Ok(s) => Ok(s),
            Err(e) => Err(e.in_endpoint("PayoutShow")),
        }
    }
}

/// The parameters of a [`PayoutShow`] call.
#[derive(Debug, Clone, PartialEq)]
pub struct PayoutShowParameters {
    pub id: i64,
}

impl ToJson for PayoutShowParameters {
    open spec fn enc(s: Self) -> Jv {
        Jv::Obj(
            Seq::<(Seq<char>, Jv)>::empty()
                + req_entry("id"@, s.id),
        )
    }

    fn encode(&self) -> (r: JsonValue) {
        let mut o = JsonObj::new();
        o.put("id", &self.id);
        o.finish()
    }
}

impl FromJson for PayoutShowParameters {
    open spec fn decodable(v: Jv) -> bool {
        &&& v is Obj
        &&& req_field_ok::<i64>(v, "id"@)
    }

    open spec fn rel(v: Jv, s: Self) -> bool {
        &&& v is Obj
        &&& req_field_rel::<i64>(v, "id"@, s.id)
    }

    fn decode(v: &JsonValue) -> (r: Result<Self, DecodeError>) {
        let id: i64 = match get_field(v, "id") {
            Ok(x) => x,
            Err(e) => {
                return Err(e);
            },
        };
        Ok(PayoutShowParameters { id })
    }
}

/// The success response of a [`PayoutShow`] call.
#[derive(Debug, Clone, PartialEq)]
pub struct PayoutShowSuccess {
    pub id: i64,
    pub portfolio_id: i64,
    pub holding_id: i64,
    pub instrument_id: i64,
    pub symbol: String,
    pub market: Market,
    pub paid_on: String,
    pub ex_date: String,
    pub amount: Decimal,
    pub gross_amount: Decimal,
    pub resident_withholding_tax: Decimal,
    pub non_resident_withholding_tax: Decimal,
    pub tax_credit: Decimal,
    pub currency: Currency,
    pub exchange_rate: Decimal,
    pub non_taxable: String,
    pub comments: String,
    pub other_net_fsi: Decimal,
    pub lic_capital_gain: Decimal,
    pub company_event_id: i64,
    pub state: String,
    pub drp_trade_attributes: PayoutShowDrpTradeAttributesSuccess,
    pub franked_amount: Decimal,
    pub unfranked_amount: Decimal,
    pub trust: bool,
    pub extra_interest_payment_amount: Decimal,
    pub capital_gains: Decimal,
    pub discounted_capital_gains: Decimal,
    pub foreign_source_income: Decimal,
    pub non_assessable: bool,
    pub deferred_income: Decimal,
    pub cgt_concession_amount: Decimal,
    pub amit_decrease_amount: Decimal,
    pub amit_increase_amount: Decimal,
    pub attachment_filename: String,
    pub attachment_id: String,
    pub links: PayoutShowLinksSuccess,
}

impl ToJson for PayoutShowSuccess {
    open spec fn enc(s: Self) -> Jv {
        Jv::Obj(
            Seq::<(Seq<char>, Jv)>::empty()
                + req_entry("id"@, s.id)
                + req_entry("portfolio_id"@, s.portfolio_id)
                + req_entry("holding_id"@, s.holding_id)
                + req_entry("instrument_id"@, s.instrument_id)
                + req_entry("symbol"@, s.symbol)
                + req_entry("market"@, s.market)
                + req_entry("paid_on"@, s.paid_on)
                + req_entry("ex_date"@, s.ex_date)
                + req_entry("amount"@, s.amount)
                + req_entry("gross_amount"@, s.gross_amount)
                + req_entry("resident_withholding_tax"@, s.resident_withholding_tax)
                + req_entry("non_resident_withholding_tax"@, s.non_resident_withholding_tax)
                + req_entry("tax_credit"@, s.tax_credit)
                + req_entry("currency"@, s.currency)
                + req_entry("exchange_rate"@, s.exchange_rate)
                + req_entry("non_taxable"@, s.non_taxable)
                + req_entry("comments"@, s.comments)
                + req_entry("other_net_fsi"@, s.other_net_fsi)
                + req_entry("lic_capital_gain"@, s.lic_capital_gain)
                + req_entry("company_event_id"@, s.company_event_id)
                + req_entry("state"@, s.state)
                + req_entry("drp_trade_attributes"@, s.drp_trade_attributes)
                + req_entry("franked_amount"@, s.franked_amount)
                + req_entry("unfranked_amount"@, s.unfranked_amount)
                + req_entry("trust"@, s.trust)
                + req_entry("extra_interest_payment_amount"@, s.extra_interest_payment_amount)
                + req_entry("capital_gains"@, s.capital_gains)
                + req_entry("discounted_capital_gains"@, s.discounted_capital_gains)
                + req_entry("foreign_source_income"@, s.foreign_source_income)
                + req_entry("non_assessable"@, s.non_assessable)
                + req_entry("deferred_income"@, s.deferred_income)
                + req_entry("cgt_concession_amount"@, s.cgt_concession_amount)
                + req_entry("amit_decrease_amount"@, s.amit_decrease_amount)
                + req_entry("amit_increase_amount"@, s.amit_increase_amount)
                + req_entry("attachment_filename"@, s.attachment_filename)
                + req_entry("attachment_id"@, s.attachment_id)
                + req_entry("links"@, s.links),
        )
    }

    fn encode(&self) -> (r: JsonValue) {
        let mut o = JsonObj::new();
        o.put("id", &self.id);
        o.put("portfolio_id", &self.portfolio_id);
        o.put("holding_id", &self.holding_id);
        o.put("instrument_id", &self.instrument_id);
        o.put("symbol", &self.symbol);
        o.put("market", &self.market);
        o.put("paid_on", &self.paid_on);
        o.put("ex_date", &self.ex_date);
        o.put("amount", &self.amount);
        o.put("gross_amount", &self.gross_amount);
        o.put("resident_withholding_tax", &self.resident_withholding_tax);
        o.put("non_resident_withholding_tax", &self.non_resident_withholding_tax);
        o.put("tax_credit", &self.tax_credit);
        o.put("currency", &self.currency);
        o.put("exchange_rate", &self.exchange_rate);
        o.put("non_taxable", &self.non_taxable);
        o.put("comments", &self.comments);
        o.put("other_net_fsi", &self.other_net_fsi);
        o.put("lic_capital_gain", &self.lic_capital_gain);
        o.put("company_event_id", &self.company_event_id);
        o.put("state", &self.state);
        o.put("drp_trade_attributes", &self.drp_trade_attributes);
        o.put("franked_amount", &self.franked_amount);
        o.put("unfranked_amount", &self.unfranked_amount);
        o.put("trust", &self.trust);
        o.put("extra_interest_payment_amount", &self.extra_interest_payment_amount);
        o.put("capital_gains", &self.capital_gains);
        o.put("discounted_capital_gains", &self.discounted_capital_gains);
        o.put("foreign_source_income", &self.foreign_source_income);
        o.put("non_assessable", &self.non_assessable);
        o.put("deferred_income", &self.deferred_income);
        o.put("cgt_concession_amount", &self.cgt_concession_amount);
        o.put("amit_decrease_amount", &self.amit_decrease_amount);
        o.put("amit_increase_amount", &self.amit_increase_amount);
        o.put("attachment_filename", &self.attachment_filename);
        o.put("attachment_id", &self.attachment_id);
        o.put("links", &self.links);
        o.finish()
    }
}

impl FromJson for PayoutShowSuccess {
    open spec fn decodable(v: Jv) -> bool {
        &&& v is Obj
        &&& req_field_ok::<i64>(v, "id"@)
        &&& req_field_ok::<i64>(v, "portfolio_id"@)
        &&& req_field_ok::<i64>(v, "holding_id"@)
        &&& req_field_ok::<i64>(v, "instrument_id"@)
        &&& req_field_ok::<String>(v, "symbol"@)
        &&& req_field_ok::<Market>(v, "market"@)
        &&& req_field_ok::<String>(v, "paid_on"@)
        &&& req_field_ok::<String>(v, "ex_date"@)
        &&& req_field_ok::<Decimal>(v, "amount"@)
        &&& req_field_ok::<Decimal>(v, "gross_amount"@)
        &&& req_field_ok::<Decimal>(v, "resident_withholding_tax"@)
        &&& req_field_ok::<Decimal>(v, "non_resident_withholding_tax"@)
        &&& req_field_ok::<Decimal>(v, "tax_credit"@)
        &&& req_field_ok::<Currency>(v, "currency"@)
        &&& req_field_ok::<Decimal>(v, "exchange_rate"@)
        &&& req_field_ok::<String>(v, "non_taxable"@)
        &&& req_field_ok::<String>(v, "comments"@)
        &&& req_field_ok::<Decimal>(v, "other_net_fsi"@)
        &&& req_field_ok::<Decimal>(v, "lic_capital_gain"@)
        &&& req_field_ok::<i64>(v, "company_event_id"@)
        &&& req_field_ok::<String>(v, "state"@)
        &&& req_field_ok::<PayoutShowDrpTradeAttributesSuccess>(v, "drp_trade_attributes"@)
        &&& req_field_ok::<Decimal>(v, "franked_amount"@)
        &&& req_field_ok::<Decimal>(v, "unfranked_amount"@)
        &&& req_field_ok::<bool>(v, "trust"@)
        &&& req_field_ok::<Decimal>(v, "extra_interest_payment_amount"@)
        &&& req_field_ok::<Decimal>(v, "capital_gains"@)
        &&& req_field_ok::<Decimal>(v, "discounted_capital_gains"@)
        &&& req_field_ok::<Decimal>(v, "foreign_source_income"@)
        &&& req_field_ok::<bool>(v, "non_assessable"@)
        &&& req_field_ok::<Decimal>(v, "deferred_income"@)
        &&& req_field_ok::<Decimal>(v, "cgt_concession_amount"@)
        &&& req_field_ok::<Decimal>(v, "amit_decrease_amount"@)
        &&& req_field_ok::<Decimal>(v, "amit_increase_amount"@)
        &&& req_field_ok::<String>(v, "attachment_filename"@)
        &&& req_field_ok::<String>(v, "attachment_id"@)
        &&& req_field_ok::<PayoutShowLinksSuccess>(v, "links"@)
    }

    open spec fn rel(v: Jv, s: Self) -> bool {
        &&& v is Obj
        &&& req_field_rel::<i64>(v, "id"@, s.id)
        &&& req_field_rel::<i64>(v, "portfolio_id"@, s.portfolio_id)
        &&& req_field_rel::<i64>(v, "holding_id"@, s.holding_id)
        &&& req_field_rel::<i64>(v, "instrument_id"@, s.instrument_id)
        &&& req_field_rel::<String>(v, "symbol"@, s.symbol)
        &&& req_field_rel::<Market>(v, "market"@, s.market)
        &&& req_field_rel::<String>(v, "paid_on"@, s.paid_on)
        &&& req_field_rel::<String>(v, "ex_date"@, s.ex_date)
        &&& req_field_rel::<Decimal>(v, "amount"@, s.amount)
        &&& req_field_rel::<Decimal>(v, "gross_amount"@, s.gross_amount)
        &&& req_field_rel::<Decimal>(v, "resident_withholding_tax"@, s.resident_withholding_tax)
        &&& req_field_rel::<Decimal>(v, "non_resident_withholding_tax"@, s.non_resident_withholding_tax)
        &&& req_field_rel::<Decimal>(v, "tax_credit"@, s.tax_credit)
        &&& req_field_rel::<Currency>(v, "currency"@, s.currency)
        &&& req_field_rel::<Decimal>(v, "exchange_rate"@, s.exchange_rate)
        &&& req_field_rel::<String>(v, "non_taxable"@, s.non_taxable)
        &&& req_field_rel::<String>(v, "comments"@, s.comments)
        &&& req_field_rel::<Decimal>(v, "other_net_fsi"@, s.other_net_fsi)
        &&& req_field_rel::<Decimal>(v, "lic_capital_gain"@, s.lic_capital_gain)
        &&& req_field_rel::<i64>(v, "company_event_id"@, s.company_event_id)
        &&& req_field_rel::<String>(v, "state"@, s.state)
        &&& req_field_rel::<PayoutShowDrpTradeAttributesSuccess>(v, "drp_trade_attributes"@, s.drp_trade_attributes)
        &&& req_field_rel::<Decimal>(v, "franked_amount"@, s.franked_amount)
        &&& req_field_rel::<Decimal>(v, "unfranked_amount"@, s.unfranked_amount)
        &&& req_field_rel::<bool>(v, "trust"@, s.trust)
        &&& req_field_rel::<Decimal>(v, "extra_interest_payment_amount"@, s.extra_interest_payment_amount)
        &&& req_field_rel::<Decimal>(v, "capital_gains"@, s.capital_gains)
        &&& req_field_rel::<Decimal>(v, "discounted_capital_gains"@, s.discounted_capital_gains)
        &&& req_field_rel::<Decimal>(v, "foreign_source_income"@, s.foreign_source_income)
        &&& req_field_rel::<bool>(v, "non_assessable"@, s.non_assessable)
        &&& req_field_rel::<Decimal>(v, "deferred_income"@, s.deferred_income)
        &&& req_field_rel::<Decimal>(v, "cgt_concession_amount"@, s.cgt_concession_amount)
        &&& req_field_rel::<Decimal>(v, "amit_decrease_amount"@, s.amit_decrease_amount)
        &&& req_field_rel::<Decimal>(v, "amit_increase_amount"@, s.amit_increase_amount)
        &&& req_field_rel::<String>(v, "attachment_filename"@, s.attachment_filename)
        &&& req_field_rel::<String>(v, "attachment_id"@, s.attachment_id)
        &&& req_field_rel::<PayoutShowLinksSuccess>(v, "links"@, s.links)
    }

    fn decode(v: &JsonValue) -> (r: Result<Self, DecodeError>) {
        let id: i64 = match get_field(v, "id") {
            Ok(x) => x,
            Err(e) => {
                return Err(e);
            },
        };
        let portfolio_id: i64 = match get_field(v, "portfolio_id") {
            Ok(x) => x,
            Err(e) => {
                return Err(e);
            },
        };
        let holding_id: i64 = match get_field(v, "holding_id") {
            Ok(x) => x,
            Err(e) => {
                return Err(e);
            },
        };
        let instrument_id: i64 = match get_field(v, "instrument_id") {
            Ok(x) => x,
            Err(e) => {
                return Err(e);
            },
        };
        let symbol: String = match get_field(v, "symbol") {
            Ok(x) => x,
            Err(e) => {
                return Err(e);
            },
        };
        let market: Market = match get_field(v, "market") {
            Ok(x) => x,
            Err(e) => {
                return Err(e);
            },
        };
        let paid_on: String = match get_field(v, "paid_on") {
            Ok(x) => x,
            Err(e) => {
                return Err(e);
            },
        };
        let ex_date: String = match get_field(v, "ex_date") {
            Ok(x) => x,
            Err(e) => {
                return Err(e);
            },
        };
        let amount: Decimal = match get_field(v, "amount") {
            Ok(x) => x,
            Err(e) => {
                return Err(e);
            },
        };
        let gross_amount: Decimal = match get_field(v, "gross_amount") {
            Ok(x) => x,
            Err(e) => {
                return Err(e);
            },
        };
        let resident_withholding_tax: Decimal = match get_field(v, "resident_withholding_tax") {
            Ok(x) => x,
            Err(e) => {
                return Err(e);
            },
        };
        let non_resident_withholding_tax: Decimal = match get_field(v, "non_resident_withholding_tax") {
            Ok(x) => x,
            Err(e) => {
                return Err(e);
            },
        };
        let tax_credit: Decimal = match get_field(v, "tax_credit") {
            Ok(x) => x,
            Err(e) => {
                return Err(e);
            },
        };
        let currency: Currency = match get_field(v, "currency") {
            Ok(x) => x,
            Err(e) => {
                return Err(e);
            },
        };
        let exchange_rate: Decimal = match get_field(v, "exchange_rate") {
            Ok(x) => x,
            Err(e) => {
                return Err(e);
            },
        };
        let non_taxable: String = match get_field(v, "non_taxable") {
            Ok(x) => x,
            Err(e) => {
                return Err(e);
            },
        };
        let comments: String = match get_field(v, "comments") {
            Ok(x) => x,
            Err(e) => {
                return Err(e);
            },
        };
        let other_net_fsi: Decimal = match get_field(v, "other_net_fsi") {
            Ok(x) => x,
            Err(e) => {
                return Err(e);
            },
        };
        let lic_capital_gain: Decimal = match get_field(v, "lic_capital_gain") {
            Ok(x) => x,
            Err(e) => {
                return Err(e);
            },
        };
        let company_event_id: i64 = match get_field(v, "company_event_id") {
            Ok(x) => x,
            Err(e) => {
                return Err(e);
            },
        };
        let state: String = match get_field(v, "state") {
            Ok(x) => x,
            Err(e) => {
                return Err(e);
            },
        };
        let drp_trade_attributes: PayoutShowDrpTradeAttributesSuccess = match get_field(v, "drp_trade_attributes") {
            Ok(x) => x,
            Err(e) => {
                return Err(e);
            },
        };
        let franked_amount: Decimal = match get_field(v, "franked_amount") {
            Ok(x) => x,
            Err(e) => {
                return Err(e);
            },
        };
        let unfranked_amount: Decimal = match get_field(v, "unfranked_amount") {
            Ok(x) => x,
            Err(e) => {
                return Err(e);
            },
        };
        let trust: bool = match get_field(v, "trust") {
            Ok(x) => x,
            Err(e) => {
                return Err(e);
            },
        };
        let extra_interest_payment_amount: Decimal = match get_field(v, "extra_interest_payment_amount") {
            Ok(x) => x,
            Err(e) => {
                return Err(e);
            },
        };
        let capital_gains: Decimal = match get_field(v, "capital_gains") {
            Ok(x) => x,
            Err(e) => {
                return Err(e);
            },
        };
        let discounted_capital_gains: Decimal = match get_field(v, "discounted_capital_gains") {
            Ok(x) => x,
            Err(e) => {
                return Err(e);
            },
        };
        let foreign_source_income: Decimal = match get_field(v, "foreign_source_income") {
            Ok(x) => x,
            Err(e) => {
                return Err(e);
            },
        };
        let non_assessable: bool = match get_field(v, "non_assessable") {
            Ok(x) => x,
            Err(e) => {
                return Err(e);
            },
        };
        let deferred_income: Decimal = match get_field(v, "deferred_income") {
            Ok(x) => x,
            Err(e) => {
                return Err(e);
            },
        };
        let cgt_concession_amount: Decimal = match get_field(v, "cgt_concession_amount") {
            Ok(x) => x,
            Err(e) => {
                return Err(e);
            },
        };
        let amit_decrease_amount: Decimal = match get_field(v, "amit_decrease_amount") {
            Ok(x) => x,
            Err(e) => {
                return Err(e);
            },
        };
        let amit_increase_amount: Decimal = match get_field(v, "amit_increase_amount") {
            Ok(x) => x,
            Err(e) => {
                return Err(e);
            },
        };
        let attachment_filename: String = match get_field(v, "attachment_filename") {
            Ok(x) => x,
            Err(e) => {
                return Err(e);
            },
        };
        let attachment_id: String = match get_field(v, "attachment_id") {
            Ok(x) => x,
            Err(e) => {
                return Err(e);
            },
        };
        let links: PayoutShowLinksSuccess = match get_field(v, "links") {
            Ok(x) => x,
            Err(e) => {
                return Err(e);
            },
        };
        Ok(PayoutShowSuccess { id, portfolio_id, holding_id, instrument_id, symbol, market, paid_on, ex_date, amount, gross_amount, resident_withholding_tax, non_resident_withholding_tax, tax_credit, currency, exchange_rate, non_taxable, comments, other_net_fsi, lic_capital_gain, company_event_id, state, drp_trade_attributes, franked_amount, unfranked_amount, trust, extra_interest_payment_amount, capital_gains, discounted_capital_gains, foreign_source_income, non_assessable, deferred_income, cgt_concession_amount, amit_decrease_amount, amit_increase_amount, attachment_filename, attachment_id, links })
    }
}

/// A nested response shape of [`PayoutShow`].
#[derive(Debug, Clone, PartialEq)]
pub struct PayoutShowDrpTradeAttributesSuccess {
    pub dividend_reinvested: bool,
    pub quantity: Decimal,
    pub price: Decimal,
    pub source_adjustment_id: i64,
}

impl ToJson for PayoutShowDrpTradeAttributesSuccess {
    open spec fn enc(s: Self) -> Jv {
        Jv::Obj(
            Seq::<(Seq<char>, Jv)>::empty()
                + req_entry("dividend_reinvested"@, s.dividend_reinvested)
                + req_entry("quantity"@, s.quantity)
                + req_entry("price"@, s.price)
                + req_entry("source_adjustment_id"@, s.source_adjustment_id),
        )
    }

    fn encode(&self) -> (r: JsonValue) {
        let mut o = JsonObj::new();
        o.put("dividend_reinvested", &self.dividend_reinvested);
        o.put("quantity", &self.quantity);
        o.put("price", &self.price);
        o.put("source_adjustment_id", &self.source_adjustment_id);
        o.finish()
    }
}

impl FromJson for PayoutShowDrpTradeAttributesSuccess {
    open spec fn decodable(v: Jv) -> bool {
        &&& v is Obj
        &&& req_field_ok::<bool>(v, "dividend_reinvested"@)
        &&& req_field_ok::<Decimal>(v, "quantity"@)
        &&& req_field_ok::<Decimal>(v, "price"@)
        &&& req_field_ok::<i64>(v, "source_adjustment_id"@)
    }

    open spec fn rel(v: Jv, s: Self) -> bool {
        &&& v is Obj
        &&& req_field_rel::<bool>(v, "dividend_reinvested"@, s.dividend_reinvested)
        &&& req_field_rel::<Decimal>(v, "quantity"@, s.quantity)
        &&& req_field_rel::<Decimal>(v, "price"@, s.price)
        &&& req_field_rel::<i64>(v, "source_adjustment_id"@, s.source_adjustment_id)
    }

    fn decode(v: &JsonValue) -> (r: Result<Self, DecodeError>) {
        let dividend_reinvested: bool = match get_field(v, "dividend_reinvested") {
            Ok(x) => x,
            Err(e) => {
                return Err(e);
            },
        };
        let quantity: Decimal = match get_field(v, "quantity") {
            Ok(x) => x,
            Err(e) => {
                return Err(e);
            },
        };
        let price: Decimal = match get_field(v, "price") {
            Ok(x) => x,
            Err(e) => {
                return Err(e);
            },
        };
        let source_adjustment_id: i64 = match get_field(v, "source_adjustment_id") {
            Ok(x) => x,
            Err(e) => {
                return Err(e);
            },
        };
        Ok(PayoutShowDrpTradeAttributesSuccess { dividend_reinvested, quantity, price, source_adjustment_id })
    }
}

/// A nested response shape of [`PayoutShow`].
#[derive(Debug, Clone, PartialEq)]
pub struct PayoutShowLinksSuccess {
    pub itself: String,
    pub portfolio: String,
}

impl ToJson for PayoutShowLinksSuccess {
    open spec fn enc(s: Self) -> Jv {
        Jv::Obj(
            Seq::<(Seq<char>, Jv)>::empty()
                + req_entry("self"@, s.itself)
                + req_entry("portfolio"@, s.portfolio),
        )
    }

    fn encode(&self) -> (r: JsonValue) {
        let mut o = JsonObj::new();
        o.put("self", &self.itself);
        o.put("portfolio", &self.portfolio);
        o.finish()
    }
}

impl FromJson for PayoutShowLinksSuccess {
    open spec fn decodable(v: Jv) -> bool {
        &&& v is Obj
        &&& req_field_ok::<String>(v, "self"@)
        &&& req_field_ok::<String>(v, "portfolio"@)
    }

    open spec fn rel(v: Jv, s: Self) -> bool {
        &&& v is Obj
        &&& req_field_rel::<String>(v, "self"@, s.itself)
        &&& req_field_rel::<String>(v, "portfolio"@, s.portfolio)
    }

    fn decode(v: &JsonValue) -> (r: Result<Self, DecodeError>) {
        let itself: String = match get_field(v, "self") {
            Ok(x) => x,
            Err(e) => {
                return Err(e);
            },
        };
        let portfolio: String = match get_field(v, "portfolio") {
            Ok(x) => x,
            Err(e) => {
                return Err(e);
            },
        };
        Ok(PayoutShowLinksSuccess { itself, portfolio })
    }
}

/// `PUT /payouts/:id.json`.
pub struct PayoutUpdate;

/// The parameters of a [`PayoutUpdate`] call, held for URL rendering.
pub struct PayoutUpdateUrlDisplay<'a>(pub &'a PayoutUpdateParameters);

impl<'a> PayoutUpdateUrlDisplay<'a> {
    /// Renders the resolved URL path.
    pub fn render(&self) -> (r: String)
        ensures
            r@ == PayoutUpdate::spec_url(*self.0),
    {
        PayoutUpdate::url(self.0)
    }
}

impl PayoutUpdate {
    /// The URL template of this endpoint.
    pub fn url_template() -> (r: &'static str)
        ensures
            r@ == "/payouts/:id.json"@,
    {
        "/payouts/:id.json"
    }

    /// The HTTP method of this endpoint.
    pub fn http_method() -> (r: ApiHttpMethod)
        ensures
            r == ApiHttpMethod::Put,
    {
        ApiHttpMethod::Put
    }

    /// The URL path that `p` resolves the template to.
    pub open spec fn spec_url(p: PayoutUpdateParameters) -> Seq<char> {
        "/payouts/"@ + spec_i64_string(p.id as int) + ".json"@
    }

    /// Resolves the URL template with the fields of `parameters`:
    /// plain decimal digits for integers, strings as they are.
    pub fn url(parameters: &PayoutUpdateParameters) -> (r: String)
        ensures
            r@ == Self::spec_url(*parameters),
    {
        let mut s = "/payouts/".to_owned();
        s.append(render_i64(parameters.id).as_str());
        s.append(".json");
        s
    }

    /// Wraps `parameters` for URL rendering.
    pub fn url_path<'a>(parameters: &'a PayoutUpdateParameters) -> (r: PayoutUpdateUrlDisplay<'a>)
        ensures
            r.0 == parameters,
    {
        PayoutUpdateUrlDisplay(parameters)
    }

    /// Decodes a success payload, naming this endpoint in any
    /// failure.
    pub fn decode_success(v: &JsonValue) -> (r: Result<PayoutUpdateSuccess, DecodeError>)
        ensures
            r matches Ok(s) ==> <PayoutUpdateSuccess as FromJson>::decodable(v@)
                && <PayoutUpdateSuccess as FromJson>::rel(v@, s),
            <PayoutUpdateSuccess as FromJson>::decodable(v@) ==> r is Ok,
            r matches Err(e) ==> spec_starts_with(e.path@, "PayoutUpdate"@),
    {
        match PayoutUpdateSuccess::decode(v) {
            Ok(s) => Ok(s),
            Err(e) => Err(e.in_endpoint("PayoutUpdate")),
        }
    }
}

/// The parameters of a [`PayoutUpdate`] call.
#[derive(Debug, Clone, PartialEq)]
pub struct PayoutUpdateParameters {
    pub id: i64,
    pub payout: PayoutUpdatePayoutParameters,
}

impl ToJson for PayoutUpdateParameters {
    open spec fn enc(s: Self) -> Jv {
        Jv::Obj(
            Seq::<(Seq<char>, Jv)>::empty()
                + req_entry("id"@, s.id)
                + req_entry("payout"@, s.payout),
        )
    }

    fn encode(&self) -> (r: JsonValue) {
        let mut o = JsonObj::new();
        o.put("id", &self.id);
        o.put("payout", &self.payout);
        o.finish()
    }
}

impl FromJson for PayoutUpdateParameters {
    open spec fn decodable(v: Jv) -> bool {
        &&& v is Obj
        &&& req_field_ok::<i64>(v, "id"@)
        &&& req_field_ok::<PayoutUpdatePayoutParameters>(v, "payout"@)
    }

    open spec fn rel(v: Jv, s: Self) -> bool {
        &&& v is Obj
        &&& req_field_rel::<i64>(v, "id"@, s.id)
        &&& req_field_rel::<PayoutUpdatePayoutParameters>(v, "payout"@, s.payout)
    }

    fn decode(v: &JsonValue) -> (r: Result<Self, DecodeError>) {
        let id: i64 = match get_field(v, "id") {
            Ok(x) => x,
            Err(e) => {
                return Err(e);
            },
        };
        let payout: PayoutUpdatePayoutParameters = match get_field(v, "payout") {
            Ok(x) => x,
            Err(e) => {
                return Err(e);
            },
        };
        Ok(PayoutUpdateParameters { id, payout })
    }
}

/// A nested parameter shape of [`PayoutUpdate`].
#[derive(Debug, Clone, PartialEq)]
pub struct PayoutUpdatePayoutParameters {
    pub paid_on: Option<Date>,
    pub goes_ex_on: Option<Date>,
    pub resident_withholding_tax: Option<Decimal>,
    pub non_resident_withholding_tax: Option<Decimal>,
    pub tax_credit: Option<Decimal>,
    pub exchange_rate: Option<Decimal>,
    pub amount: Option<Decimal>,
    pub adjustment_id: Option<i64>,
    pub comments: Option<String>,
    pub non_taxable: Option<bool>,
    pub currency_code: Option<Currency>,
    pub source_payment_date: Option<Date>,
    pub send_to_xero: Option<bool>,
    pub banked_amount: Option<Decimal>,
    pub source_adjustment_id: Option<i64>,
    pub drp_trade_attributes: Option<PayoutUpdatePayoutDrpTradeAttributesParameters>,
    pub franked_amount: Option<Decimal>,
    pub unfranked_amount: Option<Decimal>,
    pub trust: Option<bool>,
    pub extra_interest_payment_amount: Option<Decimal>,
    pub capital_gains: Option<Decimal>,
    pub discounted_capital_gains: Option<Decimal>,
    pub foreign_source_income: Option<Decimal>,
    pub lic_capital_gain: Option<Decimal>,
    pub non_assessable: Option<bool>,
    pub deferred_income: Decimal,
    pub cgt_concession_amount: Decimal,
    pub amit_decrease_amount: Decimal,
    pub amit_increase_amount: Decimal,
}

impl ToJson for PayoutUpdatePayoutParameters {
    open spec fn enc(s: Self) -> Jv {
        Jv::Obj(
            Seq::<(Seq<char>, Jv)>::empty()
                + opt_entry("paid_on"@, s.paid_on)
                + opt_entry("goes_ex_on"@, s.goes_ex_on)
                + opt_entry("resident_withholding_tax"@, s.resident_withholding_tax)
                + opt_entry("non_resident_withholding_tax"@, s.non_resident_withholding_tax)
                + opt_entry("tax_credit"@, s.tax_credit)
                + opt_entry("exchange_rate"@, s.exchange_rate)
                + opt_entry("amount"@, s.amount)
                + opt_entry("adjustment_id"@, s.adjustment_id)
                + opt_entry("comments"@, s.comments)
                + opt_entry("non_taxable"@, s.non_taxable)
                + opt_entry("currency_code"@, s.currency_code)
                + opt_entry("source_payment_date"@, s.source_payment_date)
                + opt_entry("send_to_xero"@, s.send_to_xero)
                + opt_entry("banked_amount"@, s.banked_amount)
                + opt_entry("source_adjustment_id"@, s.source_adjustment_id)
                + opt_entry("drp_trade_attributes"@, s.drp_trade_attributes)
                + opt_entry("franked_amount"@, s.franked_amount)
                + opt_entry("unfranked_amount"@, s.unfranked_amount)
                + opt_entry("trust"@, s.trust)
                + opt_entry("extra_interest_payment_amount"@, s.extra_interest_payment_amount)
                + opt_entry("capital_gains"@, s.capital_gains)
                + opt_entry("discounted_capital_gains"@, s.discounted_capital_gains)
                + opt_entry("foreign_source_income"@, s.foreign_source_income)
                + opt_entry("lic_capital_gain"@, s.lic_capital_gain)
                + opt_entry("non_assessable"@, s.non_assessable)
                + req_entry("deferred_income"@, s.deferred_income)
                + req_entry("cgt_concession_amount"@, s.cgt_concession_amount)
                + req_entry("amit_decrease_amount"@, s.amit_decrease_amount)
                + req_entry("amit_increase_amount"@, s.amit_increase_amount),
        )
    }

    fn encode(&self) -> (r: JsonValue) {
        let mut o = JsonObj::new();
        o.put_opt("paid_on", &self.paid_on);
        o.put_opt("goes_ex_on", &self.goes_ex_on);
        o.put_opt("resident_withholding_tax", &self.resident_withholding_tax);
        o.put_opt("non_resident_withholding_tax", &self.non_resident_withholding_tax);
        o.put_opt("tax_credit", &self.tax_credit);
        o.put_opt("exchange_rate", &self.exchange_rate);
        o.put_opt("amount", &self.amount);
        o.put_opt("adjustment_id", &self.adjustment_id);
        o.put_opt("comments", &self.comments);
        o.put_opt("non_taxable", &self.non_taxable);
        o.put_opt("currency_code", &self.currency_code);
        o.put_opt("source_payment_date", &self.source_payment_date);
        o.put_opt("send_to_xero", &self.send_to_xero);
        o.put_opt("banked_amount", &self.banked_amount);
        o.put_opt("source_adjustment_id", &self.source_adjustment_id);
        o.put_opt("drp_trade_attributes", &self.drp_trade_attributes);
        o.put_opt("franked_amount", &self.franked_amount);
        o.put_opt("unfranked_amount", &self.unfranked_amount);
        o.put_opt("trust", &self.trust);
        o.put_opt("extra_interest_payment_amount", &self.extra_interest_payment_amount);
        o.put_opt("capital_gains", &self.capital_gains);
        o.put_opt("discounted_capital_gains", &self.discounted_capital_gains);
        o.put_opt("foreign_source_income", &self.foreign_source_income);
        o.put_opt("lic_capital_gain", &self.lic_capital_gain);
        o.put_opt("non_assessable", &self.non_assessable);
        o.put("deferred_income", &self.deferred_income);
        o.put("cgt_concession_amount", &self.cgt_concession_amount);
        o.put("amit_decrease_amount", &self.amit_decrease_amount);
        o.put("amit_increase_amount", &self.amit_increase_amount);
        o.finish()
    }
}

impl FromJson for PayoutUpdatePayoutParameters {
    open spec fn decodable(v: Jv) -> bool {
        &&& v is Obj
        &&& opt_field_ok::<Date>(v, "paid_on"@)
        &&& opt_field_ok::<Date>(v, "goes_ex_on"@)
        &&& opt_field_ok::<Decimal>(v, "resident_withholding_tax"@)
        &&& opt_field_ok::<Decimal>(v, "non_resident_withholding_tax"@)
        &&& opt_field_ok::<Decimal>(v, "tax_credit"@)
        &&& opt_field_ok::<Decimal>(v, "exchange_rate"@)
        &&& opt_field_ok::<Decimal>(v, "amount"@)
        &&& opt_field_ok::<i64>(v, "adjustment_id"@)
        &&& opt_field_ok::<String>(v, "comments"@)
        &&& opt_field_ok::<bool>(v, "non_taxable"@)
        &&& opt_field_ok::<Currency>(v, "currency_code"@)
        &&& opt_field_ok::<Date>(v, "source_payment_date"@)
        &&& opt_field_ok::<bool>(v, "send_to_xero"@)
        &&& opt_field_ok::<Decimal>(v, "banked_amount"@)
        &&& opt_field_ok::<i64>(v, "source_adjustment_id"@)
        &&& opt_field_ok::<PayoutUpdatePayoutDrpTradeAttributesParameters>(v, "drp_trade_attributes"@)
        &&& opt_field_ok::<Decimal>(v, "franked_amount"@)
        &&& opt_field_ok::<Decimal>(v, "unfranked_amount"@)
        &&& opt_field_ok::<bool>(v, "trust"@)
        &&& opt_field_ok::<Decimal>(v, "extra_interest_payment_amount"@)
        &&& opt_field_ok::<Decimal>(v, "capital_gains"@)
        &&& opt_field_ok::<Decimal>(v, "discounted_capital_gains"@)
        &&& opt_field_ok::<Decimal>(v, "foreign_source_income"@)
        &&& opt_field_ok::<Decimal>(v, "lic_capital_gain"@)
        &&& opt_field_ok::<bool>(v, "non_assessable"@)
        &&& req_field_ok::<Decimal>(v, "deferred_income"@)
        &&& req_field_ok::<Decimal>(v, "cgt_concession_amount"@)
        &&& req_field_ok::<Decimal>(v, "amit_decrease_amount"@)
        &&& req_field_ok::<Decimal>(v, "amit_increase_amount"@)
    }

    open spec fn rel(v: Jv, s: Self) -> bool {
        &&& v is Obj
        &&& opt_field_rel::<Date>(v, "paid_on"@, s.paid_on)
        &&& opt_field_rel::<Date>(v, "goes_ex_on"@, s.goes_ex_on)
        &&& opt_field_rel::<Decimal>(v, "resident_withholding_tax"@, s.resident_withholding_tax)
        &&& opt_field_rel::<Decimal>(v, "non_resident_withholding_tax"@, s.non_resident_withholding_tax)
        &&& opt_field_rel::<Decimal>(v, "tax_credit"@, s.tax_credit)
        &&& opt_field_rel::<Decimal>(v, "exchange_rate"@, s.exchange_rate)
        &&& opt_field_rel::<Decimal>(v, "amount"@, s.amount)
        &&& opt_field_rel::<i64>(v, "adjustment_id"@, s.adjustment_id)
        &&& opt_field_rel::<String>(v, "comments"@, s.comments)
        &&& opt_field_rel::<bool>(v, "non_taxable"@, s.non_taxable)
        &&& opt_field_rel::<Currency>(v, "currency_code"@, s.currency_code)
        &&& opt_field_rel::<Date>(v, "source_payment_date"@, s.source_payment_date)
        &&& opt_field_rel::<bool>(v, "send_to_xero"@, s.send_to_xero)
        &&& opt_field_rel::<Decimal>(v, "banked_amount"@, s.banked_amount)
        &&& opt_field_rel::<i64>(v, "source_adjustment_id"@, s.source_adjustment_id)
        &&& opt_field_rel::<PayoutUpdatePayoutDrpTradeAttributesParameters>(v, "drp_trade_attributes"@, s.drp_trade_attributes)
        &&& opt_field_rel::<Decimal>(v, "franked_amount"@, s.franked_amount)
        &&& opt_field_rel::<Decimal>(v, "unfranked_amount"@, s.unfranked_amount)
        &&& opt_field_rel::<bool>(v, "trust"@, s.trust)
        &&& opt_field_rel::<Decimal>(v, "extra_interest_payment_amount"@, s.extra_interest_payment_amount)
        &&& opt_field_rel::<Decimal>(v, "capital_gains"@, s.capital_gains)
        &&& opt_field_rel::<Decimal>(v, "discounted_capital_gains"@, s.discounted_capital_gains)
        &&& opt_field_rel::<Decimal>(v, "foreign_source_income"@, s.foreign_source_income)
        &&& opt_field_rel::<Decimal>(v, "lic_capital_gain"@, s.lic_capital_gain)
        &&& opt_field_rel::<bool>(v, "non_assessable"@, s.non_assessable)
        &&& req_field_rel::<Decimal>(v, "deferred_income"@, s.deferred_income)
        &&& req_field_rel::<Decimal>(v, "cgt_concession_amount"@, s.cgt_concession_amount)
        &&& req_field_rel::<Decimal>(v, "amit_decrease_amount"@, s.amit_decrease_amount)
        &&& req_field_rel::<Decimal>(v, "amit_increase_amount"@, s.amit_increase_amount)
    }

    fn decode(v: &JsonValue) -> (r: Result<Self, DecodeError>) {
        let paid_on: Option<Date> = match get_opt_field(v, "paid_on") {
            Ok(x) => x,
            Err(e) => {
                return Err(e);
            },
        };
        let goes_ex_on: Option<Date> = match get_opt_field(v, "goes_ex_on") {
            Ok(x) => x,
            Err(e) => {
                return Err(e);
            },
        };
        let resident_withholding_tax: Option<Decimal> = match get_opt_field(v, "resident_withholding_tax") {
            Ok(x) => x,
            Err(e) => {
                return Err(e);
            },
        };
        let non_resident_withholding_tax: Option<Decimal> = match get_opt_field(v, "non_resident_withholding_tax") {
            Ok(x) => x,
            Err(e) => {
                return Err(e);
            },
        };
        let tax_credit: Option<Decimal> = match get_opt_field(v, "tax_credit") {
            Ok(x) => x,
            Err(e) => {
                return Err(e);
            },
        };
        let exchange_rate: Option<Decimal> = match get_opt_field(v, "exchange_rate") {
            Ok(x) => x,
            Err(e) => {
                return Err(e);
            },
        };
        let amount: Option<Decimal> = match get_opt_field(v, "amount") {
            Ok(x) => x,
            Err(e) => {
                return Err(e);
            },
        };
        let adjustment_id: Option<i64> = match get_opt_field(v, "adjustment_id") {
            Ok(x) => x,
            Err(e) => {
                return Err(e);
            },
        };
        let comments: Option<String> = match get_opt_field(v, "comments") {
            Ok(x) => x,
            Err(e) => {
                return Err(e);
            },
        };
        let non_taxable: Option<bool> = match get_opt_field(v, "non_taxable") {
            Ok(x) => x,
            Err(e) => {
                return Err(e);
            },
        };
        let currency_code: Option<Currency> = match get_opt_field(v, "currency_code") {
            Ok(x) => x,
            Err(e) => {
                return Err(e);
            },
        };
        let source_payment_date: Option<Date> = match get_opt_field(v, "source_payment_date") {
            Ok(x) => x,
            Err(e) => {
                return Err(e);
            },
        };
        let send_to_xero: Option<bool> = match get_opt_field(v, "send_to_xero") {
            Ok(x) => x,
            Err(e) => {
                return Err(e);
            },
        };
        let banked_amount: Option<Decimal> = match get_opt_field(v, "banked_amount") {
            Ok(x) => x,
            Err(e) => {
                return Err(e);
            },
        };
        let source_adjustment_id: Option<i64> = match get_opt_field(v, "source_adjustment_id") {
            Ok(x) => x,
            Err(e) => {
                return Err(e);
            },
        };
        let drp_trade_attributes: Option<PayoutUpdatePayoutDrpTradeAttributesParameters> = match get_opt_field(v, "drp_trade_attributes") {
            Ok(x) => x,
            Err(e) => {
                return Err(e);
            },
        };
        let franked_amount: Option<Decimal> = match get_opt_field(v, "franked_amount") {
            Ok(x) => x,
            Err(e) => {
                return Err(e);
            },
        };
        let unfranked_amount: Option<Decimal> = match get_opt_field(v, "unfranked_amount") {
            Ok(x) => x,
            Err(e) => {
                return Err(e);
            },
        };
        let trust: Option<bool> = match get_opt_field(v, "trust") {
            Ok(x) => x,
            Err(e) => {
                return Err(e);
            },
        };
        let extra_interest_payment_amount: Option<Decimal> = match get_opt_field(v, "extra_interest_payment_amount") {
            Ok(x) => x,
            Err(e) => {
                return Err(e);
            },
        };
        let capital_gains: Option<Decimal> = match get_opt_field(v, "capital_gains") {
            Ok(x) => x,
            Err(e) => {
                return Err(e);
            },
        };
        let discounted_capital_gains: Option<Decimal> = match get_opt_field(v, "discounted_capital_gains") {
            Ok(x) => x,
            Err(e) => {
                return Err(e);
            },
        };
        let foreign_source_income: Option<Decimal> = match get_opt_field(v, "foreign_source_income") {
            Ok(x) => x,
            Err(e) => {
                return Err(e);
            },
        };
        let lic_capital_gain: Option<Decimal> = match get_opt_field(v, "lic_capital_gain") {
            Ok(x) => x,
            Err(e) => {
                return Err(e);
            },
        };
        let non_assessable: Option<bool> = match get_opt_field(v, "non_assessable") {
            Ok(x) => x,
            Err(e) => {
                return Err(e);
            },
        };
        let deferred_income: Decimal = match get_field(v, "deferred_income") {
            Ok(x) => x,
            Err(e) => {
                return Err(e);
            },
        };
        let cgt_concession_amount: Decimal = match get_field(v, "cgt_concession_amount") {
            Ok(x) => x,
            Err(e) => {
                return Err(e);
            },
        };
        let amit_decrease_amount: Decimal = match get_field(v, "amit_decrease_amount") {
            Ok(x) => x,
            Err(e) => {
                return Err(e);
            },
        };
        let amit_increase_amount: Decimal = match get_field(v, "amit_increase_amount") {
            Ok(x) => x,
            Err(e) => {
                return Err(e);
            },
        };
        Ok(PayoutUpdatePayoutParameters { paid_on, goes_ex_on, resident_withholding_tax, non_resident_withholding_tax, tax_credit, exchange_rate, amount, adjustment_id, comments, non_taxable, currency_code, source_payment_date, send_to_xero, banked_amount, source_adjustment_id, drp_trade_attributes, franked_amount, unfranked_amount, trust, extra_interest_payment_amount, capital_gains, discounted_capital_gains, foreign_source_income, lic_capital_gain, non_assessable, deferred_income, cgt_concession_amount, amit_decrease_amount, amit_increase_amount })
    }
}

/// A nested parameter shape of [`PayoutUpdate`].
#[derive(Debug, Clone, PartialEq)]
pub struct PayoutUpdatePayoutDrpTradeAttributesParameters {
    pub dividend_reinvested: Option<bool>,
    pub quantity: Option<Decimal>,
    pub price: Option<Decimal>,
    pub source_adjustment_id: Option<i64>,
}

impl ToJson for PayoutUpdatePayoutDrpTradeAttributesParameters {
    open spec fn enc(s: Self) -> Jv {
        Jv::Obj(
            Seq::<(Seq<char>, Jv)>::empty()
                + opt_entry("dividend_reinvested"@, s.dividend_reinvested)
                + opt_entry("quantity"@, s.quantity)
                + opt_entry("price"@, s.price)
                + opt_entry("source_adjustment_id"@, s.source_adjustment_id),
        )
    }

    fn encode(&self) -> (r: JsonValue) {
        let mut o = JsonObj::new();
        o.put_opt("dividend_reinvested", &self.dividend_reinvested);
        o.put_opt("quantity", &self.quantity);
        o.put_opt("price", &self.price);
        o.put_opt("source_adjustment_id", &self.source_adjustment_id);
        o.finish()
    }
}

impl FromJson for PayoutUpdatePayoutDrpTradeAttributesParameters {
    open spec fn decodable(v: Jv) -> bool {
        &&& v is Obj
        &&& opt_field_ok::<bool>(v, "dividend_reinvested"@)
        &&& opt_field_ok::<Decimal>(v, "quantity"@)
        &&& opt_field_ok::<Decimal>(v, "price"@)
        &&& opt_field_ok::<i64>(v, "source_adjustment_id"@)
    }

    open spec fn rel(v: Jv, s: Self) -> bool {
        &&& v is Obj
        &&& opt_field_rel::<bool>(v, "dividend_reinvested"@, s.dividend_reinvested)
        &&& opt_field_rel::<Decimal>(v, "quantity"@, s.quantity)
        &&& opt_field_rel::<Decimal>(v, "price"@, s.price)
        &&& opt_field_rel::<i64>(v, "source_adjustment_id"@, s.source_adjustment_id)
    }

    fn decode(v: &JsonValue) -> (r: Result<Self, DecodeError>) {
        let dividend_reinvested: Option<bool> = match get_opt_field(v, "dividend_reinvested") {
            Ok(x) => x,
            Err(e) => {
                return Err(e);
            },
        };
        let quantity: Option<Decimal> = match get_opt_field(v, "quantity") {
            Ok(x) => x,
            Err(e) => {
                return Err(e);
            },
        };
        let price: Option<Decimal> = match get_opt_field(v, "price") {
            Ok(x) => x,
            Err(e) => {
                return Err(e);
            },
        };
        let source_adjustment_id: Option<i64> = match get_opt_field(v, "source_adjustment_id") {
            Ok(x) => x,
            Err(e) => {
                return Err(e);
            },
        };
        Ok(PayoutUpdatePayoutDrpTradeAttributesParameters { dividend_reinvested, quantity, price, source_adjustment_id })
    }
}

/// The success response of a [`PayoutUpdate`] call.
#[derive(Debug, Clone, PartialEq)]
pub struct PayoutUpdateSuccess {
    pub id: i64,
    pub symbol: String,
    pub market: Market,
    pub paid_on: Date,
    pub ex_date: Date,
    pub amount: Decimal,
    pub gross_amount: Decimal,
    pub resident_withholding_tax: Decimal,
    pub non_resident_withholding_tax: Decimal,
    pub tax_credit: Decimal,
    pub currency: Currency,
    pub exchange_rate: Decimal,
    pub non_taxable: String,
    pub comments: String,
    pub company_event_id: i64,
    pub state: String,
    pub drp_trade_attributes: PayoutUpdateDrpTradeAttributesSuccess,
    pub franked_amount: Decimal,
    pub unfranked_amount: Decimal,
    pub trust: bool,
    pub extra_interest_payment_amount: Decimal,
    pub capital_gains: Decimal,
    pub discounted_capital_gains: Decimal,
    pub foreign_source_income: Decimal,
    pub non_assessable: bool,
    pub deferred_income: Decimal,
    pub cgt_concession_amount: Decimal,
    pub amit_decrease_amount: Decimal,
    pub amit_increase_amount: Decimal,
    pub attachment_filename: String,
    pub attachment_id: String,
    pub links: PayoutUpdateLinksSuccess,
}

impl ToJson for PayoutUpdateSuccess {
    open spec fn enc(s: Self) -> Jv {
        Jv::Obj(
            Seq::<(Seq<char>, Jv)>::empty()
                + req_entry("id"@, s.id)
                + req_entry("symbol"@, s.symbol)
                + req_entry("market"@, s.market)
                + req_entry("paid_on"@, s.paid_on)
                + req_entry("ex_date"@, s.ex_date)
                + req_entry("amount"@, s.amount)
                + req_entry("gross_amount"@, s.gross_amount)
                + req_entry("resident_withholding_tax"@, s.resident_withholding_tax)
                + req_entry("non_resident_withholding_tax"@, s.non_resident_withholding_tax)
                + req_entry("tax_credit"@, s.tax_credit)
                + req_entry("currency"@, s.currency)
                + req_entry("exchange_rate"@, s.exchange_rate)
                + req_entry("non_taxable"@, s.non_taxable)
                + req_entry("comments"@, s.comments)
                + req_entry("company_event_id"@, s.company_event_id)
                + req_entry("state"@, s.state)
                + req_entry("drp_trade_attributes"@, s.drp_trade_attributes)
                + req_entry("franked_amount"@, s.franked_amount)
                + req_entry("unfranked_amount"@, s.unfranked_amount)
                + req_entry("trust"@, s.trust)
                + req_entry("extra_interest_payment_amount"@, s.extra_interest_payment_amount)
                + req_entry("capital_gains"@, s.capital_gains)
                + req_entry("discounted_capital_gains"@, s.discounted_capital_gains)
                + req_entry("foreign_source_income"@, s.foreign_source_income)
                + req_entry("non_assessable"@, s.non_assessable)
                + req_entry("deferred_income"@, s.deferred_income)
                + req_entry("cgt_concession_amount"@, s.cgt_concession_amount)
                + req_entry("amit_decrease_amount"@, s.amit_decrease_amount)
                + req_entry("amit_increase_amount"@, s.amit_increase_amount)
                + req_entry("attachment_filename"@, s.attachment_filename)
                + req_entry("attachment_id"@, s.attachment_id)
                + req_entry("links"@, s.links),
        )
    }

    fn encode(&self) -> (r: JsonValue) {
        let mut o = JsonObj::new();
        o.put("id", &self.id);
        o.put("symbol", &self.symbol);
        o.put("market", &self.market);
        o.put("paid_on", &self.paid_on);
        o.put("ex_date", &self.ex_date);
        o.put("amount", &self.amount);
        o.put("gross_amount", &self.gross_amount);
        o.put("resident_withholding_tax", &self.resident_withholding_tax);
        o.put("non_resident_withholding_tax", &self.non_resident_withholding_tax);
        o.put("tax_credit", &self.tax_credit);
        o.put("currency", &self.currency);
        o.put("exchange_rate", &self.exchange_rate);
        o.put("non_taxable", &self.non_taxable);
        o.put("comments", &self.comments);
        o.put("company_event_id", &self.company_event_id);
        o.put("state", &self.state);
        o.put("drp_trade_attributes", &self.drp_trade_attributes);
        o.put("franked_amount", &self.franked_amount);
        o.put("unfranked_amount", &self.unfranked_amount);
        o.put("trust", &self.trust);
        o.put("extra_interest_payment_amount", &self.extra_interest_payment_amount);
        o.put("capital_gains", &self.capital_gains);
        o.put("discounted_capital_gains", &self.discounted_capital_gains);
        o.put("foreign_source_income", &self.foreign_source_income);
        o.put("non_assessable", &self.non_assessable);
        o.put("deferred_income", &self.deferred_income);
        o.put("cgt_concession_amount", &self.cgt_concession_amount);
        o.put("amit_decrease_amount", &self.amit_decrease_amount);
        o.put("amit_increase_amount", &self.amit_increase_amount);
        o.put("attachment_filename", &self.attachment_filename);
        o.put("attachment_id", &self.attachment_id);
        o.put("links", &self.links);
        o.finish()
    }
}

impl FromJson for PayoutUpdateSuccess {
    open spec fn decodable(v: Jv) -> bool {
        &&& v is Obj
        &&& req_field_ok::<i64>(v, "id"@)
        &&& req_field_ok::<String>(v, "symbol"@)
        &&& req_field_ok::<Market>(v, "market"@)
        &&& req_field_ok::<Date>(v, "paid_on"@)
        &&& req_field_ok::<Date>(v, "ex_date"@)
        &&& req_field_ok::<Decimal>(v, "amount"@)
        &&& req_field_ok::<Decimal>(v, "gross_amount"@)
        &&& req_field_ok::<Decimal>(v, "resident_withholding_tax"@)
        &&& req_field_ok::<Decimal>(v, "non_resident_withholding_tax"@)
        &&& req_field_ok::<Decimal>(v, "tax_credit"@)
        &&& req_field_ok::<Currency>(v, "currency"@)
        &&& req_field_ok::<Decimal>(v, "exchange_rate"@)
        &&& req_field_ok::<String>(v, "non_taxable"@)
        &&& req_field_ok::<String>(v, "comments"@)
        &&& req_field_ok::<i64>(v, "company_event_id"@)
        &&& req_field_ok::<String>(v, "state"@)
        &&& req_field_ok::<PayoutUpdateDrpTradeAttributesSuccess>(v, "drp_trade_attributes"@)
        &&& req_field_ok::<Decimal>(v, "franked_amount"@)
        &&& req_field_ok::<Decimal>(v, "unfranked_amount"@)
        &&& req_field_ok::<bool>(v, "trust"@)
        &&& req_field_ok::<Decimal>(v, "extra_interest_payment_amount"@)
        &&& req_field_ok::<Decimal>(v, "capital_gains"@)
        &&& req_field_ok::<Decimal>(v, "discounted_capital_gains"@)
        &&& req_field_ok::<Decimal>(v, "foreign_source_income"@)
        &&& req_field_ok::<bool>(v, "non_assessable"@)
        &&& req_field_ok::<Decimal>(v, "deferred_income"@)
        &&& req_field_ok::<Decimal>(v, "cgt_concession_amount"@)
        &&& req_field_ok::<Decimal>(v, "amit_decrease_amount"@)
        &&& req_field_ok::<Decimal>(v, "amit_increase_amount"@)
        &&& req_field_ok::<String>(v, "attachment_filename"@)
        &&& req_field_ok::<String>(v, "attachment_id"@)
        &&& req_field_ok::<PayoutUpdateLinksSuccess>(v, "links"@)
    }

    open spec fn rel(v: Jv, s: Self) -> bool {
        &&& v is Obj
        &&& req_field_rel::<i64>(v, "id"@, s.id)
        &&& req_field_rel::<String>(v, "symbol"@, s.symbol)
        &&& req_field_rel::<Market>(v, "market"@, s.market)
        &&& req_field_rel::<Date>(v, "paid_on"@, s.paid_on)
        &&& req_field_rel::<Date>(v, "ex_date"@, s.ex_date)
        &&& req_field_rel::<Decimal>(v, "amount"@, s.amount)
        &&& req_field_rel::<Decimal>(v, "gross_amount"@, s.gross_amount)
        &&& req_field_rel::<Decimal>(v, "resident_withholding_tax"@, s.resident_withholding_tax)
        &&& req_field_rel::<Decimal>(v, "non_resident_withholding_tax"@, s.non_resident_withholding_tax)
        &&& req_field_rel::<Decimal>(v, "tax_credit"@, s.tax_credit)
        &&& req_field_rel::<Currency>(v, "currency"@, s.currency)
        &&& req_field_rel::<Decimal>(v, "exchange_rate"@, s.exchange_rate)
        &&& req_field_rel::<String>(v, "non_taxable"@, s.non_taxable)
        &&& req_field_rel::<String>(v, "comments"@, s.comments)
        &&& req_field_rel::<i64>(v, "company_event_id"@, s.company_event_id)
        &&& req_field_rel::<String>(v, "state"@, s.state)
        &&& req_field_rel::<PayoutUpdateDrpTradeAttributesSuccess>(v, "drp_trade_attributes"@, s.drp_trade_attributes)
        &&& req_field_rel::<Decimal>(v, "franked_amount"@, s.franked_amount)
        &&& req_field_rel::<Decimal>(v, "unfranked_amount"@, s.unfranked_amount)
        &&& req_field_rel::<bool>(v, "trust"@, s.trust)
        &&& req_field_rel::<Decimal>(v, "extra_interest_payment_amount"@, s.extra_interest_payment_amount)
        &&& req_field_rel::<Decimal>(v, "capital_gains"@, s.capital_gains)
        &&& req_field_rel::<Decimal>(v, "discounted_capital_gains"@, s.discounted_capital_gains)
        &&& req_field_rel::<Decimal>(v, "foreign_source_income"@, s.foreign_source_income)
        &&& req_field_rel::<bool>(v, "non_assessable"@, s.non_assessable)
        &&& req_field_rel::<Decimal>(v, "deferred_income"@, s.deferred_income)
        &&& req_field_rel::<Decimal>(v, "cgt_concession_amount"@, s.cgt_concession_amount)
        &&& req_field_rel::<Decimal>(v, "amit_decrease_amount"@, s.amit_decrease_amount)
        &&& req_field_rel::<Decimal>(v, "amit_increase_amount"@, s.amit_increase_amount)
        &&& req_field_rel::<String>(v, "attachment_filename"@, s.attachment_filename)
        &&& req_field_rel::<String>(v, "attachment_id"@, s.attachment_id)
        &&& req_field_rel::<PayoutUpdateLinksSuccess>(v, "links"@, s.links)
    }

    fn decode(v: &JsonValue) -> (r: Result<Self, DecodeError>) {
        let id: i64 = match get_field(v, "id") {
            Ok(x) => x,
            Err(e) => {
                return Err(e);
            },
        };
        let symbol: String = match get_field(v, "symbol") {
            Ok(x) => x,
            Err(e) => {
                return Err(e);
            },
        };
        let market: Market = match get_field(v, "market") {
            Ok(x) => x,
            Err(e) => {
                return Err(e);
            },
        };
        let paid_on: Date = match get_field(v, "paid_on") {
            Ok(x) => x,
            Err(e) => {
                return Err(e);
            },
        };
        let ex_date: Date = match get_field(v, "ex_date") {
            Ok(x) => x,
            Err(e) => {
                return Err(e);
            },
        };
        let amount: Decimal = match get_field(v, "amount") {
            Ok(x) => x,
            Err(e) => {
                return Err(e);
            },
        };
        let gross_amount: Decimal = match get_field(v, "gross_amount") {
            Ok(x) => x,
            Err(e) => {
                return Err(e);
            },
        };
        let resident_withholding_tax: Decimal = match get_field(v, "resident_withholding_tax") {
            Ok(x) => x,
            Err(e) => {
                return Err(e);
            },
        };
        let non_resident_withholding_tax: Decimal = match get_field(v, "non_resident_withholding_tax") {
            Ok(x) => x,
            Err(e) => {
                return Err(e);
            },
        };
        let tax_credit: Decimal = match get_field(v, "tax_credit") {
            Ok(x) => x,
            Err(e) => {
                return Err(e);
            },
        };
        let currency: Currency = match get_field(v, "currency") {
            Ok(x) => x,
            Err(e) => {
                return Err(e);
            },
        };
        let exchange_rate: Decimal = match get_field(v, "exchange_rate") {
            Ok(x) => x,
            Err(e) => {
                return Err(e);
            },
        };
        let non_taxable: String = match get_field(v, "non_taxable") {
            Ok(x) => x,
            Err(e) => {
                return Err(e);
            },
        };
        let comments: String = match get_field(v, "comments") {
            Ok(x) => x,
            Err(e) => {
                return Err(e);
            },
        };
        let company_event_id: i64 = match get_field(v, "company_event_id") {
            Ok(x) => x,
            Err(e) => {
                return Err(e);
            },
        };
        let state: String = match get_field(v, "state") {
            Ok(x) => x,
            Err(e) => {
                return Err(e);
            },
        };
        let drp_trade_attributes: PayoutUpdateDrpTradeAttributesSuccess = match get_field(v, "drp_trade_attributes") {
            Ok(x) => x,
            Err(e) => {
                return Err(e);
            },
        };
        let franked_amount: Decimal = match get_field(v, "franked_amount") {
            Ok(x) => x,
            Err(e) => {
                return Err(e);
            },
        };
        let unfranked_amount: Decimal = match get_field(v, "unfranked_amount") {
            Ok(x) => x,
            Err(e) => {
                return Err(e);
            },
        };
        let trust: bool = match get_field(v, "trust") {
            Ok(x) => x,
            Err(e) => {
                return Err(e);
            },
        };
        let extra_interest_payment_amount: Decimal = match get_field(v, "extra_interest_payment_amount") {
            Ok(x) => x,
            Err(e) => {
                return Err(e);
            },
        };
        let capital_gains: Decimal = match get_field(v, "capital_gains") {
            Ok(x) => x,
            Err(e) => {
                return Err(e);
            },
        };
        let discounted_capital_gains: Decimal = match get_field(v, "discounted_capital_gains") {
            Ok(x) => x,
            Err(e) => {
                return Err(e);
            },
        };
        let foreign_source_income: Decimal = match get_field(v, "foreign_source_income") {
            Ok(x) => x,
            Err(e) => {
                return Err(e);
            },
        };
        let non_assessable: bool = match get_field(v, "non_assessable") {
            Ok(x) => x,
            Err(e) => {
                return Err(e);
            },
        };
        let deferred_income: Decimal = match get_field(v, "deferred_income") {
            Ok(x) => x,
            Err(e) => {
                return Err(e);
            },
        };
        let cgt_concession_amount: Decimal = match get_field(v, "cgt_concession_amount") {
            Ok(x) => x,
            Err(e) => {
                return Err(e);
            },
        };
        let amit_decrease_amount: Decimal = match get_field(v, "amit_decrease_amount") {
            Ok(x) => x,
            Err(e) => {
                return Err(e);
            },
        };
        let amit_increase_amount: Decimal = match get_field(v, "amit_increase_amount") {
            Ok(x) => x,
            Err(e) => {
                return Err(e);
            },
        };
        let attachment_filename: String = match get_field(v, "attachment_filename") {
            Ok(x) => x,
            Err(e) => {
                return Err(e);
            },
        };
        let attachment_id: String = match get_field(v, "attachment_id") {
            Ok(x) => x,
            Err(e) => {
                return Err(e);
            },
        };
        let links: PayoutUpdateLinksSuccess = match get_field(v, "links") {
            Ok(x) => x,
            Err(e) => {
                return Err(e);
            },
        };
        Ok(PayoutUpdateSuccess { id, symbol, market, paid_on, ex_date, amount, gross_amount, resident_withholding_tax, non_resident_withholding_tax, tax_credit, currency, exchange_rate, non_taxable, comments, company_event_id, state, drp_trade_attributes, franked_amount, unfranked_amount, trust, extra_interest_payment_amount, capital_gains, discounted_capital_gains, foreign_source_income, non_assessable, deferred_income, cgt_concession_amount, amit_decrease_amount, amit_increase_amount, attachment_filename, attachment_id, links })
    }
}

/// A nested response shape of [`PayoutUpdate`].
#[derive(Debug, Clone, PartialEq)]
pub struct PayoutUpdateDrpTradeAttributesSuccess {
    pub dividend_reinvested: bool,
    pub quantity: Decimal,
    pub price: Decimal,
    pub source_adjustment_id: i64,
}

impl ToJson for PayoutUpdateDrpTradeAttributesSuccess {
    open spec fn enc(s: Self) -> Jv {
        Jv::Obj(
            Seq::<(Seq<char>, Jv)>::empty()
                + req_entry("dividend_reinvested"@, s.dividend_reinvested)
                + req_entry("quantity"@, s.quantity)
                + req_entry("price"@, s.price)
                + req_entry("source_adjustment_id"@, s.source_adjustment_id),
        )
    }

    fn encode(&self) -> (r: JsonValue) {
        let mut o = JsonObj::new();
        o.put("dividend_reinvested", &self.dividend_reinvested);
        o.put("quantity", &self.quantity);
        o.put("price", &self.price);
        o.put("source_adjustment_id", &self.source_adjustment_id);
        o.finish()
    }
}

impl FromJson for PayoutUpdateDrpTradeAttributesSuccess {
    open spec fn decodable(v: Jv) -> bool {
        &&& v is Obj
        &&& req_field_ok::<bool>(v, "dividend_reinvested"@)
        &&& req_field_ok::<Decimal>(v, "quantity"@)
        &&& req_field_ok::<Decimal>(v, "price"@)
        &&& req_field_ok::<i64>(v, "source_adjustment_id"@)
    }

    open spec fn rel(v: Jv, s: Self) -> bool {
        &&& v is Obj
        &&& req_field_rel::<bool>(v, "dividend_reinvested"@, s.dividend_reinvested)
        &&& req_field_rel::<Decimal>(v, "quantity"@, s.quantity)
        &&& req_field_rel::<Decimal>(v, "price"@, s.price)
        &&& req_field_rel::<i64>(v, "source_adjustment_id"@, s.source_adjustment_id)
    }

    fn decode(v: &JsonValue) -> (r: Result<Self, DecodeError>) {
        let dividend_reinvested: bool = match get_field(v, "dividend_reinvested") {
            Ok(x) => x,
            Err(e) => {
                return Err(e);
            },
        };
        let quantity: Decimal = match get_field(v, "quantity") {
            Ok(x) => x,
            Err(e) => {
                return Err(e);
            },
        };
        let price: Decimal = match get_field(v, "price") {
            Ok(x) => x,
            Err(e) => {
                return Err(e);
            },
        };
        let source_adjustment_id: i64 = match get_field(v, "source_adjustment_id") {
            Ok(x) => x,
            Err(e) => {
                return Err(e);
            },
        };
        Ok(PayoutUpdateDrpTradeAttributesSuccess { dividend_reinvested, quantity, price, source_adjustment_id })
    }
}

/// A nested response shape of [`PayoutUpdate`].
#[derive(Debug, Clone, PartialEq)]
pub struct PayoutUpdateLinksSuccess {
    pub portfolio: String,
}

impl ToJson for PayoutUpdateLinksSuccess {
    open spec fn enc(s: Self) -> Jv {
        Jv::Obj(
            Seq::<(Seq<char>, Jv)>::empty()
                + req_entry("portfolio"@, s.portfolio),
        )
    }

    fn encode(&self) -> (r: JsonValue) {
        let mut o = JsonObj::new();
        o.put("portfolio", &self.portfolio);
        o.finish()
    }
}

impl FromJson for PayoutUpdateLinksSuccess {
    open spec fn decodable(v: Jv) -> bool {
        &&& v is Obj
        &&& req_field_ok::<String>(v, "portfolio"@)
    }

    open spec fn rel(v: Jv, s: Self) -> bool {
        &&& v is Obj
        &&& req_field_rel::<String>(v, "portfolio"@, s.portfolio)
    }

    fn decode(v: &JsonValue) -> (r: Result<Self, DecodeError>) {
        let portfolio: String = match get_field(v, "portfolio") {
            Ok(x) => x,
            Err(e) => {
                return Err(e);
            },
        };
        Ok(PayoutUpdateLinksSuccess { portfolio })
    }
}

} // verus!
