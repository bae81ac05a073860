//! Cash account and cash account transaction endpoints.

use vstd::prelude::*;
use vstd::string::StringExecFns;
use crate::api::ApiHttpMethod;
use crate::codec::DecodeError;
use crate::codec::FromJson;
use crate::codec::JsonObj;
use crate::codec::ToJson;
use crate::codec::get_field;
use crate::codec::get_opt_field;
use crate::codec::opt_entry;
use crate::codec::opt_field_ok;
use crate::codec::opt_field_rel;
use crate::codec::req_entry;
use crate::codec::req_field_ok;
use crate::codec::req_field_rel;
use crate::codec::spec_starts_with;
use crate::date::Date;
use crate::date::DateTime;
use crate::enums::Currency;
use crate::json::Decimal;
use crate::json::JsonValue;
use crate::json::Jv;
use crate::num::render_i64;
use crate::num::spec_i64_string;
use crate::codec::lemma_id_round_trip;
use crate::date::lemma_date_round_trip;
use crate::json::obj_get;

verus! {

/// `POST /portfolios/:portfolio_id/cash_accounts.json`.
pub struct CashAccountCreate;

/// The parameters of a [`CashAccountCreate`] call, held for URL rendering.
pub struct CashAccountCreateUrlDisplay<'a>(pub &'a CashAccountCreateParameters);

impl<'a> CashAccountCreateUrlDisplay<'a> {
    /// Renders the resolved URL path.
    pub fn render(&self) -> (r: String)
        ensures
            r@ == CashAccountCreate::spec_url(*self.0),
    {
        CashAccountCreate::url(self.0)
    }
}

impl CashAccountCreate {
    /// The URL template of this endpoint.
    pub fn url_template() -> (r: &'static str)
        ensures
            r@ == "/portfolios/:portfolio_id/cash_accounts.json"@,
    {
        "/portfolios/:portfolio_id/cash_accounts.json"
    }

    /// The HTTP method of this endpoint.
    pub fn http_method() -> (r: ApiHttpMethod)
        ensures
            r == ApiHttpMethod::Post,
    {
        ApiHttpMethod::Post
    }

    /// The URL path that `p` resolves the template to.
    pub open spec fn spec_url(p: CashAccountCreateParameters) -> Seq<char> {
        "/portfolios/"@ + spec_i64_string(p.portfolio_id as int) + "/cash_accounts.json"@
    }

    /// Resolves the URL template with the fields of `parameters`:
    /// plain decimal digits for integers, strings as they are.
    pub fn url(parameters: &CashAccountCreateParameters) -> (r: String)
        ensures
            r@ == Self::spec_url(*parameters),
    {
        let mut s = "/portfolios/".to_owned();
        s.append(render_i64(parameters.portfolio_id).as_str());
        s.append("/cash_accounts.json");
        s
    }

    /// Wraps `parameters` for URL rendering.
    pub fn url_path<'a>(parameters: &'a CashAccountCreateParameters) -> (r: CashAccountCreateUrlDisplay<'a>)
        ensures
            r.0 == parameters,
    {
        CashAccountCreateUrlDisplay(parameters)
    }

    /// Decodes a success payload, naming this endpoint in any
    /// failure.
    pub fn decode_success(v: &JsonValue) -> (r: Result<CashAccountCreateSuccess, DecodeError>)
        ensures
            r matches Ok(s) ==> <CashAccountCreateSuccess as FromJson>::decodable(v@)
                && <CashAccountCreateSuccess as FromJson>::rel(v@, s),
            <CashAccountCreateSuccess as FromJson>::decodable(v@) ==> r is Ok,
            r matches Err(e) ==> spec_starts_with(e.path@, "CashAccountCreate"@),
    {
        match CashAccountCreateSuccess::decode(v) {
            Ok(s) => Ok(s),
            Err(e) => Err(e.in_endpoint("CashAccountCreate")),
        }
    }
}

/// The parameters of a [`CashAccountCreate`] call.
#[derive(Debug, Clone, PartialEq)]
pub struct CashAccountCreateParameters {
    pub portfolio_id: i64,
    pub cash_account: CashAccountCreateCashAccountParameters,
}

impl ToJson for CashAccountCreateParameters {
    open spec fn enc(s: Self) -> Jv {
        Jv::Obj(
            Seq::<(Seq<char>, Jv)>::empty()
                + req_entry("portfolio_id"@, s.portfolio_id)
                + req_entry("cash_account"@, s.cash_account),
        )
    }

    fn encode(&self) -> (r: JsonValue) {
        let mut o = JsonObj::new();
        o.put("portfolio_id", &self.portfolio_id);
        o.put("cash_account", &self.cash_account);
        o.finish()
    }
}

impl FromJson for CashAccountCreateParameters {
    open spec fn decodable(v: Jv) -> bool {
        &&& v is Obj
        &&& req_field_ok::<i64>(v, "portfolio_id"@)
        &&& req_field_ok::<CashAccountCreateCashAccountParameters>(v, "cash_account"@)
    }

    open spec fn rel(v: Jv, s: Self) -> bool {
        &&& v is Obj
        &&& req_field_rel::<i64>(v, "portfolio_id"@, s.portfolio_id)
        &&& req_field_rel::<CashAccountCreateCashAccountParameters>(v, "cash_account"@, s.cash_account)
    }

    fn decode(v: &JsonValue) -> (r: Result<Self, DecodeError>) {
        let portfolio_id: i64 = match get_field(v, "portfolio_id") {
            Ok(x) => x,
            Err(e) => {
                return Err(e);
            },
        };
        let cash_account: CashAccountCreateCashAccountParameters = match get_field(v, "cash_account") {
            Ok(x) => x,
            Err(e) => {
                return Err(e);
            },
        };
        Ok(CashAccountCreateParameters { portfolio_id, cash_account })
    }
}

/// A nested parameter shape of [`CashAccountCreate`].
#[derive(Debug, Clone, PartialEq)]
pub struct CashAccountCreateCashAccountParameters {
    pub name: String,
    pub currency: Currency,
}

impl ToJson for CashAccountCreateCashAccountParameters {
    open spec fn enc(s: Self) -> Jv {
        Jv::Obj(
            Seq::<(Seq<char>, Jv)>::empty()
                + req_entry("name"@, s.name)
                + req_entry("currency"@, s.currency),
        )
    }

    fn encode(&self) -> (r: JsonValue) {
        let mut o = JsonObj::new();
        o.put("name", &self.name);
        o.put("currency", &self.currency);
        o.finish()
    }
}

impl FromJson for CashAccountCreateCashAccountParameters {
    open spec fn decodable(v: Jv) -> bool {
        &&& v is Obj
        &&& req_field_ok::<String>(v, "name"@)
        &&& req_field_ok::<Currency>(v, "currency"@)
    }

    open spec fn rel(v: Jv, s: Self) -> bool {
        &&& v is Obj
        &&& req_field_rel::<String>(v, "name"@, s.name)
        &&& req_field_rel::<Currency>(v, "currency"@, s.currency)
    }

    fn decode(v: &JsonValue) -> (r: Result<Self, DecodeError>) {
        let name: String = match get_field(v, "name") {
            Ok(x) => x,
            Err(e) => {
                return Err(e);
            },
        };
        let currency: Currency = match get_field(v, "currency") {
            Ok(x) => x,
            Err(e) => {
                return Err(e);
            },
        };
        Ok(CashAccountCreateCashAccountParameters { name, currency })
    }
}

/// The success response of a [`CashAccountCreate`] call.
#[derive(Debug, Clone, PartialEq)]
pub struct CashAccountCreateSuccess {
    pub cash_account: CashAccountCreateCashAccountSuccess,
}

impl ToJson for CashAccountCreateSuccess {
    open spec fn enc(s: Self) -> Jv {
        Jv::Obj(
            Seq::<(Seq<char>, Jv)>::empty()
                + req_entry("cash_account"@, s.cash_account),
        )
    }

    fn encode(&self) -> (r: JsonValue) {
        let mut o = JsonObj::new();
        o.put("cash_account", &self.cash_account);
        o.finish()
    }
}

impl FromJson for CashAccountCreateSuccess {
    open spec fn decodable(v: Jv) -> bool {
        &&& v is Obj
        &&& req_field_ok::<CashAccountCreateCashAccountSuccess>(v, "cash_account"@)
    }

    open spec fn rel(v: Jv, s: Self) -> bool {
        &&& v is Obj
        &&& req_field_rel::<CashAccountCreateCashAccountSuccess>(v, "cash_account"@, s.cash_account)
    }

    fn decode(v: &JsonValue) -> (r: Result<Self, DecodeError>) {
        let cash_account: CashAccountCreateCashAccountSuccess = match get_field(v, "cash_account") {
            Ok(x) => x,
            Err(e) => {
                return Err(e);
            },
        };
        Ok(CashAccountCreateSuccess { cash_account })
    }
}

/// A nested response shape of [`CashAccountCreate`].
#[derive(Debug, Clone, PartialEq)]
pub struct CashAccountCreateCashAccountSuccess {
    pub id: i64,
    pub name: String,
    pub currency: Currency,
    pub portfolio_currency: Currency,
    pub portfolio_id: i64,
    pub date: Date,
    pub balance: Decimal,
    pub balance_in_portfolio_currency: Decimal,
    pub links: CashAccountCreateCashAccountLinksSuccess,
}

impl ToJson for CashAccountCreateCashAccountSuccess {
    open spec fn enc(s: Self) -> Jv {
        Jv::Obj(
            Seq::<(Seq<char>, Jv)>::empty()
                + req_entry("id"@, s.id)
                + req_entry("name"@, s.name)
                + req_entry("currency"@, s.currency)
                + req_entry("portfolio_currency"@, s.portfolio_currency)
                + req_entry("portfolio_id"@, s.portfolio_id)
                + req_entry("date"@, s.date)
                + req_entry("balance"@, s.balance)
                + req_entry("balance_in_portfolio_currency"@, s.balance_in_portfolio_currency)
                + req_entry("links"@, s.links),
        )
    }

    fn encode(&self) -> (r: JsonValue) {
        let mut o = JsonObj::new();
        o.put("id", &self.id);
        o.put("name", &self.name);
        o.put("currency", &self.currency);
        o.put("portfolio_currency", &self.portfolio_currency);
        o.put("portfolio_id", &self.portfolio_id);
        o.put("date", &self.date);
        o.put("balance", &self.balance);
        o.put("balance_in_portfolio_currency", &self.balance_in_portfolio_currency);
        o.put("links", &self.links);
        o.finish()
    }
}

impl FromJson for CashAccountCreateCashAccountSuccess {
    open spec fn decodable(v: Jv) -> bool {
        &&& v is Obj
        &&& req_field_ok::<i64>(v, "id"@)
        &&& req_field_ok::<String>(v, "name"@)
        &&& req_field_ok::<Currency>(v, "currency"@)
        &&& req_field_ok::<Currency>(v, "portfolio_currency"@)
        &&& req_field_ok::<i64>(v, "portfolio_id"@)
        &&& req_field_ok::<Date>(v, "date"@)
        &&& req_field_ok::<Decimal>(v, "balance"@)
        &&& req_field_ok::<Decimal>(v, "balance_in_portfolio_currency"@)
        &&& req_field_ok::<CashAccountCreateCashAccountLinksSuccess>(v, "links"@)
    }

    open spec fn rel(v: Jv, s: Self) -> bool {
        &&& v is Obj
        &&& req_field_rel::<i64>(v, "id"@, s.id)
        &&& req_field_rel::<String>(v, "name"@, s.name)
        &&& req_field_rel::<Currency>(v, "currency"@, s.currency)
        &&& req_field_rel::<Currency>(v, "portfolio_currency"@, s.portfolio_currency)
        &&& req_field_rel::<i64>(v, "portfolio_id"@, s.portfolio_id)
        &&& req_field_rel::<Date>(v, "date"@, s.date)
        &&& req_field_rel::<Decimal>(v, "balance"@, s.balance)
        &&& req_field_rel::<Decimal>(v, "balance_in_portfolio_currency"@, s.balance_in_portfolio_currency)
        &&& req_field_rel::<CashAccountCreateCashAccountLinksSuccess>(v, "links"@, s.links)
    }

    fn decode(v: &JsonValue) -> (r: Result<Self, DecodeError>) {
        let id: i64 = match get_field(v, "id") {
            Ok(x) => x,
            Err(e) => {
                return Err(e);
            },
        };
        let name: String = match get_field(v, "name") {
            Ok(x) => x,
            Err(e) => {
                return Err(e);
            },
        };
        let currency: Currency = match get_field(v, "currency") {
            Ok(x) => x,
            Err(e) => {
                return Err(e);
            },
        };
        let portfolio_currency: Currency = match get_field(v, "portfolio_currency") {
            Ok(x) => x,
            Err(e) => {
                return Err(e);
            },
        };
        let portfolio_id: i64 = match get_field(v, "portfolio_id") {
            Ok(x) => x,
            Err(e) => {
                return Err(e);
            },
        };
        let date: Date = match get_field(v, "date") {
            Ok(x) => x,
            Err(e) => {
                return Err(e);
            },
        };
        let balance: Decimal = match get_field(v, "balance") {
            Ok(x) => x,
            Err(e) => {
                return Err(e);
            },
        };
        let balance_in_portfolio_currency: Decimal = match get_field(v, "balance_in_portfolio_currency") {
            Ok(x) => x,
            Err(e) => {
                return Err(e);
            },
        };
        let links: CashAccountCreateCashAccountLinksSuccess = match get_field(v, "links") {
            Ok(x) => x,
            Err(e) => {
                return Err(e);
            },
        };
        Ok(CashAccountCreateCashAccountSuccess { id, name, currency, portfolio_currency, portfolio_id, date, balance, balance_in_portfolio_currency, links })
    }
}

/// A nested response shape of [`CashAccountCreate`].
#[derive(Debug, Clone, PartialEq)]
pub struct CashAccountCreateCashAccountLinksSuccess {
    pub portfolio: String,
}

impl ToJson for CashAccountCreateCashAccountLinksSuccess {
    open spec fn enc(s: Self) -> Jv {
        Jv::Obj(
            Seq::<(Seq<char>, Jv)>::empty()
                + req_entry("portfolio"@, s.portfolio),
        )
    }

    fn encode(&self) -> (r: JsonValue) {
        let mut o = JsonObj::new();
        o.put("portfolio", &self.portfolio);
        o.finish()
    }
}

impl FromJson for CashAccountCreateCashAccountLinksSuccess {
    open spec fn decodable(v: Jv) -> bool {
        &&& v is Obj
        &&& req_field_ok::<String>(v, "portfolio"@)
    }

    open spec fn rel(v: Jv, s: Self) -> bool {
        &&& v is Obj
        &&& req_field_rel::<String>(v, "portfolio"@, s.portfolio)
    }

    fn decode(v: &JsonValue) -> (r: Result<Self, DecodeError>) {
        let portfolio: String = match get_field(v, "portfolio") {
            Ok(x) => x,
            Err(e) => {
                return Err(e);
            },
        };
        Ok(CashAccountCreateCashAccountLinksSuccess { portfolio })
    }
}

/// `DELETE /cash_accounts/:id.json`.
pub struct CashAccountDelete;

/// The parameters of a [`CashAccountDelete`] call, held for URL rendering.
pub struct CashAccountDeleteUrlDisplay<'a>(pub &'a CashAccountDeleteParameters);

impl<'a> CashAccountDeleteUrlDisplay<'a> {
    /// Renders the resolved URL path.
    pub fn render(&self) -> (r: String)
        ensures
            r@ == CashAccountDelete::spec_url(*self.0),
    {
        CashAccountDelete::url(self.0)
    }
}

impl CashAccountDelete {
    /// The URL template of this endpoint.
    pub fn url_template() -> (r: &'static str)
        ensures
            r@ == "/cash_accounts/:id.json"@,
    {
        "/cash_accounts/:id.json"
    }

    /// The HTTP method of this endpoint.
    pub fn http_method() -> (r: ApiHttpMethod)
        ensures
            r == ApiHttpMethod::Delete,
    {
        ApiHttpMethod::Delete
    }

    /// The URL path that `p` resolves the template to.
    pub open spec fn spec_url(p: CashAccountDeleteParameters) -> Seq<char> {
        "/cash_accounts/"@ + spec_i64_string(p.id as int) + ".json"@
    }

    /// Resolves the URL template with the fields of `parameters`:
    /// plain decimal digits for integers, strings as they are.
    pub fn url(parameters: &CashAccountDeleteParameters) -> (r: String)
        ensures
            r@ == Self::spec_url(*parameters),
    {
        let mut s = "/cash_accounts/".to_owned();
        s.append(render_i64(parameters.id).as_str());
        s.append(".json");
        s
    }

    /// Wraps `parameters` for URL rendering.
    pub fn url_path<'a>(parameters: &'a CashAccountDeleteParameters) -> (r: CashAccountDeleteUrlDisplay<'a>)
        ensures
            r.0 == parameters,
    {
        CashAccountDeleteUrlDisplay(parameters)
    }
}

/// The parameters of a [`CashAccountDelete`] call.
#[derive(Debug, Clone, PartialEq)]
pub struct CashAccountDeleteParameters {
    pub id: i64,
}

impl ToJson for CashAccountDeleteParameters {
    open spec fn enc(s: Self) -> Jv {
        Jv::Obj(
            Seq::<(Seq<char>, Jv)>::empty()
                + req_entry("id"@, s.id),
        )
    }

    fn encode(&self) -> (r: JsonValue) {
        let mut o = JsonObj::new();
        o.put("id", &self.id);
        o.finish()
    }
}

impl FromJson for CashAccountDeleteParameters {
    open spec fn decodable(v: Jv) -> bool {
        &&& v is Obj
        &&& req_field_ok::<i64>(v, "id"@)
    }

    open spec fn rel(v: Jv, s: Self) -> bool {
        &&& v is Obj
        &&& req_field_rel::<i64>(v, "id"@, s.id)
    }

    fn decode(v: &JsonValue) -> (r: Result<Self, DecodeError>) {
        let id: i64 = match get_field(v, "id") {
            Ok(x) => x,
            Err(e) => {
                return Err(e);
            },
        };
        Ok(CashAccountDeleteParameters { id })
    }
}

/// `GET /cash_accounts/:id.json`.
pub struct CashAccountShow;

/// The parameters of a [`CashAccountShow`] call, held for URL rendering.
pub struct CashAccountShowUrlDisplay<'a>(pub &'a CashAccountShowParameters);

impl<'a> CashAccountShowUrlDisplay<'a> {
    /// Renders the resolved URL path.
    pub fn render(&self) -> (r: String)
        ensures
            r@ == CashAccountShow::spec_url(*self.0),
    {
        CashAccountShow::url(self.0)
    }
}

impl CashAccountShow {
    /// The URL template of this endpoint.
    pub fn url_template() -> (r: &'static str)
        ensures
            r@ == "/cash_accounts/:id.json"@,
    {
        "/cash_accounts/:id.json"
    }

    /// The HTTP method of this endpoint.
    pub fn http_method() -> (r: ApiHttpMethod)
        ensures
            r == ApiHttpMethod::Get,
    {
        ApiHttpMethod::Get
    }

    /// The URL path that `p` resolves the template to.
    pub open spec fn spec_url(p: CashAccountShowParameters) -> Seq<char> {
        "/cash_accounts/"@ + spec_i64_string(p.id as int) + ".json"@
    }

    /// Resolves the URL template with the fields of `parameters`:
    /// plain decimal digits for integers, strings as they are.
    pub fn url(parameters: &CashAccountShowParameters) -> (r: String)
        ensures
            r@ == Self::spec_url(*parameters),
    {
        let mut s = "/cash_accounts/".to_owned();
        s.append(render_i64(parameters.id).as_str());
        s.append(".json");
        s
    }

    /// Wraps `parameters` for URL rendering.
    pub fn url_path<'a>(parameters: &'a CashAccountShowParameters) -> (r: CashAccountShowUrlDisplay<'a>)
        ensures
            r.0 == parameters,
    {
        CashAccountShowUrlDisplay(parameters)
    }

    /// Decodes a success payload, naming this endpoint in any
    /// failure.
    pub fn decode_success(v: &JsonValue) -> (r: Result<CashAccountShowSuccess, DecodeError>)
        ensures
            r matches Ok(s) ==> <CashAccountShowSuccess as FromJson>::decodable(v@)
                && <CashAccountShowSuccess as FromJson>::rel(v@, s),
            <CashAccountShowSuccess as FromJson>::decodable(v@) ==> r is Ok,
            r matches Err(e) ==> spec_starts_with(e.path@, "CashAccountShow"@),
    {
        match CashAccountShowSuccess::decode(v) {
            Ok(s) => Ok(s),
            Err(e) => Err(e.in_endpoint("CashAccountShow")),
        }
    }
}

/// The parameters of a [`CashAccountShow`] call.
#[derive(Debug, Clone, PartialEq)]
pub struct CashAccountShowParameters {
    pub id: i64,
    pub date: Option<Date>,
}

impl ToJson for CashAccountShowParameters {
    open spec fn enc(s: Self) -> Jv {
        Jv::Obj(
            Seq::<(Seq<char>, Jv)>::empty()
                + req_entry("id"@, s.id)
                + opt_entry("date"@, s.date),
        )
    }

    fn encode(&self) -> (r: JsonValue) {
        let mut o = JsonObj::new();
        o.put("id", &self.id);
        o.put_opt("date", &self.date);
        o.finish()
    }
}

impl FromJson for CashAccountShowParameters {
    open spec fn decodable(v: Jv) -> bool {
        &&& v is Obj
        &&& req_field_ok::<i64>(v, "id"@)
        &&& opt_field_ok::<Date>(v, "date"@)
    }

    open spec fn rel(v: Jv, s: Self) -> bool {
        &&& v is Obj
        &&& req_field_rel::<i64>(v, "id"@, s.id)
        &&& opt_field_rel::<Date>(v, "date"@, s.date)
    }

    fn decode(v: &JsonValue) -> (r: Result<Self, DecodeError>) {
        let id: i64 = match get_field(v, "id") {
            Ok(x) => x,
            Err(e) => {
                return Err(e);
            },
        };
        let date: Option<Date> = match get_opt_field(v, "date") {
            Ok(x) => x,
            Err(e) => {
                return Err(e);
            },
        };
        Ok(CashAccountShowParameters { id, date })
    }
}

/// The success response of a [`CashAccountShow`] call.
#[derive(Debug, Clone, PartialEq)]
pub struct CashAccountShowSuccess {
    pub id: i64,
    pub name: String,
    pub currency: Currency,
    pub portfolio_currency: Currency,
    pub portfolio_id: i64,
    pub date: Date,
    pub balance: Decimal,
    pub balance_in_portfolio_currency: Decimal,
    pub links: CashAccountShowLinksSuccess,
}

impl ToJson for CashAccountShowSuccess {
    open spec fn enc(s: Self) -> Jv {
        Jv::Obj(
            Seq::<(Seq<char>, Jv)>::empty()
                + req_entry("id"@, s.id)
                + req_entry("name"@, s.name)
                + req_entry("currency"@, s.currency)
                + req_entry("portfolio_currency"@, s.portfolio_currency)
                + req_entry("portfolio_id"@, s.portfolio_id)
                + req_entry("date"@, s.date)
                + req_entry("balance"@, s.balance)
                + req_entry("balance_in_portfolio_currency"@, s.balance_in_portfolio_currency)
                + req_entry("links"@, s.links),
        )
    }

    fn encode(&self) -> (r: JsonValue) {
        let mut o = JsonObj::new();
        o.put("id", &self.id);
        o.put("name", &self.name);
        o.put("currency", &self.currency);
        o.put("portfolio_currency", &self.portfolio_currency);
        o.put("portfolio_id", &self.portfolio_id);
        o.put("date", &self.date);
        o.put("balance", &self.balance);
        o.put("balance_in_portfolio_currency", &self.balance_in_portfolio_currency);
        o.put("links", &self.links);
        o.finish()
    }
}

impl FromJson for CashAccountShowSuccess {
    open spec fn decodable(v: Jv) -> bool {
        &&& v is Obj
        &&& req_field_ok::<i64>(v, "id"@)
        &&& req_field_ok::<String>(v, "name"@)
        &&& req_field_ok::<Currency>(v, "currency"@)
        &&& req_field_ok::<Currency>(v, "portfolio_currency"@)
        &&& req_field_ok::<i64>(v, "portfolio_id"@)
        &&& req_field_ok::<Date>(v, "date"@)
        &&& req_field_ok::<Decimal>(v, "balance"@)
        &&& req_field_ok::<Decimal>(v, "balance_in_portfolio_currency"@)
        &&& req_field_ok::<CashAccountShowLinksSuccess>(v, "links"@)
    }

    open spec fn rel(v: Jv, s: Self) -> bool {
        &&& v is Obj
        &&& req_field_rel::<i64>(v, "id"@, s.id)
        &&& req_field_rel::<String>(v, "name"@, s.name)
        &&& req_field_rel::<Currency>(v, "currency"@, s.currency)
        &&& req_field_rel::<Currency>(v, "portfolio_currency"@, s.portfolio_currency)
        &&& req_field_rel::<i64>(v, "portfolio_id"@, s.portfolio_id)
        &&& req_field_rel::<Date>(v, "date"@, s.date)
        &&& req_field_rel::<Decimal>(v, "balance"@, s.balance)
        &&& req_field_rel::<Decimal>(v, "balance_in_portfolio_currency"@, s.balance_in_portfolio_currency)
        &&& req_field_rel::<CashAccountShowLinksSuccess>(v, "links"@, s.links)
    }

    fn decode(v: &JsonValue) -> (r: Result<Self, DecodeError>) {
        let id: i64 = match get_field(v, "id") {
            Ok(x) => x,
            Err(e) => {
                return Err(e);
            },
        };
        let name: String = match get_field(v, "name") {
            Ok(x) => x,
            Err(e) => {
                return Err(e);
            },
        };
        let currency: Currency = match get_field(v, "currency") {
            Ok(x) => x,
            Err(e) => {
                return Err(e);
            },
        };
        let portfolio_currency: Currency = match get_field(v, "portfolio_currency") {
            Ok(x) => x,
            Err(e) => {
                return Err(e);
            },
        };
        let portfolio_id: i64 = match get_field(v, "portfolio_id") {
            Ok(x) => x,
            Err(e) => {
                return Err(e);
            },
        };
        let date: Date = match get_field(v, "date") {
            Ok(x) => x,
            Err(e) => {
                return Err(e);
            },
        };
        let balance: Decimal = match get_field(v, "balance") {
            Ok(x) => x,
            Err(e) => {
                return Err(e);
            },
        };
        let balance_in_portfolio_currency: Decimal = match get_field(v, "balance_in_portfolio_currency") {
            Ok(x) => x,
            Err(e) => {
                return Err(e);
            },
        };
        let links: CashAccountShowLinksSuccess = match get_field(v, "links") {
            Ok(x) => x,
            Err(e) => {
                return Err(e);
            },
        };
        Ok(CashAccountShowSuccess { id, name, currency, portfolio_currency, portfolio_id, date, balance, balance_in_portfolio_currency, links })
    }
}

/// A nested response shape of [`CashAccountShow`].
#[derive(Debug, Clone, PartialEq)]
pub struct CashAccountShowLinksSuccess {
    pub portfolio: String,
    pub itself: String,
}

impl ToJson for CashAccountShowLinksSuccess {
    open spec fn enc(s: Self) -> Jv {
        Jv::Obj(
            Seq::<(Seq<char>, Jv)>::empty()
                + req_entry("portfolio"@, s.portfolio)
                + req_entry("self"@, s.itself),
        )
    }

    fn encode(&self) -> (r: JsonValue) {
        let mut o = JsonObj::new();
        o.put("portfolio", &self.portfolio);
        o.put("self", &self.itself);
        o.finish()
    }
}

impl FromJson for CashAccountShowLinksSuccess {
    open spec fn decodable(v: Jv) -> bool {
        &&& v is Obj
        &&& req_field_ok::<String>(v, "portfolio"@)
        &&& req_field_ok::<String>(v, "self"@)
    }

    open spec fn rel(v: Jv, s: Self) -> bool {
        &&& v is Obj
        &&& req_field_rel::<String>(v, "portfolio"@, s.portfolio)
        &&& req_field_rel::<String>(v, "self"@, s.itself)
    }

    fn decode(v: &JsonValue) -> (r: Result<Self, DecodeError>) {
        let portfolio: String = match get_field(v, "portfolio") {
            Ok(x) => x,
            Err(e) => {
                return Err(e);
            },
        };
        let itself: String = match get_field(v, "self") {
            Ok(x) => x,
            Err(e) => {
                return Err(e);
            },
        };
        Ok(CashAccountShowLinksSuccess { portfolio, itself })
    }
}

/// `POST /cash_accounts/:cash_account_id/cash_account_transactions.json`.
pub struct CashAccountTransactionCreate;

/// The parameters of a [`CashAccountTransactionCreate`] call, held for URL rendering.
pub struct CashAccountTransactionCreateUrlDisplay<'a>(pub &'a CashAccountTransactionCreateParameters);

impl<'a> CashAccountTransactionCreateUrlDisplay<'a> {
    /// Renders the resolved URL path.
    pub fn render(&self) -> (r: String)
        ensures
            r@ == CashAccountTransactionCreate::spec_url(*self.0),
    {
        CashAccountTransactionCreate::url(self.0)
    }
}

impl CashAccountTransactionCreate {
    /// The URL template of this endpoint.
    pub fn url_template() -> (r: &'static str)
        ensures
            r@ == "/cash_accounts/:cash_account_id/cash_account_transactions.json"@,
    {
        "/cash_accounts/:cash_account_id/cash_account_transactions.json"
    }

    /// The HTTP method of this endpoint.
    pub fn http_method() -> (r: ApiHttpMethod)
        ensures
            r == ApiHttpMethod::Post,
    {
        ApiHttpMethod::Post
    }

    /// The URL path that `p` resolves the template to.
    pub open spec fn spec_url(p: CashAccountTransactionCreateParameters) -> Seq<char> {
        "/cash_accounts/"@ + spec_i64_string(p.cash_account_id as int) + "/cash_account_transactions.json"@
    }

    /// Resolves the URL template with the fields of `parameters`:
    /// plain decimal digits for integers, strings as they are.
    pub fn url(parameters: &CashAccountTransactionCreateParameters) -> (r: String)
        ensures
            r@ == Self::spec_url(*parameters),
    {
        let mut s = "/cash_accounts/".to_owned();
        s.append(render_i64(parameters.cash_account_id).as_str());
        s.append("/cash_account_transactions.json");
        s
    }

    /// Wraps `parameters` for URL rendering.
    pub fn url_path<'a>(parameters: &'a CashAccountTransactionCreateParameters) -> (r: CashAccountTransactionCreateUrlDisplay<'a>)
        ensures
            r.0 == parameters,
    {
        CashAccountTransactionCreateUrlDisplay(parameters)
    }

    /// Decodes a success payload, naming this endpoint in any
    /// failure.
    pub fn decode_success(v: &JsonValue) -> (r: Result<CashAccountTransactionCreateSuccess, DecodeError>)
        ensures
            r matches Ok(s) ==> <CashAccountTransactionCreateSuccess as FromJson>::decodable(v@)
                && <CashAccountTransactionCreateSuccess as FromJson>::rel(v@, s),
            <CashAccountTransactionCreateSuccess as FromJson>::decodable(v@) ==> r is Ok,
            r matches Err(e) ==> spec_starts_with(e.path@, "CashAccountTransactionCreate"@),
    {
        match CashAccountTransactionCreateSuccess::decode(v) {
            Ok(s) => Ok(s),
            Err(e) => Err(e.in_endpoint("CashAccountTransactionCreate")),
        }
    }
}

/// The parameters of a [`CashAccountTransactionCreate`] call.
#[derive(Debug, Clone, PartialEq)]
pub struct CashAccountTransactionCreateParameters {
    pub cash_account_id: i64,
    pub description: String,
    pub amount: Decimal,
    pub transaction_type: String,
    pub date_time: DateTime,
    pub foreign_identifier: Option<String>,
}

impl ToJson for CashAccountTransactionCreateParameters {
    open spec fn enc(s: Self) -> Jv {
        Jv::Obj(
            Seq::<(Seq<char>, Jv)>::empty()
                + req_entry("cash_account_id"@, s.cash_account_id)
                + req_entry("description"@, s.description)
                + req_entry("amount"@, s.amount)
                + req_entry("type_name"@, s.transaction_type)
                + req_entry("date_time"@, s.date_time)
                + opt_entry("foreign_identifier"@, s.foreign_identifier),
        )
    }

    fn encode(&self) -> (r: JsonValue) {
        let mut o = JsonObj::new();
        o.put("cash_account_id", &self.cash_account_id);
        o.put("description", &self.description);
        o.put("amount", &self.amount);
        o.put("type_name", &self.transaction_type);
        o.put("date_time", &self.date_time);
        o.put_opt("foreign_identifier", &self.foreign_identifier);
        o.finish()
    }
}

impl FromJson for CashAccountTransactionCreateParameters {
    open spec fn decodable(v: Jv) -> bool {
        &&& v is Obj
        &&& req_field_ok::<i64>(v, "cash_account_id"@)
        &&& req_field_ok::<String>(v, "description"@)
        &&& req_field_ok::<Decimal>(v, "amount"@)
        &&& req_field_ok::<String>(v, "type_name"@)
        &&& req_field_ok::<DateTime>(v, "date_time"@)
        &&& opt_field_ok::<String>(v, "foreign_identifier"@)
    }

    open spec fn rel(v: Jv, s: Self) -> bool {
        &&& v is Obj
        &&& req_field_rel::<i64>(v, "cash_account_id"@, s.cash_account_id)
        &&& req_field_rel::<String>(v, "description"@, s.description)
        &&& req_field_rel::<Decimal>(v, "amount"@, s.amount)
        &&& req_field_rel::<String>(v, "type_name"@, s.transaction_type)
        &&& req_field_rel::<DateTime>(v, "date_time"@, s.date_time)
        &&& opt_field_rel::<String>(v, "foreign_identifier"@, s.foreign_identifier)
    }

    fn decode(v: &JsonValue) -> (r: Result<Self, DecodeError>) {
        let cash_account_id: i64 = match get_field(v, "cash_account_id") {
            Ok(x) => x,
            Err(e) => {
                return Err(e);
            },
        };
        let description: String = match get_field(v, "description") {
            Ok(x) => x,
            Err(e) => {
                return Err(e);
            },
        };
        let amount: Decimal = match get_field(v, "amount") {
            Ok(x) => x,
            Err(e) => {
                return Err(e);
            },
        };
        let transaction_type: String = match get_field(v, "type_name") {
            Ok(x) => x,
            Err(e) => {
                return Err(e);
            },
        };
        let date_time: DateTime = match get_field(v, "date_time") {
            Ok(x) => x,
            Err(e) => {
                return Err(e);
            },
        };
        let foreign_identifier: Option<String> = match get_opt_field(v, "foreign_identifier") {
            Ok(x) => x,
            Err(e) => {
                return Err(e);
            },
        };
        Ok(CashAccountTransactionCreateParameters { cash_account_id, description, amount, transaction_type, date_time, foreign_identifier })
    }
}

/// The success response of a [`CashAccountTransactionCreate`] call.
#[derive(Debug, Clone, PartialEq)]
pub struct CashAccountTransactionCreateSuccess {
    pub cash_account_transaction: CashAccountTransactionCreateCashAccountTransactionSuccess,
}

impl ToJson for CashAccountTransactionCreateSuccess {
    open spec fn enc(s: Self) -> Jv {
        Jv::Obj(
            Seq::<(Seq<char>, Jv)>::empty()
                + req_entry("cash_account_transaction"@, s.cash_account_transaction),
        )
    }

    fn encode(&self) -> (r: JsonValue) {
        let mut o = JsonObj::new();
        o.put("cash_account_transaction", &self.cash_account_transaction);
        o.finish()
    }
}

impl FromJson for CashAccountTransactionCreateSuccess {
    open spec fn decodable(v: Jv) -> bool {
        &&& v is Obj
        &&& req_field_ok::<CashAccountTransactionCreateCashAccountTransactionSuccess>(v, "cash_account_transaction"@)
    }

    open spec fn rel(v: Jv, s: Self) -> bool {
        &&& v is Obj
        &&& req_field_rel::<CashAccountTransactionCreateCashAccountTransactionSuccess>(v, "cash_account_transaction"@, s.cash_account_transaction)
    }

    fn decode(v: &JsonValue) -> (r: Result<Self, DecodeError>) {
        let cash_account_transaction: CashAccountTransactionCreateCashAccountTransactionSuccess = match get_field(v, "cash_account_transaction") {
            Ok(x) => x,
            Err(e) => {
                return Err(e);
            },
        };
        Ok(CashAccountTransactionCreateSuccess { cash_account_transaction })
    }
}

/// A nested response shape of [`CashAccountTransactionCreate`].
#[derive(Debug, Clone, PartialEq)]
pub struct CashAccountTransactionCreateCashAccountTransactionSuccess {
    pub id: i64,
    pub description: String,
    pub date_time: DateTime,
    pub amount: Decimal,
    pub balance: Decimal,
    pub cash_account_id: String,
    pub foreign_identifier: String,
    pub holding_id: i64,
    pub trade_id: i64,
    pub cash_account_transaction_type: String,
    pub links: CashAccountTransactionCreateCashAccountTransactionLinksSuccess,
}

impl ToJson for CashAccountTransactionCreateCashAccountTransactionSuccess {
    open spec fn enc(s: Self) -> Jv {
        Jv::Obj(
            Seq::<(Seq<char>, Jv)>::empty()
                + req_entry("id"@, s.id)
                + req_entry("description"@, s.description)
                + req_entry("date_time"@, s.date_time)
                + req_entry("amount"@, s.amount)
                + req_entry("balance"@, s.balance)
                + req_entry("cash_account_id"@, s.cash_account_id)
                + req_entry("foreign_identifier"@, s.foreign_identifier)
                + req_entry("holding_id"@, s.holding_id)
                + req_entry("trade_id"@, s.trade_id)
                + req_entry("cash_account_transaction_type"@, s.cash_account_transaction_type)
                + req_entry("links"@, s.links),
        )
    }

    fn encode(&self) -> (r: JsonValue) {
        let mut o = JsonObj::new();
        o.put("id", &self.id);
        o.put("description", &self.description);
        o.put("date_time", &self.date_time);
        o.put("amount", &self.amount);
        o.put("balance", &self.balance);
        o.put("cash_account_id", &self.cash_account_id);
        o.put("foreign_identifier", &self.foreign_identifier);
        o.put("holding_id", &self.holding_id);
        o.put("trade_id", &self.trade_id);
        o.put("cash_account_transaction_type", &self.cash_account_transaction_type);
        o.put("links", &self.links);
        o.finish()
    }
}

impl FromJson for CashAccountTransactionCreateCashAccountTransactionSuccess {
    open spec fn decodable(v: Jv) -> bool {
        &&& v is Obj
        &&& req_field_ok::<i64>(v, "id"@)
        &&& req_field_ok::<String>(v, "description"@)
        &&& req_field_ok::<DateTime>(v, "date_time"@)
        &&& req_field_ok::<Decimal>(v, "amount"@)
        &&& req_field_ok::<Decimal>(v, "balance"@)
        &&& req_field_ok::<String>(v, "cash_account_id"@)
        &&& req_field_ok::<String>(v, "foreign_identifier"@)
        &&& req_field_ok::<i64>(v, "holding_id"@)
        &&& req_field_ok::<i64>(v, "trade_id"@)
        &&& req_field_ok::<String>(v, "cash_account_transaction_type"@)
        &&& req_field_ok::<CashAccountTransactionCreateCashAccountTransactionLinksSuccess>(v, "links"@)
    }

    open spec fn rel(v: Jv, s: Self) -> bool {
        &&& v is Obj
        &&& req_field_rel::<i64>(v, "id"@, s.id)
        &&& req_field_rel::<String>(v, "description"@, s.description)
        &&& req_field_rel::<DateTime>(v, "date_time"@, s.date_time)
        &&& req_field_rel::<Decimal>(v, "amount"@, s.amount)
        &&& req_field_rel::<Decimal>(v, "balance"@, s.balance)
        &&& req_field_rel::<String>(v, "cash_account_id"@, s.cash_account_id)
        &&& req_field_rel::<String>(v, "foreign_identifier"@, s.foreign_identifier)
        &&& req_field_rel::<i64>(v, "holding_id"@, s.holding_id)
        &&& req_field_rel::<i64>(v, "trade_id"@, s.trade_id)
        &&& req_field_rel::<String>(v, "cash_account_transaction_type"@, s.cash_account_transaction_type)
        &&& req_field_rel::<CashAccountTransactionCreateCashAccountTransactionLinksSuccess>(v, "links"@, s.links)
    }

    fn decode(v: &JsonValue) -> (r: Result<Self, DecodeError>) {
        let id: i64 = match get_field(v, "id") {
            Ok(x) => x,
            Err(e) => {
                return Err(e);
            },
        };
        let description: String = match get_field(v, "description") {
            Ok(x) => x,
            Err(e) => {
                return Err(e);
            },
        };
        let date_time: DateTime = match get_field(v, "date_time") {
            Ok(x) => x,
            Err(e) => {
                return Err(e);
            },
        };
        let amount: Decimal = match get_field(v, "amount") {
            Ok(x) => x,
            Err(e) => {
                return Err(e);
            },
        };
        let balance: Decimal = match get_field(v, "balance") {
            Ok(x) => x,
            Err(e) => {
                return Err(e);
            },
        };
        let cash_account_id: String = match get_field(v, "cash_account_id") {
            Ok(x) => x,
            Err(e) => {
                return Err(e);
            },
        };
        let foreign_identifier: String = match get_field(v, "foreign_identifier") {
            Ok(x) => x,
            Err(e) => {
                return Err(e);
            },
        };
        let holding_id: i64 = match get_field(v, "holding_id") {
            Ok(x) => x,
            Err(e) => {
                return Err(e);
            },
        };
        let trade_id: i64 = match get_field(v, "trade_id") {
            Ok(x) => x,
            Err(e) => {
                return Err(e);
            },
        };
        let cash_account_transaction_type: String = match get_field(v, "cash_account_transaction_type") {
            Ok(x) => x,
            Err(e) => {
                return Err(e);
            },
        };
        let links: CashAccountTransactionCreateCashAccountTransactionLinksSuccess = match get_field(v, "links") {
            Ok(x) => x,
            Err(e) => {
                return Err(e);
            },
        };
        Ok(CashAccountTransactionCreateCashAccountTransactionSuccess { id, description, date_time, amount, balance, cash_account_id, foreign_identifier, holding_id, trade_id, cash_account_transaction_type, links })
    }
}

/// A nested response shape of [`CashAccountTransactionCreate`].
#[derive(Debug, Clone, PartialEq)]
pub struct CashAccountTransactionCreateCashAccountTransactionLinksSuccess {
    pub portfolio: String,
}

impl ToJson for CashAccountTransactionCreateCashAccountTransactionLinksSuccess {
    open spec fn enc(s: Self) -> Jv {
        Jv::Obj(
            Seq::<(Seq<char>, Jv)>::empty()
                + req_entry("portfolio"@, s.portfolio),
        )
    }

    fn encode(&self) -> (r: JsonValue) {
        let mut o = JsonObj::new();
        o.put("portfolio", &self.portfolio);
        o.finish()
    }
}

impl FromJson for CashAccountTransactionCreateCashAccountTransactionLinksSuccess {
    open spec fn decodable(v: Jv) -> bool {
        &&& v is Obj
        &&& req_field_ok::<String>(v, "portfolio"@)
    }

    open spec fn rel(v: Jv, s: Self) -> bool {
        &&& v is Obj
        &&& req_field_rel::<String>(v, "portfolio"@, s.portfolio)
    }

    fn decode(v: &JsonValue) -> (r: Result<Self, DecodeError>) {
        let portfolio: String = match get_field(v, "portfolio") {
            Ok(x) => x,
            Err(e) => {
                return Err(e);
            },
        };
        Ok(CashAccountTransactionCreateCashAccountTransactionLinksSuccess { portfolio })
    }
}

/// `DELETE /cash_account_transactions/:id.json`.
pub struct CashAccountTransactionDelete;

/// The parameters of a [`CashAccountTransactionDelete`] call, held for URL rendering.
pub struct CashAccountTransactionDeleteUrlDisplay<'a>(pub &'a CashAccountTransactionDeleteParameters);

impl<'a> CashAccountTransactionDeleteUrlDisplay<'a> {
    /// Renders the resolved URL path.
    pub fn render(&self) -> (r: String)
        ensures
            r@ == CashAccountTransactionDelete::spec_url(*self.0),
    {
        CashAccountTransactionDelete::url(self.0)
    }
}

impl CashAccountTransactionDelete {
    /// The URL template of this endpoint.
    pub fn url_template() -> (r: &'static str)
        ensures
            r@ == "/cash_account_transactions/:id.json"@,
    {
        "/cash_account_transactions/:id.json"
    }

    /// The HTTP method of this endpoint.
    pub fn http_method() -> (r: ApiHttpMethod)
        ensures
            r == ApiHttpMethod::Delete,
    {
        ApiHttpMethod::Delete
    }

    /// The URL path that `p` resolves the template to.
    pub open spec fn spec_url(p: CashAccountTransactionDeleteParameters) -> Seq<char> {
        "/cash_account_transactions/"@ + spec_i64_string(p.id as int) + ".json"@
    }

    /// Resolves the URL template with the fields of `parameters`:
    /// plain decimal digits for integers, strings as they are.
    pub fn url(parameters: &CashAccountTransactionDeleteParameters) -> (r: String)
        ensures
            r@ == Self::spec_url(*parameters),
    {
        let mut s = "/cash_account_transactions/".to_owned();
        s.append(render_i64(parameters.id).as_str());
        s.append(".json");
        s
    }

    /// Wraps `parameters` for URL rendering.
    pub fn url_path<'a>(parameters: &'a CashAccountTransactionDeleteParameters) -> (r: CashAccountTransactionDeleteUrlDisplay<'a>)
        ensures
            r.0 == parameters,
    {
        CashAccountTransactionDeleteUrlDisplay(parameters)
    }
}

/// The parameters of a [`CashAccountTransactionDelete`] call.
#[derive(Debug, Clone, PartialEq)]
pub struct CashAccountTransactionDeleteParameters {
    pub id: i64,
}

impl ToJson for CashAccountTransactionDeleteParameters {
    open spec fn enc(s: Self) -> Jv {
        Jv::Obj(
            Seq::<(Seq<char>, Jv)>::empty()
                + req_entry("id"@, s.id),
        )
    }

    fn encode(&self) -> (r: JsonValue) {
        let mut o = JsonObj::new();
        o.put("id", &self.id);
        o.finish()
    }
}

impl FromJson for CashAccountTransactionDeleteParameters {
    open spec fn decodable(v: Jv) -> bool {
        &&& v is Obj
        &&& req_field_ok::<i64>(v, "id"@)
    }

    open spec fn rel(v: Jv, s: Self) -> bool {
        &&& v is Obj
        &&& req_field_rel::<i64>(v, "id"@, s.id)
    }

    fn decode(v: &JsonValue) -> (r: Result<Self, DecodeError>) {
        let id: i64 = match get_field(v, "id") {
            Ok(x) => x,
            Err(e) => {
                return Err(e);
            },
        };
        Ok(CashAccountTransactionDeleteParameters { id })
    }
}

/// `PUT /cash_account_transactions/:id.json`.
pub struct CashAccountTransactionUpdate;

/// The parameters of a [`CashAccountTransactionUpdate`] call, held for URL rendering.
pub struct CashAccountTransactionUpdateUrlDisplay<'a>(pub &'a CashAccountTransactionUpdateParameters);

impl<'a> CashAccountTransactionUpdateUrlDisplay<'a> {
    /// Renders the resolved URL path.
    pub fn render(&self) -> (r: String)
        ensures
            r@ == CashAccountTransactionUpdate::spec_url(*self.0),
    {
        CashAccountTransactionUpdate::url(self.0)
    }
}

impl CashAccountTransactionUpdate {
    /// The URL template of this endpoint.
    pub fn url_template() -> (r: &'static str)
        ensures
            r@ == "/cash_account_transactions/:id.json"@,
    {
        "/cash_account_transactions/:id.json"
    }

    /// The HTTP method of this endpoint.
    pub fn http_method() -> (r: ApiHttpMethod)
        ensures
            r == ApiHttpMethod::Put,
    {
        ApiHttpMethod::Put
    }

    /// The URL path that `p` resolves the template to.
    pub open spec fn spec_url(p: CashAccountTransactionUpdateParameters) -> Seq<char> {
        "/cash_account_transactions/"@ + spec_i64_string(p.id as int) + ".json"@
    }

    /// Resolves the URL template with the fields of `parameters`:
    /// plain decimal digits for integers, strings as they are.
    pub fn url(parameters: &CashAccountTransactionUpdateParameters) -> (r: String)
        ensures
            r@ == Self::spec_url(*parameters),
    {
        let mut s = "/cash_account_transactions/".to_owned();
        s.append(render_i64(parameters.id).as_str());
        s.append(".json");
        s
    }

    /// Wraps `parameters` for URL rendering.
    pub fn url_path<'a>(parameters: &'a CashAccountTransactionUpdateParameters) -> (r: CashAccountTransactionUpdateUrlDisplay<'a>)
        ensures
            r.0 == parameters,
    {
        CashAccountTransactionUpdateUrlDisplay(parameters)
    }

    /// Decodes a success payload, naming this endpoint in any
    /// failure.
    pub fn decode_success(v: &JsonValue) -> (r: Result<CashAccountTransactionUpdateSuccess, DecodeError>)
        ensures
            r matches Ok(s) ==> <CashAccountTransactionUpdateSuccess as FromJson>::decodable(v@)
                && <CashAccountTransactionUpdateSuccess as FromJson>::rel(v@, s),
            <CashAccountTransactionUpdateSuccess as FromJson>::decodable(v@) ==> r is Ok,
            r matches Err(e) ==> spec_starts_with(e.path@, "CashAccountTransactionUpdate"@),
    {
        match CashAccountTransactionUpdateSuccess::decode(v) {
            Ok(s) => Ok(s),
            Err(e) => Err(e.in_endpoint("CashAccountTransactionUpdate")),
        }
    }
}

/// The parameters of a [`CashAccountTransactionUpdate`] call.
#[derive(Debug, Clone, PartialEq)]
pub struct CashAccountTransactionUpdateParameters {
    pub id: i64,
    pub description: String,
    pub amount: Decimal,
    pub transaction_type: String,
    pub date_time: DateTime,
    pub foreign_identifier: Option<String>,
}

impl ToJson for CashAccountTransactionUpdateParameters {
    open spec fn enc(s: Self) -> Jv {
        Jv::Obj(
            Seq::<(Seq<char>, Jv)>::empty()
                + req_entry("id"@, s.id)
                + req_entry("description"@, s.description)
                + req_entry("amount"@, s.amount)
                + req_entry("type_name"@, s.transaction_type)
                + req_entry("date_time"@, s.date_time)
                + opt_entry("foreign_identifier"@, s.foreign_identifier),
        )
    }

    fn encode(&self) -> (r: JsonValue) {
        let mut o = JsonObj::new();
        o.put("id", &self.id);
        o.put("description", &self.description);
        o.put("amount", &self.amount);
        o.put("type_name", &self.transaction_type);
        o.put("date_time", &self.date_time);
        o.put_opt("foreign_identifier", &self.foreign_identifier);
        o.finish()
    }
}

impl FromJson for CashAccountTransactionUpdateParameters {
    open spec fn decodable(v: Jv) -> bool {
        &&& v is Obj
        &&& req_field_ok::<i64>(v, "id"@)
        &&& req_field_ok::<String>(v, "description"@)
        &&& req_field_ok::<Decimal>(v, "amount"@)
        &&& req_field_ok::<String>(v, "type_name"@)
        &&& req_field_ok::<DateTime>(v, "date_time"@)
        &&& opt_field_ok::<String>(v, "foreign_identifier"@)
    }

    open spec fn rel(v: Jv, s: Self) -> bool {
        &&& v is Obj
        &&& req_field_rel::<i64>(v, "id"@, s.id)
        &&& req_field_rel::<String>(v, "description"@, s.description)
        &&& req_field_rel::<Decimal>(v, "amount"@, s.amount)
        &&& req_field_rel::<String>(v, "type_name"@, s.transaction_type)
        &&& req_field_rel::<DateTime>(v, "date_time"@, s.date_time)
        &&& opt_field_rel::<String>(v, "foreign_identifier"@, s.foreign_identifier)
    }

    fn decode(v: &JsonValue) -> (r: Result<Self, DecodeError>) {
        let id: i64 = match get_field(v, "id") {
            Ok(x) => x,
            Err(e) => {
                return Err(e);
            },
        };
        let description: String = match get_field(v, "description") {
            Ok(x) => x,
            Err(e) => {
                return Err(e);
            },
        };
        let amount: Decimal = match get_field(v, "amount") {
            Ok(x) => x,
            Err(e) => {
                return Err(e);
            },
        };
        let transaction_type: String = match get_field(v, "type_name") {
            Ok(x) => x,
            Err(e) => {
                return Err(e);
            },
        };
        let date_time: DateTime = match get_field(v, "date_time") {
            Ok(x) => x,
            Err(e) => {
                return Err(e);
            },
        };
        let foreign_identifier: Option<String> = match get_opt_field(v, "foreign_identifier") {
            Ok(x) => x,
            Err(e) => {
                return Err(e);
            },
        };
        Ok(CashAccountTransactionUpdateParameters { id, description, amount, transaction_type, date_time, foreign_identifier })
    }
}

/// The success response of a [`CashAccountTransactionUpdate`] call.
#[derive(Debug, Clone, PartialEq)]
pub struct CashAccountTransactionUpdateSuccess {
    pub cash_account_transaction: CashAccountTransactionUpdateCashAccountTransactionSuccess,
}

impl ToJson for CashAccountTransactionUpdateSuccess {
    open spec fn enc(s: Self) -> Jv {
        Jv::Obj(
            Seq::<(Seq<char>, Jv)>::empty()
                + req_entry("cash_account_transaction"@, s.cash_account_transaction),
        )
    }

    fn encode(&self) -> (r: JsonValue) {
        let mut o = JsonObj::new();
        o.put("cash_account_transaction", &self.cash_account_transaction);
        o.finish()
    }
}

impl FromJson for CashAccountTransactionUpdateSuccess {
    open spec fn decodable(v: Jv) -> bool {
        &&& v is Obj
        &&& req_field_ok::<CashAccountTransactionUpdateCashAccountTransactionSuccess>(v, "cash_account_transaction"@)
    }

    open spec fn rel(v: Jv, s: Self) -> bool {
        &&& v is Obj
        &&& req_field_rel::<CashAccountTransactionUpdateCashAccountTransactionSuccess>(v, "cash_account_transaction"@, s.cash_account_transaction)
    }

    fn decode(v: &JsonValue) -> (r: Result<Self, DecodeError>) {
        let cash_account_transaction: CashAccountTransactionUpdateCashAccountTransactionSuccess = match get_field(v, "cash_account_transaction") {
            Ok(x) => x,
            Err(e) => {
                return Err(e);
            },
        };
        Ok(CashAccountTransactionUpdateSuccess { cash_account_transaction })
    }
}

/// A nested response shape of [`CashAccountTransactionUpdate`].
#[derive(Debug, Clone, PartialEq)]
pub struct CashAccountTransactionUpdateCashAccountTransactionSuccess {
    pub id: i64,
    pub description: String,
    pub date_time: DateTime,
    pub amount: Decimal,
    pub balance: Decimal,
    pub cash_account_id: String,
    pub foreign_identifier: String,
    pub holding_id: i64,
    pub trade_id: i64,
    pub cash_account_transaction_type: String,
    pub links: CashAccountTransactionUpdateCashAccountTransactionLinksSuccess,
}

impl ToJson for CashAccountTransactionUpdateCashAccountTransactionSuccess {
    open spec fn enc(s: Self) -> Jv {
        Jv::Obj(
            Seq::<(Seq<char>, Jv)>::empty()
                + req_entry("id"@, s.id)
                + req_entry("description"@, s.description)
                + req_entry("date_time"@, s.date_time)
                + req_entry("amount"@, s.amount)
                + req_entry("balance"@, s.balance)
                + req_entry("cash_account_id"@, s.cash_account_id)
                + req_entry("foreign_identifier"@, s.foreign_identifier)
                + req_entry("holding_id"@, s.holding_id)
                + req_entry("trade_id"@, s.trade_id)
                + req_entry("cash_account_transaction_type"@, s.cash_account_transaction_type)
                + req_entry("links"@, s.links),
        )
    }

    fn encode(&self) -> (r: JsonValue) {
        let mut o = JsonObj::new();
        o.put("id", &self.id);
        o.put("description", &self.description);
        o.put("date_time", &self.date_time);
        o.put("amount", &self.amount);
        o.put("balance", &self.balance);
        o.put("cash_account_id", &self.cash_account_id);
        o.put("foreign_identifier", &self.foreign_identifier);
        o.put("holding_id", &self.holding_id);
        o.put("trade_id", &self.trade_id);
        o.put("cash_account_transaction_type", &self.cash_account_transaction_type);
        o.put("links", &self.links);
        o.finish()
    }
}

impl FromJson for CashAccountTransactionUpdateCashAccountTransactionSuccess {
    open spec fn decodable(v: Jv) -> bool {
        &&& v is Obj
        &&& req_field_ok::<i64>(v, "id"@)
        &&& req_field_ok::<String>(v, "description"@)
        &&& req_field_ok::<DateTime>(v, "date_time"@)
        &&& req_field_ok::<Decimal>(v, "amount"@)
        &&& req_field_ok::<Decimal>(v, "balance"@)
        &&& req_field_ok::<String>(v, "cash_account_id"@)
        &&& req_field_ok::<String>(v, "foreign_identifier"@)
        &&& req_field_ok::<i64>(v, "holding_id"@)
        &&& req_field_ok::<i64>(v, "trade_id"@)
        &&& req_field_ok::<String>(v, "cash_account_transaction_type"@)
        &&& req_field_ok::<CashAccountTransactionUpdateCashAccountTransactionLinksSuccess>(v, "links"@)
    }

    open spec fn rel(v: Jv, s: Self) -> bool {
        &&& v is Obj
        &&& req_field_rel::<i64>(v, "id"@, s.id)
        &&& req_field_rel::<String>(v, "description"@, s.description)
        &&& req_field_rel::<DateTime>(v, "date_time"@, s.date_time)
        &&& req_field_rel::<Decimal>(v, "amount"@, s.amount)
        &&& req_field_rel::<Decimal>(v, "balance"@, s.balance)
        &&& req_field_rel::<String>(v, "cash_account_id"@, s.cash_account_id)
        &&& req_field_rel::<String>(v, "foreign_identifier"@, s.foreign_identifier)
        &&& req_field_rel::<i64>(v, "holding_id"@, s.holding_id)
        &&& req_field_rel::<i64>(v, "trade_id"@, s.trade_id)
        &&& req_field_rel::<String>(v, "cash_account_transaction_type"@, s.cash_account_transaction_type)
        &&& req_field_rel::<CashAccountTransactionUpdateCashAccountTransactionLinksSuccess>(v, "links"@, s.links)
    }

    fn decode(v: &JsonValue) -> (r: Result<Self, DecodeError>) {
        let id: i64 = match get_field(v, "id") {
            Ok(x) => x,
            Err(e) => {
                return Err(e);
            },
        };
        let description: String = match get_field(v, "description") {
            Ok(x) => x,
            Err(e) => {
                return Err(e);
            },
        };
        let date_time: DateTime = match get_field(v, "date_time") {
            Ok(x) => x,
            Err(e) => {
                return Err(e);
            },
        };
        let amount: Decimal = match get_field(v, "amount") {
            Ok(x) => x,
            Err(e) => {
                return Err(e);
            },
        };
        let balance: Decimal = match get_field(v, "balance") {
            Ok(x) => x,
            Err(e) => {
                return Err(e);
            },
        };
        let cash_account_id: String = match get_field(v, "cash_account_id") {
            Ok(x) => x,
            Err(e) => {
                return Err(e);
            },
        };
        let foreign_identifier: String = match get_field(v, "foreign_identifier") {
            Ok(x) => x,
            Err(e) => {
                return Err(e);
            },
        };
        let holding_id: i64 = match get_field(v, "holding_id") {
            Ok(x) => x,
            Err(e) => {
                return Err(e);
            },
        };
        let trade_id: i64 = match get_field(v, "trade_id") {
            Ok(x) => x,
            Err(e) => {
                return Err(e);
            },
        };
        let cash_account_transaction_type: String = match get_field(v, "cash_account_transaction_type") {
            Ok(x) => x,
            Err(e) => {
                return Err(e);
            },
        };
        let links: CashAccountTransactionUpdateCashAccountTransactionLinksSuccess = match get_field(v, "links") {
            Ok(x) => x,
            Err(e) => {
                return Err(e);
            },
        };
        Ok(CashAccountTransactionUpdateCashAccountTransactionSuccess { id, description, date_time, amount, balance, cash_account_id, foreign_identifier, holding_id, trade_id, cash_account_transaction_type, links })
    }
}

/// A nested response shape of [`CashAccountTransactionUpdate`].
#[derive(Debug, Clone, PartialEq)]
pub struct CashAccountTransactionUpdateCashAccountTransactionLinksSuccess {
    pub portfolio: String,
}

impl ToJson for CashAccountTransactionUpdateCashAccountTransactionLinksSuccess {
    open spec fn enc(s: Self) -> Jv {
        Jv::Obj(
            Seq::<(Seq<char>, Jv)>::empty()
                + req_entry("portfolio"@, s.portfolio),
        )
    }

    fn encode(&self) -> (r: JsonValue) {
        let mut o = JsonObj::new();
        o.put("portfolio", &self.portfolio);
        o.finish()
    }
}

impl FromJson for CashAccountTransactionUpdateCashAccountTransactionLinksSuccess {
    open spec fn decodable(v: Jv) -> bool {
        &&& v is Obj
        &&& req_field_ok::<String>(v, "portfolio"@)
    }

    open spec fn rel(v: Jv, s: Self) -> bool {
        &&& v is Obj
        &&& req_field_rel::<String>(v, "portfolio"@, s.portfolio)
    }

    fn decode(v: &JsonValue) -> (r: Result<Self, DecodeError>) {
        let portfolio: String = match get_field(v, "portfolio") {
            Ok(x) => x,
            Err(e) => {
                return Err(e);
            },
        };
        Ok(CashAccountTransactionUpdateCashAccountTransactionLinksSuccess { portfolio })
    }
}

/// `GET /cash_accounts/:cash_account_id/cash_account_transactions.json`.
pub struct CashAccountTransactionsList;

/// The parameters of a [`CashAccountTransactionsList`] call, held for URL rendering.
pub struct CashAccountTransactionsListUrlDisplay<'a>(pub &'a CashAccountTransactionsListParameters);

impl<'a> CashAccountTransactionsListUrlDisplay<'a> {
    /// Renders the resolved URL path.
    pub fn render(&self) -> (r: String)
        ensures
            r@ == CashAccountTransactionsList::spec_url(*self.0),
    {
        CashAccountTransactionsList::url(self.0)
    }
}

impl CashAccountTransactionsList {
    /// The URL template of this endpoint.
    pub fn url_template() -> (r: &'static str)
        ensures
            r@ == "/cash_accounts/:cash_account_id/cash_account_transactions.json"@,
    {
        "/cash_accounts/:cash_account_id/cash_account_transactions.json"
    }

    /// The HTTP method of this endpoint.
    pub fn http_method() -> (r: ApiHttpMethod)
        ensures
            r == ApiHttpMethod::Get,
    {
        ApiHttpMethod::Get
    }

    /// The URL path that `p` resolves the template to.
    pub open spec fn spec_url(p: CashAccountTransactionsListParameters) -> Seq<char> {
        "/cash_accounts/"@ + spec_i64_string(p.cash_account_id as int) + "/cash_account_transactions.json"@
    }

    /// Resolves the URL template with the fields of `parameters`:
    /// plain decimal digits for integers, strings as they are.
    pub fn url(parameters: &CashAccountTransactionsListParameters) -> (r: String)
        ensures
            r@ == Self::spec_url(*parameters),
    {
        let mut s = "/cash_accounts/".to_owned();
        s.append(render_i64(parameters.cash_account_id).as_str());
        s.append("/cash_account_transactions.json");
        s
    }

    /// Wraps `parameters` for URL rendering.
    pub fn url_path<'a>(parameters: &'a CashAccountTransactionsListParameters) -> (r: CashAccountTransactionsListUrlDisplay<'a>)
        ensures
            r.0 == parameters,
    {
        CashAccountTransactionsListUrlDisplay(parameters)
    }

    /// Decodes a success payload, naming this endpoint in any
    /// failure.
    pub fn decode_success(v: &JsonValue) -> (r: Result<CashAccountTransactionsListSuccess, DecodeError>)
        ensures
            r matches Ok(s) ==> <CashAccountTransactionsListSuccess as FromJson>::decodable(v@)
                && <CashAccountTransactionsListSuccess as FromJson>::rel(v@, s),
            <CashAccountTransactionsListSuccess as FromJson>::decodable(v@) ==> r is Ok,
            r matches Err(e) ==> spec_starts_with(e.path@, "CashAccountTransactionsList"@),
    {
        match CashAccountTransactionsListSuccess::decode(v) {
            Ok(s) => Ok(s),
            Err(e) => Err(e.in_endpoint("CashAccountTransactionsList")),
        }
    }
}

/// The parameters of a [`CashAccountTransactionsList`] call.
#[derive(Debug, Clone, PartialEq)]
pub struct CashAccountTransactionsListParameters {
    pub cash_account_id: i64,
    pub from: Option<Date>,
    pub to: Option<Date>,
    pub description: Option<String>,
    pub foreign_identifier: Option<String>,
}

impl ToJson for CashAccountTransactionsListParameters {
    open spec fn enc(s: Self) -> Jv {
        Jv::Obj(
            Seq::<(Seq<char>, Jv)>::empty()
                + req_entry("cash_account_id"@, s.cash_account_id)
                + opt_entry("from"@, s.from)
                + opt_entry("to"@, s.to)
                + opt_entry("description"@, s.description)
                + opt_entry("foreign_identifier"@, s.foreign_identifier),
        )
    }

    fn encode(&self) -> (r: JsonValue) {
        let mut o = JsonObj::new();
        o.put("cash_account_id", &self.cash_account_id);
        o.put_opt("from", &self.from);
        o.put_opt("to", &self.to);
        o.put_opt("description", &self.description);
        o.put_opt("foreign_identifier", &self.foreign_identifier);
        o.finish()
    }
}

impl FromJson for CashAccountTransactionsListParameters {
    open spec fn decodable(v: Jv) -> bool {
        &&& v is Obj
        &&& req_field_ok::<i64>(v, "cash_account_id"@)
        &&& opt_field_ok::<Date>(v, "from"@)
        &&& opt_field_ok::<Date>(v, "to"@)
        &&& opt_field_ok::<String>(v, "description"@)
        &&& opt_field_ok::<String>(v, "foreign_identifier"@)
    }

    open spec fn rel(v: Jv, s: Self) -> bool {
        &&& v is Obj
        &&& req_field_rel::<i64>(v, "cash_account_id"@, s.cash_account_id)
        &&& opt_field_rel::<Date>(v, "from"@, s.from)
        &&& opt_field_rel::<Date>(v, "to"@, s.to)
        &&& opt_field_rel::<String>(v, "description"@, s.description)
        &&& opt_field_rel::<String>(v, "foreign_identifier"@, s.foreign_identifier)
    }

    fn decode(v: &JsonValue) -> (r: Result<Self, DecodeError>) {
        let cash_account_id: i64 = match get_field(v, "cash_account_id") {
            Ok(x) => x,
            Err(e) => {
                return Err(e);
            },
        };
        let from: Option<Date> = match get_opt_field(v, "from") {
            Ok(x) => x,
            Err(e) => {
                return Err(e);
            },
        };
        let to: Option<Date> = match get_opt_field(v, "to") {
            Ok(x) => x,
            Err(e) => {
                return Err(e);
            },
        };
        let description: Option<String> = match get_opt_field(v, "description") {
            Ok(x) => x,
            Err(e) => {
                return Err(e);
            },
        };
        let foreign_identifier: Option<String> = match get_opt_field(v, "foreign_identifier") {
            Ok(x) => x,
            Err(e) => {
                return Err(e);
            },
        };
        Ok(CashAccountTransactionsListParameters { cash_account_id, from, to, description, foreign_identifier })
    }
}

/// The success response of a [`CashAccountTransactionsList`] call.
#[derive(Debug, Clone, PartialEq)]
pub struct CashAccountTransactionsListSuccess {
    pub cash_account_transactions: Vec<CashAccountTransactionsListCashAccountTransactionsSuccess>,
    pub links: CashAccountTransactionsListLinksSuccess,
}

impl ToJson for CashAccountTransactionsListSuccess {
    open spec fn enc(s: Self) -> Jv {
        Jv::Obj(
            Seq::<(Seq<char>, Jv)>::empty()
                + req_entry("cash_account_transactions"@, s.cash_account_transactions)
                + req_entry("links"@, s.links),
        )
    }

    fn encode(&self) -> (r: JsonValue) {
        let mut o = JsonObj::new();
        o.put("cash_account_transactions", &self.cash_account_transactions);
        o.put("links", &self.links);
        o.finish()
    }
}

impl FromJson for CashAccountTransactionsListSuccess {
    open spec fn decodable(v: Jv) -> bool {
        &&& v is Obj
        &&& req_field_ok::<Vec<CashAccountTransactionsListCashAccountTransactionsSuccess>>(v, "cash_account_transactions"@)
        &&& req_field_ok::<CashAccountTransactionsListLinksSuccess>(v, "links"@)
    }

    open spec fn rel(v: Jv, s: Self) -> bool {
        &&& v is Obj
        &&& req_field_rel::<Vec<CashAccountTransactionsListCashAccountTransactionsSuccess>>(v, "cash_account_transactions"@, s.cash_account_transactions)
        &&& req_field_rel::<CashAccountTransactionsListLinksSuccess>(v, "links"@, s.links)
    }

    fn decode(v: &JsonValue) -> (r: Result<Self, DecodeError>) {
        let cash_account_transactions: Vec<CashAccountTransactionsListCashAccountTransactionsSuccess> = match get_field(v, "cash_account_transactions") {
            Ok(x) => x,
            Err(e) => {
                return Err(e);
            },
        };
        let links: CashAccountTransactionsListLinksSuccess = match get_field(v, "links") {
            Ok(x) => x,
            Err(e) => {
                return Err(e);
            },
        };
        Ok(CashAccountTransactionsListSuccess { cash_account_transactions, links })
    }
}

/// A nested response shape of [`CashAccountTransactionsList`].
#[derive(Debug, Clone, PartialEq)]
pub struct CashAccountTransactionsListCashAccountTransactionsSuccess {
    pub id: i64,
    pub date_time: DateTime,
    pub amount: Decimal,
    pub balance: Decimal,
    pub cash_account_id: i64,
    pub foreign_identifier: String,
    pub holding_id: i64,
    pub trade_id: i64,
    pub payout_id: i64,
    pub cash_account_transaction_type: String,
    pub links: CashAccountTransactionsListCashAccountTransactionsLinksSuccess,
}

impl ToJson for CashAccountTransactionsListCashAccountTransactionsSuccess {
    open spec fn enc(s: Self) -> Jv {
        Jv::Obj(
            Seq::<(Seq<char>, Jv)>::empty()
                + req_entry("id"@, s.id)
                + req_entry("date_time"@, s.date_time)
                + req_entry("amount"@, s.amount)
                + req_entry("balance"@, s.balance)
                + req_entry("cash_account_id"@, s.cash_account_id)
                + req_entry("foreign_identifier"@, s.foreign_identifier)
                + req_entry("holding_id"@, s.holding_id)
                + req_entry("trade_id"@, s.trade_id)
                + req_entry("payout_id"@, s.payout_id)
                + req_entry("cash_account_transaction_type"@, s.cash_account_transaction_type)
                + req_entry("links"@, s.links),
        )
    }

    fn encode(&self) -> (r: JsonValue) {
        let mut o = JsonObj::new();
        o.put("id", &self.id);
        o.put("date_time", &self.date_time);
        o.put("amount", &self.amount);
        o.put("balance", &self.balance);
        o.put("cash_account_id", &self.cash_account_id);
        o.put("foreign_identifier", &self.foreign_identifier);
        o.put("holding_id", &self.holding_id);
        o.put("trade_id", &self.trade_id);
        o.put("payout_id", &self.payout_id);
        o.put("cash_account_transaction_type", &self.cash_account_transaction_type);
        o.put("links", &self.links);
        o.finish()
    }
}

impl FromJson for CashAccountTransactionsListCashAccountTransactionsSuccess {
    open spec fn decodable(v: Jv) -> bool {
        &&& v is Obj
        &&& req_field_ok::<i64>(v, "id"@)
        &&& req_field_ok::<DateTime>(v, "date_time"@)
        &&& req_field_ok::<Decimal>(v, "amount"@)
        &&& req_field_ok::<Decimal>(v, "balance"@)
        &&& req_field_ok::<i64>(v, "cash_account_id"@)
        &&& req_field_ok::<String>(v, "foreign_identifier"@)
        &&& req_field_ok::<i64>(v, "holding_id"@)
        &&& req_field_ok::<i64>(v, "trade_id"@)
        &&& req_field_ok::<i64>(v, "payout_id"@)
        &&& req_field_ok::<String>(v, "cash_account_transaction_type"@)
        &&& req_field_ok::<CashAccountTransactionsListCashAccountTransactionsLinksSuccess>(v, "links"@)
    }

    open spec fn rel(v: Jv, s: Self) -> bool {
        &&& v is Obj
        &&& req_field_rel::<i64>(v, "id"@, s.id)
        &&& req_field_rel::<DateTime>(v, "date_time"@, s.date_time)
        &&& req_field_rel::<Decimal>(v, "amount"@, s.amount)
        &&& req_field_rel::<Decimal>(v, "balance"@, s.balance)
        &&& req_field_rel::<i64>(v, "cash_account_id"@, s.cash_account_id)
        &&& req_field_rel::<String>(v, "foreign_identifier"@, s.foreign_identifier)
        &&& req_field_rel::<i64>(v, "holding_id"@, s.holding_id)
        &&& req_field_rel::<i64>(v, "trade_id"@, s.trade_id)
        &&& req_field_rel::<i64>(v, "payout_id"@, s.payout_id)
        &&& req_field_rel::<String>(v, "cash_account_transaction_type"@, s.cash_account_transaction_type)
        &&& req_field_rel::<CashAccountTransactionsListCashAccountTransactionsLinksSuccess>(v, "links"@, s.links)
    }

    fn decode(v: &JsonValue) -> (r: Result<Self, DecodeError>) {
        let id: i64 = match get_field(v, "id") {
            Ok(x) => x,
            Err(e) => {
                return Err(e);
            },
        };
        let date_time: DateTime = match get_field(v, "date_time") {
            Ok(x) => x,
            Err(e) => {
                return Err(e);
            },
        };
        let amount: Decimal = match get_field(v, "amount") {
            Ok(x) => x,
            Err(e) => {
                return Err(e);
            },
        };
        let balance: Decimal = match get_field(v, "balance") {
            Ok(x) => x,
            Err(e) => {
                return Err(e);
            },
        };
        let cash_account_id: i64 = match get_field(v, "cash_account_id") {
            Ok(x) => x,
            Err(e) => {
                return Err(e);
            },
        };
        let foreign_identifier: String = match get_field(v, "foreign_identifier") {
            Ok(x) => x,
            Err(e) => {
                return Err(e);
            },
        };
        let holding_id: i64 = match get_field(v, "holding_id") {
            Ok(x) => x,
            Err(e) => {
                return Err(e);
            },
        };
        let trade_id: i64 = match get_field(v, "trade_id") {
            Ok(x) => x,
            Err(e) => {
                return Err(e);
            },
        };
        let payout_id: i64 = match get_field(v, "payout_id") {
            Ok(x) => x,
            Err(e) => {
                return Err(e);
            },
        };
        let cash_account_transaction_type: String = match get_field(v, "cash_account_transaction_type") {
            Ok(x) => x,
            Err(e) => {
                return Err(e);
            },
        };
        let links: CashAccountTransactionsListCashAccountTransactionsLinksSuccess = match get_field(v, "links") {
            Ok(x) => x,
            Err(e) => {
                return Err(e);
            },
        };
        Ok(CashAccountTransactionsListCashAccountTransactionsSuccess { id, date_time, amount, balance, cash_account_id, foreign_identifier, holding_id, trade_id, payout_id, cash_account_transaction_type, links })
    }
}

/// A nested response shape of [`CashAccountTransactionsList`].
#[derive(Debug, Clone, PartialEq)]
pub struct CashAccountTransactionsListCashAccountTransactionsLinksSuccess {
    pub portfolio: String,
}

impl ToJson for CashAccountTransactionsListCashAccountTransactionsLinksSuccess {
    open spec fn enc(s: Self) -> Jv {
        Jv::Obj(
            Seq::<(Seq<char>, Jv)>::empty()
                + req_entry("portfolio"@, s.portfolio),
        )
    }

    fn encode(&self) -> (r: JsonValue) {
        let mut o = JsonObj::new();
        o.put("portfolio", &self.portfolio);
        o.finish()
    }
}

impl FromJson for CashAccountTransactionsListCashAccountTransactionsLinksSuccess {
    open spec fn decodable(v: Jv) -> bool {
        &&& v is Obj
        &&& req_field_ok::<String>(v, "portfolio"@)
    }

    open spec fn rel(v: Jv, s: Self) -> bool {
        &&& v is Obj
        &&& req_field_rel::<String>(v, "portfolio"@, s.portfolio)
    }

    fn decode(v: &JsonValue) -> (r: Result<Self, DecodeError>) {
        let portfolio: String = match get_field(v, "portfolio") {
            Ok(x) => x,
            Err(e) => {
                return Err(e);
            },
        };
        Ok(CashAccountTransactionsListCashAccountTransactionsLinksSuccess { portfolio })
    }
}

/// A nested response shape of [`CashAccountTransactionsList`].
#[derive(Debug, Clone, PartialEq)]
pub struct CashAccountTransactionsListLinksSuccess {
    pub itself: String,
}

impl ToJson for CashAccountTransactionsListLinksSuccess {
    open spec fn enc(s: Self) -> Jv {
        Jv::Obj(
            Seq::<(Seq<char>, Jv)>::empty()
                + req_entry("self"@, s.itself),
        )
    }

    fn encode(&self) -> (r: JsonValue) {
        let mut o = JsonObj::new();
        o.put("self", &self.itself);
        o.finish()
    }
}

impl FromJson for CashAccountTransactionsListLinksSuccess {
    open spec fn decodable(v: Jv) -> bool {
        &&& v is Obj
        &&& req_field_ok::<String>(v, "self"@)
    }

    open spec fn rel(v: Jv, s: Self) -> bool {
        &&& v is Obj
        &&& req_field_rel::<String>(v, "self"@, s.itself)
    }

    fn decode(v: &JsonValue) -> (r: Result<Self, DecodeError>) {
        let itself: String = match get_field(v, "self") {
            Ok(x) => x,
            Err(e) => {
                return Err(e);
            },
        };
        Ok(CashAccountTransactionsListLinksSuccess { itself })
    }
}

/// `PUT /cash_accounts/:id.json`.
pub struct CashAccountUpdate;

/// The parameters of a [`CashAccountUpdate`] call, held for URL rendering.
pub struct CashAccountUpdateUrlDisplay<'a>(pub &'a CashAccountUpdateParameters);

impl<'a> CashAccountUpdateUrlDisplay<'a> {
    /// Renders the resolved URL path.
    pub fn render(&self) -> (r: String)
        ensures
            r@ == CashAccountUpdate::spec_url(*self.0),
    {
        CashAccountUpdate::url(self.0)
    }
}

impl CashAccountUpdate {
    /// The URL template of this endpoint.
    pub fn url_template() -> (r: &'static str)
        ensures
            r@ == "/cash_accounts/:id.json"@,
    {
        "/cash_accounts/:id.json"
    }

    /// The HTTP method of this endpoint.
    pub fn http_method() -> (r: ApiHttpMethod)
        ensures
            r == ApiHttpMethod::Put,
    {
        ApiHttpMethod::Put
    }

    /// The URL path that `p` resolves the template to.
    pub open spec fn spec_url(p: CashAccountUpdateParameters) -> Seq<char> {
        "/cash_accounts/"@ + spec_i64_string(p.id as int) + ".json"@
    }

    /// Resolves the URL template with the fields of `parameters`:
    /// plain decimal digits for integers, strings as they are.
    pub fn url(parameters: &CashAccountUpdateParameters) -> (r: String)
        ensures
            r@ == Self::spec_url(*parameters),
    {
        let mut s = "/cash_accounts/".to_owned();
        s.append(render_i64(parameters.id).as_str());
        s.append(".json");
        s
    }

    /// Wraps `parameters` for URL rendering.
    pub fn url_path<'a>(parameters: &'a CashAccountUpdateParameters) -> (r: CashAccountUpdateUrlDisplay<'a>)
        ensures
            r.0 == parameters,
    {
        CashAccountUpdateUrlDisplay(parameters)
    }

    /// Decodes a success payload, naming this endpoint in any
    /// failure.
    pub fn decode_success(v: &JsonValue) -> (r: Result<CashAccountUpdateSuccess, DecodeError>)
        ensures
            r matches Ok(s) ==> <CashAccountUpdateSuccess as FromJson>::decodable(v@)
                && <CashAccountUpdateSuccess as FromJson>::rel(v@, s),
            <CashAccountUpdateSuccess as FromJson>::decodable(v@) ==> r is Ok,
            r matches Err(e) ==> spec_starts_with(e.path@, "CashAccountUpdate"@),
    {
        match CashAccountUpdateSuccess::decode(v) {
            Ok(s) => Ok(s),
            Err(e) => Err(e.in_endpoint("CashAccountUpdate")),
        }
    }
}

/// The parameters of a [`CashAccountUpdate`] call.
#[derive(Debug, Clone, PartialEq)]
pub struct CashAccountUpdateParameters {
    pub id: i64,
    pub name: String,
    pub currency: Currency,
}

impl ToJson for CashAccountUpdateParameters {
    open spec fn enc(s: Self) -> Jv {
        Jv::Obj(
            Seq::<(Seq<char>, Jv)>::empty()
                + req_entry("id"@, s.id)
                + req_entry("name"@, s.name)
                + req_entry("currency"@, s.currency),
        )
    }

    fn encode(&self) -> (r: JsonValue) {
        let mut o = JsonObj::new();
        o.put("id", &self.id);
        o.put("name", &self.name);
        o.put("currency", &self.currency);
        o.finish()
    }
}

impl FromJson for CashAccountUpdateParameters {
    open spec fn decodable(v: Jv) -> bool {
        &&& v is Obj
        &&& req_field_ok::<i64>(v, "id"@)
        &&& req_field_ok::<String>(v, "name"@)
        &&& req_field_ok::<Currency>(v, "currency"@)
    }

    open spec fn rel(v: Jv, s: Self) -> bool {
        &&& v is Obj
        &&& req_field_rel::<i64>(v, "id"@, s.id)
        &&& req_field_rel::<String>(v, "name"@, s.name)
        &&& req_field_rel::<Currency>(v, "currency"@, s.currency)
    }

    fn decode(v: &JsonValue) -> (r: Result<Self, DecodeError>) {
        let id: i64 = match get_field(v, "id") {
            Ok(x) => x,
            Err(e) => {
                return Err(e);
            },
        };
        let name: String = match get_field(v, "name") {
            Ok(x) => x,
            Err(e) => {
                return Err(e);
            },
        };
        let currency: Currency = match get_field(v, "currency") {
            Ok(x) => x,
            Err(e) => {
                return Err(e);
            },
        };
        Ok(CashAccountUpdateParameters { id, name, currency })
    }
}

/// The success response of a [`CashAccountUpdate`] call.
#[derive(Debug, Clone, PartialEq)]
pub struct CashAccountUpdateSuccess {
    pub id: i64,
    pub name: String,
    pub currency: Currency,
    pub portfolio_currency: Currency,
    pub portfolio_id: i64,
    pub date: Date,
    pub balance: Decimal,
    pub balance_in_portfolio_currency: Decimal,
    pub links: CashAccountUpdateLinksSuccess,
}

impl ToJson for CashAccountUpdateSuccess {
    open spec fn enc(s: Self) -> Jv {
        Jv::Obj(
            Seq::<(Seq<char>, Jv)>::empty()
                + req_entry("id"@, s.id)
                + req_entry("name"@, s.name)
                + req_entry("currency"@, s.currency)
                + req_entry("portfolio_currency"@, s.portfolio_currency)
                + req_entry("portfolio_id"@, s.portfolio_id)
                + req_entry("date"@, s.date)
                + req_entry("balance"@, s.balance)
                + req_entry("balance_in_portfolio_currency"@, s.balance_in_portfolio_currency)
                + req_entry("links"@, s.links),
        )
    }

    fn encode(&self) -> (r: JsonValue) {
        let mut o = JsonObj::new();
        o.put("id", &self.id);
        o.put("name", &self.name);
        o.put("currency", &self.currency);
        o.put("portfolio_currency", &self.portfolio_currency);
        o.put("portfolio_id", &self.portfolio_id);
        o.put("date", &self.date);
        o.put("balance", &self.balance);
        o.put("balance_in_portfolio_currency", &self.balance_in_portfolio_currency);
        o.put("links", &self.links);
        o.finish()
    }
}

impl FromJson for CashAccountUpdateSuccess {
    open spec fn decodable(v: Jv) -> bool {
        &&& v is Obj
        &&& req_field_ok::<i64>(v, "id"@)
        &&& req_field_ok::<String>(v, "name"@)
        &&& req_field_ok::<Currency>(v, "currency"@)
        &&& req_field_ok::<Currency>(v, "portfolio_currency"@)
        &&& req_field_ok::<i64>(v, "portfolio_id"@)
        &&& req_field_ok::<Date>(v, "date"@)
        &&& req_field_ok::<Decimal>(v, "balance"@)
        &&& req_field_ok::<Decimal>(v, "balance_in_portfolio_currency"@)
        &&& req_field_ok::<CashAccountUpdateLinksSuccess>(v, "links"@)
    }

    open spec fn rel(v: Jv, s: Self) -> bool {
        &&& v is Obj
        &&& req_field_rel::<i64>(v, "id"@, s.id)
        &&& req_field_rel::<String>(v, "name"@, s.name)
        &&& req_field_rel::<Currency>(v, "currency"@, s.currency)
        &&& req_field_rel::<Currency>(v, "portfolio_currency"@, s.portfolio_currency)
        &&& req_field_rel::<i64>(v, "portfolio_id"@, s.portfolio_id)
        &&& req_field_rel::<Date>(v, "date"@, s.date)
        &&& req_field_rel::<Decimal>(v, "balance"@, s.balance)
        &&& req_field_rel::<Decimal>(v, "balance_in_portfolio_currency"@, s.balance_in_portfolio_currency)
        &&& req_field_rel::<CashAccountUpdateLinksSuccess>(v, "links"@, s.links)
    }

    fn decode(v: &JsonValue) -> (r: Result<Self, DecodeError>) {
        let id: i64 = match get_field(v, "id") {
            Ok(x) => x,
            Err(e) => {
                return Err(e);
            },
        };
        let name: String = match get_field(v, "name") {
            Ok(x) => x,
            Err(e) => {
                return Err(e);
            },
        };
        let currency: Currency = match get_field(v, "currency") {
            Ok(x) => x,
            Err(e) => {
                return Err(e);
            },
        };
        let portfolio_currency: Currency = match get_field(v, "portfolio_currency") {
            Ok(x) => x,
            Err(e) => {
                return Err(e);
            },
        };
        let portfolio_id: i64 = match get_field(v, "portfolio_id") {
            Ok(x) => x,
            Err(e) => {
                return Err(e);
            },
        };
        let date: Date = match get_field(v, "date") {
            Ok(x) => x,
            Err(e) => {
                return Err(e);
            },
        };
        let balance: Decimal = match get_field(v, "balance") {
            Ok(x) => x,
            Err(e) => {
                return Err(e);
            },
        };
        let balance_in_portfolio_currency: Decimal = match get_field(v, "balance_in_portfolio_currency") {
            Ok(x) => x,
            Err(e) => {
                return Err(e);
            },
        };
        let links: CashAccountUpdateLinksSuccess = match get_field(v, "links") {
            Ok(x) => x,
            Err(e) => {
                return Err(e);
            },
        };
        Ok(CashAccountUpdateSuccess { id, name, currency, portfolio_currency, portfolio_id, date, balance, balance_in_portfolio_currency, links })
    }
}

/// A nested response shape of [`CashAccountUpdate`].
#[derive(Debug, Clone, PartialEq)]
pub struct CashAccountUpdateLinksSuccess {
    pub portfolio: String,
}

impl ToJson for CashAccountUpdateLinksSuccess {
    open spec fn enc(s: Self) -> Jv {
        Jv::Obj(
            Seq::<(Seq<char>, Jv)>::empty()
                + req_entry("portfolio"@, s.portfolio),
        )
    }

    fn encode(&self) -> (r: JsonValue) {
        let mut o = JsonObj::new();
        o.put("portfolio", &self.portfolio);
        o.finish()
    }
}

impl FromJson for CashAccountUpdateLinksSuccess {
    open spec fn decodable(v: Jv) -> bool {
        &&& v is Obj
        &&& req_field_ok::<String>(v, "portfolio"@)
    }

    open spec fn rel(v: Jv, s: Self) -> bool {
        &&& v is Obj
        &&& req_field_rel::<String>(v, "portfolio"@, s.portfolio)
    }

    fn decode(v: &JsonValue) -> (r: Result<Self, DecodeError>) {
        let portfolio: String = match get_field(v, "portfolio") {
            Ok(x) => x,
            Err(e) => {
                return Err(e);
            },
        };
        Ok(CashAccountUpdateLinksSuccess { portfolio })
    }
}

/// `GET /cash_accounts.json`.
pub struct CashAccountsList;

impl CashAccountsList {
    /// The URL template of this endpoint.
    pub fn url_template() -> (r: &'static str)
        ensures
            r@ == "/cash_accounts.json"@,
    {
        "/cash_accounts.json"
    }

    /// The HTTP method of this endpoint.
    pub fn http_method() -> (r: ApiHttpMethod)
        ensures
            r == ApiHttpMethod::Get,
    {
        ApiHttpMethod::Get
    }

    /// The URL path of this endpoint; it takes no parameters.
    pub fn url_path() -> (r: &'static str)
        ensures
            r@ == "/cash_accounts.json"@,
    {
        "/cash_accounts.json"
    }

    /// Decodes a success payload, naming this endpoint in any
    /// failure.
    pub fn decode_success(v: &JsonValue) -> (r: Result<CashAccountsListSuccess, DecodeError>)
        ensures
            r matches Ok(s) ==> <CashAccountsListSuccess as FromJson>::decodable(v@)
                && <CashAccountsListSuccess as FromJson>::rel(v@, s),
            <CashAccountsListSuccess as FromJson>::decodable(v@) ==> r is Ok,
            r matches Err(e) ==> spec_starts_with(e.path@, "CashAccountsList"@),
    {
        match CashAccountsListSuccess::decode(v) {
            Ok(s) => Ok(s),
            Err(e) => Err(e.in_endpoint("CashAccountsList")),
        }
    }
}

/// The parameters of a [`CashAccountsList`] call.
#[derive(Debug, Clone, PartialEq)]
pub struct CashAccountsListParameters {
    pub date: Option<Date>,
}

impl ToJson for CashAccountsListParameters {
    open spec fn enc(s: Self) -> Jv {
        Jv::Obj(
            Seq::<(Seq<char>, Jv)>::empty()
                + opt_entry("date"@, s.date),
        )
    }

    fn encode(&self) -> (r: JsonValue) {
        let mut o = JsonObj::new();
        o.put_opt("date", &self.date);
        o.finish()
    }
}

impl FromJson for CashAccountsListParameters {
    open spec fn decodable(v: Jv) -> bool {
        &&& v is Obj
        &&& opt_field_ok::<Date>(v, "date"@)
    }

    open spec fn rel(v: Jv, s: Self) -> bool {
        &&& v is Obj
        &&& opt_field_rel::<Date>(v, "date"@, s.date)
    }

    fn decode(v: &JsonValue) -> (r: Result<Self, DecodeError>) {
        let date: Option<Date> = match get_opt_field(v, "date") {
            Ok(x) => x,
            Err(e) => {
                return Err(e);
            },
        };
        Ok(CashAccountsListParameters { date })
    }
}

/// The success response of a [`CashAccountsList`] call.
#[derive(Debug, Clone, PartialEq)]
pub struct CashAccountsListSuccess {
    pub cash_accounts: Vec<CashAccountsListCashAccountsSuccess>,
    pub links: CashAccountsListLinksSuccess,
}

impl ToJson for CashAccountsListSuccess {
    open spec fn enc(s: Self) -> Jv {
        Jv::Obj(
            Seq::<(Seq<char>, Jv)>::empty()
                + req_entry("cash_accounts"@, s.cash_accounts)
                + req_entry("links"@, s.links),
        )
    }

    fn encode(&self) -> (r: JsonValue) {
        let mut o = JsonObj::new();
        o.put("cash_accounts", &self.cash_accounts);
        o.put("links", &self.links);
        o.finish()
    }
}

impl FromJson for CashAccountsListSuccess {
    open spec fn decodable(v: Jv) -> bool {
        &&& v is Obj
        &&& req_field_ok::<Vec<CashAccountsListCashAccountsSuccess>>(v, "cash_accounts"@)
        &&& req_field_ok::<CashAccountsListLinksSuccess>(v, "links"@)
    }

    open spec fn rel(v: Jv, s: Self) -> bool {
        &&& v is Obj
        &&& req_field_rel::<Vec<CashAccountsListCashAccountsSuccess>>(v, "cash_accounts"@, s.cash_accounts)
        &&& req_field_rel::<CashAccountsListLinksSuccess>(v, "links"@, s.links)
    }

    fn decode(v: &JsonValue) -> (r: Result<Self, DecodeError>) {
        let cash_accounts: Vec<CashAccountsListCashAccountsSuccess> = match get_field(v, "cash_accounts") {
            Ok(x) => x,
            Err(e) => {
                return Err(e);
            },
        };
        let links: CashAccountsListLinksSuccess = match get_field(v, "links") {
            Ok(x) => x,
            Err(e) => {
                return Err(e);
            },
        };
        Ok(CashAccountsListSuccess { cash_accounts, links })
    }
}

/// A nested response shape of [`CashAccountsList`].
#[derive(Debug, Clone, PartialEq)]
pub struct CashAccountsListCashAccountsSuccess {
    pub id: i64,
    pub name: String,
    pub currency: Currency,
    pub portfolio_id: i64,
    pub portfolio_currency: Currency,
    pub date: Date,
    pub balance: Decimal,
    pub balance_in_portfolio_currency: Decimal,
    pub links: CashAccountsListCashAccountsLinksSuccess,
}

impl ToJson for CashAccountsListCashAccountsSuccess {
    open spec fn enc(s: Self) -> Jv {
        Jv::Obj(
            Seq::<(Seq<char>, Jv)>::empty()
                + req_entry("id"@, s.id)
                + req_entry("name"@, s.name)
                + req_entry("currency"@, s.currency)
                + req_entry("portfolio_id"@, s.portfolio_id)
                + req_entry("portfolio_currency"@, s.portfolio_currency)
                + req_entry("date"@, s.date)
                + req_entry("balance"@, s.balance)
                + req_entry("balance_in_portfolio_currency"@, s.balance_in_portfolio_currency)
                + req_entry("links"@, s.links),
        )
    }

    fn encode(&self) -> (r: JsonValue) {
        let mut o = JsonObj::new();
        o.put("id", &self.id);
        o.put("name", &self.name);
        o.put("currency", &self.currency);
        o.put("portfolio_id", &self.portfolio_id);
        o.put("portfolio_currency", &self.portfolio_currency);
        o.put("date", &self.date);
        o.put("balance", &self.balance);
        o.put("balance_in_portfolio_currency", &self.balance_in_portfolio_currency);
        o.put("links", &self.links);
        o.finish()
    }
}

impl FromJson for CashAccountsListCashAccountsSuccess {
    open spec fn decodable(v: Jv) -> bool {
        &&& v is Obj
        &&& req_field_ok::<i64>(v, "id"@)
        &&& req_field_ok::<String>(v, "name"@)
        &&& req_field_ok::<Currency>(v, "currency"@)
        &&& req_field_ok::<i64>(v, "portfolio_id"@)
        &&& req_field_ok::<Currency>(v, "portfolio_currency"@)
        &&& req_field_ok::<Date>(v, "date"@)
        &&& req_field_ok::<Decimal>(v, "balance"@)
        &&& req_field_ok::<Decimal>(v, "balance_in_portfolio_currency"@)
        &&& req_field_ok::<CashAccountsListCashAccountsLinksSuccess>(v, "links"@)
    }

    open spec fn rel(v: Jv, s: Self) -> bool {
        &&& v is Obj
        &&& req_field_rel::<i64>(v, "id"@, s.id)
        &&& req_field_rel::<String>(v, "name"@, s.name)
        &&& req_field_rel::<Currency>(v, "currency"@, s.currency)
        &&& req_field_rel::<i64>(v, "portfolio_id"@, s.portfolio_id)
        &&& req_field_rel::<Currency>(v, "portfolio_currency"@, s.portfolio_currency)
        &&& req_field_rel::<Date>(v, "date"@, s.date)
        &&& req_field_rel::<Decimal>(v, "balance"@, s.balance)
        &&& req_field_rel::<Decimal>(v, "balance_in_portfolio_currency"@, s.balance_in_portfolio_currency)
        &&& req_field_rel::<CashAccountsListCashAccountsLinksSuccess>(v, "links"@, s.links)
    }

    fn decode(v: &JsonValue) -> (r: Result<Self, DecodeError>) {
        let id: i64 = match get_field(v, "id") {
            Ok(x) => x,
            Err(e) => {
                return Err(e);
            },
        };
        let name: String = match get_field(v, "name") {
            Ok(x) => x,
            Err(e) => {
                return Err(e);
            },
        };
        let currency: Currency = match get_field(v, "currency") {
            Ok(x) => x,
            Err(e) => {
                return Err(e);
            },
        };
        let portfolio_id: i64 = match get_field(v, "portfolio_id") {
            Ok(x) => x,
            Err(e) => {
                return Err(e);
            },
        };
        let portfolio_currency: Currency = match get_field(v, "portfolio_currency") {
            Ok(x) => x,
            Err(e) => {
                return Err(e);
            },
        };
        let date: Date = match get_field(v, "date") {
            Ok(x) => x,
            Err(e) => {
                return Err(e);
            },
        };
        let balance: Decimal = match get_field(v, "balance") {
            Ok(x) => x,
            Err(e) => {
                return Err(e);
            },
        };
        let balance_in_portfolio_currency: Decimal = match get_field(v, "balance_in_portfolio_currency") {
            Ok(x) => x,
            Err(e) => {
                return Err(e);
            },
        };
        let links: CashAccountsListCashAccountsLinksSuccess = match get_field(v, "links") {
            Ok(x) => x,
            Err(e) => {
                return Err(e);
            },
        };
        Ok(CashAccountsListCashAccountsSuccess { id, name, currency, portfolio_id, portfolio_currency, date, balance, balance_in_portfolio_currency, links })
    }
}

/// A nested response shape of [`CashAccountsList`].
#[derive(Debug, Clone, PartialEq)]
pub struct CashAccountsListCashAccountsLinksSuccess {
    pub portfolio: String,
}

impl ToJson for CashAccountsListCashAccountsLinksSuccess {
    open spec fn enc(s: Self) -> Jv {
        Jv::Obj(
            Seq::<(Seq<char>, Jv)>::empty()
                + req_entry("portfolio"@, s.portfolio),
        )
    }

    fn encode(&self) -> (r: JsonValue) {
        let mut o = JsonObj::new();
        o.put("portfolio", &self.portfolio);
        o.finish()
    }
}

impl FromJson for CashAccountsListCashAccountsLinksSuccess {
    open spec fn decodable(v: Jv) -> bool {
        &&& v is Obj
        &&& req_field_ok::<String>(v, "portfolio"@)
    }

    open spec fn rel(v: Jv, s: Self) -> bool {
        &&& v is Obj
        &&& req_field_rel::<String>(v, "portfolio"@, s.portfolio)
    }

    fn decode(v: &JsonValue) -> (r: Result<Self, DecodeError>) {
        let portfolio: String = match get_field(v, "portfolio") {
            Ok(x) => x,
            Err(e) => {
                return Err(e);
            },
        };
        Ok(CashAccountsListCashAccountsLinksSuccess { portfolio })
    }
}

/// A nested response shape of [`CashAccountsList`].
#[derive(Debug, Clone, PartialEq)]
pub struct CashAccountsListLinksSuccess {
    pub itself: String,
}

impl ToJson for CashAccountsListLinksSuccess {
    open spec fn enc(s: Self) -> Jv {
        Jv::Obj(
            Seq::<(Seq<char>, Jv)>::empty()
                + req_entry("self"@, s.itself),
        )
    }

    fn encode(&self) -> (r: JsonValue) {
        let mut o = JsonObj::new();
        o.put("self", &self.itself);
        o.finish()
    }
}

impl FromJson for CashAccountsListLinksSuccess {
    open spec fn decodable(v: Jv) -> bool {
        &&& v is Obj
        &&& req_field_ok::<String>(v, "self"@)
    }

    open spec fn rel(v: Jv, s: Self) -> bool {
        &&& v is Obj
        &&& req_field_rel::<String>(v, "self"@, s.itself)
    }

    fn decode(v: &JsonValue) -> (r: Result<Self, DecodeError>) {
        let itself: String = match get_field(v, "self") {
            Ok(x) => x,
            Err(e) => {
                return Err(e);
            },
        };
        Ok(CashAccountsListLinksSuccess { itself })
    }
}

/// What the library itself encodes, its decoder accepts and maps back
/// to the same value.  Shown here for the cash account show
/// parameters, whose fields exercise both a required integer
/// identifier and an optional date; a set date must be a real calendar
/// date, as every constructed [`Date`] is.
pub proof fn lemma_cash_account_show_parameters_round_trip(p: CashAccountShowParameters)
    requires
        p.date matches Some(d) ==> d.valid(),
    ensures
        <CashAccountShowParameters as FromJson>::decodable(
            <CashAccountShowParameters as ToJson>::enc(p),
        ),
        <CashAccountShowParameters as FromJson>::rel(
            <CashAccountShowParameters as ToJson>::enc(p),
            p,
        ),
{
    let entries = Seq::<(Seq<char>, Jv)>::empty() + req_entry("id"@, p.id) + opt_entry(
        "date"@,
        p.date,
    );
    let v = Jv::Obj(entries);
    lemma_id_round_trip(p.id);
    reveal_strlit("id");
    reveal_strlit("date");
    assert("id"@.len() == 2);
    assert("date"@.len() == 4);
    assert(entries[0] == ("id"@, <i64 as ToJson>::enc(p.id)));
    assert(obj_get(entries, "id"@) == Some(<i64 as ToJson>::enc(p.id)));
    let tail = entries.subrange(1, entries.len() as int);
    match p.date {
        None => {
            assert(entries.len() == 1);
            assert(obj_get(tail, "date"@) is None);
            assert(obj_get(entries, "date"@) is None);
        },
        Some(d) => {
            lemma_date_round_trip(d);
            assert(entries.len() == 2);
            assert(tail[0] == ("date"@, <Date as ToJson>::enc(d)));
            assert(obj_get(tail, "date"@) == Some(<Date as ToJson>::enc(d)));
            assert(obj_get(entries, "date"@) == Some(<Date as ToJson>::enc(d)));
        },
    }
}

} // verus!
