//! Identity, user and session endpoints.

use vstd::prelude::*;
use crate::api::ApiHttpMethod;
use crate::codec::DecodeError;
use crate::codec::FromJson;
use crate::codec::JsonObj;
use crate::codec::ToJson;
use crate::codec::get_field;
use crate::codec::req_entry;
use crate::codec::req_field_ok;
use crate::codec::req_field_rel;
use crate::codec::spec_starts_with;
use crate::date::Date;
use crate::enums::Country;
use crate::json::JsonValue;
use crate::json::Jv;

verus! {

/// `GET /currencies.json`.
pub struct Currencies;

impl Currencies {
    /// The URL template of this endpoint.
    pub fn url_template() -> (r: &'static str)
        ensures
            r@ == "/currencies.json"@,
    {
        "/currencies.json"
    }

    /// The HTTP method of this endpoint.
    pub fn http_method() -> (r: ApiHttpMethod)
        ensures
            r == ApiHttpMethod::Get,
    {
        ApiHttpMethod::Get
    }

    /// The URL path of this endpoint; it takes no parameters.
    pub fn url_path() -> (r: &'static str)
        ensures
            r@ == "/currencies.json"@,
    {
        "/currencies.json"
    }

    /// Decodes a success payload, naming this endpoint in any
    /// failure.
    pub fn decode_success(v: &JsonValue) -> (r: Result<CurrenciesSuccess, DecodeError>)
        ensures
            r matches Ok(s) ==> <CurrenciesSuccess as FromJson>::decodable(v@)
                && <CurrenciesSuccess as FromJson>::rel(v@, s),
            <CurrenciesSuccess as FromJson>::decodable(v@) ==> r is Ok,
            r matches Err(e) ==> spec_starts_with(e.path@, "Currencies"@),
    {
        match CurrenciesSuccess::decode(v) {
            Ok(s) => Ok(s),
            Err(e) => Err(e.in_endpoint("Currencies")),
        }
    }
}

/// The success response of a [`Currencies`] call.
#[derive(Debug, Clone, PartialEq)]
pub struct CurrenciesSuccess {
    pub currencies: Vec<CurrenciesCurrenciesSuccess>,
}

impl ToJson for CurrenciesSuccess {
    open spec fn enc(s: Self) -> Jv {
        Jv::Obj(
            Seq::<(Seq<char>, Jv)>::empty()
                + req_entry("currencies"@, s.currencies),
        )
    }

    fn encode(&self) -> (r: JsonValue) {
        let mut o = JsonObj::new();
        o.put("currencies", &self.currencies);
        o.finish()
    }
}

impl FromJson for CurrenciesSuccess {
    open spec fn decodable(v: Jv) -> bool {
        &&& v is Obj
        &&& req_field_ok::<Vec<CurrenciesCurrenciesSuccess>>(v, "currencies"@)
    }

    open spec fn rel(v: Jv, s: Self) -> bool {
        &&& v is Obj
        &&& req_field_rel::<Vec<CurrenciesCurrenciesSuccess>>(v, "currencies"@, s.currencies)
    }

    fn decode(v: &JsonValue) -> (r: Result<Self, DecodeError>) {
        let currencies: Vec<CurrenciesCurrenciesSuccess> = match get_field(v, "currencies") {
            Ok(x) => x,
            Err(e) => {
                return Err(e);
            },
        };
        Ok(CurrenciesSuccess { currencies })
    }
}

/// A nested response shape of [`Currencies`].
#[derive(Debug, Clone, PartialEq)]
pub struct CurrenciesCurrenciesSuccess {
    pub code: String,
    pub id: String,
    pub description: String,
    pub in_use_from: Date,
    pub in_use_until: Date,
    pub source_feeds: String,
}

impl ToJson for CurrenciesCurrenciesSuccess {
    open spec fn enc(s: Self) -> Jv {
        Jv::Obj(
            Seq::<(Seq<char>, Jv)>::empty()
                + req_entry("code"@, s.code)
                + req_entry("id"@, s.id)
                + req_entry("description"@, s.description)
                + req_entry("in_use_from"@, s.in_use_from)
                + req_entry("in_use_until"@, s.in_use_until)
                + req_entry("source_feeds"@, s.source_feeds),
        )
    }

    fn encode(&self) -> (r: JsonValue) {
        let mut o = JsonObj::new();
        o.put("code", &self.code);
        o.put("id", &self.id);
        o.put("description", &self.description);
        o.put("in_use_from", &self.in_use_from);
        o.put("in_use_until", &self.in_use_until);
        o.put("source_feeds", &self.source_feeds);
        o.finish()
    }
}

impl FromJson for CurrenciesCurrenciesSuccess {
    open spec fn decodable(v: Jv) -> bool {
        &&& v is Obj
        &&& req_field_ok::<String>(v, "code"@)
        &&& req_field_ok::<String>(v, "id"@)
        &&& req_field_ok::<String>(v, "description"@)
        &&& req_field_ok::<Date>(v, "in_use_from"@)
        &&& req_field_ok::<Date>(v, "in_use_until"@)
        &&& req_field_ok::<String>(v, "source_feeds"@)
    }

    open spec fn rel(v: Jv, s: Self) -> bool {
        &&& v is Obj
        &&& req_field_rel::<String>(v, "code"@, s.code)
        &&& req_field_rel::<String>(v, "id"@, s.id)
        &&& req_field_rel::<String>(v, "description"@, s.description)
        &&& req_field_rel::<Date>(v, "in_use_from"@, s.in_use_from)
        &&& req_field_rel::<Date>(v, "in_use_until"@, s.in_use_until)
        &&& req_field_rel::<String>(v, "source_feeds"@, s.source_feeds)
    }

    fn decode(v: &JsonValue) -> (r: Result<Self, DecodeError>) {
        let code: String = match get_field(v, "code") {
            Ok(x) => x,
            Err(e) => {
                return Err(e);
            },
        };
        let id: String = match get_field(v, "id") {
            Ok(x) => x,
            Err(e) => {
                return Err(e);
            },
        };
        let description: String = match get_field(v, "description") {
            Ok(x) => x,
            Err(e) => {
                return Err(e);
            },
        };
        let in_use_from: Date = match get_field(v, "in_use_from") {
            Ok(x) => x,
            Err(e) => {
                return Err(e);
            },
        };
        let in_use_until: Date = match get_field(v, "in_use_until") {
            Ok(x) => x,
            Err(e) => {
                return Err(e);
            },
        };
        let source_feeds: String = match get_field(v, "source_feeds") {
            Ok(x) => x,
            Err(e) => {
                return Err(e);
            },
        };
        Ok(CurrenciesCurrenciesSuccess { code, id, description, in_use_from, in_use_until, source_feeds })
    }
}

/// `GET .1-mobile/identity/by_token.json`.
pub struct IdentityByToken;

impl IdentityByToken {
    /// The URL template of this endpoint.
    pub fn url_template() -> (r: &'static str)
        ensures
            r@ == ".1-mobile/identity/by_token.json"@,
    {
        ".1-mobile/identity/by_token.json"
    }

    /// The HTTP method of this endpoint.
    pub fn http_method() -> (r: ApiHttpMethod)
        ensures
            r == ApiHttpMethod::Get,
    {
        ApiHttpMethod::Get
    }

    /// The URL path of this endpoint; it takes no parameters.
    pub fn url_path() -> (r: &'static str)
        ensures
            r@ == "/.1-mobile/identity/by_token.json"@,
    {
        "/.1-mobile/identity/by_token.json"
    }

    /// Decodes a success payload, naming this endpoint in any
    /// failure.
    pub fn decode_success(v: &JsonValue) -> (r: Result<IdentityByTokenSuccess, DecodeError>)
        ensures
            r matches Ok(s) ==> <IdentityByTokenSuccess as FromJson>::decodable(v@)
                && <IdentityByTokenSuccess as FromJson>::rel(v@, s),
            <IdentityByTokenSuccess as FromJson>::decodable(v@) ==> r is Ok,
            r matches Err(e) ==> spec_starts_with(e.path@, "IdentityByToken"@),
    {
        match IdentityByTokenSuccess::decode(v) {
            Ok(s) => Ok(s),
            Err(e) => Err(e.in_endpoint("IdentityByToken")),
        }
    }
}

/// The parameters of a [`IdentityByToken`] call.
#[derive(Debug, Clone, PartialEq)]
pub struct IdentityByTokenParameters {
    pub id_token: String,
    pub client_id: String,
}

impl ToJson for IdentityByTokenParameters {
    open spec fn enc(s: Self) -> Jv {
        Jv::Obj(
            Seq::<(Seq<char>, Jv)>::empty()
                + req_entry("id_token"@, s.id_token)
                + req_entry("client_id"@, s.client_id),
        )
    }

    fn encode(&self) -> (r: JsonValue) {
        let mut o = JsonObj::new();
        o.put("id_token", &self.id_token);
        o.put("client_id", &self.client_id);
        o.finish()
    }
}

impl FromJson for IdentityByTokenParameters {
    open spec fn decodable(v: Jv) -> bool {
        &&& v is Obj
        &&& req_field_ok::<String>(v, "id_token"@)
        &&& req_field_ok::<String>(v, "client_id"@)
    }

    open spec fn rel(v: Jv, s: Self) -> bool {
        &&& v is Obj
        &&& req_field_rel::<String>(v, "id_token"@, s.id_token)
        &&& req_field_rel::<String>(v, "client_id"@, s.client_id)
    }

    fn decode(v: &JsonValue) -> (r: Result<Self, DecodeError>) {
        let id_token: String = match get_field(v, "id_token") {
            Ok(x) => x,
            Err(e) => {
                return Err(e);
            },
        };
        let client_id: String = match get_field(v, "client_id") {
            Ok(x) => x,
            Err(e) => {
                return Err(e);
            },
        };
        Ok(IdentityByTokenParameters { id_token, client_id })
    }
}

/// The success response of a [`IdentityByToken`] call.
#[derive(Debug, Clone, PartialEq)]
pub struct IdentityByTokenSuccess {
    pub access_token: String,
    pub refresh_token: String,
    pub expires_in: i64,
    pub token_type: String,
}

impl ToJson for IdentityByTokenSuccess {
    open spec fn enc(s: Self) -> Jv {
        Jv::Obj(
            Seq::<(Seq<char>, Jv)>::empty()
                + req_entry("access_token"@, s.access_token)
                + req_entry("refresh_token"@, s.refresh_token)
                + req_entry("expires_in"@, s.expires_in)
                + req_entry("token_type"@, s.token_type),
        )
    }

    fn encode(&self) -> (r: JsonValue) {
        let mut o = JsonObj::new();
        o.put("access_token", &self.access_token);
        o.put("refresh_token", &self.refresh_token);
        o.put("expires_in", &self.expires_in);
        o.put("token_type", &self.token_type);
        o.finish()
    }
}

impl FromJson for IdentityByTokenSuccess {
    open spec fn decodable(v: Jv) -> bool {
        &&& v is Obj
        &&& req_field_ok::<String>(v, "access_token"@)
        &&& req_field_ok::<String>(v, "refresh_token"@)
        &&& req_field_ok::<i64>(v, "expires_in"@)
        &&& req_field_ok::<String>(v, "token_type"@)
    }

    open spec fn rel(v: Jv, s: Self) -> bool {
        &&& v is Obj
        &&& req_field_rel::<String>(v, "access_token"@, s.access_token)
        &&& req_field_rel::<String>(v, "refresh_token"@, s.refresh_token)
        &&& req_field_rel::<i64>(v, "expires_in"@, s.expires_in)
        &&& req_field_rel::<String>(v, "token_type"@, s.token_type)
    }

    fn decode(v: &JsonValue) -> (r: Result<Self, DecodeError>) {
        let access_token: String = match get_field(v, "access_token") {
            Ok(x) => x,
            Err(e) => {
                return Err(e);
            },
        };
        let refresh_token: String = match get_field(v, "refresh_token") {
            Ok(x) => x,
            Err(e) => {
                return Err(e);
            },
        };
        let expires_in: i64 = match get_field(v, "expires_in") {
            Ok(x) => x,
            Err(e) => {
                return Err(e);
            },
        };
        let token_type: String = match get_field(v, "token_type") {
            Ok(x) => x,
            Err(e) => {
                return Err(e);
            },
        };
        Ok(IdentityByTokenSuccess { access_token, refresh_token, expires_in, token_type })
    }
}

/// `GET .1-mobile/identity/signup_by_token.json`.
pub struct IdentitySignupByToken;

impl IdentitySignupByToken {
    /// The URL template of this endpoint.
    pub fn url_template() -> (r: &'static str)
        ensures
            r@ == ".1-mobile/identity/signup_by_token.json"@,
    {
        ".1-mobile/identity/signup_by_token.json"
    }

    /// The HTTP method of this endpoint.
    pub fn http_method() -> (r: ApiHttpMethod)
        ensures
            r == ApiHttpMethod::Get,
    {
        ApiHttpMethod::Get
    }

    /// The URL path of this endpoint; it takes no parameters.
    pub fn url_path() -> (r: &'static str)
        ensures
            r@ == "/.1-mobile/identity/signup_by_token.json"@,
    {
        "/.1-mobile/identity/signup_by_token.json"
    }

    /// Decodes a success payload, naming this endpoint in any
    /// failure.
    pub fn decode_success(v: &JsonValue) -> (r: Result<IdentitySignupByTokenSuccess, DecodeError>)
        ensures
            r matches Ok(s) ==> <IdentitySignupByTokenSuccess as FromJson>::decodable(v@)
                && <IdentitySignupByTokenSuccess as FromJson>::rel(v@, s),
            <IdentitySignupByTokenSuccess as FromJson>::decodable(v@) ==> r is Ok,
            r matches Err(e) ==> spec_starts_with(e.path@, "IdentitySignupByToken"@),
    {
        match IdentitySignupByTokenSuccess::decode(v) {
            Ok(s) => Ok(s),
            Err(e) => Err(e.in_endpoint("IdentitySignupByToken")),
        }
    }
}

/// The parameters of a [`IdentitySignupByToken`] call.
#[derive(Debug, Clone, PartialEq)]
pub struct IdentitySignupByTokenParameters {
    pub id_token: String,
    pub client_id: String,
    pub country_code: Country,
}

impl ToJson for IdentitySignupByTokenParameters {
    open spec fn enc(s: Self) -> Jv {
        Jv::Obj(
            Seq::<(Seq<char>, Jv)>::empty()
                + req_entry("id_token"@, s.id_token)
                + req_entry("client_id"@, s.client_id)
                + req_entry("country_code"@, s.country_code),
        )
    }

    fn encode(&self) -> (r: JsonValue) {
        let mut o = JsonObj::new();
        o.put("id_token", &self.id_token);
        o.put("client_id", &self.client_id);
        o.put("country_code", &self.country_code);
        o.finish()
    }
}

impl FromJson for IdentitySignupByTokenParameters {
    open spec fn decodable(v: Jv) -> bool {
        &&& v is Obj
        &&& req_field_ok::<String>(v, "id_token"@)
        &&& req_field_ok::<String>(v, "client_id"@)
        &&& req_field_ok::<Country>(v, "country_code"@)
    }

    open spec fn rel(v: Jv, s: Self) -> bool {
        &&& v is Obj
        &&& req_field_rel::<String>(v, "id_token"@, s.id_token)
        &&& req_field_rel::<String>(v, "client_id"@, s.client_id)
        &&& req_field_rel::<Country>(v, "country_code"@, s.country_code)
    }

    fn decode(v: &JsonValue) -> (r: Result<Self, DecodeError>) {
        let id_token: String = match get_field(v, "id_token") {
            Ok(x) => x,
            Err(e) => {
                return Err(e);
            },
        };
        let client_id: String = match get_field(v, "client_id") {
            Ok(x) => x,
            Err(e) => {
                return Err(e);
            },
        };
        let country_code: Country = match get_field(v, "country_code") {
            Ok(x) => x,
            Err(e) => {
                return Err(e);
            },
        };
        Ok(IdentitySignupByTokenParameters { id_token, client_id, country_code })
    }
}

/// The success response of a [`IdentitySignupByToken`] call.
#[derive(Debug, Clone, PartialEq)]
pub struct IdentitySignupByTokenSuccess {
    pub access_token: String,
    pub refresh_token: String,
    pub expires_in: i64,
    pub token_type: String,
}

impl ToJson for IdentitySignupByTokenSuccess {
    open spec fn enc(s: Self) -> Jv {
        Jv::Obj(
            Seq::<(Seq<char>, Jv)>::empty()
                + req_entry("access_token"@, s.access_token)
                + req_entry("refresh_token"@, s.refresh_token)
                + req_entry("expires_in"@, s.expires_in)
                + req_entry("token_type"@, s.token_type),
        )
    }

    fn encode(&self) -> (r: JsonValue) {
        let mut o = JsonObj::new();
        o.put("access_token", &self.access_token);
        o.put("refresh_token", &self.refresh_token);
        o.put("expires_in", &self.expires_in);
        o.put("token_type", &self.token_type);
        o.finish()
    }
}

impl FromJson for IdentitySignupByTokenSuccess {
    open spec fn decodable(v: Jv) -> bool {
        &&& v is Obj
        &&& req_field_ok::<String>(v, "access_token"@)
        &&& req_field_ok::<String>(v, "refresh_token"@)
        &&& req_field_ok::<i64>(v, "expires_in"@)
        &&& req_field_ok::<String>(v, "token_type"@)
    }

    open spec fn rel(v: Jv, s: Self) -> bool {
        &&& v is Obj
        &&& req_field_rel::<String>(v, "access_token"@, s.access_token)
        &&& req_field_rel::<String>(v, "refresh_token"@, s.refresh_token)
        &&& req_field_rel::<i64>(v, "expires_in"@, s.expires_in)
        &&& req_field_rel::<String>(v, "token_type"@, s.token_type)
    }

    fn decode(v: &JsonValue) -> (r: Result<Self, DecodeError>) {
        let access_token: String = match get_field(v, "access_token") {
            Ok(x) => x,
            Err(e) => {
                return Err(e);
            },
        };
        let refresh_token: String = match get_field(v, "refresh_token") {
            Ok(x) => x,
            Err(e) => {
                return Err(e);
            },
        };
        let expires_in: i64 = match get_field(v, "expires_in") {
            Ok(x) => x,
            Err(e) => {
                return Err(e);
            },
        };
        let token_type: String = match get_field(v, "token_type") {
            Ok(x) => x,
            Err(e) => {
                return Err(e);
            },
        };
        Ok(IdentitySignupByTokenSuccess { access_token, refresh_token, expires_in, token_type })
    }
}

/// `GET /my_user.json`.
pub struct MyUser;

impl MyUser {
    /// The URL template of this endpoint.
    pub fn url_template() -> (r: &'static str)
        ensures
            r@ == "/my_user.json"@,
    {
        "/my_user.json"
    }

    /// The HTTP method of this endpoint.
    pub fn http_method() -> (r: ApiHttpMethod)
        ensures
            r == ApiHttpMethod::Get,
    {
        ApiHttpMethod::Get
    }

    /// The URL path of this endpoint; it takes no parameters.
    pub fn url_path() -> (r: &'static str)
        ensures
            r@ == "/my_user.json"@,
    {
        "/my_user.json"
    }

    /// Decodes a success payload, naming this endpoint in any
    /// failure.
    pub fn decode_success(v: &JsonValue) -> (r: Result<MyUserSuccess, DecodeError>)
        ensures
            r matches Ok(s) ==> <MyUserSuccess as FromJson>::decodable(v@)
                && <MyUserSuccess as FromJson>::rel(v@, s),
            <MyUserSuccess as FromJson>::decodable(v@) ==> r is Ok,
            r matches Err(e) ==> spec_starts_with(e.path@, "MyUser"@),
    {
        match MyUserSuccess::decode(v) {
            Ok(s) => Ok(s),
            Err(e) => Err(e.in_endpoint("MyUser")),
        }
    }
}

/// The success response of a [`MyUser`] call.
#[derive(Debug, Clone, PartialEq)]
pub struct MyUserSuccess {
    pub user: MyUserUserSuccess,
}

impl ToJson for MyUserSuccess {
    open spec fn enc(s: Self) -> Jv {
        Jv::Obj(
            Seq::<(Seq<char>, Jv)>::empty()
                + req_entry("user"@, s.user),
        )
    }

    fn encode(&self) -> (r: JsonValue) {
        let mut o = JsonObj::new();
        o.put("user", &self.user);
        o.finish()
    }
}

impl FromJson for MyUserSuccess {
    open spec fn decodable(v: Jv) -> bool {
        &&& v is Obj
        &&& req_field_ok::<MyUserUserSuccess>(v, "user"@)
    }

    open spec fn rel(v: Jv, s: Self) -> bool {
        &&& v is Obj
        &&& req_field_rel::<MyUserUserSuccess>(v, "user"@, s.user)
    }

    fn decode(v: &JsonValue) -> (r: Result<Self, DecodeError>) {
        let user: MyUserUserSuccess = match get_field(v, "user") {
            Ok(x) => x,
            Err(e) => {
                return Err(e);
            },
        };
        Ok(MyUserSuccess { user })
    }
}

/// A nested response shape of [`MyUser`].
#[derive(Debug, Clone, PartialEq)]
pub struct MyUserUserSuccess {
    pub id: i64,
    pub name: String,
    pub first_name: String,
    pub last_name: String,
    pub email: String,
    pub plan_code: String,
    pub is_activated: bool,
    pub is_free: bool,
    pub is_beta: bool,
    pub is_guest: bool,
    pub is_staff: bool,
    pub is_professional: bool,
    pub is_cancelled: bool,
    pub is_expired: bool,
}

impl ToJson for MyUserUserSuccess {
    open spec fn enc(s: Self) -> Jv {
        Jv::Obj(
            Seq::<(Seq<char>, Jv)>::empty()
                + req_entry("id"@, s.id)
                + req_entry("name"@, s.name)
                + req_entry("first_name"@, s.first_name)
                + req_entry("last_name"@, s.last_name)
                + req_entry("email"@, s.email)
                + req_entry("plan_code"@, s.plan_code)
                + req_entry("is_activated"@, s.is_activated)
                + req_entry("is_free"@, s.is_free)
                + req_entry("is_beta"@, s.is_beta)
                + req_entry("is_guest"@, s.is_guest)
                + req_entry("is_staff"@, s.is_staff)
                + req_entry("is_professional"@, s.is_professional)
                + req_entry("is_cancelled"@, s.is_cancelled)
                + req_entry("is_expired"@, s.is_expired),
        )
    }

    fn encode(&self) -> (r: JsonValue) {
        let mut o = JsonObj::new();
        o.put("id", &self.id);
        o.put("name", &self.name);
        o.put("first_name", &self.first_name);
        o.put("last_name", &self.last_name);
        o.put("email", &self.email);
        o.put("plan_code", &self.plan_code);
        o.put("is_activated", &self.is_activated);
        o.put("is_free", &self.is_free);
        o.put("is_beta", &self.is_beta);
        o.put("is_guest", &self.is_guest);
        o.put("is_staff", &self.is_staff);
        o.put("is_professional", &self.is_professional);
        o.put("is_cancelled", &self.is_cancelled);
        o.put("is_expired", &self.is_expired);
        o.finish()
    }
}

impl FromJson for MyUserUserSuccess {
    open spec fn decodable(v: Jv) -> bool {
        &&& v is Obj
        &&& req_field_ok::<i64>(v, "id"@)
        &&& req_field_ok::<String>(v, "name"@)
        &&& req_field_ok::<String>(v, "first_name"@)
        &&& req_field_ok::<String>(v, "last_name"@)
        &&& req_field_ok::<String>(v, "email"@)
        &&& req_field_ok::<String>(v, "plan_code"@)
        &&& req_field_ok::<bool>(v, "is_activated"@)
        &&& req_field_ok::<bool>(v, "is_free"@)
        &&& req_field_ok::<bool>(v, "is_beta"@)
        &&& req_field_ok::<bool>(v, "is_guest"@)
        &&& req_field_ok::<bool>(v, "is_staff"@)
        &&& req_field_ok::<bool>(v, "is_professional"@)
        &&& req_field_ok::<bool>(v, "is_cancelled"@)
        &&& req_field_ok::<bool>(v, "is_expired"@)
    }

    open spec fn rel(v: Jv, s: Self) -> bool {
        &&& v is Obj
        &&& req_field_rel::<i64>(v, "id"@, s.id)
        &&& req_field_rel::<String>(v, "name"@, s.name)
        &&& req_field_rel::<String>(v, "first_name"@, s.first_name)
        &&& req_field_rel::<String>(v, "last_name"@, s.last_name)
        &&& req_field_rel::<String>(v, "email"@, s.email)
        &&& req_field_rel::<String>(v, "plan_code"@, s.plan_code)
        &&& req_field_rel::<bool>(v, "is_activated"@, s.is_activated)
        &&& req_field_rel::<bool>(v, "is_free"@, s.is_free)
        &&& req_field_rel::<bool>(v, "is_beta"@, s.is_beta)
        &&& req_field_rel::<bool>(v, "is_guest"@, s.is_guest)
        &&& req_field_rel::<bool>(v, "is_staff"@, s.is_staff)
        &&& req_field_rel::<bool>(v, "is_professional"@, s.is_professional)
        &&& req_field_rel::<bool>(v, "is_cancelled"@, s.is_cancelled)
        &&& req_field_rel::<bool>(v, "is_expired"@, s.is_expired)
    }

    fn decode(v: &JsonValue) -> (r: Result<Self, DecodeError>) {
        let id: i64 = match get_field(v, "id") {
            Ok(x) => x,
            Err(e) => {
                return Err(e);
            },
        };
        let name: String = match get_field(v, "name") {
            Ok(x) => x,
            Err(e) => {
                return Err(e);
            },
        };
        let first_name: String = match get_field(v, "first_name") {
            Ok(x) => x,
            Err(e) => {
                return Err(e);
            },
        };
        let last_name: String = match get_field(v, "last_name") {
            Ok(x) => x,
            Err(e) => {
                return Err(e);
            },
        };
        let email: String = match get_field(v, "email") {
            Ok(x) => x,
            Err(e) => {
                return Err(e);
            },
        };
        let plan_code: String = match get_field(v, "plan_code") {
            Ok(x) => x,
            Err(e) => {
                return Err(e);
            },
        };
        let is_activated: bool = match get_field(v, "is_activated") {
            Ok(x) => x,
            Err(e) => {
                return Err(e);
            },
        };
        let is_free: bool = match get_field(v, "is_free") {
            Ok(x) => x,
            Err(e) => {
                return Err(e);
            },
        };
        let is_beta: bool = match get_field(v, "is_beta") {
            Ok(x) => x,
            Err(e) => {
                return Err(e);
            },
        };
        let is_guest: bool = match get_field(v, "is_guest") {
            Ok(x) => x,
            Err(e) => {
                return Err(e);
            },
        };
        let is_staff: bool = match get_field(v, "is_staff") {
            Ok(x) => x,
            Err(e) => {
                return Err(e);
            },
        };
        let is_professional: bool = match get_field(v, "is_professional") {
            Ok(x) => x,
            Err(e) => {
                return Err(e);
            },
        };
        let is_cancelled: bool = match get_field(v, "is_cancelled") {
            Ok(x) => x,
            Err(e) => {
                return Err(e);
            },
        };
        let is_expired: bool = match get_field(v, "is_expired") {
            Ok(x) => x,
            Err(e) => {
                return Err(e);
            },
        };
        Ok(MyUserUserSuccess { id, name, first_name, last_name, email, plan_code, is_activated, is_free, is_beta, is_guest, is_staff, is_professional, is_cancelled, is_expired })
    }
}

/// `GET /single_sign_on.json`.
pub struct RequestSingleSignOn;

impl RequestSingleSignOn {
    /// The URL template of this endpoint.
    pub fn url_template() -> (r: &'static str)
        ensures
            r@ == "/single_sign_on.json"@,
    {
        "/single_sign_on.json"
    }

    /// The HTTP method of this endpoint.
    pub fn http_method() -> (r: ApiHttpMethod)
        ensures
            r == ApiHttpMethod::Get,
    {
        ApiHttpMethod::Get
    }

    /// The URL path of this endpoint; it takes no parameters.
    pub fn url_path() -> (r: &'static str)
        ensures
            r@ == "/single_sign_on.json"@,
    {
        "/single_sign_on.json"
    }

    /// Decodes a success payload, naming this endpoint in any
    /// failure.
    pub fn decode_success(v: &JsonValue) -> (r: Result<RequestSingleSignOnSuccess, DecodeError>)
        ensures
            r matches Ok(s) ==> <RequestSingleSignOnSuccess as FromJson>::decodable(v@)
                && <RequestSingleSignOnSuccess as FromJson>::rel(v@, s),
            <RequestSingleSignOnSuccess as FromJson>::decodable(v@) ==> r is Ok,
            r matches Err(e) ==> spec_starts_with(e.path@, "RequestSingleSignOn"@),
    {
        match RequestSingleSignOnSuccess::decode(v) {
            Ok(s) => Ok(s),
            Err(e) => Err(e.in_endpoint("RequestSingleSignOn")),
        }
    }
}

/// The success response of a [`RequestSingleSignOn`] call.
#[derive(Debug, Clone, PartialEq)]
pub struct RequestSingleSignOnSuccess {
    pub login_url: String,
}

impl ToJson for RequestSingleSignOnSuccess {
    open spec fn enc(s: Self) -> Jv {
        Jv::Obj(
            Seq::<(Seq<char>, Jv)>::empty()
                + req_entry("login_url"@, s.login_url),
        )
    }

    fn encode(&self) -> (r: JsonValue) {
        let mut o = JsonObj::new();
        o.put("login_url", &self.login_url);
        o.finish()
    }
}

impl FromJson for RequestSingleSignOnSuccess {
    open spec fn decodable(v: Jv) -> bool {
        &&& v is Obj
        &&& req_field_ok::<String>(v, "login_url"@)
    }

    open spec fn rel(v: Jv, s: Self) -> bool {
        &&& v is Obj
        &&& req_field_rel::<String>(v, "login_url"@, s.login_url)
    }

    fn decode(v: &JsonValue) -> (r: Result<Self, DecodeError>) {
        let login_url: String = match get_field(v, "login_url") {
            Ok(x) => x,
            Err(e) => {
                return Err(e);
            },
        };
        Ok(RequestSingleSignOnSuccess { login_url })
    }
}

} // verus!
