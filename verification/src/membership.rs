//! Membership endpoints.

use vstd::prelude::*;
use vstd::string::StringExecFns;
use crate::api::ApiHttpMethod;
use crate::codec::DecodeError;
use crate::codec::FromJson;
use crate::codec::JsonObj;
use crate::codec::ToJson;
use crate::codec::get_field;
use crate::codec::get_opt_field;
use crate::codec::opt_entry;
use crate::codec::opt_field_ok;
use crate::codec::opt_field_rel;
use crate::codec::req_entry;
use crate::codec::req_field_ok;
use crate::codec::req_field_rel;
use crate::codec::spec_starts_with;
use crate::json::JsonValue;
use crate::json::Jv;
use crate::num::render_i64;
use crate::num::spec_i64_string;

verus! {

/// `POST /memberships.json`.
pub struct MembershipCreate;

impl MembershipCreate {
    /// The URL template of this endpoint.
    pub fn url_template() -> (r: &'static str)
        ensures
            r@ == "/memberships.json"@,
    {
        "/memberships.json"
    }

    /// The HTTP method of this endpoint.
    pub fn http_method() -> (r: ApiHttpMethod)
        ensures
            r == ApiHttpMethod::Post,
    {
        ApiHttpMethod::Post
    }

    /// The URL path of this endpoint; it takes no parameters.
    pub fn url_path() -> (r: &'static str)
        ensures
            r@ == "/memberships.json"@,
    {
        "/memberships.json"
    }

    /// Decodes a success payload, naming this endpoint in any
    /// failure.
    pub fn decode_success(v: &JsonValue) -> (r: Result<MembershipCreateSuccess, DecodeError>)
        ensures
            r matches Ok(s) ==> <MembershipCreateSuccess as FromJson>::decodable(v@)
                && <MembershipCreateSuccess as FromJson>::rel(v@, s),
            <MembershipCreateSuccess as FromJson>::decodable(v@) ==> r is Ok,
            r matches Err(e) ==> spec_starts_with(e.path@, "MembershipCreate"@),
    {
        match MembershipCreateSuccess::decode(v) {
            Ok(s) => Ok(s),
            Err(e) => Err(e.in_endpoint("MembershipCreate")),
        }
    }
}

/// The parameters of a [`MembershipCreate`] call.
#[derive(Debug, Clone, PartialEq)]
pub struct MembershipCreateParameters {
    pub membership: MembershipCreateMembershipParameters,
    pub user: Option<MembershipCreateUserParameters>,
    pub invitation: MembershipCreateInvitationParameters,
}

impl ToJson for MembershipCreateParameters {
    open spec fn enc(s: Self) -> Jv {
        Jv::Obj(
            Seq::<(Seq<char>, Jv)>::empty()
                + req_entry("membership"@, s.membership)
                + opt_entry("user"@, s.user)
                + req_entry("invitation"@, s.invitation),
        )
    }

    fn encode(&self) -> (r: JsonValue) {
        let mut o = JsonObj::new();
        o.put("membership", &self.membership);
        o.put_opt("user", &self.user);
        o.put("invitation", &self.invitation);
        o.finish()
    }
}

impl FromJson for MembershipCreateParameters {
    open spec fn decodable(v: Jv) -> bool {
        &&& v is Obj
        &&& req_field_ok::<MembershipCreateMembershipParameters>(v, "membership"@)
        &&& opt_field_ok::<MembershipCreateUserParameters>(v, "user"@)
        &&& req_field_ok::<MembershipCreateInvitationParameters>(v, "invitation"@)
    }

    open spec fn rel(v: Jv, s: Self) -> bool {
        &&& v is Obj
        &&& req_field_rel::<MembershipCreateMembershipParameters>(v, "membership"@, s.membership)
        &&& opt_field_rel::<MembershipCreateUserParameters>(v, "user"@, s.user)
        &&& req_field_rel::<MembershipCreateInvitationParameters>(v, "invitation"@, s.invitation)
    }

    fn decode(v: &JsonValue) -> (r: Result<Self, DecodeError>) {
        let membership: MembershipCreateMembershipParameters = match get_field(v, "membership") {
            Ok(x) => x,
            Err(e) => {
                return Err(e);
            },
        };
        let user: Option<MembershipCreateUserParameters> = match get_opt_field(v, "user") {
            Ok(x) => x,
            Err(e) => {
                return Err(e);
            },
        };
        let invitation: MembershipCreateInvitationParameters = match get_field(v, "invitation") {
            Ok(x) => x,
            Err(e) => {
                return Err(e);
            },
        };
        Ok(MembershipCreateParameters { membership, user, invitation })
    }
}

/// A nested parameter shape of [`MembershipCreate`].
#[derive(Debug, Clone, PartialEq)]
pub struct MembershipCreateMembershipParameters {
    pub portfolio_id: i64,
    pub access_code: String,
    pub user_id: Option<i64>,
}

impl ToJson for MembershipCreateMembershipParameters {
    open spec fn enc(s: Self) -> Jv {
        Jv::Obj(
            Seq::<(Seq<char>, Jv)>::empty()
                + req_entry("portfolio_id"@, s.portfolio_id)
                + req_entry("access_code"@, s.access_code)
                + opt_entry("user_id"@, s.user_id),
        )
    }

    fn encode(&self) -> (r: JsonValue) {
        let mut o = JsonObj::new();
        o.put("portfolio_id", &self.portfolio_id);
        o.put("access_code", &self.access_code);
        o.put_opt("user_id", &self.user_id);
        o.finish()
    }
}

impl FromJson for MembershipCreateMembershipParameters {
    open spec fn decodable(v: Jv) -> bool {
        &&& v is Obj
        &&& req_field_ok::<i64>(v, "portfolio_id"@)
        &&& req_field_ok::<String>(v, "access_code"@)
        &&& opt_field_ok::<i64>(v, "user_id"@)
    }

    open spec fn rel(v: Jv, s: Self) -> bool {
        &&& v is Obj
        &&& req_field_rel::<i64>(v, "portfolio_id"@, s.portfolio_id)
        &&& req_field_rel::<String>(v, "access_code"@, s.access_code)
        &&& opt_field_rel::<i64>(v, "user_id"@, s.user_id)
    }

    fn decode(v: &JsonValue) -> (r: Result<Self, DecodeError>) {
        let portfolio_id: i64 = match get_field(v, "portfolio_id") {
            Ok(x) => x,
            Err(e) => {
                return Err(e);
            },
        };
        let access_code: String = match get_field(v, "access_code") {
            Ok(x) => x,
            Err(e) => {
                return Err(e);
            },
        };
        let user_id: Option<i64> = match get_opt_field(v, "user_id") {
            Ok(x) => x,
            Err(e) => {
                return Err(e);
            },
        };
        Ok(MembershipCreateMembershipParameters { portfolio_id, access_code, user_id })
    }
}

/// A nested parameter shape of [`MembershipCreate`].
#[derive(Debug, Clone, PartialEq)]
pub struct MembershipCreateUserParameters {
    pub email: String,
    pub first_name: String,
    pub last_name: String,
}

impl ToJson for MembershipCreateUserParameters {
    open spec fn enc(s: Self) -> Jv {
        Jv::Obj(
            Seq::<(Seq<char>, Jv)>::empty()
                + req_entry("email"@, s.email)
                + req_entry("first_name"@, s.first_name)
                + req_entry("last_name"@, s.last_name),
        )
    }

    fn encode(&self) -> (r: JsonValue) {
        let mut o = JsonObj::new();
        o.put("email", &self.email);
        o.put("first_name", &self.first_name);
        o.put("last_name", &self.last_name);
        o.finish()
    }
}

impl FromJson for MembershipCreateUserParameters {
    open spec fn decodable(v: Jv) -> bool {
        &&& v is Obj
        &&& req_field_ok::<String>(v, "email"@)
        &&& req_field_ok::<String>(v, "first_name"@)
        &&& req_field_ok::<String>(v, "last_name"@)
    }

    open spec fn rel(v: Jv, s: Self) -> bool {
        &&& v is Obj
        &&& req_field_rel::<String>(v, "email"@, s.email)
        &&& req_field_rel::<String>(v, "first_name"@, s.first_name)
        &&& req_field_rel::<String>(v, "last_name"@, s.last_name)
    }

    fn decode(v: &JsonValue) -> (r: Result<Self, DecodeError>) {
        let email: String = match get_field(v, "email") {
            Ok(x) => x,
            Err(e) => {
                return Err(e);
            },
        };
        let first_name: String = match get_field(v, "first_name") {
            Ok(x) => x,
            Err(e) => {
                return Err(e);
            },
        };
        let last_name: String = match get_field(v, "last_name") {
            Ok(x) => x,
            Err(e) => {
                return Err(e);
            },
        };
        Ok(MembershipCreateUserParameters { email, first_name, last_name })
    }
}

/// A nested parameter shape of [`MembershipCreate`].
#[derive(Debug, Clone, PartialEq)]
pub struct MembershipCreateInvitationParameters {
    pub text: Option<String>,
    pub no_email: Option<bool>,
}

impl ToJson for MembershipCreateInvitationParameters {
    open spec fn enc(s: Self) -> Jv {
        Jv::Obj(
            Seq::<(Seq<char>, Jv)>::empty()
                + opt_entry("text"@, s.text)
                + opt_entry("no_email"@, s.no_email),
        )
    }

    fn encode(&self) -> (r: JsonValue) {
        let mut o = JsonObj::new();
        o.put_opt("text", &self.text);
        o.put_opt("no_email", &self.no_email);
        o.finish()
    }
}

impl FromJson for MembershipCreateInvitationParameters {
    open spec fn decodable(v: Jv) -> bool {
        &&& v is Obj
        &&& opt_field_ok::<String>(v, "text"@)
        &&& opt_field_ok::<bool>(v, "no_email"@)
    }

    open spec fn rel(v: Jv, s: Self) -> bool {
        &&& v is Obj
        &&& opt_field_rel::<String>(v, "text"@, s.text)
        &&& opt_field_rel::<bool>(v, "no_email"@, s.no_email)
    }

    fn decode(v: &JsonValue) -> (r: Result<Self, DecodeError>) {
        let text: Option<String> = match get_opt_field(v, "text") {
            Ok(x) => x,
            Err(e) => {
                return Err(e);
            },
        };
        let no_email: Option<bool> = match get_opt_field(v, "no_email") {
            Ok(x) => x,
            Err(e) => {
                return Err(e);
            },
        };
        Ok(MembershipCreateInvitationParameters { text, no_email })
    }
}

/// The success response of a [`MembershipCreate`] call.
#[derive(Debug, Clone, PartialEq)]
pub struct MembershipCreateSuccess {
    pub id: i64,
    pub access_code: String,
    pub portfolio_id: i64,
    pub organisation_name: String,
    pub shared_with_organisation: bool,
    pub user: MembershipCreateUserSuccess,
    pub alerts_enabled: bool,
    pub company_event_alerts_enabled: bool,
    pub price_alerts_enabled: bool,
    pub invitation: MembershipCreateInvitationSuccess,
    pub links: MembershipCreateLinksSuccess,
}

impl ToJson for MembershipCreateSuccess {
    open spec fn enc(s: Self) -> Jv {
        Jv::Obj(
            Seq::<(Seq<char>, Jv)>::empty()
                + req_entry("id"@, s.id)
                + req_entry("access_code"@, s.access_code)
                + req_entry("portfolio_id"@, s.portfolio_id)
                + req_entry("organisation_name"@, s.organisation_name)
                + req_entry("shared_with_organisation"@, s.shared_with_organisation)
                + req_entry("user"@, s.user)
                + req_entry("alerts_enabled"@, s.alerts_enabled)
                + req_entry("company_event_alerts_enabled"@, s.company_event_alerts_enabled)
                + req_entry("price_alerts_enabled"@, s.price_alerts_enabled)
                + req_entry("invitation"@, s.invitation)
                + req_entry("links"@, s.links),
        )
    }

    fn encode(&self) -> (r: JsonValue) {
        let mut o = JsonObj::new();
        o.put("id", &self.id);
        o.put("access_code", &self.access_code);
        o.put("portfolio_id", &self.portfolio_id);
        o.put("organisation_name", &self.organisation_name);
        o.put("shared_with_organisation", &self.shared_with_organisation);
        o.put("user", &self.user);
        o.put("alerts_enabled", &self.alerts_enabled);
        o.put("company_event_alerts_enabled", &self.company_event_alerts_enabled);
        o.put("price_alerts_enabled", &self.price_alerts_enabled);
        o.put("invitation", &self.invitation);
        o.put("links", &self.links);
        o.finish()
    }
}

impl FromJson for MembershipCreateSuccess {
    open spec fn decodable(v: Jv) -> bool {
        &&& v is Obj
        &&& req_field_ok::<i64>(v, "id"@)
        &&& req_field_ok::<String>(v, "access_code"@)
        &&& req_field_ok::<i64>(v, "portfolio_id"@)
        &&& req_field_ok::<String>(v, "organisation_name"@)
        &&& req_field_ok::<bool>(v, "shared_with_organisation"@)
        &&& req_field_ok::<MembershipCreateUserSuccess>(v, "user"@)
        &&& req_field_ok::<bool>(v, "alerts_enabled"@)
        &&& req_field_ok::<bool>(v, "company_event_alerts_enabled"@)
        &&& req_field_ok::<bool>(v, "price_alerts_enabled"@)
        &&& req_field_ok::<MembershipCreateInvitationSuccess>(v, "invitation"@)
        &&& req_field_ok::<MembershipCreateLinksSuccess>(v, "links"@)
    }

    open spec fn rel(v: Jv, s: Self) -> bool {
        &&& v is Obj
        &&& req_field_rel::<i64>(v, "id"@, s.id)
        &&& req_field_rel::<String>(v, "access_code"@, s.access_code)
        &&& req_field_rel::<i64>(v, "portfolio_id"@, s.portfolio_id)
        &&& req_field_rel::<String>(v, "organisation_name"@, s.organisation_name)
        &&& req_field_rel::<bool>(v, "shared_with_organisation"@, s.shared_with_organisation)
        &&& req_field_rel::<MembershipCreateUserSuccess>(v, "user"@, s.user)
        &&& req_field_rel::<bool>(v, "alerts_enabled"@, s.alerts_enabled)
        &&& req_field_rel::<bool>(v, "company_event_alerts_enabled"@, s.company_event_alerts_enabled)
        &&& req_field_rel::<bool>(v, "price_alerts_enabled"@, s.price_alerts_enabled)
        &&& req_field_rel::<MembershipCreateInvitationSuccess>(v, "invitation"@, s.invitation)
        &&& req_field_rel::<MembershipCreateLinksSuccess>(v, "links"@, s.links)
    }

    fn decode(v: &JsonValue) -> (r: Result<Self, DecodeError>) {
        let id: i64 = match get_field(v, "id") {
            Ok(x) => x,
            Err(e) => {
                return Err(e);
            },
        };
        let access_code: String = match get_field(v, "access_code") {
            Ok(x) => x,
            Err(e) => {
                return Err(e);
            },
        };
        let portfolio_id: i64 = match get_field(v, "portfolio_id") {
            Ok(x) => x,
            Err(e) => {
                return Err(e);
            },
        };
        let organisation_name: String = match get_field(v, "organisation_name") {
            Ok(x) => x,
            Err(e) => {
                return Err(e);
            },
        };
        let shared_with_organisation: bool = match get_field(v, "shared_with_organisation") {
            Ok(x) => x,
            Err(e) => {
                return Err(e);
            },
        };
        let user: MembershipCreateUserSuccess = match get_field(v, "user") {
            Ok(x) => x,
            Err(e) => {
                return Err(e);
            },
        };
        let alerts_enabled: bool = match get_field(v, "alerts_enabled") {
            Ok(x) => x,
            Err(e) => {
                return Err(e);
            },
        };
        let company_event_alerts_enabled: bool = match get_field(v, "company_event_alerts_enabled") {
            Ok(x) => x,
            Err(e) => {
                return Err(e);
            },
        };
        let price_alerts_enabled: bool = match get_field(v, "price_alerts_enabled") {
            Ok(x) => x,
            Err(e) => {
                return Err(e);
            },
        };
        let invitation: MembershipCreateInvitationSuccess = match get_field(v, "invitation") {
            Ok(x) => x,
            Err(e) => {
                return Err(e);
            },
        };
        let links: MembershipCreateLinksSuccess = match get_field(v, "links") {
            Ok(x) => x,
            Err(e) => {
                return Err(e);
            },
        };
        Ok(MembershipCreateSuccess { id, access_code, portfolio_id, organisation_name, shared_with_organisation, user, alerts_enabled, company_event_alerts_enabled, price_alerts_enabled, invitation, links })
    }
}

/// A nested response shape of [`MembershipCreate`].
#[derive(Debug, Clone, PartialEq)]
pub struct MembershipCreateUserSuccess {
    pub id: i64,
    pub first_name: i64,
    pub last_name: i64,
}

impl ToJson for MembershipCreateUserSuccess {
    open spec fn enc(s: Self) -> Jv {
        Jv::Obj(
            Seq::<(Seq<char>, Jv)>::empty()
                + req_entry("id"@, s.id)
                + req_entry("first_name"@, s.first_name)
                + req_entry("last_name"@, s.last_name),
        )
    }

    fn encode(&self) -> (r: JsonValue) {
        let mut o = JsonObj::new();
        o.put("id", &self.id);
        o.put("first_name", &self.first_name);
        o.put("last_name", &self.last_name);
        o.finish()
    }
}

impl FromJson for MembershipCreateUserSuccess {
    open spec fn decodable(v: Jv) -> bool {
        &&& v is Obj
        &&& req_field_ok::<i64>(v, "id"@)
        &&& req_field_ok::<i64>(v, "first_name"@)
        &&& req_field_ok::<i64>(v, "last_name"@)
    }

    open spec fn rel(v: Jv, s: Self) -> bool {
        &&& v is Obj
        &&& req_field_rel::<i64>(v, "id"@, s.id)
        &&& req_field_rel::<i64>(v, "first_name"@, s.first_name)
        &&& req_field_rel::<i64>(v, "last_name"@, s.last_name)
    }

    fn decode(v: &JsonValue) -> (r: Result<Self, DecodeError>) {
        let id: i64 = match get_field(v, "id") {
            Ok(x) => x,
            Err(e) => {
                return Err(e);
            },
        };
        let first_name: i64 = match get_field(v, "first_name") {
            Ok(x) => x,
            Err(e) => {
                return Err(e);
            },
        };
        let last_name: i64 = match get_field(v, "last_name") {
            Ok(x) => x,
            Err(e) => {
                return Err(e);
            },
        };
        Ok(MembershipCreateUserSuccess { id, first_name, last_name })
    }
}

/// A nested response shape of [`MembershipCreate`].
#[derive(Debug, Clone, PartialEq)]
pub struct MembershipCreateInvitationSuccess {
    pub id: i64,
    pub text: String,
    pub status: String,
    pub url: String,
}

impl ToJson for MembershipCreateInvitationSuccess {
    open spec fn enc(s: Self) -> Jv {
        Jv::Obj(
            Seq::<(Seq<char>, Jv)>::empty()
                + req_entry("id"@, s.id)
                + req_entry("text"@, s.text)
                + req_entry("status"@, s.status)
                + req_entry("url"@, s.url),
        )
    }

    fn encode(&self) -> (r: JsonValue) {
        let mut o = JsonObj::new();
        o.put("id", &self.id);
        o.put("text", &self.text);
        o.put("status", &self.status);
        o.put("url", &self.url);
        o.finish()
    }
}

impl FromJson for MembershipCreateInvitationSuccess {
    open spec fn decodable(v: Jv) -> bool {
        &&& v is Obj
        &&& req_field_ok::<i64>(v, "id"@)
        &&& req_field_ok::<String>(v, "text"@)
        &&& req_field_ok::<String>(v, "status"@)
        &&& req_field_ok::<String>(v, "url"@)
    }

    open spec fn rel(v: Jv, s: Self) -> bool {
        &&& v is Obj
        &&& req_field_rel::<i64>(v, "id"@, s.id)
        &&& req_field_rel::<String>(v, "text"@, s.text)
        &&& req_field_rel::<String>(v, "status"@, s.status)
        &&& req_field_rel::<String>(v, "url"@, s.url)
    }

    fn decode(v: &JsonValue) -> (r: Result<Self, DecodeError>) {
        let id: i64 = match get_field(v, "id") {
            Ok(x) => x,
            Err(e) => {
                return Err(e);
            },
        };
        let text: String = match get_field(v, "text") {
            Ok(x) => x,
            Err(e) => {
                return Err(e);
            },
        };
        let status: String = match get_field(v, "status") {
            Ok(x) => x,
            Err(e) => {
                return Err(e);
            },
        };
        let url: String = match get_field(v, "url") {
            Ok(x) => x,
            Err(e) => {
                return Err(e);
            },
        };
        Ok(MembershipCreateInvitationSuccess { id, text, status, url })
    }
}

/// A nested response shape of [`MembershipCreate`].
#[derive(Debug, Clone, PartialEq)]
pub struct MembershipCreateLinksSuccess {
    pub portfolio: String,
}

impl ToJson for MembershipCreateLinksSuccess {
    open spec fn enc(s: Self) -> Jv {
        Jv::Obj(
            Seq::<(Seq<char>, Jv)>::empty()
                + req_entry("portfolio"@, s.portfolio),
        )
    }

    fn encode(&self) -> (r: JsonValue) {
        let mut o = JsonObj::new();
        o.put("portfolio", &self.portfolio);
        o.finish()
    }
}

impl FromJson for MembershipCreateLinksSuccess {
    open spec fn decodable(v: Jv) -> bool {
        &&& v is Obj
        &&& req_field_ok::<String>(v, "portfolio"@)
    }

    open spec fn rel(v: Jv, s: Self) -> bool {
        &&& v is Obj
        &&& req_field_rel::<String>(v, "portfolio"@, s.portfolio)
    }

    fn decode(v: &JsonValue) -> (r: Result<Self, DecodeError>) {
        let portfolio: String = match get_field(v, "portfolio") {
            Ok(x) => x,
            Err(e) => {
                return Err(e);
            },
        };
        Ok(MembershipCreateLinksSuccess { portfolio })
    }
}

/// `DELETE /memberships/:id.json`.
pub struct MembershipDelete;

/// The parameters of a [`MembershipDelete`] call, held for URL rendering.
pub struct MembershipDeleteUrlDisplay<'a>(pub &'a MembershipDeleteParameters);

impl<'a> MembershipDeleteUrlDisplay<'a> {
    /// Renders the resolved URL path.
    pub fn render(&self) -> (r: String)
        ensures
            r@ == MembershipDelete::spec_url(*self.0),
    {
        MembershipDelete::url(self.0)
    }
}

impl MembershipDelete {
    /// The URL template of this endpoint.
    pub fn url_template() -> (r: &'static str)
        ensures
            r@ == "/memberships/:id.json"@,
    {
        "/memberships/:id.json"
    }

    /// The HTTP method of this endpoint.
    pub fn http_method() -> (r: ApiHttpMethod)
        ensures
            r == ApiHttpMethod::Delete,
    {
        ApiHttpMethod::Delete
    }

    /// The URL path that `p` resolves the template to.
    pub open spec fn spec_url(p: MembershipDeleteParameters) -> Seq<char> {
        "/memberships/"@ + spec_i64_string(p.id as int) + ".json"@
    }

    /// Resolves the URL template with the fields of `parameters`:
    /// plain decimal digits for integers, strings as they are.
    pub fn url(parameters: &MembershipDeleteParameters) -> (r: String)
        ensures
            r@ == Self::spec_url(*parameters),
    {
        let mut s = "/memberships/".to_owned();
        s.append(render_i64(parameters.id).as_str());
        s.append(".json");
        s
    }

    /// Wraps `parameters` for URL rendering.
    pub fn url_path<'a>(parameters: &'a MembershipDeleteParameters) -> (r: MembershipDeleteUrlDisplay<'a>)
        ensures
            r.0 == parameters,
    {
        MembershipDeleteUrlDisplay(parameters)
    }
}

/// The parameters of a [`MembershipDelete`] call.
#[derive(Debug, Clone, PartialEq)]
pub struct MembershipDeleteParameters {
    pub id: i64,
}

impl ToJson for MembershipDeleteParameters {
    open spec fn enc(s: Self) -> Jv {
        Jv::Obj(
            Seq::<(Seq<char>, Jv)>::empty()
                + req_entry("id"@, s.id),
        )
    }

    fn encode(&self) -> (r: JsonValue) {
        let mut o = JsonObj::new();
        o.put("id", &self.id);
        o.finish()
    }
}

impl FromJson for MembershipDeleteParameters {
    open spec fn decodable(v: Jv) -> bool {
        &&& v is Obj
        &&& req_field_ok::<i64>(v, "id"@)
    }

    open spec fn rel(v: Jv, s: Self) -> bool {
        &&& v is Obj
        &&& req_field_rel::<i64>(v, "id"@, s.id)
    }

    fn decode(v: &JsonValue) -> (r: Result<Self, DecodeError>) {
        let id: i64 = match get_field(v, "id") {
            Ok(x) => x,
            Err(e) => {
                return Err(e);
            },
        };
        Ok(MembershipDeleteParameters { id })
    }
}

/// `GET /memberships.json`.
pub struct MembershipList;

impl MembershipList {
    /// The URL template of this endpoint.
    pub fn url_template() -> (r: &'static str)
        ensures
            r@ == "/memberships.json"@,
    {
        "/memberships.json"
    }

    /// The HTTP method of this endpoint.
    pub fn http_method() -> (r: ApiHttpMethod)
        ensures
            r == ApiHttpMethod::Get,
    {
        ApiHttpMethod::Get
    }

    /// The URL path of this endpoint; it takes no parameters.
    pub fn url_path() -> (r: &'static str)
        ensures
            r@ == "/memberships.json"@,
    {
        "/memberships.json"
    }

    /// Decodes a success payload, naming this endpoint in any
    /// failure.
    pub fn decode_success(v: &JsonValue) -> (r: Result<MembershipListSuccess, DecodeError>)
        ensures
            r matches Ok(s) ==> <MembershipListSuccess as FromJson>::decodable(v@)
                && <MembershipListSuccess as FromJson>::rel(v@, s),
            <MembershipListSuccess as FromJson>::decodable(v@) ==> r is Ok,
            r matches Err(e) ==> spec_starts_with(e.path@, "MembershipList"@),
    {
        match MembershipListSuccess::decode(v) {
            Ok(s) => Ok(s),
            Err(e) => Err(e.in_endpoint("MembershipList")),
        }
    }
}

/// The success response of a [`MembershipList`] call.
#[derive(Debug, Clone, PartialEq)]
pub struct MembershipListSuccess {
    pub memberships: Vec<MembershipListMembershipsSuccess>,
    pub organisation_name: String,
    pub shared_with_organisation: bool,
    pub links: MembershipListLinksSuccess,
}

impl ToJson for MembershipListSuccess {
    open spec fn enc(s: Self) -> Jv {
        Jv::Obj(
            Seq::<(Seq<char>, Jv)>::empty()
                + req_entry("memberships"@, s.memberships)
                + req_entry("organisation_name"@, s.organisation_name)
                + req_entry("shared_with_organisation"@, s.shared_with_organisation)
                + req_entry("links"@, s.links),
        )
    }

    fn encode(&self) -> (r: JsonValue) {
        let mut o = JsonObj::new();
        o.put("memberships", &self.memberships);
        o.put("organisation_name", &self.organisation_name);
        o.put("shared_with_organisation", &self.shared_with_organisation);
        o.put("links", &self.links);
        o.finish()
    }
}

impl FromJson for MembershipListSuccess {
    open spec fn decodable(v: Jv) -> bool {
        &&& v is Obj
        &&& req_field_ok::<Vec<MembershipListMembershipsSuccess>>(v, "memberships"@)
        &&& req_field_ok::<String>(v, "organisation_name"@)
        &&& req_field_ok::<bool>(v, "shared_with_organisation"@)
        &&& req_field_ok::<MembershipListLinksSuccess>(v, "links"@)
    }

    open spec fn rel(v: Jv, s: Self) -> bool {
        &&& v is Obj
        &&& req_field_rel::<Vec<MembershipListMembershipsSuccess>>(v, "memberships"@, s.memberships)
        &&& req_field_rel::<String>(v, "organisation_name"@, s.organisation_name)
        &&& req_field_rel::<bool>(v, "shared_with_organisation"@, s.shared_with_organisation)
        &&& req_field_rel::<MembershipListLinksSuccess>(v, "links"@, s.links)
    }

    fn decode(v: &JsonValue) -> (r: Result<Self, DecodeError>) {
        let memberships: Vec<MembershipListMembershipsSuccess> = match get_field(v, "memberships") {
            Ok(x) => x,
            Err(e) => {
                return Err(e);
            },
        };
        let organisation_name: String = match get_field(v, "organisation_name") {
            Ok(x) => x,
            Err(e) => {
                return Err(e);
            },
        };
        let shared_with_organisation: bool = match get_field(v, "shared_with_organisation") {
            Ok(x) => x,
            Err(e) => {
                return Err(e);
            },
        };
        let links: MembershipListLinksSuccess = match get_field(v, "links") {
            Ok(x) => x,
            Err(e) => {
                return Err(e);
            },
        };
        Ok(MembershipListSuccess { memberships, organisation_name, shared_with_organisation, links })
    }
}

/// A nested response shape of [`MembershipList`].
#[derive(Debug, Clone, PartialEq)]
pub struct MembershipListMembershipsSuccess {
    pub id: i64,
    pub access_code: String,
    pub portfolio_id: i64,
    pub user: MembershipListMembershipsUserSuccess,
    pub alerts_enabled: bool,
    pub company_event_alerts_enabled: bool,
    pub price_alerts_enabled: bool,
    pub invitation: MembershipListMembershipsInvitationSuccess,
    pub links: MembershipListMembershipsLinksSuccess,
}

impl ToJson for MembershipListMembershipsSuccess {
    open spec fn enc(s: Self) -> Jv {
        Jv::Obj(
            Seq::<(Seq<char>, Jv)>::empty()
                + req_entry("id"@, s.id)
                + req_entry("access_code"@, s.access_code)
                + req_entry("portfolio_id"@, s.portfolio_id)
                + req_entry("user"@, s.user)
                + req_entry("alerts_enabled"@, s.alerts_enabled)
                + req_entry("company_event_alerts_enabled"@, s.company_event_alerts_enabled)
                + req_entry("price_alerts_enabled"@, s.price_alerts_enabled)
                + req_entry("invitation"@, s.invitation)
                + req_entry("links"@, s.links),
        )
    }

    fn encode(&self) -> (r: JsonValue) {
        let mut o = JsonObj::new();
        o.put("id", &self.id);
        o.put("access_code", &self.access_code);
        o.put("portfolio_id", &self.portfolio_id);
        o.put("user", &self.user);
        o.put("alerts_enabled", &self.alerts_enabled);
        o.put("company_event_alerts_enabled", &self.company_event_alerts_enabled);
        o.put("price_alerts_enabled", &self.price_alerts_enabled);
        o.put("invitation", &self.invitation);
        o.put("links", &self.links);
        o.finish()
    }
}

impl FromJson for MembershipListMembershipsSuccess {
    open spec fn decodable(v: Jv) -> bool {
        &&& v is Obj
        &&& req_field_ok::<i64>(v, "id"@)
        &&& req_field_ok::<String>(v, "access_code"@)
        &&& req_field_ok::<i64>(v, "portfolio_id"@)
        &&& req_field_ok::<MembershipListMembershipsUserSuccess>(v, "user"@)
        &&& req_field_ok::<bool>(v, "alerts_enabled"@)
        &&& req_field_ok::<bool>(v, "company_event_alerts_enabled"@)
        &&& req_field_ok::<bool>(v, "price_alerts_enabled"@)
        &&& req_field_ok::<MembershipListMembershipsInvitationSuccess>(v, "invitation"@)
        &&& req_field_ok::<MembershipListMembershipsLinksSuccess>(v, "links"@)
    }

    open spec fn rel(v: Jv, s: Self) -> bool {
        &&& v is Obj
        &&& req_field_rel::<i64>(v, "id"@, s.id)
        &&& req_field_rel::<String>(v, "access_code"@, s.access_code)
        &&& req_field_rel::<i64>(v, "portfolio_id"@, s.portfolio_id)
        &&& req_field_rel::<MembershipListMembershipsUserSuccess>(v, "user"@, s.user)
        &&& req_field_rel::<bool>(v, "alerts_enabled"@, s.alerts_enabled)
        &&& req_field_rel::<bool>(v, "company_event_alerts_enabled"@, s.company_event_alerts_enabled)
        &&& req_field_rel::<bool>(v, "price_alerts_enabled"@, s.price_alerts_enabled)
        &&& req_field_rel::<MembershipListMembershipsInvitationSuccess>(v, "invitation"@, s.invitation)
        &&& req_field_rel::<MembershipListMembershipsLinksSuccess>(v, "links"@, s.links)
    }

    fn decode(v: &JsonValue) -> (r: Result<Self, DecodeError>) {
        let id: i64 = match get_field(v, "id") {
            Ok(x) => x,
            Err(e) => {
                return Err(e);
            },
        };
        let access_code: String = match get_field(v, "access_code") {
            Ok(x) => x,
            Err(e) => {
                return Err(e);
            },
        };
        let portfolio_id: i64 = match get_field(v, "portfolio_id") {
            Ok(x) => x,
            Err(e) => {
                return Err(e);
            },
        };
        let user: MembershipListMembershipsUserSuccess = match get_field(v, "user") {
            Ok(x) => x,
            Err(e) => {
                return Err(e);
            },
        };
        let alerts_enabled: bool = match get_field(v, "alerts_enabled") {
            Ok(x) => x,
            Err(e) => {
                return Err(e);
            },
        };
        let company_event_alerts_enabled: bool = match get_field(v, "company_event_alerts_enabled") {
            Ok(x) => x,
            Err(e) => {
                return Err(e);
            },
        };
        let price_alerts_enabled: bool = match get_field(v, "price_alerts_enabled") {
            Ok(x) => x,
            Err(e) => {
                return Err(e);
            },
        };
        let invitation: MembershipListMembershipsInvitationSuccess = match get_field(v, "invitation") {
            Ok(x) => x,
            Err(e) => {
                return Err(e);
            },
        };
        let links: MembershipListMembershipsLinksSuccess = match get_field(v, "links") {
            Ok(x) => x,
            Err(e) => {
                return Err(e);
            },
        };
        Ok(MembershipListMembershipsSuccess { id, access_code, portfolio_id, user, alerts_enabled, company_event_alerts_enabled, price_alerts_enabled, invitation, links })
    }
}

/// A nested response shape of [`MembershipList`].
#[derive(Debug, Clone, PartialEq)]
pub struct MembershipListMembershipsUserSuccess {
    pub id: i64,
    pub first_name: String,
    pub last_name: String,
}

impl ToJson for MembershipListMembershipsUserSuccess {
    open spec fn enc(s: Self) -> Jv {
        Jv::Obj(
            Seq::<(Seq<char>, Jv)>::empty()
                + req_entry("id"@, s.id)
                + req_entry("first_name"@, s.first_name)
                + req_entry("last_name"@, s.last_name),
        )
    }

    fn encode(&self) -> (r: JsonValue) {
        let mut o = JsonObj::new();
        o.put("id", &self.id);
        o.put("first_name", &self.first_name);
        o.put("last_name", &self.last_name);
        o.finish()
    }
}

impl FromJson for MembershipListMembershipsUserSuccess {
    open spec fn decodable(v: Jv) -> bool {
        &&& v is Obj
        &&& req_field_ok::<i64>(v, "id"@)
        &&& req_field_ok::<String>(v, "first_name"@)
        &&& req_field_ok::<String>(v, "last_name"@)
    }

    open spec fn rel(v: Jv, s: Self) -> bool {
        &&& v is Obj
        &&& req_field_rel::<i64>(v, "id"@, s.id)
        &&& req_field_rel::<String>(v, "first_name"@, s.first_name)
        &&& req_field_rel::<String>(v, "last_name"@, s.last_name)
    }

    fn decode(v: &JsonValue) -> (r: Result<Self, DecodeError>) {
        let id: i64 = match get_field(v, "id") {
            Ok(x) => x,
            Err(e) => {
                return Err(e);
            },
        };
        let first_name: String = match get_field(v, "first_name") {
            Ok(x) => x,
            Err(e) => {
                return Err(e);
            },
        };
        let last_name: String = match get_field(v, "last_name") {
            Ok(x) => x,
            Err(e) => {
                return Err(e);
            },
        };
        Ok(MembershipListMembershipsUserSuccess { id, first_name, last_name })
    }
}

/// A nested response shape of [`MembershipList`].
#[derive(Debug, Clone, PartialEq)]
pub struct MembershipListPortfoliosSuccess {
    pub api_email_notification: i64,
    pub contract_note_email_notification: i64,
}

impl ToJson for MembershipListPortfoliosSuccess {
    open spec fn enc(s: Self) -> Jv {
        Jv::Obj(
            Seq::<(Seq<char>, Jv)>::empty()
                + req_entry("api_email_notification"@, s.api_email_notification)
                + req_entry("contract_note_email_notification"@, s.contract_note_email_notification),
        )
    }

    fn encode(&self) -> (r: JsonValue) {
        let mut o = JsonObj::new();
        o.put("api_email_notification", &self.api_email_notification);
        o.put("contract_note_email_notification", &self.contract_note_email_notification);
        o.finish()
    }
}

impl FromJson for MembershipListPortfoliosSuccess {
    open spec fn decodable(v: Jv) -> bool {
        &&& v is Obj
        &&& req_field_ok::<i64>(v, "api_email_notification"@)
        &&& req_field_ok::<i64>(v, "contract_note_email_notification"@)
    }

    open spec fn rel(v: Jv, s: Self) -> bool {
        &&& v is Obj
        &&& req_field_rel::<i64>(v, "api_email_notification"@, s.api_email_notification)
        &&& req_field_rel::<i64>(v, "contract_note_email_notification"@, s.contract_note_email_notification)
    }

    fn decode(v: &JsonValue) -> (r: Result<Self, DecodeError>) {
        let api_email_notification: i64 = match get_field(v, "api_email_notification") {
            Ok(x) => x,
            Err(e) => {
                return Err(e);
            },
        };
        let contract_note_email_notification: i64 = match get_field(v, "contract_note_email_notification") {
            Ok(x) => x,
            Err(e) => {
                return Err(e);
            },
        };
        Ok(MembershipListPortfoliosSuccess { api_email_notification, contract_note_email_notification })
    }
}

/// A nested response shape of [`MembershipList`].
#[derive(Debug, Clone, PartialEq)]
pub struct MembershipListMembershipsInvitationSuccess {
    pub id: i64,
    pub text: String,
    pub url: String,
    pub status: String,
}

impl ToJson for MembershipListMembershipsInvitationSuccess {
    open spec fn enc(s: Self) -> Jv {
        Jv::Obj(
            Seq::<(Seq<char>, Jv)>::empty()
                + req_entry("id"@, s.id)
                + req_entry("text"@, s.text)
                + req_entry("url"@, s.url)
                + req_entry("status"@, s.status),
        )
    }

    fn encode(&self) -> (r: JsonValue) {
        let mut o = JsonObj::new();
        o.put("id", &self.id);
        o.put("text", &self.text);
        o.put("url", &self.url);
        o.put("status", &self.status);
        o.finish()
    }
}

impl FromJson for MembershipListMembershipsInvitationSuccess {
    open spec fn decodable(v: Jv) -> bool {
        &&& v is Obj
        &&& req_field_ok::<i64>(v, "id"@)
        &&& req_field_ok::<String>(v, "text"@)
        &&& req_field_ok::<String>(v, "url"@)
        &&& req_field_ok::<String>(v, "status"@)
    }

    open spec fn rel(v: Jv, s: Self) -> bool {
        &&& v is Obj
        &&& req_field_rel::<i64>(v, "id"@, s.id)
        &&& req_field_rel::<String>(v, "text"@, s.text)
        &&& req_field_rel::<String>(v, "url"@, s.url)
        &&& req_field_rel::<String>(v, "status"@, s.status)
    }

    fn decode(v: &JsonValue) -> (r: Result<Self, DecodeError>) {
        let id: i64 = match get_field(v, "id") {
            Ok(x) => x,
            Err(e) => {
                return Err(e);
            },
        };
        let text: String = match get_field(v, "text") {
            Ok(x) => x,
            Err(e) => {
                return Err(e);
            },
        };
        let url: String = match get_field(v, "url") {
            Ok(x) => x,
            Err(e) => {
                return Err(e);
            },
        };
        let status: String = match get_field(v, "status") {
            Ok(x) => x,
            Err(e) => {
                return Err(e);
            },
        };
        Ok(MembershipListMembershipsInvitationSuccess { id, text, url, status })
    }
}

/// A nested response shape of [`MembershipList`].
#[derive(Debug, Clone, PartialEq)]
pub struct MembershipListMembershipsLinksSuccess {
    pub portfolio: String,
}

impl ToJson for MembershipListMembershipsLinksSuccess {
    open spec fn enc(s: Self) -> Jv {
        Jv::Obj(
            Seq::<(Seq<char>, Jv)>::empty()
                + req_entry("portfolio"@, s.portfolio),
        )
    }

    fn encode(&self) -> (r: JsonValue) {
        let mut o = JsonObj::new();
        o.put("portfolio", &self.portfolio);
        o.finish()
    }
}

impl FromJson for MembershipListMembershipsLinksSuccess {
    open spec fn decodable(v: Jv) -> bool {
        &&& v is Obj
        &&& req_field_ok::<String>(v, "portfolio"@)
    }

    open spec fn rel(v: Jv, s: Self) -> bool {
        &&& v is Obj
        &&& req_field_rel::<String>(v, "portfolio"@, s.portfolio)
    }

    fn decode(v: &JsonValue) -> (r: Result<Self, DecodeError>) {
        let portfolio: String = match get_field(v, "portfolio") {
            Ok(x) => x,
            Err(e) => {
                return Err(e);
            },
        };
        Ok(MembershipListMembershipsLinksSuccess { portfolio })
    }
}

/// A nested response shape of [`MembershipList`].
#[derive(Debug, Clone, PartialEq)]
pub struct MembershipListLinksSuccess {
    pub itself: String,
}

impl ToJson for MembershipListLinksSuccess {
    open spec fn enc(s: Self) -> Jv {
        Jv::Obj(
            Seq::<(Seq<char>, Jv)>::empty()
                + req_entry("self"@, s.itself),
        )
    }

    fn encode(&self) -> (r: JsonValue) {
        let mut o = JsonObj::new();
        o.put("self", &self.itself);
        o.finish()
    }
}

impl FromJson for MembershipListLinksSuccess {
    open spec fn decodable(v: Jv) -> bool {
        &&& v is Obj
        &&& req_field_ok::<String>(v, "self"@)
    }

    open spec fn rel(v: Jv, s: Self) -> bool {
        &&& v is Obj
        &&& req_field_rel::<String>(v, "self"@, s.itself)
    }

    fn decode(v: &JsonValue) -> (r: Result<Self, DecodeError>) {
        let itself: String = match get_field(v, "self") {
            Ok(x) => x,
            Err(e) => {
                return Err(e);
            },
        };
        Ok(MembershipListLinksSuccess { itself })
    }
}

/// `PUT /memberships/:id.json`.
pub struct MembershipUpdate;

/// The parameters of a [`MembershipUpdate`] call, held for URL rendering.
pub struct MembershipUpdateUrlDisplay<'a>(pub &'a MembershipUpdateParameters);

impl<'a> MembershipUpdateUrlDisplay<'a> {
    /// Renders the resolved URL path.
    pub fn render(&self) -> (r: String)
        ensures
            r@ == MembershipUpdate::spec_url(*self.0),
    {
        MembershipUpdate::url(self.0)
    }
}

impl MembershipUpdate {
    /// The URL template of this endpoint.
    pub fn url_template() -> (r: &'static str)
        ensures
            r@ == "/memberships/:id.json"@,
    {
        "/memberships/:id.json"
    }

    /// The HTTP method of this endpoint.
    pub fn http_method() -> (r: ApiHttpMethod)
        ensures
            r == ApiHttpMethod::Put,
    {
        ApiHttpMethod::Put
    }

    /// The URL path that `p` resolves the template to.
    pub open spec fn spec_url(p: MembershipUpdateParameters) -> Seq<char> {
        "/memberships/"@ + spec_i64_string(p.id as int) + ".json"@
    }

    /// Resolves the URL template with the fields of `parameters`:
    /// plain decimal digits for integers, strings as they are.
    pub fn url(parameters: &MembershipUpdateParameters) -> (r: String)
        ensures
            r@ == Self::spec_url(*parameters),
    {
        let mut s = "/memberships/".to_owned();
        s.append(render_i64(parameters.id).as_str());
        s.append(".json");
        s
    }

    /// Wraps `parameters` for URL rendering.
    pub fn url_path<'a>(parameters: &'a MembershipUpdateParameters) -> (r: MembershipUpdateUrlDisplay<'a>)
        ensures
            r.0 == parameters,
    {
        MembershipUpdateUrlDisplay(parameters)
    }

    /// Decodes a success payload, naming this endpoint in any
    /// failure.
    pub fn decode_success(v: &JsonValue) -> (r: Result<MembershipUpdateSuccess, DecodeError>)
        ensures
            r matches Ok(s) ==> <MembershipUpdateSuccess as FromJson>::decodable(v@)
                && <MembershipUpdateSuccess as FromJson>::rel(v@, s),
            <MembershipUpdateSuccess as FromJson>::decodable(v@) ==> r is Ok,
            r matches Err(e) ==> spec_starts_with(e.path@, "MembershipUpdate"@),
    {
        match MembershipUpdateSuccess::decode(v) {
            Ok(s) => Ok(s),
            Err(e) => Err(e.in_endpoint("MembershipUpdate")),
        }
    }
}

/// The parameters of a [`MembershipUpdate`] call.
#[derive(Debug, Clone, PartialEq)]
pub struct MembershipUpdateParameters {
    pub id: i64,
    pub access_code: String,
}

impl ToJson for MembershipUpdateParameters {
    open spec fn enc(s: Self) -> Jv {
        Jv::Obj(
            Seq::<(Seq<char>, Jv)>::empty()
                + req_entry("id"@, s.id)
                + req_entry("access_code"@, s.access_code),
        )
    }

    fn encode(&self) -> (r: JsonValue) {
        let mut o = JsonObj::new();
        o.put("id", &self.id);
        o.put("access_code", &self.access_code);
        o.finish()
    }
}

impl FromJson for MembershipUpdateParameters {
    open spec fn decodable(v: Jv) -> bool {
        &&& v is Obj
        &&& req_field_ok::<i64>(v, "id"@)
        &&& req_field_ok::<String>(v, "access_code"@)
    }

    open spec fn rel(v: Jv, s: Self) -> bool {
        &&& v is Obj
        &&& req_field_rel::<i64>(v, "id"@, s.id)
        &&& req_field_rel::<String>(v, "access_code"@, s.access_code)
    }

    fn decode(v: &JsonValue) -> (r: Result<Self, DecodeError>) {
        let id: i64 = match get_field(v, "id") {
            Ok(x) => x,
            Err(e) => {
                return Err(e);
            },
        };
        let access_code: String = match get_field(v, "access_code") {
            Ok(x) => x,
            Err(e) => {
                return Err(e);
            },
        };
        Ok(MembershipUpdateParameters { id, access_code })
    }
}

/// The success response of a [`MembershipUpdate`] call.
#[derive(Debug, Clone, PartialEq)]
pub struct MembershipUpdateSuccess {
    pub id: i64,
    pub access_code: String,
    pub portfolio_id: i64,
    pub user: MembershipUpdateUserSuccess,
    pub alerts_enabled: bool,
    pub company_event_alerts_enabled: bool,
    pub price_alerts_enabled: bool,
    pub invitation: MembershipUpdateInvitationSuccess,
    pub links: MembershipUpdateLinksSuccess,
}

impl ToJson for MembershipUpdateSuccess {
    open spec fn enc(s: Self) -> Jv {
        Jv::Obj(
            Seq::<(Seq<char>, Jv)>::empty()
                + req_entry("id"@, s.id)
                + req_entry("access_code"@, s.access_code)
                + req_entry("portfolio_id"@, s.portfolio_id)
                + req_entry("user"@, s.user)
                + req_entry("alerts_enabled"@, s.alerts_enabled)
                + req_entry("company_event_alerts_enabled"@, s.company_event_alerts_enabled)
                + req_entry("price_alerts_enabled"@, s.price_alerts_enabled)
                + req_entry("invitation"@, s.invitation)
                + req_entry("links"@, s.links),
        )
    }

    fn encode(&self) -> (r: JsonValue) {
        let mut o = JsonObj::new();
        o.put("id", &self.id);
        o.put("access_code", &self.access_code);
        o.put("portfolio_id", &self.portfolio_id);
        o.put("user", &self.user);
        o.put("alerts_enabled", &self.alerts_enabled);
        o.put("company_event_alerts_enabled", &self.company_event_alerts_enabled);
        o.put("price_alerts_enabled", &self.price_alerts_enabled);
        o.put("invitation", &self.invitation);
        o.put("links", &self.links);
        o.finish()
    }
}

impl FromJson for MembershipUpdateSuccess {
    open spec fn decodable(v: Jv) -> bool {
        &&& v is Obj
        &&& req_field_ok::<i64>(v, "id"@)
        &&& req_field_ok::<String>(v, "access_code"@)
        &&& req_field_ok::<i64>(v, "portfolio_id"@)
        &&& req_field_ok::<MembershipUpdateUserSuccess>(v, "user"@)
        &&& req_field_ok::<bool>(v, "alerts_enabled"@)
        &&& req_field_ok::<bool>(v, "company_event_alerts_enabled"@)
        &&& req_field_ok::<bool>(v, "price_alerts_enabled"@)
        &&& req_field_ok::<MembershipUpdateInvitationSuccess>(v, "invitation"@)
        &&& req_field_ok::<MembershipUpdateLinksSuccess>(v, "links"@)
    }

    open spec fn rel(v: Jv, s: Self) -> bool {
        &&& v is Obj
        &&& req_field_rel::<i64>(v, "id"@, s.id)
        &&& req_field_rel::<String>(v, "access_code"@, s.access_code)
        &&& req_field_rel::<i64>(v, "portfolio_id"@, s.portfolio_id)
        &&& req_field_rel::<MembershipUpdateUserSuccess>(v, "user"@, s.user)
        &&& req_field_rel::<bool>(v, "alerts_enabled"@, s.alerts_enabled)
        &&& req_field_rel::<bool>(v, "company_event_alerts_enabled"@, s.company_event_alerts_enabled)
        &&& req_field_rel::<bool>(v, "price_alerts_enabled"@, s.price_alerts_enabled)
        &&& req_field_rel::<MembershipUpdateInvitationSuccess>(v, "invitation"@, s.invitation)
        &&& req_field_rel::<MembershipUpdateLinksSuccess>(v, "links"@, s.links)
    }

    fn decode(v: &JsonValue) -> (r: Result<Self, DecodeError>) {
        let id: i64 = match get_field(v, "id") {
            Ok(x) => x,
            Err(e) => {
                return Err(e);
            },
        };
        let access_code: String = match get_field(v, "access_code") {
            Ok(x) => x,
            Err(e) => {
                return Err(e);
            },
        };
        let portfolio_id: i64 = match get_field(v, "portfolio_id") {
            Ok(x) => x,
            Err(e) => {
                return Err(e);
            },
        };
        let user: MembershipUpdateUserSuccess = match get_field(v, "user") {
            Ok(x) => x,
            Err(e) => {
                return Err(e);
            },
        };
        let alerts_enabled: bool = match get_field(v, "alerts_enabled") {
            Ok(x) => x,
            Err(e) => {
                return Err(e);
            },
        };
        let company_event_alerts_enabled: bool = match get_field(v, "company_event_alerts_enabled") {
            Ok(x) => x,
            Err(e) => {
                return Err(e);
            },
        };
        let price_alerts_enabled: bool = match get_field(v, "price_alerts_enabled") {
            Ok(x) => x,
            Err(e) => {
                return Err(e);
            },
        };
        let invitation: MembershipUpdateInvitationSuccess = match get_field(v, "invitation") {
            Ok(x) => x,
            Err(e) => {
                return Err(e);
            },
        };
        let links: MembershipUpdateLinksSuccess = match get_field(v, "links") {
            Ok(x) => x,
            Err(e) => {
                return Err(e);
            },
        };
        Ok(MembershipUpdateSuccess { id, access_code, portfolio_id, user, alerts_enabled, company_event_alerts_enabled, price_alerts_enabled, invitation, links })
    }
}

/// A nested response shape of [`MembershipUpdate`].
#[derive(Debug, Clone, PartialEq)]
pub struct MembershipUpdateUserSuccess {
    pub id: i64,
    pub first_name: String,
    pub last_name: String,
}

impl ToJson for MembershipUpdateUserSuccess {
    open spec fn enc(s: Self) -> Jv {
        Jv::Obj(
            Seq::<(Seq<char>, Jv)>::empty()
                + req_entry("id"@, s.id)
                + req_entry("first_name"@, s.first_name)
                + req_entry("last_name"@, s.last_name),
        )
    }

    fn encode(&self) -> (r: JsonValue) {
        let mut o = JsonObj::new();
        o.put("id", &self.id);
        o.put("first_name", &self.first_name);
        o.put("last_name", &self.last_name);
        o.finish()
    }
}

impl FromJson for MembershipUpdateUserSuccess {
    open spec fn decodable(v: Jv) -> bool {
        &&& v is Obj
        &&& req_field_ok::<i64>(v, "id"@)
        &&& req_field_ok::<String>(v, "first_name"@)
        &&& req_field_ok::<String>(v, "last_name"@)
    }

    open spec fn rel(v: Jv, s: Self) -> bool {
        &&& v is Obj
        &&& req_field_rel::<i64>(v, "id"@, s.id)
        &&& req_field_rel::<String>(v, "first_name"@, s.first_name)
        &&& req_field_rel::<String>(v, "last_name"@, s.last_name)
    }

    fn decode(v: &JsonValue) -> (r: Result<Self, DecodeError>) {
        let id: i64 = match get_field(v, "id") {
            Ok(x) => x,
            Err(e) => {
                return Err(e);
            },
        };
        let first_name: String = match get_field(v, "first_name") {
            Ok(x) => x,
            Err(e) => {
                return Err(e);
            },
        };
        let last_name: String = match get_field(v, "last_name") {
            Ok(x) => x,
            Err(e) => {
                return Err(e);
            },
        };
        Ok(MembershipUpdateUserSuccess { id, first_name, last_name })
    }
}

/// A nested response shape of [`MembershipUpdate`].
#[derive(Debug, Clone, PartialEq)]
pub struct MembershipUpdateInvitationSuccess {
    pub id: i64,
    pub text: String,
    pub url: String,
    pub status: String,
    pub invitation_path: String,
}

impl ToJson for MembershipUpdateInvitationSuccess {
    open spec fn enc(s: Self) -> Jv {
        Jv::Obj(
            Seq::<(Seq<char>, Jv)>::empty()
                + req_entry("id"@, s.id)
                + req_entry("text"@, s.text)
                + req_entry("url"@, s.url)
                + req_entry("status"@, s.status)
                + req_entry("invitation_path"@, s.invitation_path),
        )
    }

    fn encode(&self) -> (r: JsonValue) {
        let mut o = JsonObj::new();
        o.put("id", &self.id);
        o.put("text", &self.text);
        o.put("url", &self.url);
        o.put("status", &self.status);
        o.put("invitation_path", &self.invitation_path);
        o.finish()
    }
}

impl FromJson for MembershipUpdateInvitationSuccess {
    open spec fn decodable(v: Jv) -> bool {
        &&& v is Obj
        &&& req_field_ok::<i64>(v, "id"@)
        &&& req_field_ok::<String>(v, "text"@)
        &&& req_field_ok::<String>(v, "url"@)
        &&& req_field_ok::<String>(v, "status"@)
        &&& req_field_ok::<String>(v, "invitation_path"@)
    }

    open spec fn rel(v: Jv, s: Self) -> bool {
        &&& v is Obj
        &&& req_field_rel::<i64>(v, "id"@, s.id)
        &&& req_field_rel::<String>(v, "text"@, s.text)
        &&& req_field_rel::<String>(v, "url"@, s.url)
        &&& req_field_rel::<String>(v, "status"@, s.status)
        &&& req_field_rel::<String>(v, "invitation_path"@, s.invitation_path)
    }

    fn decode(v: &JsonValue) -> (r: Result<Self, DecodeError>) {
        let id: i64 = match get_field(v, "id") {
            Ok(x) => x,
            Err(e) => {
                return Err(e);
            },
        };
        let text: String = match get_field(v, "text") {
            Ok(x) => x,
            Err(e) => {
                return Err(e);
            },
        };
        let url: String = match get_field(v, "url") {
            Ok(x) => x,
            Err(e) => {
                return Err(e);
            },
        };
        let status: String = match get_field(v, "status") {
            Ok(x) => x,
            Err(e) => {
                return Err(e);
            },
        };
        let invitation_path: String = match get_field(v, "invitation_path") {
            Ok(x) => x,
            Err(e) => {
                return Err(e);
            },
        };
        Ok(MembershipUpdateInvitationSuccess { id, text, url, status, invitation_path })
    }
}

/// A nested response shape of [`MembershipUpdate`].
#[derive(Debug, Clone, PartialEq)]
pub struct MembershipUpdateLinksSuccess {
    pub portfolio: String,
}

impl ToJson for MembershipUpdateLinksSuccess {
    open spec fn enc(s: Self) -> Jv {
        Jv::Obj(
            Seq::<(Seq<char>, Jv)>::empty()
                + req_entry("portfolio"@, s.portfolio),
        )
    }

    fn encode(&self) -> (r: JsonValue) {
        let mut o = JsonObj::new();
        o.put("portfolio", &self.portfolio);
        o.finish()
    }
}

impl FromJson for MembershipUpdateLinksSuccess {
    open spec fn decodable(v: Jv) -> bool {
        &&& v is Obj
        &&& req_field_ok::<String>(v, "portfolio"@)
    }

    open spec fn rel(v: Jv, s: Self) -> bool {
        &&& v is Obj
        &&& req_field_rel::<String>(v, "portfolio"@, s.portfolio)
    }

    fn decode(v: &JsonValue) -> (r: Result<Self, DecodeError>) {
        let portfolio: String = match get_field(v, "portfolio") {
            Ok(x) => x,
            Err(e) => {
                return Err(e);
            },
        };
        Ok(MembershipUpdateLinksSuccess { portfolio })
    }
}

} // verus!
