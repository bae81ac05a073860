#![allow(unused_imports)]

use sharesight_types::codec::FromJson;
use sharesight_types::codec::Ignored;
use sharesight_types::codec::ToJson;
use sharesight_types::date::Date;
use sharesight_types::date::DateTime;
use sharesight_types::json::Decimal;
use sharesight_types::enums::Country;
use sharesight_types::enums::Currency;
use sharesight_types::enums::Market;
use sharesight_types::enums::PayoutDescription;
use sharesight_types::enums::SaleAllocationMethod;
use sharesight_types::enums::TradeDescription;
use sharesight_types::users::CurrenciesCurrenciesSuccess;
use sharesight_types::users::CurrenciesSuccess;
use sharesight_types::users::IdentityByTokenParameters;
use sharesight_types::users::IdentityByTokenSuccess;
use sharesight_types::users::IdentitySignupByTokenParameters;
use sharesight_types::users::IdentitySignupByTokenSuccess;
use sharesight_types::users::MyUserSuccess;
use sharesight_types::users::MyUserUserSuccess;
use sharesight_types::users::RequestSingleSignOnSuccess;

#[test]
fn round_trip_currencies_success() {
    let s = CurrenciesSuccess { currencies: vec![CurrenciesCurrenciesSuccess { code: "s1".to_string(), id: "s2".to_string(), description: "s3".to_string(), in_use_from: Date::from_ymd(2020, 1, 15).unwrap(), in_use_until: Date::from_ymd(2020, 1, 15).unwrap(), source_feeds: "s4".to_string() }] };
    let v = s.encode();
    let d = CurrenciesSuccess::decode(&v).unwrap();
    assert_eq!(d, s);
}

#[test]
fn round_trip_currencies_currencies_success() {
    let s = CurrenciesCurrenciesSuccess { code: "s1".to_string(), id: "s2".to_string(), description: "s3".to_string(), in_use_from: Date::from_ymd(2020, 1, 15).unwrap(), in_use_until: Date::from_ymd(2020, 1, 15).unwrap(), source_feeds: "s4".to_string() };
    let v = s.encode();
    let d = CurrenciesCurrenciesSuccess::decode(&v).unwrap();
    assert_eq!(d, s);
}

#[test]
fn round_trip_identity_by_token_parameters() {
    let s = IdentityByTokenParameters { id_token: "s1".to_string(), client_id: "s2".to_string() };
    let v = s.encode();
    let d = IdentityByTokenParameters::decode(&v).unwrap();
    assert_eq!(d, s);
}

#[test]
fn round_trip_identity_by_token_success() {
    let s = IdentityByTokenSuccess { access_token: "s1".to_string(), refresh_token: "s2".to_string(), expires_in: 3, token_type: "s4".to_string() };
    let v = s.encode();
    let d = IdentityByTokenSuccess::decode(&v).unwrap();
    assert_eq!(d, s);
}

#[test]
fn round_trip_identity_signup_by_token_parameters() {
    let s = IdentitySignupByTokenParameters { id_token: "s1".to_string(), client_id: "s2".to_string(), country_code: Country::Au };
    let v = s.encode();
    let d = IdentitySignupByTokenParameters::decode(&v).unwrap();
    assert_eq!(d, s);
}

#[test]
fn round_trip_identity_signup_by_token_success() {
    let s = IdentitySignupByTokenSuccess { access_token: "s1".to_string(), refresh_token: "s2".to_string(), expires_in: 3, token_type: "s4".to_string() };
    let v = s.encode();
    let d = IdentitySignupByTokenSuccess::decode(&v).unwrap();
    assert_eq!(d, s);
}

#[test]
fn round_trip_my_user_success() {
    let s = MyUserSuccess { user: MyUserUserSuccess { id: 1, name: "s2".to_string(), first_name: "s3".to_string(), last_name: "s4".to_string(), email: "s5".to_string(), plan_code: "s6".to_string(), is_activated: true, is_free: true, is_beta: true, is_guest: true, is_staff: true, is_professional: true, is_cancelled: true, is_expired: true } };
    let v = s.encode();
    let d = MyUserSuccess::decode(&v).unwrap();
    assert_eq!(d, s);
}

#[test]
fn round_trip_my_user_user_success() {
    let s = MyUserUserSuccess { id: 1, name: "s2".to_string(), first_name: "s3".to_string(), last_name: "s4".to_string(), email: "s5".to_string(), plan_code: "s6".to_string(), is_activated: true, is_free: true, is_beta: true, is_guest: true, is_staff: true, is_professional: true, is_cancelled: true, is_expired: true };
    let v = s.encode();
    let d = MyUserUserSuccess::decode(&v).unwrap();
    assert_eq!(d, s);
}

#[test]
fn round_trip_request_single_sign_on_success() {
    let s = RequestSingleSignOnSuccess { login_url: "s1".to_string() };
    let v = s.encode();
    let d = RequestSingleSignOnSuccess::decode(&v).unwrap();
    assert_eq!(d, s);
}
