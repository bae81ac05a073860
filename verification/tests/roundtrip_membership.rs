#![allow(unused_imports)]

use sharesight_types::codec::FromJson;
use sharesight_types::codec::Ignored;
use sharesight_types::codec::ToJson;
use sharesight_types::date::Date;
use sharesight_types::date::DateTime;
use sharesight_types::json::Decimal;
use sharesight_types::enums::Country;
use sharesight_types::enums::Currency;
use sharesight_types::enums::Market;
use sharesight_types::enums::PayoutDescription;
use sharesight_types::enums::SaleAllocationMethod;
use sharesight_types::enums::TradeDescription;
use sharesight_types::membership::MembershipCreateInvitationParameters;
use sharesight_types::membership::MembershipCreateInvitationSuccess;
use sharesight_types::membership::MembershipCreateLinksSuccess;
use sharesight_types::membership::MembershipCreateMembershipParameters;
use sharesight_types::membership::MembershipCreateParameters;
use sharesight_types::membership::MembershipCreateSuccess;
use sharesight_types::membership::MembershipCreateUserParameters;
use sharesight_types::membership::MembershipCreateUserSuccess;
use sharesight_types::membership::MembershipDeleteParameters;
use sharesight_types::membership::MembershipListLinksSuccess;
use sharesight_types::membership::MembershipListMembershipsInvitationSuccess;
use sharesight_types::membership::MembershipListMembershipsLinksSuccess;
use sharesight_types::membership::MembershipListMembershipsSuccess;
use sharesight_types::membership::MembershipListMembershipsUserSuccess;
use sharesight_types::membership::MembershipListPortfoliosSuccess;
use sharesight_types::membership::MembershipListSuccess;
use sharesight_types::membership::MembershipUpdateInvitationSuccess;
use sharesight_types::membership::MembershipUpdateLinksSuccess;
use sharesight_types::membership::MembershipUpdateParameters;
use sharesight_types::membership::MembershipUpdateSuccess;
use sharesight_types::membership::MembershipUpdateUserSuccess;

#[test]
fn round_trip_membership_create_parameters() {
    let s = MembershipCreateParameters { membership: MembershipCreateMembershipParameters { portfolio_id: 1, access_code: "s2".to_string(), user_id: Some(3) }, user: Some(MembershipCreateUserParameters { email: "s4".to_string(), first_name: "s5".to_string(), last_name: "s6".to_string() }), invitation: MembershipCreateInvitationParameters { text: Some("s7".to_string()), no_email: Some(true) } };
    let v = s.encode();
    let d = MembershipCreateParameters::decode(&v).unwrap();
    assert_eq!(d, s);
}

#[test]
fn round_trip_membership_create_membership_parameters() {
    let s = MembershipCreateMembershipParameters { portfolio_id: 1, access_code: "s2".to_string(), user_id: Some(3) };
    let v = s.encode();
    let d = MembershipCreateMembershipParameters::decode(&v).unwrap();
    assert_eq!(d, s);
}

#[test]
fn round_trip_membership_create_user_parameters() {
    let s = MembershipCreateUserParameters { email: "s1".to_string(), first_name: "s2".to_string(), last_name: "s3".to_string() };
    let v = s.encode();
    let d = MembershipCreateUserParameters::decode(&v).unwrap();
    assert_eq!(d, s);
}

#[test]
fn round_trip_membership_create_invitation_parameters() {
    let s = MembershipCreateInvitationParameters { text: Some("s1".to_string()), no_email: Some(true) };
    let v = s.encode();
    let d = MembershipCreateInvitationParameters::decode(&v).unwrap();
    assert_eq!(d, s);
}

#[test]
fn round_trip_membership_create_success() {
    let s = MembershipCreateSuccess { id: 1, access_code: "s2".to_string(), portfolio_id: 3, organisation_name: "s4".to_string(), shared_with_organisation: true, user: MembershipCreateUserSuccess { id: 5, first_name: 6, last_name: 7 }, alerts_enabled: true, company_event_alerts_enabled: true, price_alerts_enabled: true, invitation: MembershipCreateInvitationSuccess { id: 8, text: "s9".to_string(), status: "s10".to_string(), url: "s11".to_string() }, links: MembershipCreateLinksSuccess { portfolio: "s12".to_string() } };
    let v = s.encode();
    let d = MembershipCreateSuccess::decode(&v).unwrap();
    assert_eq!(d, s);
}

#[test]
fn round_trip_membership_create_user_success() {
    let s = MembershipCreateUserSuccess { id: 1, first_name: 2, last_name: 3 };
    let v = s.encode();
    let d = MembershipCreateUserSuccess::decode(&v).unwrap();
    assert_eq!(d, s);
}

#[test]
fn round_trip_membership_create_invitation_success() {
    let s = MembershipCreateInvitationSuccess { id: 1, text: "s2".to_string(), status: "s3".to_string(), url: "s4".to_string() };
    let v = s.encode();
    let d = MembershipCreateInvitationSuccess::decode(&v).unwrap();
    assert_eq!(d, s);
}

#[test]
fn round_trip_membership_create_links_success() {
    let s = MembershipCreateLinksSuccess { portfolio: "s1".to_string() };
    let v = s.encode();
    let d = MembershipCreateLinksSuccess::decode(&v).unwrap();
    assert_eq!(d, s);
}

#[test]
fn round_trip_membership_delete_parameters() {
    let s = MembershipDeleteParameters { id: 1 };
    let v = s.encode();
    let d = MembershipDeleteParameters::decode(&v).unwrap();
    assert_eq!(d, s);
}

#[test]
fn round_trip_membership_list_success() {
    let s = MembershipListSuccess { memberships: vec![MembershipListMembershipsSuccess { id: 1, access_code: "s2".to_string(), portfolio_id: 3, user: MembershipListMembershipsUserSuccess { id: 4, first_name: "s5".to_string(), last_name: "s6".to_string() }, alerts_enabled: true, company_event_alerts_enabled: true, price_alerts_enabled: true, invitation: MembershipListMembershipsInvitationSuccess { id: 7, text: "s8".to_string(), url: "s9".to_string(), status: "s10".to_string() }, links: MembershipListMembershipsLinksSuccess { portfolio: "s11".to_string() } }], organisation_name: "s12".to_string(), shared_with_organisation: true, links: MembershipListLinksSuccess { itself: "s13".to_string() } };
    let v = s.encode();
    let d = MembershipListSuccess::decode(&v).unwrap();
    assert_eq!(d, s);
}

#[test]
fn round_trip_membership_list_memberships_success() {
    let s = MembershipListMembershipsSuccess { id: 1, access_code: "s2".to_string(), portfolio_id: 3, user: MembershipListMembershipsUserSuccess { id: 4, first_name: "s5".to_string(), last_name: "s6".to_string() }, alerts_enabled: true, company_event_alerts_enabled: true, price_alerts_enabled: true, invitation: MembershipListMembershipsInvitationSuccess { id: 7, text: "s8".to_string(), url: "s9".to_string(), status: "s10".to_string() }, links: MembershipListMembershipsLinksSuccess { portfolio: "s11".to_string() } };
    let v = s.encode();
    let d = MembershipListMembershipsSuccess::decode(&v).unwrap();
    assert_eq!(d, s);
}

#[test]
fn round_trip_membership_list_memberships_user_success() {
    let s = MembershipListMembershipsUserSuccess { id: 1, first_name: "s2".to_string(), last_name: "s3".to_string() };
    let v = s.encode();
    let d = MembershipListMembershipsUserSuccess::decode(&v).unwrap();
    assert_eq!(d, s);
}

#[test]
fn round_trip_membership_list_portfolios_success() {
    let s = MembershipListPortfoliosSuccess { api_email_notification: 1, contract_note_email_notification: 2 };
    let v = s.encode();
    let d = MembershipListPortfoliosSuccess::decode(&v).unwrap();
    assert_eq!(d, s);
}

#[test]
fn round_trip_membership_list_memberships_invitation_success() {
    let s = MembershipListMembershipsInvitationSuccess { id: 1, text: "s2".to_string(), url: "s3".to_string(), status: "s4".to_string() };
    let v = s.encode();
    let d = MembershipListMembershipsInvitationSuccess::decode(&v).unwrap();
    assert_eq!(d, s);
}

#[test]
fn round_trip_membership_list_memberships_links_success() {
    let s = MembershipListMembershipsLinksSuccess { portfolio: "s1".to_string() };
    let v = s.encode();
    let d = MembershipListMembershipsLinksSuccess::decode(&v).unwrap();
    assert_eq!(d, s);
}

#[test]
fn round_trip_membership_list_links_success() {
    let s = MembershipListLinksSuccess { itself: "s1".to_string() };
    let v = s.encode();
    let d = MembershipListLinksSuccess::decode(&v).unwrap();
    assert_eq!(d, s);
}

#[test]
fn round_trip_membership_update_parameters() {
    let s = MembershipUpdateParameters { id: 1, access_code: "s2".to_string() };
    let v = s.encode();
    let d = MembershipUpdateParameters::decode(&v).unwrap();
    assert_eq!(d, s);
}

#[test]
fn round_trip_membership_update_success() {
    let s = MembershipUpdateSuccess { id: 1, access_code: "s2".to_string(), portfolio_id: 3, user: MembershipUpdateUserSuccess { id: 4, first_name: "s5".to_string(), last_name: "s6".to_string() }, alerts_enabled: true, company_event_alerts_enabled: true, price_alerts_enabled: true, invitation: MembershipUpdateInvitationSuccess { id: 7, text: "s8".to_string(), url: "s9".to_string(), status: "s10".to_string(), invitation_path: "s11".to_string() }, links: MembershipUpdateLinksSuccess { portfolio: "s12".to_string() } };
    let v = s.encode();
    let d = MembershipUpdateSuccess::decode(&v).unwrap();
    assert_eq!(d, s);
}

#[test]
fn round_trip_membership_update_user_success() {
    let s = MembershipUpdateUserSuccess { id: 1, first_name: "s2".to_string(), last_name: "s3".to_string() };
    let v = s.encode();
    let d = MembershipUpdateUserSuccess::decode(&v).unwrap();
    assert_eq!(d, s);
}

#[test]
fn round_trip_membership_update_invitation_success() {
    let s = MembershipUpdateInvitationSuccess { id: 1, text: "s2".to_string(), url: "s3".to_string(), status: "s4".to_string(), invitation_path: "s5".to_string() };
    let v = s.encode();
    let d = MembershipUpdateInvitationSuccess::decode(&v).unwrap();
    assert_eq!(d, s);
}

#[test]
fn round_trip_membership_update_links_success() {
    let s = MembershipUpdateLinksSuccess { portfolio: "s1".to_string() };
    let v = s.encode();
    let d = MembershipUpdateLinksSuccess::decode(&v).unwrap();
    assert_eq!(d, s);
}
