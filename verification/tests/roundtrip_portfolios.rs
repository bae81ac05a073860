#![allow(unused_imports)]

use sharesight_types::codec::FromJson;
use sharesight_types::codec::Ignored;
use sharesight_types::codec::ToJson;
use sharesight_types::date::Date;
use sharesight_types::date::DateTime;
use sharesight_types::json::Decimal;
use sharesight_types::enums::Country;
use sharesight_types::enums::Currency;
use sharesight_types::enums::Market;
use sharesight_types::enums::PayoutDescription;
use sharesight_types::enums::SaleAllocationMethod;
use sharesight_types::enums::TradeDescription;
use sharesight_types::portfolios::GroupsListGroupsSuccess;
use sharesight_types::portfolios::GroupsListSuccess;
use sharesight_types::portfolios::PortfolioCreateParameters;
use sharesight_types::portfolios::PortfolioDeleteParameters;
use sharesight_types::portfolios::PortfolioDeleteSuccess;
use sharesight_types::portfolios::PortfolioListLinksSuccess;
use sharesight_types::portfolios::PortfolioListPortfoliosLinksSuccess;
use sharesight_types::portfolios::PortfolioListPortfoliosSuccess;
use sharesight_types::portfolios::PortfolioListSuccess;
use sharesight_types::portfolios::PortfolioShowLinksSuccess;
use sharesight_types::portfolios::PortfolioShowParameters;
use sharesight_types::portfolios::PortfolioShowSuccess;
use sharesight_types::portfolios::PortfolioUpdateLinksSuccess;
use sharesight_types::portfolios::PortfolioUpdateParameters;
use sharesight_types::portfolios::PortfolioUpdateSuccess;

#[test]
fn round_trip_portfolio_create_parameters() {
    let s = PortfolioCreateParameters { name: "s1".to_string(), broker_email_api_enabled: true, financial_year_end_month_id: 2, financial_year_end: "s3".to_string(), default_sale_allocation_method: SaleAllocationMethod::Fifo, interest_method: "s4".to_string(), trader: true, tax_entity_type: "s5".to_string(), disable_automatic_transactions: Some(true), cg_discount_id: 6, rwtr_rate: Decimal::new(false, 7, 2), country_code: Some(Country::Au), apply_cash_account_adjustments: Some(true), buy_trade_settlement_delay: Some(8), sell_trade_settlement_delay: Some(9), account_for_delayed_cash_transactions: Some(true) };
    let v = s.encode();
    let d = PortfolioCreateParameters::decode(&v).unwrap();
    assert_eq!(d, s);
}

#[test]
fn round_trip_portfolio_delete_parameters() {
    let s = PortfolioDeleteParameters { id: 1 };
    let v = s.encode();
    let d = PortfolioDeleteParameters::decode(&v).unwrap();
    assert_eq!(d, s);
}

#[test]
fn round_trip_portfolio_delete_success() {
    let s = PortfolioDeleteSuccess { status: Ignored };
    let v = s.encode();
    let d = PortfolioDeleteSuccess::decode(&v).unwrap();
    assert_eq!(d, s);
}

#[test]
fn round_trip_portfolio_list_success() {
    let s = PortfolioListSuccess { portfolios: vec![PortfolioListPortfoliosSuccess { id: 1, name: "s2".to_string(), default_sale_allocation_method: SaleAllocationMethod::Fifo, cg_discount: "s3".to_string(), rwtr_rate: Decimal::new(false, 4, 2), trader: Some(true), disable_automatic_transactions: true, broker_email_api_enabled: true, broker_email_key: "s5".to_string(), financial_year_end_month_id: 6, financial_year_end: "s7".to_string(), interest_method: "s8".to_string(), country_code: Country::Au, currency_code: Currency::Aud, inception_date: Date::from_ymd(2020, 1, 15).unwrap(), tz_name: "s9".to_string(), apply_cash_account_adjustments: true, buy_trade_settlement_delay: Some(10), sell_trade_settlement_delay: Some(11), account_for_delayed_cash_transactions: true, links: PortfolioListPortfoliosLinksSuccess { portfolio: "s12".to_string() } }], trade_sync_cash_account_id: Some(13), links: PortfolioListLinksSuccess { itself: "s14".to_string() } };
    let v = s.encode();
    let d = PortfolioListSuccess::decode(&v).unwrap();
    assert_eq!(d, s);
}

#[test]
fn round_trip_portfolio_list_portfolios_success() {
    let s = PortfolioListPortfoliosSuccess { id: 1, name: "s2".to_string(), default_sale_allocation_method: SaleAllocationMethod::Fifo, cg_discount: "s3".to_string(), rwtr_rate: Decimal::new(false, 4, 2), trader: Some(true), disable_automatic_transactions: true, broker_email_api_enabled: true, broker_email_key: "s5".to_string(), financial_year_end_month_id: 6, financial_year_end: "s7".to_string(), interest_method: "s8".to_string(), country_code: Country::Au, currency_code: Currency::Aud, inception_date: Date::from_ymd(2020, 1, 15).unwrap(), tz_name: "s9".to_string(), apply_cash_account_adjustments: true, buy_trade_settlement_delay: Some(10), sell_trade_settlement_delay: Some(11), account_for_delayed_cash_transactions: true, links: PortfolioListPortfoliosLinksSuccess { portfolio: "s12".to_string() } };
    let v = s.encode();
    let d = PortfolioListPortfoliosSuccess::decode(&v).unwrap();
    assert_eq!(d, s);
}

#[test]
fn round_trip_portfolio_list_portfolios_links_success() {
    let s = PortfolioListPortfoliosLinksSuccess { portfolio: "s1".to_string() };
    let v = s.encode();
    let d = PortfolioListPortfoliosLinksSuccess::decode(&v).unwrap();
    assert_eq!(d, s);
}

#[test]
fn round_trip_portfolio_list_links_success() {
    let s = PortfolioListLinksSuccess { itself: "s1".to_string() };
    let v = s.encode();
    let d = PortfolioListLinksSuccess::decode(&v).unwrap();
    assert_eq!(d, s);
}

#[test]
fn round_trip_portfolio_show_parameters() {
    let s = PortfolioShowParameters { id: 1 };
    let v = s.encode();
    let d = PortfolioShowParameters::decode(&v).unwrap();
    assert_eq!(d, s);
}

#[test]
fn round_trip_portfolio_show_success() {
    let s = PortfolioShowSuccess { id: 1, name: "s2".to_string(), default_sale_allocation_method: SaleAllocationMethod::Fifo, cg_discount: "s3".to_string(), rwtr_rate: Decimal::new(false, 4, 2), trader: true, disable_automatic_transactions: true, tax_entity_type: "s5".to_string(), broker_email_api_enabled: true, broker_email_key: "s6".to_string(), financial_year_end_month_id: 7, financial_year_end: "s8".to_string(), interest_method: "s9".to_string(), country_code: Country::Au, currency_code: Currency::Aud, inception_date: Date::from_ymd(2020, 1, 15).unwrap(), tz_name: "s10".to_string(), apply_cash_account_adjustments: true, buy_trade_settlement_delay: 11, sell_trade_settlement_delay: 12, account_for_delayed_cash_transactions: true, trade_sync_cash_account_id: 13, links: PortfolioShowLinksSuccess { itself: "s14".to_string(), portfolio: "s15".to_string() } };
    let v = s.encode();
    let d = PortfolioShowSuccess::decode(&v).unwrap();
    assert_eq!(d, s);
}

#[test]
fn round_trip_portfolio_show_links_success() {
    let s = PortfolioShowLinksSuccess { itself: "s1".to_string(), portfolio: "s2".to_string() };
    let v = s.encode();
    let d = PortfolioShowLinksSuccess::decode(&v).unwrap();
    assert_eq!(d, s);
}

#[test]
fn round_trip_portfolio_update_parameters() {
    let s = PortfolioUpdateParameters { id: 1, name: "s2".to_string(), broker_email_api_enabled: true, financial_year_end_month_id: 3, financial_year_end: "s4".to_string(), default_sale_allocation_method: SaleAllocationMethod::Fifo, interest_method: "s5".to_string(), trader: true, tax_entity_type: "s6".to_string(), cg_discount_id: 7, rwtr_rate: Decimal::new(false, 8, 2), apply_cash_account_adjustments: Some(true), buy_trade_settlement_delay: Some(9), sell_trade_settlement_delay: Some(10), account_for_delayed_cash_transactions: Some(true), trade_sync_cash_account_id: 11 };
    let v = s.encode();
    let d = PortfolioUpdateParameters::decode(&v).unwrap();
    assert_eq!(d, s);
}

#[test]
fn round_trip_portfolio_update_success() {
    let s = PortfolioUpdateSuccess { id: 1, name: "s2".to_string(), default_sale_allocation_method: SaleAllocationMethod::Fifo, cg_discount: "s3".to_string(), rwtr_rate: Decimal::new(false, 4, 2), trader: true, tax_entity_type: "s5".to_string(), broker_email_api_enabled: true, broker_email_key: "s6".to_string(), financial_year_end_month_id: 7, financial_year_end: "s8".to_string(), interest_method: "s9".to_string(), country_code: Country::Au, currency_code: Currency::Aud, apply_cash_account_adjustments: true, buy_trade_settlement_delay: 10, sell_trade_settlement_delay: 11, account_for_delayed_cash_transactions: true, trade_sync_cash_account_id: 12, links: PortfolioUpdateLinksSuccess { itself: "s13".to_string(), portfolio: "s14".to_string() } };
    let v = s.encode();
    let d = PortfolioUpdateSuccess::decode(&v).unwrap();
    assert_eq!(d, s);
}

#[test]
fn round_trip_portfolio_update_links_success() {
    let s = PortfolioUpdateLinksSuccess { itself: "s1".to_string(), portfolio: "s2".to_string() };
    let v = s.encode();
    let d = PortfolioUpdateLinksSuccess::decode(&v).unwrap();
    assert_eq!(d, s);
}

#[test]
fn round_trip_groups_list_success() {
    let s = GroupsListSuccess { groups: vec![GroupsListGroupsSuccess { id: "s1".to_string(), name: "s2".to_string(), custom: "s3".to_string(), portfolio_ids: vec![4] }] };
    let v = s.encode();
    let d = GroupsListSuccess::decode(&v).unwrap();
    assert_eq!(d, s);
}

#[test]
fn round_trip_groups_list_groups_success() {
    let s = GroupsListGroupsSuccess { id: "s1".to_string(), name: "s2".to_string(), custom: "s3".to_string(), portfolio_ids: vec![4] };
    let v = s.encode();
    let d = GroupsListGroupsSuccess::decode(&v).unwrap();
    assert_eq!(d, s);
}
