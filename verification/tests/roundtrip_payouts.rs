#![allow(unused_imports)]

use sharesight_types::codec::FromJson;
use sharesight_types::codec::Ignored;
use sharesight_types::codec::ToJson;
use sharesight_types::date::Date;
use sharesight_types::date::DateTime;
use sharesight_types::json::Decimal;
use sharesight_types::enums::Country;
use sharesight_types::enums::Currency;
use sharesight_types::enums::Market;
use sharesight_types::enums::PayoutDescription;
use sharesight_types::enums::SaleAllocationMethod;
use sharesight_types::enums::TradeDescription;
use sharesight_types::payouts::ListHoldingPayoutsLinksSuccess;
use sharesight_types::payouts::ListHoldingPayoutsParameters;
use sharesight_types::payouts::ListHoldingPayoutsPayoutsDrpTradeAttributesSuccess;
use sharesight_types::payouts::ListHoldingPayoutsPayoutsLinksSuccess;
use sharesight_types::payouts::ListHoldingPayoutsPayoutsSuccess;
use sharesight_types::payouts::ListHoldingPayoutsSuccess;
use sharesight_types::payouts::ListPortfolioPayoutsLinksSuccess;
use sharesight_types::payouts::ListPortfolioPayoutsParameters;
use sharesight_types::payouts::ListPortfolioPayoutsPayoutsDrpTradeAttributesSuccess;
use sharesight_types::payouts::ListPortfolioPayoutsPayoutsLinksSuccess;
use sharesight_types::payouts::ListPortfolioPayoutsPayoutsSuccess;
use sharesight_types::payouts::ListPortfolioPayoutsSuccess;
use sharesight_types::payouts::PayoutConfirmParameters;
use sharesight_types::payouts::PayoutConfirmPayoutDrpTradeAttributesParameters;
use sharesight_types::payouts::PayoutConfirmPayoutParameters;
use sharesight_types::payouts::PayoutConfirmPayoutSuccess;
use sharesight_types::payouts::PayoutConfirmSuccess;
use sharesight_types::payouts::PayoutCreateParameters;
use sharesight_types::payouts::PayoutCreatePayoutDrpTradeAttributesParameters;
use sharesight_types::payouts::PayoutCreatePayoutDrpTradeAttributesSuccess;
use sharesight_types::payouts::PayoutCreatePayoutLinksSuccess;
use sharesight_types::payouts::PayoutCreatePayoutParameters;
use sharesight_types::payouts::PayoutCreatePayoutSuccess;
use sharesight_types::payouts::PayoutCreateSuccess;
use sharesight_types::payouts::PayoutDeleteParameters;
use sharesight_types::payouts::PayoutDeleteSuccess;
use sharesight_types::payouts::PayoutRejectParameters;
use sharesight_types::payouts::PayoutRejectPayoutSuccess;
use sharesight_types::payouts::PayoutRejectSuccess;
use sharesight_types::payouts::PayoutShowDrpTradeAttributesSuccess;
use sharesight_types::payouts::PayoutShowLinksSuccess;
use sharesight_types::payouts::PayoutShowParameters;
use sharesight_types::payouts::PayoutShowSuccess;
use sharesight_types::payouts::PayoutUpdateDrpTradeAttributesSuccess;
use sharesight_types::payouts::PayoutUpdateLinksSuccess;
use sharesight_types::payouts::PayoutUpdateParameters;
use sharesight_types::payouts::PayoutUpdatePayoutDrpTradeAttributesParameters;
use sharesight_types::payouts::PayoutUpdatePayoutParameters;
use sharesight_types::payouts::PayoutUpdateSuccess;

#[test]
fn round_trip_list_holding_payouts_parameters() {
    let s = ListHoldingPayoutsParameters { holding_id: 1, start_date: Some(Date::from_ymd(2020, 1, 15).unwrap()), end_date: Some(Date::from_ymd(2020, 1, 15).unwrap()), use_date: Some("s2".to_string()) };
    let v = s.encode();
    let d = ListHoldingPayoutsParameters::decode(&v).unwrap();
    assert_eq!(d, s);
}

#[test]
fn round_trip_list_holding_payouts_success() {
    let s = ListHoldingPayoutsSuccess { payouts: vec![ListHoldingPayoutsPayoutsSuccess { id: "s1".to_string(), symbol: "s2".to_string(), market: Market::Asx, paid_on: "s3".to_string(), ex_date: "s4".to_string(), amount: Decimal::new(false, 5, 2), gross_amount: Decimal::new(false, 6, 2), transaction_description: PayoutDescription::Dividend, resident_withholding_tax: Decimal::new(false, 7, 2), non_resident_withholding_tax: Decimal::new(false, 8, 2), tax_credit: Decimal::new(false, 9, 2), currency: Currency::Aud, exchange_rate: Decimal::new(false, 10, 2), non_taxable: true, comments: "s11".to_string(), other_net_fsi: Decimal::new(false, 12, 2), lic_capital_gain: Decimal::new(false, 13, 2), company_event_id: 14, state: "s15".to_string(), drp_trade_attributes: ListHoldingPayoutsPayoutsDrpTradeAttributesSuccess { dividend_reinvested: true, quantity: Decimal::new(false, 16, 2), price: Decimal::new(false, 17, 2), source_adjustment_id: 18 }, franked_amount: Decimal::new(false, 19, 2), unfranked_amount: Decimal::new(false, 20, 2), trust: true, extra_interest_payment_amount: Decimal::new(false, 21, 2), capital_gains: Decimal::new(false, 22, 2), discounted_capital_gains: Decimal::new(false, 23, 2), interest_payment: Decimal::new(false, 24, 2), foreign_source_income: Decimal::new(false, 25, 2), deferred_income: Decimal::new(false, 26, 2), non_assessable: true, cgt_concession_amount: Decimal::new(false, 27, 2), amit_decrease_amount: Decimal::new(false, 28, 2), amit_increase_amount: Decimal::new(false, 29, 2), links: ListHoldingPayoutsPayoutsLinksSuccess { portfolio: "s30".to_string() } }], links: ListHoldingPayoutsLinksSuccess { itself: "s31".to_string() } };
    let v = s.encode();
    let d = ListHoldingPayoutsSuccess::decode(&v).unwrap();
    assert_eq!(d, s);
}

#[test]
fn round_trip_list_holding_payouts_payouts_success() {
    let s = ListHoldingPayoutsPayoutsSuccess { id: "s1".to_string(), symbol: "s2".to_string(), market: Market::Asx, paid_on: "s3".to_string(), ex_date: "s4".to_string(), amount: Decimal::new(false, 5, 2), gross_amount: Decimal::new(false, 6, 2), transaction_description: PayoutDescription::Dividend, resident_withholding_tax: Decimal::new(false, 7, 2), non_resident_withholding_tax: Decimal::new(false, 8, 2), tax_credit: Decimal::new(false, 9, 2), currency: Currency::Aud, exchange_rate: Decimal::new(false, 10, 2), non_taxable: true, comments: "s11".to_string(), other_net_fsi: Decimal::new(false, 12, 2), lic_capital_gain: Decimal::new(false, 13, 2), company_event_id: 14, state: "s15".to_string(), drp_trade_attributes: ListHoldingPayoutsPayoutsDrpTradeAttributesSuccess { dividend_reinvested: true, quantity: Decimal::new(false, 16, 2), price: Decimal::new(false, 17, 2), source_adjustment_id: 18 }, franked_amount: Decimal::new(false, 19, 2), unfranked_amount: Decimal::new(false, 20, 2), trust: true, extra_interest_payment_amount: Decimal::new(false, 21, 2), capital_gains: Decimal::new(false, 22, 2), discounted_capital_gains: Decimal::new(false, 23, 2), interest_payment: Decimal::new(false, 24, 2), foreign_source_income: Decimal::new(false, 25, 2), deferred_income: Decimal::new(false, 26, 2), non_assessable: true, cgt_concession_amount: Decimal::new(false, 27, 2), amit_decrease_amount: Decimal::new(false, 28, 2), amit_increase_amount: Decimal::new(false, 29, 2), links: ListHoldingPayoutsPayoutsLinksSuccess { portfolio: "s30".to_string() } };
    let v = s.encode();
    let d = ListHoldingPayoutsPayoutsSuccess::decode(&v).unwrap();
    assert_eq!(d, s);
}

#[test]
fn round_trip_list_holding_payouts_payouts_drp_trade_attributes_success() {
    let s = ListHoldingPayoutsPayoutsDrpTradeAttributesSuccess { dividend_reinvested: true, quantity: Decimal::new(false, 1, 2), price: Decimal::new(false, 2, 2), source_adjustment_id: 3 };
    let v = s.encode();
    let d = ListHoldingPayoutsPayoutsDrpTradeAttributesSuccess::decode(&v).unwrap();
    assert_eq!(d, s);
}

#[test]
fn round_trip_list_holding_payouts_payouts_links_success() {
    let s = ListHoldingPayoutsPayoutsLinksSuccess { portfolio: "s1".to_string() };
    let v = s.encode();
    let d = ListHoldingPayoutsPayoutsLinksSuccess::decode(&v).unwrap();
    assert_eq!(d, s);
}

#[test]
fn round_trip_list_holding_payouts_links_success() {
    let s = ListHoldingPayoutsLinksSuccess { itself: "s1".to_string() };
    let v = s.encode();
    let d = ListHoldingPayoutsLinksSuccess::decode(&v).unwrap();
    assert_eq!(d, s);
}

#[test]
fn round_trip_list_portfolio_payouts_parameters() {
    let s = ListPortfolioPayoutsParameters { portfolio_id: 1, start_date: Some(Date::from_ymd(2020, 1, 15).unwrap()), end_date: Some(Date::from_ymd(2020, 1, 15).unwrap()), use_date: Some("s2".to_string()) };
    let v = s.encode();
    let d = ListPortfolioPayoutsParameters::decode(&v).unwrap();
    assert_eq!(d, s);
}

#[test]
fn round_trip_list_portfolio_payouts_success() {
    let s = ListPortfolioPayoutsSuccess { payouts: vec![ListPortfolioPayoutsPayoutsSuccess { id: "s1".to_string(), portfolio_id: 2, holding_id: 3, instrument_id: 4, symbol: "s5".to_string(), market: Market::Asx, paid_on: "s6".to_string(), ex_date: "s7".to_string(), amount: Decimal::new(false, 8, 2), gross_amount: Decimal::new(false, 9, 2), resident_withholding_tax: Decimal::new(false, 10, 2), non_resident_withholding_tax: Decimal::new(false, 11, 2), tax_credit: Decimal::new(false, 12, 2), currency: Currency::Aud, exchange_rate: Decimal::new(false, 13, 2), non_taxable: "s14".to_string(), comments: "s15".to_string(), other_net_fsi: Decimal::new(false, 16, 2), company_event_id: 17, state: "s18".to_string(), drp_trade_attributes: ListPortfolioPayoutsPayoutsDrpTradeAttributesSuccess { dividend_reinvested: true, quantity: Decimal::new(false, 19, 2), price: Decimal::new(false, 20, 2), source_adjustment_id: 21 }, franked_amount: Decimal::new(false, 22, 2), unfranked_amount: Decimal::new(false, 23, 2), trust: true, extra_interest_payment_amount: Decimal::new(false, 24, 2), capital_gains: Decimal::new(false, 25, 2), discounted_capital_gains: Decimal::new(false, 26, 2), interest_payment: Decimal::new(false, 27, 2), foreign_source_income: Decimal::new(false, 28, 2), deferred_income: Decimal::new(false, 29, 2), non_assessable: true, amit_decrease_amount: Decimal::new(false, 30, 2), amit_increase_amount: Decimal::new(false, 31, 2), links: ListPortfolioPayoutsPayoutsLinksSuccess { portfolio: "s32".to_string() } }], links: ListPortfolioPayoutsLinksSuccess { itself: "s33".to_string() } };
    let v = s.encode();
    let d = ListPortfolioPayoutsSuccess::decode(&v).unwrap();
    assert_eq!(d, s);
}

#[test]
fn round_trip_list_portfolio_payouts_payouts_success() {
    let s = ListPortfolioPayoutsPayoutsSuccess { id: "s1".to_string(), portfolio_id: 2, holding_id: 3, instrument_id: 4, symbol: "s5".to_string(), market: Market::Asx, paid_on: "s6".to_string(), ex_date: "s7".to_string(), amount: Decimal::new(false, 8, 2), gross_amount: Decimal::new(false, 9, 2), resident_withholding_tax: Decimal::new(false, 10, 2), non_resident_withholding_tax: Decimal::new(false, 11, 2), tax_credit: Decimal::new(false, 12, 2), currency: Currency::Aud, exchange_rate: Decimal::new(false, 13, 2), non_taxable: "s14".to_string(), comments: "s15".to_string(), other_net_fsi: Decimal::new(false, 16, 2), company_event_id: 17, state: "s18".to_string(), drp_trade_attributes: ListPortfolioPayoutsPayoutsDrpTradeAttributesSuccess { dividend_reinvested: true, quantity: Decimal::new(false, 19, 2), price: Decimal::new(false, 20, 2), source_adjustment_id: 21 }, franked_amount: Decimal::new(false, 22, 2), unfranked_amount: Decimal::new(false, 23, 2), trust: true, extra_interest_payment_amount: Decimal::new(false, 24, 2), capital_gains: Decimal::new(false, 25, 2), discounted_capital_gains: Decimal::new(false, 26, 2), interest_payment: Decimal::new(false, 27, 2), foreign_source_income: Decimal::new(false, 28, 2), deferred_income: Decimal::new(false, 29, 2), non_assessable: true, amit_decrease_amount: Decimal::new(false, 30, 2), amit_increase_amount: Decimal::new(false, 31, 2), links: ListPortfolioPayoutsPayoutsLinksSuccess { portfolio: "s32".to_string() } };
    let v = s.encode();
    let d = ListPortfolioPayoutsPayoutsSuccess::decode(&v).unwrap();
    assert_eq!(d, s);
}

#[test]
fn round_trip_list_portfolio_payouts_payouts_drp_trade_attributes_success() {
    let s = ListPortfolioPayoutsPayoutsDrpTradeAttributesSuccess { dividend_reinvested: true, quantity: Decimal::new(false, 1, 2), price: Decimal::new(false, 2, 2), source_adjustment_id: 3 };
    let v = s.encode();
    let d = ListPortfolioPayoutsPayoutsDrpTradeAttributesSuccess::decode(&v).unwrap();
    assert_eq!(d, s);
}

#[test]
fn round_trip_list_portfolio_payouts_payouts_links_success() {
    let s = ListPortfolioPayoutsPayoutsLinksSuccess { portfolio: "s1".to_string() };
    let v = s.encode();
    let d = ListPortfolioPayoutsPayoutsLinksSuccess::decode(&v).unwrap();
    assert_eq!(d, s);
}

#[test]
fn round_trip_list_portfolio_payouts_links_success() {
    let s = ListPortfolioPayoutsLinksSuccess { itself: "s1".to_string() };
    let v = s.encode();
    let d = ListPortfolioPayoutsLinksSuccess::decode(&v).unwrap();
    assert_eq!(d, s);
}

#[test]
fn round_trip_payout_confirm_payout_parameters() {
    let s = PayoutConfirmPayoutParameters { holding_id: 1, company_event_id: 2, paid_on: Date::from_ymd(2020, 1, 15).unwrap(), state: "s3".to_string(), drp_trade_attributes: Some(PayoutConfirmPayoutDrpTradeAttributesParameters { dividend_reinvested: Some(true), quantity: Some(Decimal::new(false, 4, 2)), price: Some(Decimal::new(false, 5, 2)), source_adjustment_id: Some(6) }) };
    let v = s.encode();
    let d = PayoutConfirmPayoutParameters::decode(&v).unwrap();
    assert_eq!(d, s);
}

#[test]
fn round_trip_payout_confirm_payout_drp_trade_attributes_parameters() {
    let s = PayoutConfirmPayoutDrpTradeAttributesParameters { dividend_reinvested: Some(true), quantity: Some(Decimal::new(false, 1, 2)), price: Some(Decimal::new(false, 2, 2)), source_adjustment_id: Some(3) };
    let v = s.encode();
    let d = PayoutConfirmPayoutDrpTradeAttributesParameters::decode(&v).unwrap();
    assert_eq!(d, s);
}

#[test]
fn round_trip_payout_confirm_parameters() {
    let s = PayoutConfirmParameters { payout: PayoutConfirmPayoutParameters { holding_id: 1, company_event_id: 2, paid_on: Date::from_ymd(2020, 1, 15).unwrap(), state: "s3".to_string(), drp_trade_attributes: Some(PayoutConfirmPayoutDrpTradeAttributesParameters { dividend_reinvested: Some(true), quantity: Some(Decimal::new(false, 4, 2)), price: Some(Decimal::new(false, 5, 2)), source_adjustment_id: Some(6) }) } };
    let v = s.encode();
    let d = PayoutConfirmParameters::decode(&v).unwrap();
    assert_eq!(d, s);
}

#[test]
fn round_trip_payout_confirm_success() {
    let s = PayoutConfirmSuccess { payout: PayoutConfirmPayoutSuccess { id: 1, portfolio_id: 2, holding_id: 3, instrument_id: 4, symbol: "s5".to_string(), market: Market::Asx, paid_on: Date::from_ymd(2020, 1, 15).unwrap(), ex_date: Date::from_ymd(2020, 1, 15).unwrap(), amount: Decimal::new(false, 6, 2), gross_amount: Decimal::new(false, 7, 2), resident_withholding_tax: Decimal::new(false, 8, 2), non_resident_withholding_tax: Decimal::new(false, 9, 2), tax_credit: Decimal::new(false, 10, 2), currency: Currency::Aud, exchange_rate: Decimal::new(false, 11, 2), non_taxable: "s12".to_string(), comments: "s13".to_string(), company_event_id: 14, state: "s15".to_string() } };
    let v = s.encode();
    let d = PayoutConfirmSuccess::decode(&v).unwrap();
    assert_eq!(d, s);
}

#[test]
fn round_trip_payout_confirm_payout_success() {
    let s = PayoutConfirmPayoutSuccess { id: 1, portfolio_id: 2, holding_id: 3, instrument_id: 4, symbol: "s5".to_string(), market: Market::Asx, paid_on: Date::from_ymd(2020, 1, 15).unwrap(), ex_date: Date::from_ymd(2020, 1, 15).unwrap(), amount: Decimal::new(false, 6, 2), gross_amount: Decimal::new(false, 7, 2), resident_withholding_tax: Decimal::new(false, 8, 2), non_resident_withholding_tax: Decimal::new(false, 9, 2), tax_credit: Decimal::new(false, 10, 2), currency: Currency::Aud, exchange_rate: Decimal::new(false, 11, 2), non_taxable: "s12".to_string(), comments: "s13".to_string(), company_event_id: 14, state: "s15".to_string() };
    let v = s.encode();
    let d = PayoutConfirmPayoutSuccess::decode(&v).unwrap();
    assert_eq!(d, s);
}

#[test]
fn round_trip_payout_create_parameters() {
    let s = PayoutCreateParameters { payout: PayoutCreatePayoutParameters { portfolio_id: 1, holding_id: 2, symbol: "s3".to_string(), market: Market::Asx, paid_on: Date::from_ymd(2020, 1, 15).unwrap(), amount: Decimal::new(false, 4, 2), currency_code: Currency::Aud, goes_ex_on: Some(Date::from_ymd(2020, 1, 15).unwrap()), resident_withholding_tax: Some(Decimal::new(false, 5, 2)), non_resident_withholding_tax: Some(Decimal::new(false, 6, 2)), tax_credit: Some(Decimal::new(false, 7, 2)), exchange_rate: Some(Decimal::new(false, 8, 2)), adjustment_id: Some(9), comments: Some("s10".to_string()), non_taxable: Some(true), source_payment_date: Some("s11".to_string()), send_to_xero: Some(true), banked_amount: Some(Decimal::new(false, 12, 2)), drp_trade_attributes: Some(PayoutCreatePayoutDrpTradeAttributesParameters { dividend_reinvested: Some(true), quantity: Some(Decimal::new(false, 13, 2)), price: Some(Decimal::new(false, 14, 2)), source_adjustment_id: Some(15) }), franked_amount: Decimal::new(false, 16, 2), unfranked_amount: Decimal::new(false, 17, 2), trust: true, extra_interest_payment_amount: Some(Decimal::new(false, 18, 2)), capital_gains: Some(Decimal::new(false, 19, 2)), discounted_capital_gains: Some(Decimal::new(false, 20, 2)), foreign_source_income: Some(Decimal::new(false, 21, 2)), lic_capital_gain: Some(Decimal::new(false, 22, 2)), non_assessable: Some(true), deferred_income: Decimal::new(false, 23, 2), cgt_concession_amount: Decimal::new(false, 24, 2), amit_decrease_amount: Decimal::new(false, 25, 2), amit_increase_amount: Decimal::new(false, 26, 2), file_name: "s27".to_string(), file_attachment: "s28".to_string() } };
    let v = s.encode();
    let d = PayoutCreateParameters::decode(&v).unwrap();
    assert_eq!(d, s);
}

#[test]
fn round_trip_payout_create_payout_parameters() {
    let s = PayoutCreatePayoutParameters { portfolio_id: 1, holding_id: 2, symbol: "s3".to_string(), market: Market::Asx, paid_on: Date::from_ymd(2020, 1, 15).unwrap(), amount: Decimal::new(false, 4, 2), currency_code: Currency::Aud, goes_ex_on: Some(Date::from_ymd(2020, 1, 15).unwrap()), resident_withholding_tax: Some(Decimal::new(false, 5, 2)), non_resident_withholding_tax: Some(Decimal::new(false, 6, 2)), tax_credit: Some(Decimal::new(false, 7, 2)), exchange_rate: Some(Decimal::new(false, 8, 2)), adjustment_id: Some(9), comments: Some("s10".to_string()), non_taxable: Some(true), source_payment_date: Some("s11".to_string()), send_to_xero: Some(true), banked_amount: Some(Decimal::new(false, 12, 2)), drp_trade_attributes: Some(PayoutCreatePayoutDrpTradeAttributesParameters { dividend_reinvested: Some(true), quantity: Some(Decimal::new(false, 13, 2)), price: Some(Decimal::new(false, 14, 2)), source_adjustment_id: Some(15) }), franked_amount: Decimal::new(false, 16, 2), unfranked_amount: Decimal::new(false, 17, 2), trust: true, extra_interest_payment_amount: Some(Decimal::new(false, 18, 2)), capital_gains: Some(Decimal::new(false, 19, 2)), discounted_capital_gains: Some(Decimal::new(false, 20, 2)), foreign_source_income: Some(Decimal::new(false, 21, 2)), lic_capital_gain: Some(Decimal::new(false, 22, 2)), non_assessable: Some(true), deferred_income: Decimal::new(false, 23, 2), cgt_concession_amount: Decimal::new(false, 24, 2), amit_decrease_amount: Decimal::new(false, 25, 2), amit_increase_amount: Decimal::new(false, 26, 2), file_name: "s27".to_string(), file_attachment: "s28".to_string() };
    let v = s.encode();
    let d = PayoutCreatePayoutParameters::decode(&v).unwrap();
    assert_eq!(d, s);
}

#[test]
fn round_trip_payout_create_payout_drp_trade_attributes_parameters() {
    let s = PayoutCreatePayoutDrpTradeAttributesParameters { dividend_reinvested: Some(true), quantity: Some(Decimal::new(false, 1, 2)), price: Some(Decimal::new(false, 2, 2)), source_adjustment_id: Some(3) };
    let v = s.encode();
    let d = PayoutCreatePayoutDrpTradeAttributesParameters::decode(&v).unwrap();
    assert_eq!(d, s);
}

#[test]
fn round_trip_payout_create_success() {
    let s = PayoutCreateSuccess { payout: PayoutCreatePayoutSuccess { id: 1, symbol: "s2".to_string(), market: Market::Asx, paid_on: "s3".to_string(), ex_date: "s4".to_string(), amount: Decimal::new(false, 5, 2), gross_amount: Decimal::new(false, 6, 2), resident_withholding_tax: Decimal::new(false, 7, 2), non_resident_withholding_tax: Decimal::new(false, 8, 2), tax_credit: Decimal::new(false, 9, 2), currency: Currency::Aud, exchange_rate: Decimal::new(false, 10, 2), non_taxable: true, franked_amount: Decimal::new(false, 11, 2), unfranked_amount: Decimal::new(false, 12, 2), comments: "s13".to_string(), interest_payment: Decimal::new(false, 14, 2), non_discounted_capital_gains: Decimal::new(false, 15, 2), discounted_capital_gains: Decimal::new(false, 16, 2), foreign_tax_income: Decimal::new(false, 17, 2), non_assessable: Decimal::new(false, 18, 2), trust: true, drp_trade_attributes: PayoutCreatePayoutDrpTradeAttributesSuccess { dividend_reinvested: true, quantity: Decimal::new(false, 19, 2), price: Decimal::new(false, 20, 2), source_adjustment_id: 21 }, extra_interest_payment_amount: Decimal::new(false, 22, 2), capital_gains: Decimal::new(false, 23, 2), foreign_source_income: Decimal::new(false, 24, 2), deferred_income: Decimal::new(false, 25, 2), cgt_concession_amount: Decimal::new(false, 26, 2), amit_decrease_amount: Decimal::new(false, 27, 2), amit_increase_amount: Decimal::new(false, 28, 2), attachment_filename: "s29".to_string(), attachment_id: "s30".to_string(), links: PayoutCreatePayoutLinksSuccess { portfolio: "s31".to_string() } } };
    let v = s.encode();
    let d = PayoutCreateSuccess::decode(&v).unwrap();
    assert_eq!(d, s);
}

#[test]
fn round_trip_payout_create_payout_success() {
    let s = PayoutCreatePayoutSuccess { id: 1, symbol: "s2".to_string(), market: Market::Asx, paid_on: "s3".to_string(), ex_date: "s4".to_string(), amount: Decimal::new(false, 5, 2), gross_amount: Decimal::new(false, 6, 2), resident_withholding_tax: Decimal::new(false, 7, 2), non_resident_withholding_tax: Decimal::new(false, 8, 2), tax_credit: Decimal::new(false, 9, 2), currency: Currency::Aud, exchange_rate: Decimal::new(false, 10, 2), non_taxable: true, franked_amount: Decimal::new(false, 11, 2), unfranked_amount: Decimal::new(false, 12, 2), comments: "s13".to_string(), interest_payment: Decimal::new(false, 14, 2), non_discounted_capital_gains: Decimal::new(false, 15, 2), discounted_capital_gains: Decimal::new(false, 16, 2), foreign_tax_income: Decimal::new(false, 17, 2), non_assessable: Decimal::new(false, 18, 2), trust: true, drp_trade_attributes: PayoutCreatePayoutDrpTradeAttributesSuccess { dividend_reinvested: true, quantity: Decimal::new(false, 19, 2), price: Decimal::new(false, 20, 2), source_adjustment_id: 21 }, extra_interest_payment_amount: Decimal::new(false, 22, 2), capital_gains: Decimal::new(false, 23, 2), foreign_source_income: Decimal::new(false, 24, 2), deferred_income: Decimal::new(false, 25, 2), cgt_concession_amount: Decimal::new(false, 26, 2), amit_decrease_amount: Decimal::new(false, 27, 2), amit_increase_amount: Decimal::new(false, 28, 2), attachment_filename: "s29".to_string(), attachment_id: "s30".to_string(), links: PayoutCreatePayoutLinksSuccess { portfolio: "s31".to_string() } };
    let v = s.encode();
    let d = PayoutCreatePayoutSuccess::decode(&v).unwrap();
    assert_eq!(d, s);
}

#[test]
fn round_trip_payout_create_payout_drp_trade_attributes_success() {
    let s = PayoutCreatePayoutDrpTradeAttributesSuccess { dividend_reinvested: true, quantity: Decimal::new(false, 1, 2), price: Decimal::new(false, 2, 2), source_adjustment_id: 3 };
    let v = s.encode();
    let d = PayoutCreatePayoutDrpTradeAttributesSuccess::decode(&v).unwrap();
    assert_eq!(d, s);
}

#[test]
fn round_trip_payout_create_payout_links_success() {
    let s = PayoutCreatePayoutLinksSuccess { portfolio: "s1".to_string() };
    let v = s.encode();
    let d = PayoutCreatePayoutLinksSuccess::decode(&v).unwrap();
    assert_eq!(d, s);
}

#[test]
fn round_trip_payout_delete_parameters() {
    let s = PayoutDeleteParameters { id: 1 };
    let v = s.encode();
    let d = PayoutDeleteParameters::decode(&v).unwrap();
    assert_eq!(d, s);
}

#[test]
fn round_trip_payout_delete_success() {
    let s = PayoutDeleteSuccess { deleted: true };
    let v = s.encode();
    let d = PayoutDeleteSuccess::decode(&v).unwrap();
    assert_eq!(d, s);
}

#[test]
fn round_trip_payout_reject_parameters() {
    let s = PayoutRejectParameters { holding_id: 1, company_event_id: 2, state: "s3".to_string() };
    let v = s.encode();
    let d = PayoutRejectParameters::decode(&v).unwrap();
    assert_eq!(d, s);
}

#[test]
fn round_trip_payout_reject_success() {
    let s = PayoutRejectSuccess { payout: PayoutRejectPayoutSuccess { id: 1, portfolio_id: 2, holding_id: 3, instrument_id: 4, symbol: "s5".to_string(), market: Market::Asx, paid_on: Date::from_ymd(2020, 1, 15).unwrap(), ex_date: Date::from_ymd(2020, 1, 15).unwrap(), amount: Decimal::new(false, 6, 2), gross_amount: Decimal::new(false, 7, 2), resident_withholding_tax: Decimal::new(false, 8, 2), non_resident_withholding_tax: Decimal::new(false, 9, 2), tax_credit: Decimal::new(false, 10, 2), currency: Currency::Aud, exchange_rate: Decimal::new(false, 11, 2), non_taxable: true, comments: "s12".to_string(), company_event_id: 13, state: "s14".to_string() } };
    let v = s.encode();
    let d = PayoutRejectSuccess::decode(&v).unwrap();
    assert_eq!(d, s);
}

#[test]
fn round_trip_payout_reject_payout_success() {
    let s = PayoutRejectPayoutSuccess { id: 1, portfolio_id: 2, holding_id: 3, instrument_id: 4, symbol: "s5".to_string(), market: Market::Asx, paid_on: Date::from_ymd(2020, 1, 15).unwrap(), ex_date: Date::from_ymd(2020, 1, 15).unwrap(), amount: Decimal::new(false, 6, 2), gross_amount: Decimal::new(false, 7, 2), resident_withholding_tax: Decimal::new(false, 8, 2), non_resident_withholding_tax: Decimal::new(false, 9, 2), tax_credit: Decimal::new(false, 10, 2), currency: Currency::Aud, exchange_rate: Decimal::new(false, 11, 2), non_taxable: true, comments: "s12".to_string(), company_event_id: 13, state: "s14".to_string() };
    let v = s.encode();
    let d = PayoutRejectPayoutSuccess::decode(&v).unwrap();
    assert_eq!(d, s);
}

#[test]
fn round_trip_payout_show_parameters() {
    let s = PayoutShowParameters { id: 1 };
    let v = s.encode();
    let d = PayoutShowParameters::decode(&v).unwrap();
    assert_eq!(d, s);
}

#[test]
fn round_trip_payout_show_success() {
    let s = PayoutShowSuccess { id: 1, portfolio_id: 2, holding_id: 3, instrument_id: 4, symbol: "s5".to_string(), market: Market::Asx, paid_on: "s6".to_string(), ex_date: "s7".to_string(), amount: Decimal::new(false, 8, 2), gross_amount: Decimal::new(false, 9, 2), resident_withholding_tax: Decimal::new(false, 10, 2), non_resident_withholding_tax: Decimal::new(false, 11, 2), tax_credit: Decimal::new(false, 12, 2), currency: Currency::Aud, exchange_rate: Decimal::new(false, 13, 2), non_taxable: "s14".to_string(), comments: "s15".to_string(), other_net_fsi: Decimal::new(false, 16, 2), lic_capital_gain: Decimal::new(false, 17, 2), company_event_id: 18, state: "s19".to_string(), drp_trade_attributes: PayoutShowDrpTradeAttributesSuccess { dividend_reinvested: true, quantity: Decimal::new(false, 20, 2), price: Decimal::new(false, 21, 2), source_adjustment_id: 22 }, franked_amount: Decimal::new(false, 23, 2), unfranked_amount: Decimal::new(false, 24, 2), trust: true, extra_interest_payment_amount: Decimal::new(false, 25, 2), capital_gains: Decimal::new(false, 26, 2), discounted_capital_gains: Decimal::new(false, 27, 2), foreign_source_income: Decimal::new(false, 28, 2), non_assessable: true, deferred_income: Decimal::new(false, 29, 2), cgt_concession_amount: Decimal::new(false, 30, 2), amit_decrease_amount: Decimal::new(false, 31, 2), amit_increase_amount: Decimal::new(false, 32, 2), attachment_filename: "s33".to_string(), attachment_id: "s34".to_string(), links: PayoutShowLinksSuccess { itself: "s35".to_string(), portfolio: "s36".to_string() } };
    let v = s.encode();
    let d = PayoutShowSuccess::decode(&v).unwrap();
    assert_eq!(d, s);
}

#[test]
fn round_trip_payout_show_drp_trade_attributes_success() {
    let s = PayoutShowDrpTradeAttributesSuccess { dividend_reinvested: true, quantity: Decimal::new(false, 1, 2), price: Decimal::new(false, 2, 2), source_adjustment_id: 3 };
    let v = s.encode();
    let d = PayoutShowDrpTradeAttributesSuccess::decode(&v).unwrap();
    assert_eq!(d, s);
}

#[test]
fn round_trip_payout_show_links_success() {
    let s = PayoutShowLinksSuccess { itself: "s1".to_string(), portfolio: "s2".to_string() };
    let v = s.encode();
    let d = PayoutShowLinksSuccess::decode(&v).unwrap();
    assert_eq!(d, s);
}

#[test]
fn round_trip_payout_update_parameters() {
    let s = PayoutUpdateParameters { id: 1, payout: PayoutUpdatePayoutParameters { paid_on: Some(Date::from_ymd(2020, 1, 15).unwrap()), goes_ex_on: Some(Date::from_ymd(2020, 1, 15).unwrap()), resident_withholding_tax: Some(Decimal::new(false, 2, 2)), non_resident_withholding_tax: Some(Decimal::new(false, 3, 2)), tax_credit: Some(Decimal::new(false, 4, 2)), exchange_rate: Some(Decimal::new(false, 5, 2)), amount: Some(Decimal::new(false, 6, 2)), adjustment_id: Some(7), comments: Some("s8".to_string()), non_taxable: Some(true), currency_code: Some(Currency::Aud), source_payment_date: Some(Date::from_ymd(2020, 1, 15).unwrap()), send_to_xero: Some(true), banked_amount: Some(Decimal::new(false, 9, 2)), source_adjustment_id: Some(10), drp_trade_attributes: Some(PayoutUpdatePayoutDrpTradeAttributesParameters { dividend_reinvested: Some(true), quantity: Some(Decimal::new(false, 11, 2)), price: Some(Decimal::new(false, 12, 2)), source_adjustment_id: Some(13) }), franked_amount: Some(Decimal::new(false, 14, 2)), unfranked_amount: Some(Decimal::new(false, 15, 2)), trust: Some(true), extra_interest_payment_amount: Some(Decimal::new(false, 16, 2)), capital_gains: Some(Decimal::new(false, 17, 2)), discounted_capital_gains: Some(Decimal::new(false, 18, 2)), foreign_source_income: Some(Decimal::new(false, 19, 2)), lic_capital_gain: Some(Decimal::new(false, 20, 2)), non_assessable: Some(true), deferred_income: Decimal::new(false, 21, 2), cgt_concession_amount: Decimal::new(false, 22, 2), amit_decrease_amount: Decimal::new(false, 23, 2), amit_increase_amount: Decimal::new(false, 24, 2) } };
    let v = s.encode();
    let d = PayoutUpdateParameters::decode(&v).unwrap();
    assert_eq!(d, s);
}

#[test]
fn round_trip_payout_update_payout_parameters() {
    let s = PayoutUpdatePayoutParameters { paid_on: Some(Date::from_ymd(2020, 1, 15).unwrap()), goes_ex_on: Some(Date::from_ymd(2020, 1, 15).unwrap()), resident_withholding_tax: Some(Decimal::new(false, 1, 2)), non_resident_withholding_tax: Some(Decimal::new(false, 2, 2)), tax_credit: Some(Decimal::new(false, 3, 2)), exchange_rate: Some(Decimal::new(false, 4, 2)), amount: Some(Decimal::new(false, 5, 2)), adjustment_id: Some(6), comments: Some("s7".to_string()), non_taxable: Some(true), currency_code: Some(Currency::Aud), source_payment_date: Some(Date::from_ymd(2020, 1, 15).unwrap()), send_to_xero: Some(true), banked_amount: Some(Decimal::new(false, 8, 2)), source_adjustment_id: Some(9), drp_trade_attributes: Some(PayoutUpdatePayoutDrpTradeAttributesParameters { dividend_reinvested: Some(true), quantity: Some(Decimal::new(false, 10, 2)), price: Some(Decimal::new(false, 11, 2)), source_adjustment_id: Some(12) }), franked_amount: Some(Decimal::new(false, 13, 2)), unfranked_amount: Some(Decimal::new(false, 14, 2)), trust: Some(true), extra_interest_payment_amount: Some(Decimal::new(false, 15, 2)), capital_gains: Some(Decimal::new(false, 16, 2)), discounted_capital_gains: Some(Decimal::new(false, 17, 2)), foreign_source_income: Some(Decimal::new(false, 18, 2)), lic_capital_gain: Some(Decimal::new(false, 19, 2)), non_assessable: Some(true), deferred_income: Decimal::new(false, 20, 2), cgt_concession_amount: Decimal::new(false, 21, 2), amit_decrease_amount: Decimal::new(false, 22, 2), amit_increase_amount: Decimal::new(false, 23, 2) };
    let v = s.encode();
    let d = PayoutUpdatePayoutParameters::decode(&v).unwrap();
    assert_eq!(d, s);
}

#[test]
fn round_trip_payout_update_payout_drp_trade_attributes_parameters() {
    let s = PayoutUpdatePayoutDrpTradeAttributesParameters { dividend_reinvested: Some(true), quantity: Some(Decimal::new(false, 1, 2)), price: Some(Decimal::new(false, 2, 2)), source_adjustment_id: Some(3) };
    let v = s.encode();
    let d = PayoutUpdatePayoutDrpTradeAttributesParameters::decode(&v).unwrap();
    assert_eq!(d, s);
}

#[test]
fn round_trip_payout_update_success() {
    let s = PayoutUpdateSuccess { id: 1, symbol: "s2".to_string(), market: Market::Asx, paid_on: Date::from_ymd(2020, 1, 15).unwrap(), ex_date: Date::from_ymd(2020, 1, 15).unwrap(), amount: Decimal::new(false, 3, 2), gross_amount: Decimal::new(false, 4, 2), resident_withholding_tax: Decimal::new(false, 5, 2), non_resident_withholding_tax: Decimal::new(false, 6, 2), tax_credit: Decimal::new(false, 7, 2), currency: Currency::Aud, exchange_rate: Decimal::new(false, 8, 2), non_taxable: "s9".to_string(), comments: "s10".to_string(), company_event_id: 11, state: "s12".to_string(), drp_trade_attributes: PayoutUpdateDrpTradeAttributesSuccess { dividend_reinvested: true, quantity: Decimal::new(false, 13, 2), price: Decimal::new(false, 14, 2), source_adjustment_id: 15 }, franked_amount: Decimal::new(false, 16, 2), unfranked_amount: Decimal::new(false, 17, 2), trust: true, extra_interest_payment_amount: Decimal::new(false, 18, 2), capital_gains: Decimal::new(false, 19, 2), discounted_capital_gains: Decimal::new(false, 20, 2), foreign_source_income: Decimal::new(false, 21, 2), non_assessable: true, deferred_income: Decimal::new(false, 22, 2), cgt_concession_amount: Decimal::new(false, 23, 2), amit_decrease_amount: Decimal::new(false, 24, 2), amit_increase_amount: Decimal::new(false, 25, 2), attachment_filename: "s26".to_string(), attachment_id: "s27".to_string(), links: PayoutUpdateLinksSuccess { portfolio: "s28".to_string() } };
    let v = s.encode();
    let d = PayoutUpdateSuccess::decode(&v).unwrap();
    assert_eq!(d, s);
}

#[test]
fn round_trip_payout_update_drp_trade_attributes_success() {
    let s = PayoutUpdateDrpTradeAttributesSuccess { dividend_reinvested: true, quantity: Decimal::new(false, 1, 2), price: Decimal::new(false, 2, 2), source_adjustment_id: 3 };
    let v = s.encode();
    let d = PayoutUpdateDrpTradeAttributesSuccess::decode(&v).unwrap();
    assert_eq!(d, s);
}

#[test]
fn round_trip_payout_update_links_success() {
    let s = PayoutUpdateLinksSuccess { portfolio: "s1".to_string() };
    let v = s.encode();
    let d = PayoutUpdateLinksSuccess::decode(&v).unwrap();
    assert_eq!(d, s);
}
