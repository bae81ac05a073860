#![allow(unused_imports)]

use sharesight_types::codec::FromJson;
use sharesight_types::codec::Ignored;
use sharesight_types::codec::ToJson;
use sharesight_types::date::Date;
use sharesight_types::date::DateTime;
use sharesight_types::json::Decimal;
use sharesight_types::enums::Country;
use sharesight_types::enums::Currency;
use sharesight_types::enums::Market;
use sharesight_types::enums::PayoutDescription;
use sharesight_types::enums::SaleAllocationMethod;
use sharesight_types::enums::TradeDescription;
use sharesight_types::reports::CapitalGainsDiscountedCapitalGainDistributionsSuccess;
use sharesight_types::reports::CapitalGainsLongTermParcelsSuccess;
use sharesight_types::reports::CapitalGainsLossParcelsSuccess;
use sharesight_types::reports::CapitalGainsNonDiscountedCapitalGainDistributionsSuccess;
use sharesight_types::reports::CapitalGainsParameters;
use sharesight_types::reports::CapitalGainsShortTermParcelsSuccess;
use sharesight_types::reports::CapitalGainsSuccess;
use sharesight_types::reports::DiversityGroupsGroupElementsSuccess;
use sharesight_types::reports::DiversityGroupsGroupSuccess;
use sharesight_types::reports::DiversityGroupsSuccess;
use sharesight_types::reports::DiversityParameters;
use sharesight_types::reports::DiversitySuccess;
use sharesight_types::reports::PerformanceCashAccountsSuccess;
use sharesight_types::reports::PerformanceHoldingsSuccess;
use sharesight_types::reports::PerformanceParameters;
use sharesight_types::reports::PerformanceSubTotalsSuccess;
use sharesight_types::reports::PerformanceSuccess;
use sharesight_types::reports::UnrealisedCgtLongTermParcelsSuccess;
use sharesight_types::reports::UnrealisedCgtLossesSuccess;
use sharesight_types::reports::UnrealisedCgtParameters;
use sharesight_types::reports::UnrealisedCgtShortTermParcelsSuccess;
use sharesight_types::reports::UnrealisedCgtSuccess;
use sharesight_types::reports::ValuationCashAccountsSuccess;
use sharesight_types::reports::ValuationHoldingsSuccess;
use sharesight_types::reports::ValuationParameters;
use sharesight_types::reports::ValuationSubTotalsSuccess;
use sharesight_types::reports::ValuationSuccess;

#[test]
fn round_trip_capital_gains_parameters() {
    let s = CapitalGainsParameters { portfolio_id: 1, start_date: Some(Date::from_ymd(2020, 1, 15).unwrap()), end_date: Some(Date::from_ymd(2020, 1, 15).unwrap()) };
    let v = s.encode();
    let d = CapitalGainsParameters::decode(&v).unwrap();
    assert_eq!(d, s);
}

#[test]
fn round_trip_capital_gains_success() {
    let s = CapitalGainsSuccess { short_term_gains: Decimal::new(false, 1, 2), long_term_gains: Decimal::new(false, 2, 2), losses: Decimal::new(false, 3, 2), short_term_losses: Decimal::new(false, 4, 2), long_term_losses: Decimal::new(false, 5, 2), total_discounted_capital_gain_distributions: Decimal::new(false, 6, 2), total_non_discounted_capital_gain_distributions: Decimal::new(false, 7, 2), cgt_concession_rate: Decimal::new(false, 8, 2), cgt_concession_amount: Decimal::new(false, 9, 2), market_value: Decimal::new(false, 10, 2), tax_gain_loss: Decimal::new(false, 11, 2), discounted_capital_gain_distributions: vec![CapitalGainsDiscountedCapitalGainDistributionsSuccess { market: Market::Asx, symbol: "s12".to_string(), name: "s13".to_string(), gain: Decimal::new(false, 14, 2), gain_date: Date::from_ymd(2020, 1, 15).unwrap() }], non_discounted_capital_gain_distributions: vec![CapitalGainsNonDiscountedCapitalGainDistributionsSuccess { market: Market::Asx, symbol: "s15".to_string(), name: "s16".to_string(), gain: Decimal::new(false, 17, 2), gain_date: Date::from_ymd(2020, 1, 15).unwrap() }], short_term_parcels: vec![CapitalGainsShortTermParcelsSuccess { market: Market::Asx, symbol: "s18".to_string(), name: "s19".to_string(), allocation_method: "s20".to_string(), purchase_date: Date::from_ymd(2020, 1, 15).unwrap(), quantity: Decimal::new(false, 21, 2), cost_base: Decimal::new(false, 22, 2), market_value: Decimal::new(false, 23, 2), gain: Decimal::new(false, 24, 2), gain_date: Date::from_ymd(2020, 1, 15).unwrap() }], long_term_parcels: vec![CapitalGainsLongTermParcelsSuccess { market: Market::Asx, symbol: "s25".to_string(), name: "s26".to_string(), allocation_method: "s27".to_string(), purchase_date: Date::from_ymd(2020, 1, 15).unwrap(), quantity: Decimal::new(false, 28, 2), cost_base: Decimal::new(false, 29, 2), market_value: Decimal::new(false, 30, 2), gain: Decimal::new(false, 31, 2), gain_date: Date::from_ymd(2020, 1, 15).unwrap() }], loss_parcels: vec![CapitalGainsLossParcelsSuccess { market: Market::Asx, symbol: "s32".to_string(), name: "s33".to_string(), allocation_method: "s34".to_string(), purchase_date: Date::from_ymd(2020, 1, 15).unwrap(), quantity: Decimal::new(false, 35, 2), cost_base: Decimal::new(false, 36, 2), market_value: Decimal::new(false, 37, 2), gain: Decimal::new(false, 38, 2), gain_date: Date::from_ymd(2020, 1, 15).unwrap() }], start_date: Date::from_ymd(2020, 1, 15).unwrap(), end_date: Date::from_ymd(2020, 1, 15).unwrap(), portfolio_id: 39 };
    let v = s.encode();
    let d = CapitalGainsSuccess::decode(&v).unwrap();
    assert_eq!(d, s);
}

#[test]
fn round_trip_capital_gains_discounted_capital_gain_distributions_success() {
    let s = CapitalGainsDiscountedCapitalGainDistributionsSuccess { market: Market::Asx, symbol: "s1".to_string(), name: "s2".to_string(), gain: Decimal::new(false, 3, 2), gain_date: Date::from_ymd(2020, 1, 15).unwrap() };
    let v = s.encode();
    let d = CapitalGainsDiscountedCapitalGainDistributionsSuccess::decode(&v).unwrap();
    assert_eq!(d, s);
}

#[test]
fn round_trip_capital_gains_non_discounted_capital_gain_distributions_success() {
    let s = CapitalGainsNonDiscountedCapitalGainDistributionsSuccess { market: Market::Asx, symbol: "s1".to_string(), name: "s2".to_string(), gain: Decimal::new(false, 3, 2), gain_date: Date::from_ymd(2020, 1, 15).unwrap() };
    let v = s.encode();
    let d = CapitalGainsNonDiscountedCapitalGainDistributionsSuccess::decode(&v).unwrap();
    assert_eq!(d, s);
}

#[test]
fn round_trip_capital_gains_short_term_parcels_success() {
    let s = CapitalGainsShortTermParcelsSuccess { market: Market::Asx, symbol: "s1".to_string(), name: "s2".to_string(), allocation_method: "s3".to_string(), purchase_date: Date::from_ymd(2020, 1, 15).unwrap(), quantity: Decimal::new(false, 4, 2), cost_base: Decimal::new(false, 5, 2), market_value: Decimal::new(false, 6, 2), gain: Decimal::new(false, 7, 2), gain_date: Date::from_ymd(2020, 1, 15).unwrap() };
    let v = s.encode();
    let d = CapitalGainsShortTermParcelsSuccess::decode(&v).unwrap();
    assert_eq!(d, s);
}

#[test]
fn round_trip_capital_gains_long_term_parcels_success() {
    let s = CapitalGainsLongTermParcelsSuccess { market: Market::Asx, symbol: "s1".to_string(), name: "s2".to_string(), allocation_method: "s3".to_string(), purchase_date: Date::from_ymd(2020, 1, 15).unwrap(), quantity: Decimal::new(false, 4, 2), cost_base: Decimal::new(false, 5, 2), market_value: Decimal::new(false, 6, 2), gain: Decimal::new(false, 7, 2), gain_date: Date::from_ymd(2020, 1, 15).unwrap() };
    let v = s.encode();
    let d = CapitalGainsLongTermParcelsSuccess::decode(&v).unwrap();
    assert_eq!(d, s);
}

#[test]
fn round_trip_capital_gains_loss_parcels_success() {
    let s = CapitalGainsLossParcelsSuccess { market: Market::Asx, symbol: "s1".to_string(), name: "s2".to_string(), allocation_method: "s3".to_string(), purchase_date: Date::from_ymd(2020, 1, 15).unwrap(), quantity: Decimal::new(false, 4, 2), cost_base: Decimal::new(false, 5, 2), market_value: Decimal::new(false, 6, 2), gain: Decimal::new(false, 7, 2), gain_date: Date::from_ymd(2020, 1, 15).unwrap() };
    let v = s.encode();
    let d = CapitalGainsLossParcelsSuccess::decode(&v).unwrap();
    assert_eq!(d, s);
}

#[test]
fn round_trip_diversity_parameters() {
    let s = DiversityParameters { portfolio_id: 1, consolidated: Some(true), date: Some(Date::from_ymd(2020, 1, 15).unwrap()), grouping: Some("s2".to_string()), custom_group_id: Some(3) };
    let v = s.encode();
    let d = DiversityParameters::decode(&v).unwrap();
    assert_eq!(d, s);
}

#[test]
fn round_trip_diversity_success() {
    let s = DiversitySuccess { groups: vec![DiversityGroupsSuccess { group: DiversityGroupsGroupSuccess { elements: vec![DiversityGroupsGroupElementsSuccess { name: "s1".to_string(), code: "s2".to_string(), market: Market::Asx, percentage: Decimal::new(false, 3, 2), value: Decimal::new(false, 4, 2) }], percentage: Decimal::new(false, 5, 2), value: Decimal::new(false, 6, 2) } }], percentage: Decimal::new(false, 7, 2), value: Decimal::new(false, 8, 2), date: Date::from_ymd(2020, 1, 15).unwrap() };
    let v = s.encode();
    let d = DiversitySuccess::decode(&v).unwrap();
    assert_eq!(d, s);
}

#[test]
fn round_trip_diversity_groups_success() {
    let s = DiversityGroupsSuccess { group: DiversityGroupsGroupSuccess { elements: vec![DiversityGroupsGroupElementsSuccess { name: "s1".to_string(), code: "s2".to_string(), market: Market::Asx, percentage: Decimal::new(false, 3, 2), value: Decimal::new(false, 4, 2) }], percentage: Decimal::new(false, 5, 2), value: Decimal::new(false, 6, 2) } };
    let v = s.encode();
    let d = DiversityGroupsSuccess::decode(&v).unwrap();
    assert_eq!(d, s);
}

#[test]
fn round_trip_diversity_groups_group_success() {
    let s = DiversityGroupsGroupSuccess { elements: vec![DiversityGroupsGroupElementsSuccess { name: "s1".to_string(), code: "s2".to_string(), market: Market::Asx, percentage: Decimal::new(false, 3, 2), value: Decimal::new(false, 4, 2) }], percentage: Decimal::new(false, 5, 2), value: Decimal::new(false, 6, 2) };
    let v = s.encode();
    let d = DiversityGroupsGroupSuccess::decode(&v).unwrap();
    assert_eq!(d, s);
}

#[test]
fn round_trip_diversity_groups_group_elements_success() {
    let s = DiversityGroupsGroupElementsSuccess { name: "s1".to_string(), code: "s2".to_string(), market: Market::Asx, percentage: Decimal::new(false, 3, 2), value: Decimal::new(false, 4, 2) };
    let v = s.encode();
    let d = DiversityGroupsGroupElementsSuccess::decode(&v).unwrap();
    assert_eq!(d, s);
}

#[test]
fn round_trip_performance_parameters() {
    let s = PerformanceParameters { start_date: Some(Date::from_ymd(2020, 1, 15).unwrap()), end_date: Some(Date::from_ymd(2020, 1, 15).unwrap()), portfolio_id: 1, consolidated: Some(true), include_sales: Some(true), grouping: Some("s2".to_string()), custom_group_id: Some(3) };
    let v = s.encode();
    let d = PerformanceParameters::decode(&v).unwrap();
    assert_eq!(d, s);
}

#[test]
fn round_trip_performance_success() {
    let s = PerformanceSuccess { id: "s1".to_string(), portfolio_id: "s2".to_string(), grouping: "s3".to_string(), custom_group_id: "s4".to_string(), value: Decimal::new(false, 5, 2), capital_gain: Decimal::new(false, 6, 2), capital_gain_percent: Decimal::new(false, 7, 2), payout_gain: Decimal::new(false, 8, 2), payout_gain_percent: Decimal::new(false, 9, 2), currency_gain: Decimal::new(false, 10, 2), currency_gain_percent: Decimal::new(false, 11, 2), total_gain: Decimal::new(false, 12, 2), total_gain_percent: Decimal::new(false, 13, 2), start_date: Date::from_ymd(2020, 1, 15).unwrap(), end_date: Date::from_ymd(2020, 1, 15).unwrap(), include_sales: Date::from_ymd(2020, 1, 15).unwrap(), holdings: vec![PerformanceHoldingsSuccess { id: "s14".to_string(), symbol: "s15".to_string(), instrument_id: "s16".to_string(), market: Market::Asx, _group_type_: "s17".to_string(), grouping: "s18".to_string(), name: "s19".to_string(), value: Decimal::new(false, 20, 2), quantity: Decimal::new(false, 21, 2), capital_gain: Decimal::new(false, 22, 2), capital_gain_percent: Decimal::new(false, 23, 2), payout_gain: Decimal::new(false, 24, 2), payout_gain_percent: Decimal::new(false, 25, 2), currency_gain: Decimal::new(false, 26, 2), currency_gain_percent: Decimal::new(false, 27, 2), total_gain: Decimal::new(false, 28, 2), total_gain_percent: Decimal::new(false, 29, 2) }], cash_accounts: vec![PerformanceCashAccountsSuccess { id: "s30".to_string(), cash_account_id: "s31".to_string(), name: "s32".to_string(), value: Decimal::new(false, 33, 2), currency: Currency::Aud, currency_code: Currency::Aud }], sub_totals: vec![PerformanceSubTotalsSuccess { _group_type_: "s34".to_string(), value: Decimal::new(false, 35, 2), capital_gain: Decimal::new(false, 36, 2), capital_gain_percent: Decimal::new(false, 37, 2), payout_gain: Decimal::new(false, 38, 2), payout_gain_percent: Decimal::new(false, 39, 2), currency_gain: Decimal::new(false, 40, 2), currency_gain_percent: Decimal::new(false, 41, 2), total_gain: Decimal::new(false, 42, 2), total_gain_percent: Decimal::new(false, 43, 2) }] };
    let v = s.encode();
    let d = PerformanceSuccess::decode(&v).unwrap();
    assert_eq!(d, s);
}

#[test]
fn round_trip_performance_holdings_success() {
    let s = PerformanceHoldingsSuccess { id: "s1".to_string(), symbol: "s2".to_string(), instrument_id: "s3".to_string(), market: Market::Asx, _group_type_: "s4".to_string(), grouping: "s5".to_string(), name: "s6".to_string(), value: Decimal::new(false, 7, 2), quantity: Decimal::new(false, 8, 2), capital_gain: Decimal::new(false, 9, 2), capital_gain_percent: Decimal::new(false, 10, 2), payout_gain: Decimal::new(false, 11, 2), payout_gain_percent: Decimal::new(false, 12, 2), currency_gain: Decimal::new(false, 13, 2), currency_gain_percent: Decimal::new(false, 14, 2), total_gain: Decimal::new(false, 15, 2), total_gain_percent: Decimal::new(false, 16, 2) };
    let v = s.encode();
    let d = PerformanceHoldingsSuccess::decode(&v).unwrap();
    assert_eq!(d, s);
}

#[test]
fn round_trip_performance_cash_accounts_success() {
    let s = PerformanceCashAccountsSuccess { id: "s1".to_string(), cash_account_id: "s2".to_string(), name: "s3".to_string(), value: Decimal::new(false, 4, 2), currency: Currency::Aud, currency_code: Currency::Aud };
    let v = s.encode();
    let d = PerformanceCashAccountsSuccess::decode(&v).unwrap();
    assert_eq!(d, s);
}

#[test]
fn round_trip_performance_sub_totals_success() {
    let s = PerformanceSubTotalsSuccess { _group_type_: "s1".to_string(), value: Decimal::new(false, 2, 2), capital_gain: Decimal::new(false, 3, 2), capital_gain_percent: Decimal::new(false, 4, 2), payout_gain: Decimal::new(false, 5, 2), payout_gain_percent: Decimal::new(false, 6, 2), currency_gain: Decimal::new(false, 7, 2), currency_gain_percent: Decimal::new(false, 8, 2), total_gain: Decimal::new(false, 9, 2), total_gain_percent: Decimal::new(false, 10, 2) };
    let v = s.encode();
    let d = PerformanceSubTotalsSuccess::decode(&v).unwrap();
    assert_eq!(d, s);
}

#[test]
fn round_trip_unrealised_cgt_parameters() {
    let s = UnrealisedCgtParameters { portfolio_id: 1, balance_date: Date::from_ymd(2020, 1, 15).unwrap() };
    let v = s.encode();
    let d = UnrealisedCgtParameters::decode(&v).unwrap();
    assert_eq!(d, s);
}

#[test]
fn round_trip_unrealised_cgt_success() {
    let s = UnrealisedCgtSuccess { unrealised_short_term_gains: Decimal::new(false, 1, 2), unrealised_long_term_gains: Decimal::new(false, 2, 2), unrealised_losses: Decimal::new(false, 3, 2), cgt_concession_rate: Decimal::new(false, 4, 2), unrealised_cgt_concession_amount: Decimal::new(false, 5, 2), market_value: Decimal::new(false, 6, 2), unrealised_tax_gain_loss: Decimal::new(false, 7, 2), short_term_parcels: vec![UnrealisedCgtShortTermParcelsSuccess { market: Market::Asx, symbol: "s8".to_string(), name: "s9".to_string(), allocation_method: "s10".to_string(), purchase_date: Date::from_ymd(2020, 1, 15).unwrap(), quantity: Decimal::new(false, 11, 2), cost_base: Decimal::new(false, 12, 2), market_value: Decimal::new(false, 13, 2), unrealised_gain: Decimal::new(false, 14, 2) }], long_term_parcels: vec![UnrealisedCgtLongTermParcelsSuccess { market: Market::Asx, symbol: "s15".to_string(), name: "s16".to_string(), allocation_method: "s17".to_string(), purchase_date: Date::from_ymd(2020, 1, 15).unwrap(), quantity: Decimal::new(false, 18, 2), cost_base: Decimal::new(false, 19, 2), market_value: Decimal::new(false, 20, 2), unrealised_gain: Decimal::new(false, 21, 2) }], losses: vec![UnrealisedCgtLossesSuccess { market: Market::Asx, symbol: "s22".to_string(), name: "s23".to_string(), allocation_method: "s24".to_string(), purchase_date: Date::from_ymd(2020, 1, 15).unwrap(), quantity: Decimal::new(false, 25, 2), cost_base: Decimal::new(false, 26, 2), market_value: Decimal::new(false, 27, 2), unrealised_gain: Decimal::new(false, 28, 2) }], balance_date: Date::from_ymd(2020, 1, 15).unwrap(), portfolio_id: 29 };
    let v = s.encode();
    let d = UnrealisedCgtSuccess::decode(&v).unwrap();
    assert_eq!(d, s);
}

#[test]
fn round_trip_unrealised_cgt_short_term_parcels_success() {
    let s = UnrealisedCgtShortTermParcelsSuccess { market: Market::Asx, symbol: "s1".to_string(), name: "s2".to_string(), allocation_method: "s3".to_string(), purchase_date: Date::from_ymd(2020, 1, 15).unwrap(), quantity: Decimal::new(false, 4, 2), cost_base: Decimal::new(false, 5, 2), market_value: Decimal::new(false, 6, 2), unrealised_gain: Decimal::new(false, 7, 2) };
    let v = s.encode();
    let d = UnrealisedCgtShortTermParcelsSuccess::decode(&v).unwrap();
    assert_eq!(d, s);
}

#[test]
fn round_trip_unrealised_cgt_long_term_parcels_success() {
    let s = UnrealisedCgtLongTermParcelsSuccess { market: Market::Asx, symbol: "s1".to_string(), name: "s2".to_string(), allocation_method: "s3".to_string(), purchase_date: Date::from_ymd(2020, 1, 15).unwrap(), quantity: Decimal::new(false, 4, 2), cost_base: Decimal::new(false, 5, 2), market_value: Decimal::new(false, 6, 2), unrealised_gain: Decimal::new(false, 7, 2) };
    let v = s.encode();
    let d = UnrealisedCgtLongTermParcelsSuccess::decode(&v).unwrap();
    assert_eq!(d, s);
}

#[test]
fn round_trip_unrealised_cgt_losses_success() {
    let s = UnrealisedCgtLossesSuccess { market: Market::Asx, symbol: "s1".to_string(), name: "s2".to_string(), allocation_method: "s3".to_string(), purchase_date: Date::from_ymd(2020, 1, 15).unwrap(), quantity: Decimal::new(false, 4, 2), cost_base: Decimal::new(false, 5, 2), market_value: Decimal::new(false, 6, 2), unrealised_gain: Decimal::new(false, 7, 2) };
    let v = s.encode();
    let d = UnrealisedCgtLossesSuccess::decode(&v).unwrap();
    assert_eq!(d, s);
}

#[test]
fn round_trip_valuation_parameters() {
    let s = ValuationParameters { balance_date: Some(Date::from_ymd(2020, 1, 15).unwrap()), portfolio_id: 1, consolidated: Some(true), include_sales: Some(true), grouping: Some("s2".to_string()), custom_group_id: Some(3) };
    let v = s.encode();
    let d = ValuationParameters::decode(&v).unwrap();
    assert_eq!(d, s);
}

#[test]
fn round_trip_valuation_success() {
    let s = ValuationSuccess { id: "s1".to_string(), balance_date: Date::from_ymd(2020, 1, 15).unwrap(), portfolio_id: "s2".to_string(), grouping: "s3".to_string(), custom_group_id: "s4".to_string(), value: Decimal::new(false, 5, 2), holdings: vec![ValuationHoldingsSuccess { id: "s6".to_string(), symbol: "s7".to_string(), instrument_id: "s8".to_string(), market: Market::Asx, _group_type_: "s9".to_string(), grouping: "s10".to_string(), name: "s11".to_string(), value: Decimal::new(false, 12, 2), quantity: Decimal::new(false, 13, 2) }], cash_accounts: vec![ValuationCashAccountsSuccess { id: "s14".to_string(), cash_account_id: "s15".to_string(), name: "s16".to_string(), value: Decimal::new(false, 17, 2), currency: Currency::Aud, currency_code: Currency::Aud }], sub_totals: vec![ValuationSubTotalsSuccess { _group_type_: "s18".to_string(), value: Decimal::new(false, 19, 2) }] };
    let v = s.encode();
    let d = ValuationSuccess::decode(&v).unwrap();
    assert_eq!(d, s);
}

#[test]
fn round_trip_valuation_holdings_success() {
    let s = ValuationHoldingsSuccess { id: "s1".to_string(), symbol: "s2".to_string(), instrument_id: "s3".to_string(), market: Market::Asx, _group_type_: "s4".to_string(), grouping: "s5".to_string(), name: "s6".to_string(), value: Decimal::new(false, 7, 2), quantity: Decimal::new(false, 8, 2) };
    let v = s.encode();
    let d = ValuationHoldingsSuccess::decode(&v).unwrap();
    assert_eq!(d, s);
}

#[test]
fn round_trip_valuation_cash_accounts_success() {
    let s = ValuationCashAccountsSuccess { id: "s1".to_string(), cash_account_id: "s2".to_string(), name: "s3".to_string(), value: Decimal::new(false, 4, 2), currency: Currency::Aud, currency_code: Currency::Aud };
    let v = s.encode();
    let d = ValuationCashAccountsSuccess::decode(&v).unwrap();
    assert_eq!(d, s);
}

#[test]
fn round_trip_valuation_sub_totals_success() {
    let s = ValuationSubTotalsSuccess { _group_type_: "s1".to_string(), value: Decimal::new(false, 2, 2) };
    let v = s.encode();
    let d = ValuationSubTotalsSuccess::decode(&v).unwrap();
    assert_eq!(d, s);
}
