#![allow(unused_imports)]

use sharesight_types::codec::FromJson;
use sharesight_types::codec::Ignored;
use sharesight_types::codec::ToJson;
use sharesight_types::date::Date;
use sharesight_types::date::DateTime;
use sharesight_types::json::Decimal;
use sharesight_types::enums::Country;
use sharesight_types::enums::Currency;
use sharesight_types::enums::Market;
use sharesight_types::enums::PayoutDescription;
use sharesight_types::enums::SaleAllocationMethod;
use sharesight_types::enums::TradeDescription;
use sharesight_types::trades::TradeConfirmParameters;
use sharesight_types::trades::TradeConfirmSuccess;
use sharesight_types::trades::TradeConfirmTradeSuccess;
use sharesight_types::trades::TradeRejectParameters;
use sharesight_types::trades::TradeRejectSuccess;
use sharesight_types::trades::TradeRejectTradeSuccess;
use sharesight_types::trades::TradesApiTransactionSuccess;
use sharesight_types::trades::TradesCreateApiTransactionSuccess;
use sharesight_types::trades::TradesCreateParameters;
use sharesight_types::trades::TradesCreateSuccess;
use sharesight_types::trades::TradesCreateTradeParameters;
use sharesight_types::trades::TradesCreateTradeSuccess;
use sharesight_types::trades::TradesDestroyApiTransactionSuccess;
use sharesight_types::trades::TradesDestroyParameters;
use sharesight_types::trades::TradesDestroySuccess;
use sharesight_types::trades::TradesParameters;
use sharesight_types::trades::TradesShowApiTransactionSuccess;
use sharesight_types::trades::TradesShowParameters;
use sharesight_types::trades::TradesShowSuccess;
use sharesight_types::trades::TradesSuccess;
use sharesight_types::trades::TradesTradesSuccess;
use sharesight_types::trades::TradesUpdateApiTransactionSuccess;
use sharesight_types::trades::TradesUpdateParameters;
use sharesight_types::trades::TradesUpdateSuccess;
use sharesight_types::trades::TradesUpdateTradeParameters;
use sharesight_types::trades::TradesUpdateTradeSuccess;

#[test]
fn round_trip_trade_confirm_parameters() {
    let s = TradeConfirmParameters { holding_id: 1, company_event_id: 2, transaction_date: Date::from_ymd(2020, 1, 15).unwrap(), state: "s3".to_string() };
    let v = s.encode();
    let d = TradeConfirmParameters::decode(&v).unwrap();
    assert_eq!(d, s);
}

#[test]
fn round_trip_trade_confirm_success() {
    let s = TradeConfirmSuccess { trade: TradeConfirmTradeSuccess { id: 1, transaction_type: TradeDescription::Buy, transaction_date: "s2".to_string(), market: Market::Asx, symbol: "s3".to_string(), quantity: Decimal::new(false, 4, 2), price: Decimal::new(false, 5, 2), exchange_rate: Decimal::new(false, 6, 2), brokerage: Decimal::new(false, 7, 2), brokerage_currency_code: Currency::Aud, value: "s8".to_string(), comments: "s9".to_string(), portfolio_id: 10, holding_id: 11, instrument_id: 12, company_event_id: 13, state: "s14".to_string() } };
    let v = s.encode();
    let d = TradeConfirmSuccess::decode(&v).unwrap();
    assert_eq!(d, s);
}

#[test]
fn round_trip_trade_confirm_trade_success() {
    let s = TradeConfirmTradeSuccess { id: 1, transaction_type: TradeDescription::Buy, transaction_date: "s2".to_string(), market: Market::Asx, symbol: "s3".to_string(), quantity: Decimal::new(false, 4, 2), price: Decimal::new(false, 5, 2), exchange_rate: Decimal::new(false, 6, 2), brokerage: Decimal::new(false, 7, 2), brokerage_currency_code: Currency::Aud, value: "s8".to_string(), comments: "s9".to_string(), portfolio_id: 10, holding_id: 11, instrument_id: 12, company_event_id: 13, state: "s14".to_string() };
    let v = s.encode();
    let d = TradeConfirmTradeSuccess::decode(&v).unwrap();
    assert_eq!(d, s);
}

#[test]
fn round_trip_trade_reject_parameters() {
    let s = TradeRejectParameters { holding_id: 1, company_event_id: 2, transaction_date: Date::from_ymd(2020, 1, 15).unwrap(), state: "s3".to_string() };
    let v = s.encode();
    let d = TradeRejectParameters::decode(&v).unwrap();
    assert_eq!(d, s);
}

#[test]
fn round_trip_trade_reject_success() {
    let s = TradeRejectSuccess { trade: TradeRejectTradeSuccess { id: 1, transaction_type: TradeDescription::Buy, transaction_date: "s2".to_string(), market: Market::Asx, symbol: "s3".to_string(), quantity: Decimal::new(false, 4, 2), price: Decimal::new(false, 5, 2), exchange_rate: Decimal::new(false, 6, 2), brokerage: Decimal::new(false, 7, 2), brokerage_currency_code: Currency::Aud, value: "s8".to_string(), comments: "s9".to_string(), portfolio_id: 10, holding_id: 11, instrument_id: 12, company_event_id: 13, state: "s14".to_string() } };
    let v = s.encode();
    let d = TradeRejectSuccess::decode(&v).unwrap();
    assert_eq!(d, s);
}

#[test]
fn round_trip_trade_reject_trade_success() {
    let s = TradeRejectTradeSuccess { id: 1, transaction_type: TradeDescription::Buy, transaction_date: "s2".to_string(), market: Market::Asx, symbol: "s3".to_string(), quantity: Decimal::new(false, 4, 2), price: Decimal::new(false, 5, 2), exchange_rate: Decimal::new(false, 6, 2), brokerage: Decimal::new(false, 7, 2), brokerage_currency_code: Currency::Aud, value: "s8".to_string(), comments: "s9".to_string(), portfolio_id: 10, holding_id: 11, instrument_id: 12, company_event_id: 13, state: "s14".to_string() };
    let v = s.encode();
    let d = TradeRejectTradeSuccess::decode(&v).unwrap();
    assert_eq!(d, s);
}

#[test]
fn round_trip_trades_parameters() {
    let s = TradesParameters { portfolio_id: "s1".to_string(), start_date: Some(Date::from_ymd(2020, 1, 15).unwrap()), end_date: Some(Date::from_ymd(2020, 1, 15).unwrap()), unique_identifier: Some("s2".to_string()) };
    let v = s.encode();
    let d = TradesParameters::decode(&v).unwrap();
    assert_eq!(d, s);
}

#[test]
fn round_trip_trades_success() {
    let s = TradesSuccess { trades: vec![TradesTradesSuccess { id: Some(1), unique_identifier: Some("s2".to_string()), transaction_date: Date::from_ymd(2020, 1, 15).unwrap(), quantity: Decimal::new(false, 3, 2), price: Decimal::new(false, 4, 2), cost_base: Some(Decimal::new(false, 5, 2)), exchange_rate: Decimal::new(false, 6, 2), brokerage: Decimal::new(false, 7, 2), brokerage_currency_code: Some(Currency::Aud), value: Decimal::new(false, 8, 2), paid_on: Some(Date::from_ymd(2020, 1, 15).unwrap()), company_event_id: Some(9), comments: "s10".to_string(), portfolio_id: 11, holding_id: 12, state: "s13".to_string(), transaction_type: TradeDescription::Buy, instrument_id: 14, symbol: "s15".to_string(), market: Market::Asx, attachment_filename: Some("s16".to_string()), attachment_id: Some(17), confirmed: true }], api_transaction: TradesApiTransactionSuccess { id: 18, version: 19, action: "s20".to_string(), timestamp: "s21".to_string() } };
    let v = s.encode();
    let d = TradesSuccess::decode(&v).unwrap();
    assert_eq!(d, s);
}

#[test]
fn round_trip_trades_trades_success() {
    let s = TradesTradesSuccess { id: Some(1), unique_identifier: Some("s2".to_string()), transaction_date: Date::from_ymd(2020, 1, 15).unwrap(), quantity: Decimal::new(false, 3, 2), price: Decimal::new(false, 4, 2), cost_base: Some(Decimal::new(false, 5, 2)), exchange_rate: Decimal::new(false, 6, 2), brokerage: Decimal::new(false, 7, 2), brokerage_currency_code: Some(Currency::Aud), value: Decimal::new(false, 8, 2), paid_on: Some(Date::from_ymd(2020, 1, 15).unwrap()), company_event_id: Some(9), comments: "s10".to_string(), portfolio_id: 11, holding_id: 12, state: "s13".to_string(), transaction_type: TradeDescription::Buy, instrument_id: 14, symbol: "s15".to_string(), market: Market::Asx, attachment_filename: Some("s16".to_string()), attachment_id: Some(17), confirmed: true };
    let v = s.encode();
    let d = TradesTradesSuccess::decode(&v).unwrap();
    assert_eq!(d, s);
}

#[test]
fn round_trip_trades_api_transaction_success() {
    let s = TradesApiTransactionSuccess { id: 1, version: 2, action: "s3".to_string(), timestamp: "s4".to_string() };
    let v = s.encode();
    let d = TradesApiTransactionSuccess::decode(&v).unwrap();
    assert_eq!(d, s);
}

#[test]
fn round_trip_trades_create_parameters() {
    let s = TradesCreateParameters { trade: TradesCreateTradeParameters { portfolio_id: Some(1), holding_id: Some(2), unique_identifier: Some("s3".to_string()), company_event_id: Some("s4".to_string()), state: Some("s5".to_string()), transaction_date: Some("s6".to_string()), quantity: Some(Decimal::new(false, 7, 2)), price: Some(Decimal::new(false, 8, 2)), cost_base: Some(Decimal::new(false, 9, 2)), exchange_rate: Some(Decimal::new(false, 10, 2)), brokerage: Some(Decimal::new(false, 11, 2)), brokerage_currency_code: Some(Currency::Aud), adjust_cost_base_value: Some(Decimal::new(false, 12, 2)), capital_return_value: Some(Decimal::new(false, 13, 2)), paid_on: Some(Date::from_ymd(2020, 1, 15).unwrap()), comments: Some("s14".to_string()), instrument_id: Some("s15".to_string()), symbol: Some("s16".to_string()), market: Some(Market::Asx), market_country_code: Some("s17".to_string()), transaction_type: Some(TradeDescription::Buy), attachment: Some("s18".to_string()), attachment_filename: Some("s19".to_string()) } };
    let v = s.encode();
    let d = TradesCreateParameters::decode(&v).unwrap();
    assert_eq!(d, s);
}

#[test]
fn round_trip_trades_create_trade_parameters() {
    let s = TradesCreateTradeParameters { portfolio_id: Some(1), holding_id: Some(2), unique_identifier: Some("s3".to_string()), company_event_id: Some("s4".to_string()), state: Some("s5".to_string()), transaction_date: Some("s6".to_string()), quantity: Some(Decimal::new(false, 7, 2)), price: Some(Decimal::new(false, 8, 2)), cost_base: Some(Decimal::new(false, 9, 2)), exchange_rate: Some(Decimal::new(false, 10, 2)), brokerage: Some(Decimal::new(false, 11, 2)), brokerage_currency_code: Some(Currency::Aud), adjust_cost_base_value: Some(Decimal::new(false, 12, 2)), capital_return_value: Some(Decimal::new(false, 13, 2)), paid_on: Some(Date::from_ymd(2020, 1, 15).unwrap()), comments: Some("s14".to_string()), instrument_id: Some("s15".to_string()), symbol: Some("s16".to_string()), market: Some(Market::Asx), market_country_code: Some("s17".to_string()), transaction_type: Some(TradeDescription::Buy), attachment: Some("s18".to_string()), attachment_filename: Some("s19".to_string()) };
    let v = s.encode();
    let d = TradesCreateTradeParameters::decode(&v).unwrap();
    assert_eq!(d, s);
}

#[test]
fn round_trip_trades_create_success() {
    let s = TradesCreateSuccess { trade: TradesCreateTradeSuccess { id: "s1".to_string(), unique_identifier: "s2".to_string(), transaction_date: Date::from_ymd(2020, 1, 15).unwrap(), quantity: Decimal::new(false, 3, 2), price: Decimal::new(false, 4, 2), cost_base: Decimal::new(false, 5, 2), exchange_rate: Decimal::new(false, 6, 2), brokerage: Decimal::new(false, 7, 2), brokerage_currency_code: Currency::Aud, value: Decimal::new(false, 8, 2), paid_on: Date::from_ymd(2020, 1, 15).unwrap(), company_event_id: 9, comments: "s10".to_string(), portfolio_id: 11, holding_id: 12, state: "s13".to_string(), transaction_type: TradeDescription::Buy, instrument_id: 14, symbol: "s15".to_string(), market: Market::Asx, attachment_filename: "s16".to_string(), attachment_id: 17, confirmed: true }, api_transaction: TradesCreateApiTransactionSuccess { id: 18, version: 19, action: "s20".to_string(), timestamp: "s21".to_string() } };
    let v = s.encode();
    let d = TradesCreateSuccess::decode(&v).unwrap();
    assert_eq!(d, s);
}

#[test]
fn round_trip_trades_create_trade_success() {
    let s = TradesCreateTradeSuccess { id: "s1".to_string(), unique_identifier: "s2".to_string(), transaction_date: Date::from_ymd(2020, 1, 15).unwrap(), quantity: Decimal::new(false, 3, 2), price: Decimal::new(false, 4, 2), cost_base: Decimal::new(false, 5, 2), exchange_rate: Decimal::new(false, 6, 2), brokerage: Decimal::new(false, 7, 2), brokerage_currency_code: Currency::Aud, value: Decimal::new(false, 8, 2), paid_on: Date::from_ymd(2020, 1, 15).unwrap(), company_event_id: 9, comments: "s10".to_string(), portfolio_id: 11, holding_id: 12, state: "s13".to_string(), transaction_type: TradeDescription::Buy, instrument_id: 14, symbol: "s15".to_string(), market: Market::Asx, attachment_filename: "s16".to_string(), attachment_id: 17, confirmed: true };
    let v = s.encode();
    let d = TradesCreateTradeSuccess::decode(&v).unwrap();
    assert_eq!(d, s);
}

#[test]
fn round_trip_trades_create_api_transaction_success() {
    let s = TradesCreateApiTransactionSuccess { id: 1, version: 2, action: "s3".to_string(), timestamp: "s4".to_string() };
    let v = s.encode();
    let d = TradesCreateApiTransactionSuccess::decode(&v).unwrap();
    assert_eq!(d, s);
}

#[test]
fn round_trip_trades_destroy_parameters() {
    let s = TradesDestroyParameters { id: 1 };
    let v = s.encode();
    let d = TradesDestroyParameters::decode(&v).unwrap();
    assert_eq!(d, s);
}

#[test]
fn round_trip_trades_destroy_success() {
    let s = TradesDestroySuccess { deleted: true, api_transaction: TradesDestroyApiTransactionSuccess { id: 1, version: 2, action: "s3".to_string(), timestamp: "s4".to_string() } };
    let v = s.encode();
    let d = TradesDestroySuccess::decode(&v).unwrap();
    assert_eq!(d, s);
}

#[test]
fn round_trip_trades_destroy_api_transaction_success() {
    let s = TradesDestroyApiTransactionSuccess { id: 1, version: 2, action: "s3".to_string(), timestamp: "s4".to_string() };
    let v = s.encode();
    let d = TradesDestroyApiTransactionSuccess::decode(&v).unwrap();
    assert_eq!(d, s);
}

#[test]
fn round_trip_trades_show_parameters() {
    let s = TradesShowParameters { id: "s1".to_string() };
    let v = s.encode();
    let d = TradesShowParameters::decode(&v).unwrap();
    assert_eq!(d, s);
}

#[test]
fn round_trip_trades_show_success() {
    let s = TradesShowSuccess { id: "s1".to_string(), unique_identifier: "s2".to_string(), transaction_date: Date::from_ymd(2020, 1, 15).unwrap(), quantity: Decimal::new(false, 3, 2), price: Decimal::new(false, 4, 2), cost_base: Decimal::new(false, 5, 2), exchange_rate: Decimal::new(false, 6, 2), brokerage: Decimal::new(false, 7, 2), brokerage_currency_code: Currency::Aud, value: Decimal::new(false, 8, 2), paid_on: Date::from_ymd(2020, 1, 15).unwrap(), company_event_id: 9, comments: "s10".to_string(), portfolio_id: 11, holding_id: 12, state: "s13".to_string(), transaction_type: TradeDescription::Buy, instrument_id: 14, symbol: "s15".to_string(), market: Market::Asx, attachment_filename: "s16".to_string(), attachment_id: 17, confirmed: true, api_transaction: TradesShowApiTransactionSuccess { id: 18, version: 19, action: "s20".to_string(), timestamp: "s21".to_string() } };
    let v = s.encode();
    let d = TradesShowSuccess::decode(&v).unwrap();
    assert_eq!(d, s);
}

#[test]
fn round_trip_trades_show_api_transaction_success() {
    let s = TradesShowApiTransactionSuccess { id: 1, version: 2, action: "s3".to_string(), timestamp: "s4".to_string() };
    let v = s.encode();
    let d = TradesShowApiTransactionSuccess::decode(&v).unwrap();
    assert_eq!(d, s);
}

#[test]
fn round_trip_trades_update_parameters() {
    let s = TradesUpdateParameters { id: 1, trade: TradesUpdateTradeParameters { transaction_date: Some("s2".to_string()), quantity: Some(Decimal::new(false, 3, 2)), price: Some(Decimal::new(false, 4, 2)), cost_base: Some(Decimal::new(false, 5, 2)), exchange_rate: Some(Decimal::new(false, 6, 2)), brokerage: Some(Decimal::new(false, 7, 2)), brokerage_currency_code: Some(Currency::Aud), adjust_cost_base_value: Some(Decimal::new(false, 8, 2)), capital_return_value: Some(Decimal::new(false, 9, 2)), paid_on: Some(Date::from_ymd(2020, 1, 15).unwrap()), comments: Some("s10".to_string()), instrument_id: Some("s11".to_string()), symbol: Some("s12".to_string()), market: Some(Market::Asx), market_country_code: Some("s13".to_string()), transaction_type: Some(TradeDescription::Buy), attachment: Some("s14".to_string()), attachment_filename: Some("s15".to_string()) } };
    let v = s.encode();
    let d = TradesUpdateParameters::decode(&v).unwrap();
    assert_eq!(d, s);
}

#[test]
fn round_trip_trades_update_trade_parameters() {
    let s = TradesUpdateTradeParameters { transaction_date: Some("s1".to_string()), quantity: Some(Decimal::new(false, 2, 2)), price: Some(Decimal::new(false, 3, 2)), cost_base: Some(Decimal::new(false, 4, 2)), exchange_rate: Some(Decimal::new(false, 5, 2)), brokerage: Some(Decimal::new(false, 6, 2)), brokerage_currency_code: Some(Currency::Aud), adjust_cost_base_value: Some(Decimal::new(false, 7, 2)), capital_return_value: Some(Decimal::new(false, 8, 2)), paid_on: Some(Date::from_ymd(2020, 1, 15).unwrap()), comments: Some("s9".to_string()), instrument_id: Some("s10".to_string()), symbol: Some("s11".to_string()), market: Some(Market::Asx), market_country_code: Some("s12".to_string()), transaction_type: Some(TradeDescription::Buy), attachment: Some("s13".to_string()), attachment_filename: Some("s14".to_string()) };
    let v = s.encode();
    let d = TradesUpdateTradeParameters::decode(&v).unwrap();
    assert_eq!(d, s);
}

#[test]
fn round_trip_trades_update_success() {
    let s = TradesUpdateSuccess { trade: TradesUpdateTradeSuccess { id: "s1".to_string(), unique_identifier: "s2".to_string(), transaction_date: Date::from_ymd(2020, 1, 15).unwrap(), quantity: Decimal::new(false, 3, 2), price: Decimal::new(false, 4, 2), cost_base: Decimal::new(false, 5, 2), exchange_rate: Decimal::new(false, 6, 2), brokerage: Decimal::new(false, 7, 2), brokerage_currency_code: Currency::Aud, value: Decimal::new(false, 8, 2), paid_on: Date::from_ymd(2020, 1, 15).unwrap(), company_event_id: 9, comments: "s10".to_string(), portfolio_id: 11, holding_id: 12, state: "s13".to_string(), transaction_type: TradeDescription::Buy, instrument_id: 14, symbol: "s15".to_string(), market: Market::Asx, attachment_filename: "s16".to_string(), attachment_id: 17, confirmed: true }, api_transaction: TradesUpdateApiTransactionSuccess { id: 18, version: 19, action: "s20".to_string(), timestamp: "s21".to_string() } };
    let v = s.encode();
    let d = TradesUpdateSuccess::decode(&v).unwrap();
    assert_eq!(d, s);
}

#[test]
fn round_trip_trades_update_trade_success() {
    let s = TradesUpdateTradeSuccess { id: "s1".to_string(), unique_identifier: "s2".to_string(), transaction_date: Date::from_ymd(2020, 1, 15).unwrap(), quantity: Decimal::new(false, 3, 2), price: Decimal::new(false, 4, 2), cost_base: Decimal::new(false, 5, 2), exchange_rate: Decimal::new(false, 6, 2), brokerage: Decimal::new(false, 7, 2), brokerage_currency_code: Currency::Aud, value: Decimal::new(false, 8, 2), paid_on: Date::from_ymd(2020, 1, 15).unwrap(), company_event_id: 9, comments: "s10".to_string(), portfolio_id: 11, holding_id: 12, state: "s13".to_string(), transaction_type: TradeDescription::Buy, instrument_id: 14, symbol: "s15".to_string(), market: Market::Asx, attachment_filename: "s16".to_string(), attachment_id: 17, confirmed: true };
    let v = s.encode();
    let d = TradesUpdateTradeSuccess::decode(&v).unwrap();
    assert_eq!(d, s);
}

#[test]
fn round_trip_trades_update_api_transaction_success() {
    let s = TradesUpdateApiTransactionSuccess { id: 1, version: 2, action: "s3".to_string(), timestamp: "s4".to_string() };
    let v = s.encode();
    let d = TradesUpdateApiTransactionSuccess::decode(&v).unwrap();
    assert_eq!(d, s);
}
