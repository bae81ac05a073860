#![allow(unused_imports)]

use sharesight_types::codec::FromJson;
use sharesight_types::codec::Ignored;
use sharesight_types::codec::ToJson;
use sharesight_types::date::Date;
use sharesight_types::date::DateTime;
use sharesight_types::json::Decimal;
use sharesight_types::enums::Country;
use sharesight_types::enums::Currency;
use sharesight_types::enums::Market;
use sharesight_types::enums::PayoutDescription;
use sharesight_types::enums::SaleAllocationMethod;
use sharesight_types::enums::TradeDescription;
use sharesight_types::holdings::DocumentShowParameters;
use sharesight_types::holdings::DocumentShowSuccess;
use sharesight_types::holdings::HoldingMergesCreateHoldingMergeSuccess;
use sharesight_types::holdings::HoldingMergesCreateHoldingMergeTradesSuccess;
use sharesight_types::holdings::HoldingMergesCreateParameters;
use sharesight_types::holdings::HoldingMergesCreateSuccess;
use sharesight_types::holdings::HoldingMergesUpdateHoldingMergeSuccess;
use sharesight_types::holdings::HoldingMergesUpdateHoldingMergeTradesSuccess;
use sharesight_types::holdings::HoldingMergesUpdateParameters;
use sharesight_types::holdings::HoldingMergesUpdateSuccess;
use sharesight_types::holdings::HoldingTradesApiTransactionSuccess;
use sharesight_types::holdings::HoldingTradesParameters;
use sharesight_types::holdings::HoldingTradesRejectedApiTransactionSuccess;
use sharesight_types::holdings::HoldingTradesRejectedParameters;
use sharesight_types::holdings::HoldingTradesRejectedSuccess;
use sharesight_types::holdings::HoldingTradesRejectedTradesSuccess;
use sharesight_types::holdings::HoldingTradesSuccess;
use sharesight_types::holdings::HoldingTradesTradesSuccess;
use sharesight_types::holdings::ListUserInstrumentsInstrumentsSuccess;
use sharesight_types::holdings::ListUserInstrumentsSuccess;

#[test]
fn round_trip_holding_merges_create_parameters() {
    let s = HoldingMergesCreateParameters { portfolio_id: 1, holding_id: 2, merge_date: Date::from_ymd(2020, 1, 15).unwrap(), quantity: Decimal::new(false, 3, 2), symbol: "s4".to_string(), market: Market::Asx, cancelled_price: Some(Decimal::new(false, 5, 2)), comments: Some("s6".to_string()), unique_identifier: Some("s7".to_string()), attachment: Some("s8".to_string()), attachment_filename: Some("s9".to_string()) };
    let v = s.encode();
    let d = HoldingMergesCreateParameters::decode(&v).unwrap();
    assert_eq!(d, s);
}

#[test]
fn round_trip_holding_merges_create_success() {
    let s = HoldingMergesCreateSuccess { holding_merge: HoldingMergesCreateHoldingMergeSuccess { id: 1, trades: vec![HoldingMergesCreateHoldingMergeTradesSuccess { id: 2, transaction_type: TradeDescription::Buy, transaction_date: "s3".to_string(), market: Market::Asx, symbol: "s4".to_string(), quantity: Decimal::new(false, 5, 2), price: Decimal::new(false, 6, 2), exchange_rate: Decimal::new(false, 7, 2), brokerage: Decimal::new(false, 8, 2), brokerage_currency_code: Currency::Aud, value: "s9".to_string(), company_event_id: 10, unique_identifier: "s11".to_string(), comments: "s12".to_string(), portfolio_id: 13, holding_id: 14, instrument_id: 15, state: "s16".to_string(), attachment_filename: "s17".to_string(), attachment_id: "s18".to_string() }] } };
    let v = s.encode();
    let d = HoldingMergesCreateSuccess::decode(&v).unwrap();
    assert_eq!(d, s);
}

#[test]
fn round_trip_holding_merges_create_holding_merge_success() {
    let s = HoldingMergesCreateHoldingMergeSuccess { id: 1, trades: vec![HoldingMergesCreateHoldingMergeTradesSuccess { id: 2, transaction_type: TradeDescription::Buy, transaction_date: "s3".to_string(), market: Market::Asx, symbol: "s4".to_string(), quantity: Decimal::new(false, 5, 2), price: Decimal::new(false, 6, 2), exchange_rate: Decimal::new(false, 7, 2), brokerage: Decimal::new(false, 8, 2), brokerage_currency_code: Currency::Aud, value: "s9".to_string(), company_event_id: 10, unique_identifier: "s11".to_string(), comments: "s12".to_string(), portfolio_id: 13, holding_id: 14, instrument_id: 15, state: "s16".to_string(), attachment_filename: "s17".to_string(), attachment_id: "s18".to_string() }] };
    let v = s.encode();
    let d = HoldingMergesCreateHoldingMergeSuccess::decode(&v).unwrap();
    assert_eq!(d, s);
}

#[test]
fn round_trip_holding_merges_create_holding_merge_trades_success() {
    let s = HoldingMergesCreateHoldingMergeTradesSuccess { id: 1, transaction_type: TradeDescription::Buy, transaction_date: "s2".to_string(), market: Market::Asx, symbol: "s3".to_string(), quantity: Decimal::new(false, 4, 2), price: Decimal::new(false, 5, 2), exchange_rate: Decimal::new(false, 6, 2), brokerage: Decimal::new(false, 7, 2), brokerage_currency_code: Currency::Aud, value: "s8".to_string(), company_event_id: 9, unique_identifier: "s10".to_string(), comments: "s11".to_string(), portfolio_id: 12, holding_id: 13, instrument_id: 14, state: "s15".to_string(), attachment_filename: "s16".to_string(), attachment_id: "s17".to_string() };
    let v = s.encode();
    let d = HoldingMergesCreateHoldingMergeTradesSuccess::decode(&v).unwrap();
    assert_eq!(d, s);
}

#[test]
fn round_trip_holding_merges_update_parameters() {
    let s = HoldingMergesUpdateParameters { portfolio_id: 1, id: 2, merge_date: Some(Date::from_ymd(2020, 1, 15).unwrap()), quantity: Some(Decimal::new(false, 3, 2)), symbol: Some("s4".to_string()), market: Some(Market::Asx), cancelled_price: Some(Decimal::new(false, 5, 2)), comments: Some("s6".to_string()), unique_identifier: Some("s7".to_string()), attachment: Some("s8".to_string()), attachment_filename: Some("s9".to_string()) };
    let v = s.encode();
    let d = HoldingMergesUpdateParameters::decode(&v).unwrap();
    assert_eq!(d, s);
}

#[test]
fn round_trip_holding_merges_update_success() {
    let s = HoldingMergesUpdateSuccess { holding_merge: HoldingMergesUpdateHoldingMergeSuccess { id: 1, trades: vec![HoldingMergesUpdateHoldingMergeTradesSuccess { id: 2, transaction_type: TradeDescription::Buy, transaction_date: "s3".to_string(), market: Market::Asx, symbol: "s4".to_string(), quantity: Decimal::new(false, 5, 2), price: Decimal::new(false, 6, 2), exchange_rate: Decimal::new(false, 7, 2), brokerage: Decimal::new(false, 8, 2), brokerage_currency_code: Currency::Aud, value: "s9".to_string(), company_event_id: 10, unique_identifier: "s11".to_string(), comments: "s12".to_string(), portfolio_id: 13, holding_id: 14, instrument_id: 15, state: "s16".to_string(), attachment_filename: "s17".to_string(), attachment_id: "s18".to_string() }] } };
    let v = s.encode();
    let d = HoldingMergesUpdateSuccess::decode(&v).unwrap();
    assert_eq!(d, s);
}

#[test]
fn round_trip_holding_merges_update_holding_merge_success() {
    let s = HoldingMergesUpdateHoldingMergeSuccess { id: 1, trades: vec![HoldingMergesUpdateHoldingMergeTradesSuccess { id: 2, transaction_type: TradeDescription::Buy, transaction_date: "s3".to_string(), market: Market::Asx, symbol: "s4".to_string(), quantity: Decimal::new(false, 5, 2), price: Decimal::new(false, 6, 2), exchange_rate: Decimal::new(false, 7, 2), brokerage: Decimal::new(false, 8, 2), brokerage_currency_code: Currency::Aud, value: "s9".to_string(), company_event_id: 10, unique_identifier: "s11".to_string(), comments: "s12".to_string(), portfolio_id: 13, holding_id: 14, instrument_id: 15, state: "s16".to_string(), attachment_filename: "s17".to_string(), attachment_id: "s18".to_string() }] };
    let v = s.encode();
    let d = HoldingMergesUpdateHoldingMergeSuccess::decode(&v).unwrap();
    assert_eq!(d, s);
}

#[test]
fn round_trip_holding_merges_update_holding_merge_trades_success() {
    let s = HoldingMergesUpdateHoldingMergeTradesSuccess { id: 1, transaction_type: TradeDescription::Buy, transaction_date: "s2".to_string(), market: Market::Asx, symbol: "s3".to_string(), quantity: Decimal::new(false, 4, 2), price: Decimal::new(false, 5, 2), exchange_rate: Decimal::new(false, 6, 2), brokerage: Decimal::new(false, 7, 2), brokerage_currency_code: Currency::Aud, value: "s8".to_string(), company_event_id: 9, unique_identifier: "s10".to_string(), comments: "s11".to_string(), portfolio_id: 12, holding_id: 13, instrument_id: 14, state: "s15".to_string(), attachment_filename: "s16".to_string(), attachment_id: "s17".to_string() };
    let v = s.encode();
    let d = HoldingMergesUpdateHoldingMergeTradesSuccess::decode(&v).unwrap();
    assert_eq!(d, s);
}

#[test]
fn round_trip_holding_trades_parameters() {
    let s = HoldingTradesParameters { holding_id: "s1".to_string(), unique_identifier: Some("s2".to_string()) };
    let v = s.encode();
    let d = HoldingTradesParameters::decode(&v).unwrap();
    assert_eq!(d, s);
}

#[test]
fn round_trip_holding_trades_success() {
    let s = HoldingTradesSuccess { trades: vec!["s1".to_string()], api_transaction: HoldingTradesApiTransactionSuccess { id: 2, version: 3, action: "s4".to_string(), timestamp: "s5".to_string() } };
    let v = s.encode();
    let d = HoldingTradesSuccess::decode(&v).unwrap();
    assert_eq!(d, s);
}

#[test]
fn round_trip_holding_trades_trades_success() {
    let s = HoldingTradesTradesSuccess { id: "s1".to_string(), unique_identifier: "s2".to_string(), transaction_date: Date::from_ymd(2020, 1, 15).unwrap(), quantity: Decimal::new(false, 3, 2), price: Decimal::new(false, 4, 2), cost_base: Decimal::new(false, 5, 2), exchange_rate: Decimal::new(false, 6, 2), brokerage: Decimal::new(false, 7, 2), brokerage_currency_code: Currency::Aud, value: Decimal::new(false, 8, 2), paid_on: Date::from_ymd(2020, 1, 15).unwrap(), company_event_id: 9, comments: "s10".to_string(), portfolio_id: 11, holding_id: 12, state: "s13".to_string(), transaction_type: TradeDescription::Buy, instrument_id: 14, symbol: "s15".to_string(), market: Market::Asx, attachment_filename: "s16".to_string(), attachment_id: 17, confirmed: true };
    let v = s.encode();
    let d = HoldingTradesTradesSuccess::decode(&v).unwrap();
    assert_eq!(d, s);
}

#[test]
fn round_trip_holding_trades_api_transaction_success() {
    let s = HoldingTradesApiTransactionSuccess { id: 1, version: 2, action: "s3".to_string(), timestamp: "s4".to_string() };
    let v = s.encode();
    let d = HoldingTradesApiTransactionSuccess::decode(&v).unwrap();
    assert_eq!(d, s);
}

#[test]
fn round_trip_holding_trades_rejected_parameters() {
    let s = HoldingTradesRejectedParameters { holding_id: "s1".to_string() };
    let v = s.encode();
    let d = HoldingTradesRejectedParameters::decode(&v).unwrap();
    assert_eq!(d, s);
}

#[test]
fn round_trip_holding_trades_rejected_success() {
    let s = HoldingTradesRejectedSuccess { trades: vec!["s1".to_string()], api_transaction: HoldingTradesRejectedApiTransactionSuccess { id: 2, version: 3, action: "s4".to_string(), timestamp: "s5".to_string() } };
    let v = s.encode();
    let d = HoldingTradesRejectedSuccess::decode(&v).unwrap();
    assert_eq!(d, s);
}

#[test]
fn round_trip_holding_trades_rejected_trades_success() {
    let s = HoldingTradesRejectedTradesSuccess { id: "s1".to_string(), unique_identifier: "s2".to_string(), transaction_date: Date::from_ymd(2020, 1, 15).unwrap(), quantity: Decimal::new(false, 3, 2), price: Decimal::new(false, 4, 2), cost_base: Decimal::new(false, 5, 2), exchange_rate: Decimal::new(false, 6, 2), brokerage: Decimal::new(false, 7, 2), brokerage_currency_code: Currency::Aud, value: Decimal::new(false, 8, 2), paid_on: Date::from_ymd(2020, 1, 15).unwrap(), company_event_id: 9, comments: "s10".to_string(), portfolio_id: 11, holding_id: 12, state: "s13".to_string(), transaction_type: TradeDescription::Buy, instrument_id: 14, symbol: "s15".to_string(), market: Market::Asx, attachment_filename: "s16".to_string(), attachment_id: 17, confirmed: true };
    let v = s.encode();
    let d = HoldingTradesRejectedTradesSuccess::decode(&v).unwrap();
    assert_eq!(d, s);
}

#[test]
fn round_trip_holding_trades_rejected_api_transaction_success() {
    let s = HoldingTradesRejectedApiTransactionSuccess { id: 1, version: 2, action: "s3".to_string(), timestamp: "s4".to_string() };
    let v = s.encode();
    let d = HoldingTradesRejectedApiTransactionSuccess::decode(&v).unwrap();
    assert_eq!(d, s);
}

#[test]
fn round_trip_list_user_instruments_success() {
    let s = ListUserInstrumentsSuccess { instruments: vec![ListUserInstrumentsInstrumentsSuccess { id: 1, code: "s2".to_string(), market_code: Market::Asx, name: "s3".to_string(), currency_code: Currency::Aud, pe_ratio: Some(Decimal::new(false, 4, 2)), nta: Some(Decimal::new(false, 5, 2)), eps: Some(Decimal::new(false, 6, 2)), current_price: Decimal::new(false, 7, 2), current_price_updated_at: DateTime::new(Date::from_ymd(2020, 1, 15).unwrap(), 10, 30, 0, 600).unwrap(), sector_classification_name: "s8".to_string(), industry_classification_name: "s9".to_string(), security_type: Some("s10".to_string()), friendly_instrument_description: "s11".to_string(), registry_name: Some("s12".to_string()) }] };
    let v = s.encode();
    let d = ListUserInstrumentsSuccess::decode(&v).unwrap();
    assert_eq!(d, s);
}

#[test]
fn round_trip_list_user_instruments_instruments_success() {
    let s = ListUserInstrumentsInstrumentsSuccess { id: 1, code: "s2".to_string(), market_code: Market::Asx, name: "s3".to_string(), currency_code: Currency::Aud, pe_ratio: Some(Decimal::new(false, 4, 2)), nta: Some(Decimal::new(false, 5, 2)), eps: Some(Decimal::new(false, 6, 2)), current_price: Decimal::new(false, 7, 2), current_price_updated_at: DateTime::new(Date::from_ymd(2020, 1, 15).unwrap(), 10, 30, 0, 600).unwrap(), sector_classification_name: "s8".to_string(), industry_classification_name: "s9".to_string(), security_type: Some("s10".to_string()), friendly_instrument_description: "s11".to_string(), registry_name: Some("s12".to_string()) };
    let v = s.encode();
    let d = ListUserInstrumentsInstrumentsSuccess::decode(&v).unwrap();
    assert_eq!(d, s);
}

#[test]
fn round_trip_document_show_parameters() {
    let s = DocumentShowParameters { id: 1 };
    let v = s.encode();
    let d = DocumentShowParameters::decode(&v).unwrap();
    assert_eq!(d, s);
}

#[test]
fn round_trip_document_show_success() {
    let s = DocumentShowSuccess { file: Ignored };
    let v = s.encode();
    let d = DocumentShowSuccess::decode(&v).unwrap();
    assert_eq!(d, s);
}
