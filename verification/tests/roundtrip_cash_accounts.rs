#![allow(unused_imports)]

use sharesight_types::codec::FromJson;
use sharesight_types::codec::Ignored;
use sharesight_types::codec::ToJson;
use sharesight_types::date::Date;
use sharesight_types::date::DateTime;
use sharesight_types::json::Decimal;
use sharesight_types::enums::Country;
use sharesight_types::enums::Currency;
use sharesight_types::enums::Market;
use sharesight_types::enums::PayoutDescription;
use sharesight_types::enums::SaleAllocationMethod;
use sharesight_types::enums::TradeDescription;
use sharesight_types::cash_accounts::CashAccountCreateCashAccountLinksSuccess;
use sharesight_types::cash_accounts::CashAccountCreateCashAccountParameters;
use sharesight_types::cash_accounts::CashAccountCreateCashAccountSuccess;
use sharesight_types::cash_accounts::CashAccountCreateParameters;
use sharesight_types::cash_accounts::CashAccountCreateSuccess;
use sharesight_types::cash_accounts::CashAccountDeleteParameters;
use sharesight_types::cash_accounts::CashAccountShowLinksSuccess;
use sharesight_types::cash_accounts::CashAccountShowParameters;
use sharesight_types::cash_accounts::CashAccountShowSuccess;
use sharesight_types::cash_accounts::CashAccountTransactionCreateCashAccountTransactionLinksSuccess;
use sharesight_types::cash_accounts::CashAccountTransactionCreateCashAccountTransactionSuccess;
use sharesight_types::cash_accounts::CashAccountTransactionCreateParameters;
use sharesight_types::cash_accounts::CashAccountTransactionCreateSuccess;
use sharesight_types::cash_accounts::CashAccountTransactionDeleteParameters;
use sharesight_types::cash_accounts::CashAccountTransactionUpdateCashAccountTransactionLinksSuccess;
use sharesight_types::cash_accounts::CashAccountTransactionUpdateCashAccountTransactionSuccess;
use sharesight_types::cash_accounts::CashAccountTransactionUpdateParameters;
use sharesight_types::cash_accounts::CashAccountTransactionUpdateSuccess;
use sharesight_types::cash_accounts::CashAccountTransactionsListCashAccountTransactionsLinksSuccess;
use sharesight_types::cash_accounts::CashAccountTransactionsListCashAccountTransactionsSuccess;
use sharesight_types::cash_accounts::CashAccountTransactionsListLinksSuccess;
use sharesight_types::cash_accounts::CashAccountTransactionsListParameters;
use sharesight_types::cash_accounts::CashAccountTransactionsListSuccess;
use sharesight_types::cash_accounts::CashAccountUpdateLinksSuccess;
use sharesight_types::cash_accounts::CashAccountUpdateParameters;
use sharesight_types::cash_accounts::CashAccountUpdateSuccess;
use sharesight_types::cash_accounts::CashAccountsListCashAccountsLinksSuccess;
use sharesight_types::cash_accounts::CashAccountsListCashAccountsSuccess;
use sharesight_types::cash_accounts::CashAccountsListLinksSuccess;
use sharesight_types::cash_accounts::CashAccountsListParameters;
use sharesight_types::cash_accounts::CashAccountsListSuccess;

#[test]
fn round_trip_cash_account_create_parameters() {
    let s = CashAccountCreateParameters { portfolio_id: 1, cash_account: CashAccountCreateCashAccountParameters { name: "s2".to_string(), currency: Currency::Aud } };
    let v = s.encode();
    let d = CashAccountCreateParameters::decode(&v).unwrap();
    assert_eq!(d, s);
}

#[test]
fn round_trip_cash_account_create_cash_account_parameters() {
    let s = CashAccountCreateCashAccountParameters { name: "s1".to_string(), currency: Currency::Aud };
    let v = s.encode();
    let d = CashAccountCreateCashAccountParameters::decode(&v).unwrap();
    assert_eq!(d, s);
}

#[test]
fn round_trip_cash_account_create_success() {
    let s = CashAccountCreateSuccess { cash_account: CashAccountCreateCashAccountSuccess { id: 1, name: "s2".to_string(), currency: Currency::Aud, portfolio_currency: Currency::Aud, portfolio_id: 3, date: Date::from_ymd(2020, 1, 15).unwrap(), balance: Decimal::new(false, 4, 2), balance_in_portfolio_currency: Decimal::new(false, 5, 2), links: CashAccountCreateCashAccountLinksSuccess { portfolio: "s6".to_string() } } };
    let v = s.encode();
    let d = CashAccountCreateSuccess::decode(&v).unwrap();
    assert_eq!(d, s);
}

#[test]
fn round_trip_cash_account_create_cash_account_success() {
    let s = CashAccountCreateCashAccountSuccess { id: 1, name: "s2".to_string(), currency: Currency::Aud, portfolio_currency: Currency::Aud, portfolio_id: 3, date: Date::from_ymd(2020, 1, 15).unwrap(), balance: Decimal::new(false, 4, 2), balance_in_portfolio_currency: Decimal::new(false, 5, 2), links: CashAccountCreateCashAccountLinksSuccess { portfolio: "s6".to_string() } };
    let v = s.encode();
    let d = CashAccountCreateCashAccountSuccess::decode(&v).unwrap();
    assert_eq!(d, s);
}

#[test]
fn round_trip_cash_account_create_cash_account_links_success() {
    let s = CashAccountCreateCashAccountLinksSuccess { portfolio: "s1".to_string() };
    let v = s.encode();
    let d = CashAccountCreateCashAccountLinksSuccess::decode(&v).unwrap();
    assert_eq!(d, s);
}

#[test]
fn round_trip_cash_account_delete_parameters() {
    let s = CashAccountDeleteParameters { id: 1 };
    let v = s.encode();
    let d = CashAccountDeleteParameters::decode(&v).unwrap();
    assert_eq!(d, s);
}

#[test]
fn round_trip_cash_account_show_parameters() {
    let s = CashAccountShowParameters { id: 1, date: Some(Date::from_ymd(2020, 1, 15).unwrap()) };
    let v = s.encode();
    let d = CashAccountShowParameters::decode(&v).unwrap();
    assert_eq!(d, s);
}

#[test]
fn round_trip_cash_account_show_success() {
    let s = CashAccountShowSuccess { id: 1, name: "s2".to_string(), currency: Currency::Aud, portfolio_currency: Currency::Aud, portfolio_id: 3, date: Date::from_ymd(2020, 1, 15).unwrap(), balance: Decimal::new(false, 4, 2), balance_in_portfolio_currency: Decimal::new(false, 5, 2), links: CashAccountShowLinksSuccess { portfolio: "s6".to_string(), itself: "s7".to_string() } };
    let v = s.encode();
    let d = CashAccountShowSuccess::decode(&v).unwrap();
    assert_eq!(d, s);
}

#[test]
fn round_trip_cash_account_show_links_success() {
    let s = CashAccountShowLinksSuccess { portfolio: "s1".to_string(), itself: "s2".to_string() };
    let v = s.encode();
    let d = CashAccountShowLinksSuccess::decode(&v).unwrap();
    assert_eq!(d, s);
}

#[test]
fn round_trip_cash_account_transaction_create_parameters() {
    let s = CashAccountTransactionCreateParameters { cash_account_id: 1, description: "s2".to_string(), amount: Decimal::new(false, 3, 2), transaction_type: "s4".to_string(), date_time: DateTime::new(Date::from_ymd(2020, 1, 15).unwrap(), 10, 30, 0, 600).unwrap(), foreign_identifier: Some("s5".to_string()) };
    let v = s.encode();
    let d = CashAccountTransactionCreateParameters::decode(&v).unwrap();
    assert_eq!(d, s);
}

#[test]
fn round_trip_cash_account_transaction_create_success() {
    let s = CashAccountTransactionCreateSuccess { cash_account_transaction: CashAccountTransactionCreateCashAccountTransactionSuccess { id: 1, description: "s2".to_string(), date_time: DateTime::new(Date::from_ymd(2020, 1, 15).unwrap(), 10, 30, 0, 600).unwrap(), amount: Decimal::new(false, 3, 2), balance: Decimal::new(false, 4, 2), cash_account_id: "s5".to_string(), foreign_identifier: "s6".to_string(), holding_id: 7, trade_id: 8, cash_account_transaction_type: "s9".to_string(), links: CashAccountTransactionCreateCashAccountTransactionLinksSuccess { portfolio: "s10".to_string() } } };
    let v = s.encode();
    let d = CashAccountTransactionCreateSuccess::decode(&v).unwrap();
    assert_eq!(d, s);
}

#[test]
fn round_trip_cash_account_transaction_create_cash_account_transaction_success() {
    let s = CashAccountTransactionCreateCashAccountTransactionSuccess { id: 1, description: "s2".to_string(), date_time: DateTime::new(Date::from_ymd(2020, 1, 15).unwrap(), 10, 30, 0, 600).unwrap(), amount: Decimal::new(false, 3, 2), balance: Decimal::new(false, 4, 2), cash_account_id: "s5".to_string(), foreign_identifier: "s6".to_string(), holding_id: 7, trade_id: 8, cash_account_transaction_type: "s9".to_string(), links: CashAccountTransactionCreateCashAccountTransactionLinksSuccess { portfolio: "s10".to_string() } };
    let v = s.encode();
    let d = CashAccountTransactionCreateCashAccountTransactionSuccess::decode(&v).unwrap();
    assert_eq!(d, s);
}

#[test]
fn round_trip_cash_account_transaction_create_cash_account_transaction_links_success() {
    let s = CashAccountTransactionCreateCashAccountTransactionLinksSuccess { portfolio: "s1".to_string() };
    let v = s.encode();
    let d = CashAccountTransactionCreateCashAccountTransactionLinksSuccess::decode(&v).unwrap();
    assert_eq!(d, s);
}

#[test]
fn round_trip_cash_account_transaction_delete_parameters() {
    let s = CashAccountTransactionDeleteParameters { id: 1 };
    let v = s.encode();
    let d = CashAccountTransactionDeleteParameters::decode(&v).unwrap();
    assert_eq!(d, s);
}

#[test]
fn round_trip_cash_account_transaction_update_parameters() {
    let s = CashAccountTransactionUpdateParameters { id: 1, description: "s2".to_string(), amount: Decimal::new(false, 3, 2), transaction_type: "s4".to_string(), date_time: DateTime::new(Date::from_ymd(2020, 1, 15).unwrap(), 10, 30, 0, 600).unwrap(), foreign_identifier: Some("s5".to_string()) };
    let v = s.encode();
    let d = CashAccountTransactionUpdateParameters::decode(&v).unwrap();
    assert_eq!(d, s);
}

#[test]
fn round_trip_cash_account_transaction_update_success() {
    let s = CashAccountTransactionUpdateSuccess { cash_account_transaction: CashAccountTransactionUpdateCashAccountTransactionSuccess { id: 1, description: "s2".to_string(), date_time: DateTime::new(Date::from_ymd(2020, 1, 15).unwrap(), 10, 30, 0, 600).unwrap(), amount: Decimal::new(false, 3, 2), balance: Decimal::new(false, 4, 2), cash_account_id: "s5".to_string(), foreign_identifier: "s6".to_string(), holding_id: 7, trade_id: 8, cash_account_transaction_type: "s9".to_string(), links: CashAccountTransactionUpdateCashAccountTransactionLinksSuccess { portfolio: "s10".to_string() } } };
    let v = s.encode();
    let d = CashAccountTransactionUpdateSuccess::decode(&v).unwrap();
    assert_eq!(d, s);
}

#[test]
fn round_trip_cash_account_transaction_update_cash_account_transaction_success() {
    let s = CashAccountTransactionUpdateCashAccountTransactionSuccess { id: 1, description: "s2".to_string(), date_time: DateTime::new(Date::from_ymd(2020, 1, 15).unwrap(), 10, 30, 0, 600).unwrap(), amount: Decimal::new(false, 3, 2), balance: Decimal::new(false, 4, 2), cash_account_id: "s5".to_string(), foreign_identifier: "s6".to_string(), holding_id: 7, trade_id: 8, cash_account_transaction_type: "s9".to_string(), links: CashAccountTransactionUpdateCashAccountTransactionLinksSuccess { portfolio: "s10".to_string() } };
    let v = s.encode();
    let d = CashAccountTransactionUpdateCashAccountTransactionSuccess::decode(&v).unwrap();
    assert_eq!(d, s);
}

#[test]
fn round_trip_cash_account_transaction_update_cash_account_transaction_links_success() {
    let s = CashAccountTransactionUpdateCashAccountTransactionLinksSuccess { portfolio: "s1".to_string() };
    let v = s.encode();
    let d = CashAccountTransactionUpdateCashAccountTransactionLinksSuccess::decode(&v).unwrap();
    assert_eq!(d, s);
}

#[test]
fn round_trip_cash_account_transactions_list_parameters() {
    let s = CashAccountTransactionsListParameters { cash_account_id: 1, from: Some(Date::from_ymd(2020, 1, 15).unwrap()), to: Some(Date::from_ymd(2020, 1, 15).unwrap()), description: Some("s2".to_string()), foreign_identifier: Some("s3".to_string()) };
    let v = s.encode();
    let d = CashAccountTransactionsListParameters::decode(&v).unwrap();
    assert_eq!(d, s);
}

#[test]
fn round_trip_cash_account_transactions_list_success() {
    let s = CashAccountTransactionsListSuccess { cash_account_transactions: vec![CashAccountTransactionsListCashAccountTransactionsSuccess { id: 1, date_time: DateTime::new(Date::from_ymd(2020, 1, 15).unwrap(), 10, 30, 0, 600).unwrap(), amount: Decimal::new(false, 2, 2), balance: Decimal::new(false, 3, 2), cash_account_id: 4, foreign_identifier: "s5".to_string(), holding_id: 6, trade_id: 7, payout_id: 8, cash_account_transaction_type: "s9".to_string(), links: CashAccountTransactionsListCashAccountTransactionsLinksSuccess { portfolio: "s10".to_string() } }], links: CashAccountTransactionsListLinksSuccess { itself: "s11".to_string() } };
    let v = s.encode();
    let d = CashAccountTransactionsListSuccess::decode(&v).unwrap();
    assert_eq!(d, s);
}

#[test]
fn round_trip_cash_account_transactions_list_cash_account_transactions_success() {
    let s = CashAccountTransactionsListCashAccountTransactionsSuccess { id: 1, date_time: DateTime::new(Date::from_ymd(2020, 1, 15).unwrap(), 10, 30, 0, 600).unwrap(), amount: Decimal::new(false, 2, 2), balance: Decimal::new(false, 3, 2), cash_account_id: 4, foreign_identifier: "s5".to_string(), holding_id: 6, trade_id: 7, payout_id: 8, cash_account_transaction_type: "s9".to_string(), links: CashAccountTransactionsListCashAccountTransactionsLinksSuccess { portfolio: "s10".to_string() } };
    let v = s.encode();
    let d = CashAccountTransactionsListCashAccountTransactionsSuccess::decode(&v).unwrap();
    assert_eq!(d, s);
}

#[test]
fn round_trip_cash_account_transactions_list_cash_account_transactions_links_success() {
    let s = CashAccountTransactionsListCashAccountTransactionsLinksSuccess { portfolio: "s1".to_string() };
    let v = s.encode();
    let d = CashAccountTransactionsListCashAccountTransactionsLinksSuccess::decode(&v).unwrap();
    assert_eq!(d, s);
}

#[test]
fn round_trip_cash_account_transactions_list_links_success() {
    let s = CashAccountTransactionsListLinksSuccess { itself: "s1".to_string() };
    let v = s.encode();
    let d = CashAccountTransactionsListLinksSuccess::decode(&v).unwrap();
    assert_eq!(d, s);
}

#[test]
fn round_trip_cash_account_update_parameters() {
    let s = CashAccountUpdateParameters { id: 1, name: "s2".to_string(), currency: Currency::Aud };
    let v = s.encode();
    let d = CashAccountUpdateParameters::decode(&v).unwrap();
    assert_eq!(d, s);
}

#[test]
fn round_trip_cash_account_update_success() {
    let s = CashAccountUpdateSuccess { id: 1, name: "s2".to_string(), currency: Currency::Aud, portfolio_currency: Currency::Aud, portfolio_id: 3, date: Date::from_ymd(2020, 1, 15).unwrap(), balance: Decimal::new(false, 4, 2), balance_in_portfolio_currency: Decimal::new(false, 5, 2), links: CashAccountUpdateLinksSuccess { portfolio: "s6".to_string() } };
    let v = s.encode();
    let d = CashAccountUpdateSuccess::decode(&v).unwrap();
    assert_eq!(d, s);
}

#[test]
fn round_trip_cash_account_update_links_success() {
    let s = CashAccountUpdateLinksSuccess { portfolio: "s1".to_string() };
    let v = s.encode();
    let d = CashAccountUpdateLinksSuccess::decode(&v).unwrap();
    assert_eq!(d, s);
}

#[test]
fn round_trip_cash_accounts_list_parameters() {
    let s = CashAccountsListParameters { date: Some(Date::from_ymd(2020, 1, 15).unwrap()) };
    let v = s.encode();
    let d = CashAccountsListParameters::decode(&v).unwrap();
    assert_eq!(d, s);
}

#[test]
fn round_trip_cash_accounts_list_success() {
    let s = CashAccountsListSuccess { cash_accounts: vec![CashAccountsListCashAccountsSuccess { id: 1, name: "s2".to_string(), currency: Currency::Aud, portfolio_id: 3, portfolio_currency: Currency::Aud, date: Date::from_ymd(2020, 1, 15).unwrap(), balance: Decimal::new(false, 4, 2), balance_in_portfolio_currency: Decimal::new(false, 5, 2), links: CashAccountsListCashAccountsLinksSuccess { portfolio: "s6".to_string() } }], links: CashAccountsListLinksSuccess { itself: "s7".to_string() } };
    let v = s.encode();
    let d = CashAccountsListSuccess::decode(&v).unwrap();
    assert_eq!(d, s);
}

#[test]
fn round_trip_cash_accounts_list_cash_accounts_success() {
    let s = CashAccountsListCashAccountsSuccess { id: 1, name: "s2".to_string(), currency: Currency::Aud, portfolio_id: 3, portfolio_currency: Currency::Aud, date: Date::from_ymd(2020, 1, 15).unwrap(), balance: Decimal::new(false, 4, 2), balance_in_portfolio_currency: Decimal::new(false, 5, 2), links: CashAccountsListCashAccountsLinksSuccess { portfolio: "s6".to_string() } };
    let v = s.encode();
    let d = CashAccountsListCashAccountsSuccess::decode(&v).unwrap();
    assert_eq!(d, s);
}

#[test]
fn round_trip_cash_accounts_list_cash_accounts_links_success() {
    let s = CashAccountsListCashAccountsLinksSuccess { portfolio: "s1".to_string() };
    let v = s.encode();
    let d = CashAccountsListCashAccountsLinksSuccess::decode(&v).unwrap();
    assert_eq!(d, s);
}

#[test]
fn round_trip_cash_accounts_list_links_success() {
    let s = CashAccountsListLinksSuccess { itself: "s1".to_string() };
    let v = s.encode();
    let d = CashAccountsListLinksSuccess::decode(&v).unwrap();
    assert_eq!(d, s);
}
