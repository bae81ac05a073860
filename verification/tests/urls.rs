#![allow(unused_imports)]

use sharesight_types::api::ApiHttpMethod;
use sharesight_types::cash_accounts::CashAccountCreate;
use sharesight_types::cash_accounts::CashAccountDelete;
use sharesight_types::cash_accounts::CashAccountShow;
use sharesight_types::cash_accounts::CashAccountTransactionCreate;
use sharesight_types::cash_accounts::CashAccountTransactionDelete;
use sharesight_types::cash_accounts::CashAccountTransactionUpdate;
use sharesight_types::cash_accounts::CashAccountTransactionsList;
use sharesight_types::cash_accounts::CashAccountUpdate;
use sharesight_types::cash_accounts::CashAccountsList;
use sharesight_types::holdings::DocumentShow;
use sharesight_types::holdings::HoldingMergesCreate;
use sharesight_types::holdings::HoldingMergesUpdate;
use sharesight_types::holdings::HoldingTrades;
use sharesight_types::holdings::HoldingTradesRejected;
use sharesight_types::holdings::ListUserInstruments;
use sharesight_types::membership::MembershipCreate;
use sharesight_types::membership::MembershipDelete;
use sharesight_types::membership::MembershipList;
use sharesight_types::membership::MembershipUpdate;
use sharesight_types::payouts::ListHoldingPayouts;
use sharesight_types::payouts::ListPortfolioPayouts;
use sharesight_types::payouts::PayoutConfirm;
use sharesight_types::payouts::PayoutCreate;
use sharesight_types::payouts::PayoutDelete;
use sharesight_types::payouts::PayoutReject;
use sharesight_types::payouts::PayoutShow;
use sharesight_types::payouts::PayoutUpdate;
use sharesight_types::portfolios::GroupsList;
use sharesight_types::portfolios::PortfolioCreate;
use sharesight_types::portfolios::PortfolioDelete;
use sharesight_types::portfolios::PortfolioList;
use sharesight_types::portfolios::PortfolioShow;
use sharesight_types::portfolios::PortfolioUpdate;
use sharesight_types::reports::CapitalGains;
use sharesight_types::reports::Diversity;
use sharesight_types::reports::Performance;
use sharesight_types::reports::UnrealisedCgt;
use sharesight_types::reports::Valuation;
use sharesight_types::trades::TradeConfirm;
use sharesight_types::trades::TradeReject;
use sharesight_types::trades::Trades;
use sharesight_types::trades::TradesCreate;
use sharesight_types::trades::TradesDestroy;
use sharesight_types::trades::TradesShow;
use sharesight_types::trades::TradesUpdate;
use sharesight_types::users::Currencies;
use sharesight_types::users::IdentityByToken;
use sharesight_types::users::IdentitySignupByToken;
use sharesight_types::users::MyUser;
use sharesight_types::users::RequestSingleSignOn;
use sharesight_types::cash_accounts::CashAccountCreateCashAccountLinksSuccess;
use sharesight_types::cash_accounts::CashAccountCreateCashAccountParameters;
use sharesight_types::cash_accounts::CashAccountCreateCashAccountSuccess;
use sharesight_types::cash_accounts::CashAccountCreateParameters;
use sharesight_types::cash_accounts::CashAccountCreateSuccess;
use sharesight_types::cash_accounts::CashAccountDeleteParameters;
use sharesight_types::cash_accounts::CashAccountShowLinksSuccess;
use sharesight_types::cash_accounts::CashAccountShowParameters;
use sharesight_types::cash_accounts::CashAccountShowSuccess;
use sharesight_types::cash_accounts::CashAccountTransactionCreateCashAccountTransactionLinksSuccess;
use sharesight_types::cash_accounts::CashAccountTransactionCreateCashAccountTransactionSuccess;
use sharesight_types::cash_accounts::CashAccountTransactionCreateParameters;
use sharesight_types::cash_accounts::CashAccountTransactionCreateSuccess;
use sharesight_types::cash_accounts::CashAccountTransactionDeleteParameters;
use sharesight_types::cash_accounts::CashAccountTransactionUpdateCashAccountTransactionLinksSuccess;
use sharesight_types::cash_accounts::CashAccountTransactionUpdateCashAccountTransactionSuccess;
use sharesight_types::cash_accounts::CashAccountTransactionUpdateParameters;
use sharesight_types::cash_accounts::CashAccountTransactionUpdateSuccess;
use sharesight_types::cash_accounts::CashAccountTransactionsListCashAccountTransactionsLinksSuccess;
use sharesight_types::cash_accounts::CashAccountTransactionsListCashAccountTransactionsSuccess;
use sharesight_types::cash_accounts::CashAccountTransactionsListLinksSuccess;
use sharesight_types::cash_accounts::CashAccountTransactionsListParameters;
use sharesight_types::cash_accounts::CashAccountTransactionsListSuccess;
use sharesight_types::cash_accounts::CashAccountUpdateLinksSuccess;
use sharesight_types::cash_accounts::CashAccountUpdateParameters;
use sharesight_types::cash_accounts::CashAccountUpdateSuccess;
use sharesight_types::holdings::DocumentShowParameters;
use sharesight_types::holdings::DocumentShowSuccess;
use sharesight_types::holdings::HoldingMergesCreateHoldingMergeSuccess;
use sharesight_types::holdings::HoldingMergesCreateHoldingMergeTradesSuccess;
use sharesight_types::holdings::HoldingMergesCreateParameters;
use sharesight_types::holdings::HoldingMergesCreateSuccess;
use sharesight_types::holdings::HoldingMergesUpdateHoldingMergeSuccess;
use sharesight_types::holdings::HoldingMergesUpdateHoldingMergeTradesSuccess;
use sharesight_types::holdings::HoldingMergesUpdateParameters;
use sharesight_types::holdings::HoldingMergesUpdateSuccess;
use sharesight_types::holdings::HoldingTradesApiTransactionSuccess;
use sharesight_types::holdings::HoldingTradesParameters;
use sharesight_types::holdings::HoldingTradesRejectedApiTransactionSuccess;
use sharesight_types::holdings::HoldingTradesRejectedParameters;
use sharesight_types::holdings::HoldingTradesRejectedSuccess;
use sharesight_types::holdings::HoldingTradesRejectedTradesSuccess;
use sharesight_types::holdings::HoldingTradesSuccess;
use sharesight_types::holdings::HoldingTradesTradesSuccess;
use sharesight_types::membership::MembershipDeleteParameters;
use sharesight_types::membership::MembershipUpdateInvitationSuccess;
use sharesight_types::membership::MembershipUpdateLinksSuccess;
use sharesight_types::membership::MembershipUpdateParameters;
use sharesight_types::membership::MembershipUpdateSuccess;
use sharesight_types::membership::MembershipUpdateUserSuccess;
use sharesight_types::payouts::ListHoldingPayoutsLinksSuccess;
use sharesight_types::payouts::ListHoldingPayoutsParameters;
use sharesight_types::payouts::ListHoldingPayoutsPayoutsDrpTradeAttributesSuccess;
use sharesight_types::payouts::ListHoldingPayoutsPayoutsLinksSuccess;
use sharesight_types::payouts::ListHoldingPayoutsPayoutsSuccess;
use sharesight_types::payouts::ListHoldingPayoutsSuccess;
use sharesight_types::payouts::ListPortfolioPayoutsLinksSuccess;
use sharesight_types::payouts::ListPortfolioPayoutsParameters;
use sharesight_types::payouts::ListPortfolioPayoutsPayoutsDrpTradeAttributesSuccess;
use sharesight_types::payouts::ListPortfolioPayoutsPayoutsLinksSuccess;
use sharesight_types::payouts::ListPortfolioPayoutsPayoutsSuccess;
use sharesight_types::payouts::ListPortfolioPayoutsSuccess;
use sharesight_types::payouts::PayoutDeleteParameters;
use sharesight_types::payouts::PayoutDeleteSuccess;
use sharesight_types::payouts::PayoutShowDrpTradeAttributesSuccess;
use sharesight_types::payouts::PayoutShowLinksSuccess;
use sharesight_types::payouts::PayoutShowParameters;
use sharesight_types::payouts::PayoutShowSuccess;
use sharesight_types::payouts::PayoutUpdateDrpTradeAttributesSuccess;
use sharesight_types::payouts::PayoutUpdateLinksSuccess;
use sharesight_types::payouts::PayoutUpdateParameters;
use sharesight_types::payouts::PayoutUpdatePayoutDrpTradeAttributesParameters;
use sharesight_types::payouts::PayoutUpdatePayoutParameters;
use sharesight_types::payouts::PayoutUpdateSuccess;
use sharesight_types::portfolios::PortfolioDeleteParameters;
use sharesight_types::portfolios::PortfolioDeleteSuccess;
use sharesight_types::portfolios::PortfolioShowLinksSuccess;
use sharesight_types::portfolios::PortfolioShowParameters;
use sharesight_types::portfolios::PortfolioShowSuccess;
use sharesight_types::portfolios::PortfolioUpdateLinksSuccess;
use sharesight_types::portfolios::PortfolioUpdateParameters;
use sharesight_types::portfolios::PortfolioUpdateSuccess;
use sharesight_types::reports::CapitalGainsDiscountedCapitalGainDistributionsSuccess;
use sharesight_types::reports::CapitalGainsLongTermParcelsSuccess;
use sharesight_types::reports::CapitalGainsLossParcelsSuccess;
use sharesight_types::reports::CapitalGainsNonDiscountedCapitalGainDistributionsSuccess;
use sharesight_types::reports::CapitalGainsParameters;
use sharesight_types::reports::CapitalGainsShortTermParcelsSuccess;
use sharesight_types::reports::CapitalGainsSuccess;
use sharesight_types::reports::DiversityGroupsGroupElementsSuccess;
use sharesight_types::reports::DiversityGroupsGroupSuccess;
use sharesight_types::reports::DiversityGroupsSuccess;
use sharesight_types::reports::DiversityParameters;
use sharesight_types::reports::DiversitySuccess;
use sharesight_types::reports::PerformanceCashAccountsSuccess;
use sharesight_types::reports::PerformanceHoldingsSuccess;
use sharesight_types::reports::PerformanceParameters;
use sharesight_types::reports::PerformanceSubTotalsSuccess;
use sharesight_types::reports::PerformanceSuccess;
use sharesight_types::reports::UnrealisedCgtLongTermParcelsSuccess;
use sharesight_types::reports::UnrealisedCgtLossesSuccess;
use sharesight_types::reports::UnrealisedCgtParameters;
use sharesight_types::reports::UnrealisedCgtShortTermParcelsSuccess;
use sharesight_types::reports::UnrealisedCgtSuccess;
use sharesight_types::reports::ValuationCashAccountsSuccess;
use sharesight_types::reports::ValuationHoldingsSuccess;
use sharesight_types::reports::ValuationParameters;
use sharesight_types::reports::ValuationSubTotalsSuccess;
use sharesight_types::reports::ValuationSuccess;
use sharesight_types::trades::TradesApiTransactionSuccess;
use sharesight_types::trades::TradesDestroyApiTransactionSuccess;
use sharesight_types::trades::TradesDestroyParameters;
use sharesight_types::trades::TradesDestroySuccess;
use sharesight_types::trades::TradesParameters;
use sharesight_types::trades::TradesShowApiTransactionSuccess;
use sharesight_types::trades::TradesShowParameters;
use sharesight_types::trades::TradesShowSuccess;
use sharesight_types::trades::TradesSuccess;
use sharesight_types::trades::TradesTradesSuccess;
use sharesight_types::trades::TradesUpdateApiTransactionSuccess;
use sharesight_types::trades::TradesUpdateParameters;
use sharesight_types::trades::TradesUpdateSuccess;
use sharesight_types::trades::TradesUpdateTradeParameters;
use sharesight_types::trades::TradesUpdateTradeSuccess;
use sharesight_types::date::Date;
use sharesight_types::date::DateTime;
use sharesight_types::json::Decimal;
use sharesight_types::enums::Country;
use sharesight_types::enums::Currency;
use sharesight_types::enums::Market;
use sharesight_types::enums::PayoutDescription;
use sharesight_types::enums::SaleAllocationMethod;
use sharesight_types::enums::TradeDescription;

#[test]
fn url_cash_account_create() {
    let p = CashAccountCreateParameters { portfolio_id: 1, cash_account: CashAccountCreateCashAccountParameters { name: "s2".to_string(), currency: Currency::Aud } };
    assert_eq!(CashAccountCreate::url(&p), "/portfolios/1/cash_accounts.json");
    assert_eq!(CashAccountCreate::url_path(&p).render(), "/portfolios/1/cash_accounts.json");
    assert_eq!(CashAccountCreate::url_template(), "/portfolios/:portfolio_id/cash_accounts.json");
    assert_eq!(CashAccountCreate::http_method(), ApiHttpMethod::Post);
}

#[test]
fn url_cash_account_delete() {
    let p = CashAccountDeleteParameters { id: 1 };
    assert_eq!(CashAccountDelete::url(&p), "/cash_accounts/1.json");
    assert_eq!(CashAccountDelete::url_path(&p).render(), "/cash_accounts/1.json");
    assert_eq!(CashAccountDelete::url_template(), "/cash_accounts/:id.json");
    assert_eq!(CashAccountDelete::http_method(), ApiHttpMethod::Delete);
}

#[test]
fn url_cash_account_show() {
    let p = CashAccountShowParameters { id: 1, date: Some(Date::from_ymd(2020, 1, 15).unwrap()) };
    assert_eq!(CashAccountShow::url(&p), "/cash_accounts/1.json");
    assert_eq!(CashAccountShow::url_path(&p).render(), "/cash_accounts/1.json");
    assert_eq!(CashAccountShow::url_template(), "/cash_accounts/:id.json");
    assert_eq!(CashAccountShow::http_method(), ApiHttpMethod::Get);
}

#[test]
fn url_cash_account_transaction_create() {
    let p = CashAccountTransactionCreateParameters { cash_account_id: 1, description: "s2".to_string(), amount: Decimal::new(false, 3, 2), transaction_type: "s4".to_string(), date_time: DateTime::new(Date::from_ymd(2020, 1, 15).unwrap(), 10, 30, 0, 600).unwrap(), foreign_identifier: Some("s5".to_string()) };
    assert_eq!(CashAccountTransactionCreate::url(&p), "/cash_accounts/1/cash_account_transactions.json");
    assert_eq!(CashAccountTransactionCreate::url_path(&p).render(), "/cash_accounts/1/cash_account_transactions.json");
    assert_eq!(CashAccountTransactionCreate::url_template(), "/cash_accounts/:cash_account_id/cash_account_transactions.json");
    assert_eq!(CashAccountTransactionCreate::http_method(), ApiHttpMethod::Post);
}

#[test]
fn url_cash_account_transaction_delete() {
    let p = CashAccountTransactionDeleteParameters { id: 1 };
    assert_eq!(CashAccountTransactionDelete::url(&p), "/cash_account_transactions/1.json");
    assert_eq!(CashAccountTransactionDelete::url_path(&p).render(), "/cash_account_transactions/1.json");
    assert_eq!(CashAccountTransactionDelete::url_template(), "/cash_account_transactions/:id.json");
    assert_eq!(CashAccountTransactionDelete::http_method(), ApiHttpMethod::Delete);
}

#[test]
fn url_cash_account_transaction_update() {
    let p = CashAccountTransactionUpdateParameters { id: 1, description: "s2".to_string(), amount: Decimal::new(false, 3, 2), transaction_type: "s4".to_string(), date_time: DateTime::new(Date::from_ymd(2020, 1, 15).unwrap(), 10, 30, 0, 600).unwrap(), foreign_identifier: Some("s5".to_string()) };
    assert_eq!(CashAccountTransactionUpdate::url(&p), "/cash_account_transactions/1.json");
    assert_eq!(CashAccountTransactionUpdate::url_path(&p).render(), "/cash_account_transactions/1.json");
    assert_eq!(CashAccountTransactionUpdate::url_template(), "/cash_account_transactions/:id.json");
    assert_eq!(CashAccountTransactionUpdate::http_method(), ApiHttpMethod::Put);
}

#[test]
fn url_cash_account_transactions_list() {
    let p = CashAccountTransactionsListParameters { cash_account_id: 1, from: Some(Date::from_ymd(2020, 1, 15).unwrap()), to: Some(Date::from_ymd(2020, 1, 15).unwrap()), description: Some("s2".to_string()), foreign_identifier: Some("s3".to_string()) };
    assert_eq!(CashAccountTransactionsList::url(&p), "/cash_accounts/1/cash_account_transactions.json");
    assert_eq!(CashAccountTransactionsList::url_path(&p).render(), "/cash_accounts/1/cash_account_transactions.json");
    assert_eq!(CashAccountTransactionsList::url_template(), "/cash_accounts/:cash_account_id/cash_account_transactions.json");
    assert_eq!(CashAccountTransactionsList::http_method(), ApiHttpMethod::Get);
}

#[test]
fn url_cash_account_update() {
    let p = CashAccountUpdateParameters { id: 1, name: "s2".to_string(), currency: Currency::Aud };
    assert_eq!(CashAccountUpdate::url(&p), "/cash_accounts/1.json");
    assert_eq!(CashAccountUpdate::url_path(&p).render(), "/cash_accounts/1.json");
    assert_eq!(CashAccountUpdate::url_template(), "/cash_accounts/:id.json");
    assert_eq!(CashAccountUpdate::http_method(), ApiHttpMethod::Put);
}

#[test]
fn url_cash_accounts_list() {
    assert_eq!(CashAccountsList::url_path(), "/cash_accounts.json");
    assert_eq!(CashAccountsList::url_template(), "/cash_accounts.json");
    assert_eq!(CashAccountsList::http_method(), ApiHttpMethod::Get);
}

#[test]
fn url_portfolio_create() {
    assert_eq!(PortfolioCreate::url_path(), "/portfolios.json");
    assert_eq!(PortfolioCreate::url_template(), "/portfolios.json");
    assert_eq!(PortfolioCreate::http_method(), ApiHttpMethod::Post);
}

#[test]
fn url_portfolio_delete() {
    let p = PortfolioDeleteParameters { id: 1 };
    assert_eq!(PortfolioDelete::url(&p), "/portfolios/1.json");
    assert_eq!(PortfolioDelete::url_path(&p).render(), "/portfolios/1.json");
    assert_eq!(PortfolioDelete::url_template(), "/portfolios/:id.json");
    assert_eq!(PortfolioDelete::http_method(), ApiHttpMethod::Delete);
}

#[test]
fn url_portfolio_list() {
    assert_eq!(PortfolioList::url_path(), "/portfolios.json");
    assert_eq!(PortfolioList::url_template(), "/portfolios.json");
    assert_eq!(PortfolioList::http_method(), ApiHttpMethod::Get);
}

#[test]
fn url_portfolio_show() {
    let p = PortfolioShowParameters { id: 1 };
    assert_eq!(PortfolioShow::url(&p), "/portfolios/1.json");
    assert_eq!(PortfolioShow::url_path(&p).render(), "/portfolios/1.json");
    assert_eq!(PortfolioShow::url_template(), "/portfolios/:id.json");
    assert_eq!(PortfolioShow::http_method(), ApiHttpMethod::Get);
}

#[test]
fn url_portfolio_update() {
    let p = PortfolioUpdateParameters { id: 1, name: "s2".to_string(), broker_email_api_enabled: true, financial_year_end_month_id: 3, financial_year_end: "s4".to_string(), default_sale_allocation_method: SaleAllocationMethod::Fifo, interest_method: "s5".to_string(), trader: true, tax_entity_type: "s6".to_string(), cg_discount_id: 7, rwtr_rate: Decimal::new(false, 8, 2), apply_cash_account_adjustments: Some(true), buy_trade_settlement_delay: Some(9), sell_trade_settlement_delay: Some(10), account_for_delayed_cash_transactions: Some(true), trade_sync_cash_account_id: 11 };
    assert_eq!(PortfolioUpdate::url(&p), "/portfolios/1.json");
    assert_eq!(PortfolioUpdate::url_path(&p).render(), "/portfolios/1.json");
    assert_eq!(PortfolioUpdate::url_template(), "/portfolios/:id.json");
    assert_eq!(PortfolioUpdate::http_method(), ApiHttpMethod::Put);
}

#[test]
fn url_groups_list() {
    assert_eq!(GroupsList::url_path(), "/groups.json");
    assert_eq!(GroupsList::url_template(), "/groups.json");
    assert_eq!(GroupsList::http_method(), ApiHttpMethod::Get);
}

#[test]
fn url_trade_confirm() {
    assert_eq!(TradeConfirm::url_path(), "/trades.json");
    assert_eq!(TradeConfirm::url_template(), "/trades.json");
    assert_eq!(TradeConfirm::http_method(), ApiHttpMethod::Post);
}

#[test]
fn url_trade_reject() {
    assert_eq!(TradeReject::url_path(), "/trades.json");
    assert_eq!(TradeReject::url_template(), "/trades.json");
    assert_eq!(TradeReject::http_method(), ApiHttpMethod::Post);
}

#[test]
fn url_trades() {
    let p = TradesParameters { portfolio_id: "s1".to_string(), start_date: Some(Date::from_ymd(2020, 1, 15).unwrap()), end_date: Some(Date::from_ymd(2020, 1, 15).unwrap()), unique_identifier: Some("s2".to_string()) };
    assert_eq!(Trades::url(&p), "/portfolios/s1/trades.json");
    assert_eq!(Trades::url_path(&p).render(), "/portfolios/s1/trades.json");
    assert_eq!(Trades::url_template(), "/portfolios/:portfolio_id/trades.json");
    assert_eq!(Trades::http_method(), ApiHttpMethod::Get);
}

#[test]
fn url_trades_create() {
    assert_eq!(TradesCreate::url_path(), "/trades.json");
    assert_eq!(TradesCreate::url_template(), "/trades.json");
    assert_eq!(TradesCreate::http_method(), ApiHttpMethod::Post);
}

#[test]
fn url_trades_destroy() {
    let p = TradesDestroyParameters { id: 1 };
    assert_eq!(TradesDestroy::url(&p), "/trades/1.json");
    assert_eq!(TradesDestroy::url_path(&p).render(), "/trades/1.json");
    assert_eq!(TradesDestroy::url_template(), "/trades/:id.json");
    assert_eq!(TradesDestroy::http_method(), ApiHttpMethod::Delete);
}

#[test]
fn url_trades_show() {
    let p = TradesShowParameters { id: "s1".to_string() };
    assert_eq!(TradesShow::url(&p), "/trades/s1.json");
    assert_eq!(TradesShow::url_path(&p).render(), "/trades/s1.json");
    assert_eq!(TradesShow::url_template(), "/trades/:id.json");
    assert_eq!(TradesShow::http_method(), ApiHttpMethod::Get);
}

#[test]
fn url_trades_update() {
    let p = TradesUpdateParameters { id: 1, trade: TradesUpdateTradeParameters { transaction_date: Some("s2".to_string()), quantity: Some(Decimal::new(false, 3, 2)), price: Some(Decimal::new(false, 4, 2)), cost_base: Some(Decimal::new(false, 5, 2)), exchange_rate: Some(Decimal::new(false, 6, 2)), brokerage: Some(Decimal::new(false, 7, 2)), brokerage_currency_code: Some(Currency::Aud), adjust_cost_base_value: Some(Decimal::new(false, 8, 2)), capital_return_value: Some(Decimal::new(false, 9, 2)), paid_on: Some(Date::from_ymd(2020, 1, 15).unwrap()), comments: Some("s10".to_string()), instrument_id: Some("s11".to_string()), symbol: Some("s12".to_string()), market: Some(Market::Asx), market_country_code: Some("s13".to_string()), transaction_type: Some(TradeDescription::Buy), attachment: Some("s14".to_string()), attachment_filename: Some("s15".to_string()) } };
    assert_eq!(TradesUpdate::url(&p), "/trades/1.json");
    assert_eq!(TradesUpdate::url_path(&p).render(), "/trades/1.json");
    assert_eq!(TradesUpdate::url_template(), "/trades/:id.json");
    assert_eq!(TradesUpdate::http_method(), ApiHttpMethod::Put);
}

#[test]
fn url_list_holding_payouts() {
    let p = ListHoldingPayoutsParameters { holding_id: 1, start_date: Some(Date::from_ymd(2020, 1, 15).unwrap()), end_date: Some(Date::from_ymd(2020, 1, 15).unwrap()), use_date: Some("s2".to_string()) };
    assert_eq!(ListHoldingPayouts::url(&p), "/holdings/1/payouts.json");
    assert_eq!(ListHoldingPayouts::url_path(&p).render(), "/holdings/1/payouts.json");
    assert_eq!(ListHoldingPayouts::url_template(), "/holdings/:holding_id/payouts.json");
    assert_eq!(ListHoldingPayouts::http_method(), ApiHttpMethod::Get);
}

#[test]
fn url_list_portfolio_payouts() {
    let p = ListPortfolioPayoutsParameters { portfolio_id: 1, start_date: Some(Date::from_ymd(2020, 1, 15).unwrap()), end_date: Some(Date::from_ymd(2020, 1, 15).unwrap()), use_date: Some("s2".to_string()) };
    assert_eq!(ListPortfolioPayouts::url(&p), "/portfolios/1/payouts.json");
    assert_eq!(ListPortfolioPayouts::url_path(&p).render(), "/portfolios/1/payouts.json");
    assert_eq!(ListPortfolioPayouts::url_template(), "/portfolios/:portfolio_id/payouts.json");
    assert_eq!(ListPortfolioPayouts::http_method(), ApiHttpMethod::Get);
}

#[test]
fn url_payout_confirm() {
    assert_eq!(PayoutConfirm::url_path(), "/payouts.json");
    assert_eq!(PayoutConfirm::url_template(), "/payouts.json");
    assert_eq!(PayoutConfirm::http_method(), ApiHttpMethod::Post);
}

#[test]
fn url_payout_create() {
    assert_eq!(PayoutCreate::url_path(), "/payouts.json");
    assert_eq!(PayoutCreate::url_template(), "/payouts.json");
    assert_eq!(PayoutCreate::http_method(), ApiHttpMethod::Post);
}

#[test]
fn url_payout_delete() {
    let p = PayoutDeleteParameters { id: 1 };
    assert_eq!(PayoutDelete::url(&p), "/payouts/1.json");
    assert_eq!(PayoutDelete::url_path(&p).render(), "/payouts/1.json");
    assert_eq!(PayoutDelete::url_template(), "/payouts/:id.json");
    assert_eq!(PayoutDelete::http_method(), ApiHttpMethod::Delete);
}

#[test]
fn url_payout_reject() {
    assert_eq!(PayoutReject::url_path(), "/payouts.json");
    assert_eq!(PayoutReject::url_template(), "/payouts.json");
    assert_eq!(PayoutReject::http_method(), ApiHttpMethod::Post);
}

#[test]
fn url_payout_show() {
    let p = PayoutShowParameters { id: 1 };
    assert_eq!(PayoutShow::url(&p), "/payouts/1.json");
    assert_eq!(PayoutShow::url_path(&p).render(), "/payouts/1.json");
    assert_eq!(PayoutShow::url_template(), "/payouts/:id.json");
    assert_eq!(PayoutShow::http_method(), ApiHttpMethod::Get);
}

#[test]
fn url_payout_update() {
    let p = PayoutUpdateParameters { id: 1, payout: PayoutUpdatePayoutParameters { paid_on: Some(Date::from_ymd(2020, 1, 15).unwrap()), goes_ex_on: Some(Date::from_ymd(2020, 1, 15).unwrap()), resident_withholding_tax: Some(Decimal::new(false, 2, 2)), non_resident_withholding_tax: Some(Decimal::new(false, 3, 2)), tax_credit: Some(Decimal::new(false, 4, 2)), exchange_rate: Some(Decimal::new(false, 5, 2)), amount: Some(Decimal::new(false, 6, 2)), adjustment_id: Some(7), comments: Some("s8".to_string()), non_taxable: Some(true), currency_code: Some(Currency::Aud), source_payment_date: Some(Date::from_ymd(2020, 1, 15).unwrap()), send_to_xero: Some(true), banked_amount: Some(Decimal::new(false, 9, 2)), source_adjustment_id: Some(10), drp_trade_attributes: Some(PayoutUpdatePayoutDrpTradeAttributesParameters { dividend_reinvested: Some(true), quantity: Some(Decimal::new(false, 11, 2)), price: Some(Decimal::new(false, 12, 2)), source_adjustment_id: Some(13) }), franked_amount: Some(Decimal::new(false, 14, 2)), unfranked_amount: Some(Decimal::new(false, 15, 2)), trust: Some(true), extra_interest_payment_amount: Some(Decimal::new(false, 16, 2)), capital_gains: Some(Decimal::new(false, 17, 2)), discounted_capital_gains: Some(Decimal::new(false, 18, 2)), foreign_source_income: Some(Decimal::new(false, 19, 2)), lic_capital_gain: Some(Decimal::new(false, 20, 2)), non_assessable: Some(true), deferred_income: Decimal::new(false, 21, 2), cgt_concession_amount: Decimal::new(false, 22, 2), amit_decrease_amount: Decimal::new(false, 23, 2), amit_increase_amount: Decimal::new(false, 24, 2) } };
    assert_eq!(PayoutUpdate::url(&p), "/payouts/1.json");
    assert_eq!(PayoutUpdate::url_path(&p).render(), "/payouts/1.json");
    assert_eq!(PayoutUpdate::url_template(), "/payouts/:id.json");
    assert_eq!(PayoutUpdate::http_method(), ApiHttpMethod::Put);
}

#[test]
fn url_holding_merges_create() {
    let p = HoldingMergesCreateParameters { portfolio_id: 1, holding_id: 2, merge_date: Date::from_ymd(2020, 1, 15).unwrap(), quantity: Decimal::new(false, 3, 2), symbol: "s4".to_string(), market: Market::Asx, cancelled_price: Some(Decimal::new(false, 5, 2)), comments: Some("s6".to_string()), unique_identifier: Some("s7".to_string()), attachment: Some("s8".to_string()), attachment_filename: Some("s9".to_string()) };
    assert_eq!(HoldingMergesCreate::url(&p), "/portfolios/1/holding_merges.json");
    assert_eq!(HoldingMergesCreate::url_path(&p).render(), "/portfolios/1/holding_merges.json");
    assert_eq!(HoldingMergesCreate::url_template(), "/portfolios/:portfolio_id/holding_merges.json");
    assert_eq!(HoldingMergesCreate::http_method(), ApiHttpMethod::Post);
}

#[test]
fn url_holding_merges_update() {
    let p = HoldingMergesUpdateParameters { portfolio_id: 1, id: 2, merge_date: Some(Date::from_ymd(2020, 1, 15).unwrap()), quantity: Some(Decimal::new(false, 3, 2)), symbol: Some("s4".to_string()), market: Some(Market::Asx), cancelled_price: Some(Decimal::new(false, 5, 2)), comments: Some("s6".to_string()), unique_identifier: Some("s7".to_string()), attachment: Some("s8".to_string()), attachment_filename: Some("s9".to_string()) };
    assert_eq!(HoldingMergesUpdate::url(&p), "/portfolios/1/holding_merges/2.json");
    assert_eq!(HoldingMergesUpdate::url_path(&p).render(), "/portfolios/1/holding_merges/2.json");
    assert_eq!(HoldingMergesUpdate::url_template(), "/portfolios/:portfolio_id/holding_merges/:id.json");
    assert_eq!(HoldingMergesUpdate::http_method(), ApiHttpMethod::Put);
}

#[test]
fn url_holding_trades() {
    let p = HoldingTradesParameters { holding_id: "s1".to_string(), unique_identifier: Some("s2".to_string()) };
    assert_eq!(HoldingTrades::url(&p), "/holdings/s1/trades.json");
    assert_eq!(HoldingTrades::url_path(&p).render(), "/holdings/s1/trades.json");
    assert_eq!(HoldingTrades::url_template(), "/holdings/:holding_id/trades.json");
    assert_eq!(HoldingTrades::http_method(), ApiHttpMethod::Get);
}

#[test]
fn url_holding_trades_rejected() {
    let p = HoldingTradesRejectedParameters { holding_id: "s1".to_string() };
    assert_eq!(HoldingTradesRejected::url(&p), "/holdings/s1/rejected_trades.json");
    assert_eq!(HoldingTradesRejected::url_path(&p).render(), "/holdings/s1/rejected_trades.json");
    assert_eq!(HoldingTradesRejected::url_template(), "/holdings/:holding_id/rejected_trades.json");
    assert_eq!(HoldingTradesRejected::http_method(), ApiHttpMethod::Get);
}

#[test]
fn url_list_user_instruments() {
    assert_eq!(ListUserInstruments::url_path(), "/user_instruments.json");
    assert_eq!(ListUserInstruments::url_template(), "/user_instruments.json");
    assert_eq!(ListUserInstruments::http_method(), ApiHttpMethod::Get);
}

#[test]
fn url_document_show() {
    let p = DocumentShowParameters { id: 1 };
    assert_eq!(DocumentShow::url(&p), "/documents/1.json");
    assert_eq!(DocumentShow::url_path(&p).render(), "/documents/1.json");
    assert_eq!(DocumentShow::url_template(), "/documents/:id.json");
    assert_eq!(DocumentShow::http_method(), ApiHttpMethod::Get);
}

#[test]
fn url_membership_create() {
    assert_eq!(MembershipCreate::url_path(), "/memberships.json");
    assert_eq!(MembershipCreate::url_template(), "/memberships.json");
    assert_eq!(MembershipCreate::http_method(), ApiHttpMethod::Post);
}

#[test]
fn url_membership_delete() {
    let p = MembershipDeleteParameters { id: 1 };
    assert_eq!(MembershipDelete::url(&p), "/memberships/1.json");
    assert_eq!(MembershipDelete::url_path(&p).render(), "/memberships/1.json");
    assert_eq!(MembershipDelete::url_template(), "/memberships/:id.json");
    assert_eq!(MembershipDelete::http_method(), ApiHttpMethod::Delete);
}

#[test]
fn url_membership_list() {
    assert_eq!(MembershipList::url_path(), "/memberships.json");
    assert_eq!(MembershipList::url_template(), "/memberships.json");
    assert_eq!(MembershipList::http_method(), ApiHttpMethod::Get);
}

#[test]
fn url_membership_update() {
    let p = MembershipUpdateParameters { id: 1, access_code: "s2".to_string() };
    assert_eq!(MembershipUpdate::url(&p), "/memberships/1.json");
    assert_eq!(MembershipUpdate::url_path(&p).render(), "/memberships/1.json");
    assert_eq!(MembershipUpdate::url_template(), "/memberships/:id.json");
    assert_eq!(MembershipUpdate::http_method(), ApiHttpMethod::Put);
}

#[test]
fn url_capital_gains() {
    let p = CapitalGainsParameters { portfolio_id: 1, start_date: Some(Date::from_ymd(2020, 1, 15).unwrap()), end_date: Some(Date::from_ymd(2020, 1, 15).unwrap()) };
    assert_eq!(CapitalGains::url(&p), "/portfolios/1/capital_gains.json");
    assert_eq!(CapitalGains::url_path(&p).render(), "/portfolios/1/capital_gains.json");
    assert_eq!(CapitalGains::url_template(), "/portfolios/:portfolio_id/capital_gains.json");
    assert_eq!(CapitalGains::http_method(), ApiHttpMethod::Get);
}

#[test]
fn url_diversity() {
    let p = DiversityParameters { portfolio_id: 1, consolidated: Some(true), date: Some(Date::from_ymd(2020, 1, 15).unwrap()), grouping: Some("s2".to_string()), custom_group_id: Some(3) };
    assert_eq!(Diversity::url(&p), "/portfolios/1/diversity.json");
    assert_eq!(Diversity::url_path(&p).render(), "/portfolios/1/diversity.json");
    assert_eq!(Diversity::url_template(), "/portfolios/:portfolio_id/diversity.json");
    assert_eq!(Diversity::http_method(), ApiHttpMethod::Get);
}

#[test]
fn url_performance() {
    let p = PerformanceParameters { start_date: Some(Date::from_ymd(2020, 1, 15).unwrap()), end_date: Some(Date::from_ymd(2020, 1, 15).unwrap()), portfolio_id: 1, consolidated: Some(true), include_sales: Some(true), grouping: Some("s2".to_string()), custom_group_id: Some(3) };
    assert_eq!(Performance::url(&p), "/portfolios/1/performance.json");
    assert_eq!(Performance::url_path(&p).render(), "/portfolios/1/performance.json");
    assert_eq!(Performance::url_template(), "/portfolios/:portfolio_id/performance.json");
    assert_eq!(Performance::http_method(), ApiHttpMethod::Get);
}

#[test]
fn url_unrealised_cgt() {
    let p = UnrealisedCgtParameters { portfolio_id: 1, balance_date: Date::from_ymd(2020, 1, 15).unwrap() };
    assert_eq!(UnrealisedCgt::url(&p), "/portfolios/1/unrealised_cgt.json");
    assert_eq!(UnrealisedCgt::url_path(&p).render(), "/portfolios/1/unrealised_cgt.json");
    assert_eq!(UnrealisedCgt::url_template(), "/portfolios/:portfolio_id/unrealised_cgt.json");
    assert_eq!(UnrealisedCgt::http_method(), ApiHttpMethod::Get);
}

#[test]
fn url_valuation() {
    let p = ValuationParameters { balance_date: Some(Date::from_ymd(2020, 1, 15).unwrap()), portfolio_id: 1, consolidated: Some(true), include_sales: Some(true), grouping: Some("s2".to_string()), custom_group_id: Some(3) };
    assert_eq!(Valuation::url(&p), "/portfolios/1/valuation.json");
    assert_eq!(Valuation::url_path(&p).render(), "/portfolios/1/valuation.json");
    assert_eq!(Valuation::url_template(), "/portfolios/:portfolio_id/valuation.json");
    assert_eq!(Valuation::http_method(), ApiHttpMethod::Get);
}

#[test]
fn url_currencies() {
    assert_eq!(Currencies::url_path(), "/currencies.json");
    assert_eq!(Currencies::url_template(), "/currencies.json");
    assert_eq!(Currencies::http_method(), ApiHttpMethod::Get);
}

#[test]
fn url_identity_by_token() {
    assert_eq!(IdentityByToken::url_path(), "/.1-mobile/identity/by_token.json");
    assert_eq!(IdentityByToken::url_template(), ".1-mobile/identity/by_token.json");
    assert_eq!(IdentityByToken::http_method(), ApiHttpMethod::Get);
}

#[test]
fn url_identity_signup_by_token() {
    assert_eq!(IdentitySignupByToken::url_path(), "/.1-mobile/identity/signup_by_token.json");
    assert_eq!(IdentitySignupByToken::url_template(), ".1-mobile/identity/signup_by_token.json");
    assert_eq!(IdentitySignupByToken::http_method(), ApiHttpMethod::Get);
}

#[test]
fn url_my_user() {
    assert_eq!(MyUser::url_path(), "/my_user.json");
    assert_eq!(MyUser::url_template(), "/my_user.json");
    assert_eq!(MyUser::http_method(), ApiHttpMethod::Get);
}

#[test]
fn url_request_single_sign_on() {
    assert_eq!(RequestSingleSignOn::url_path(), "/single_sign_on.json");
    assert_eq!(RequestSingleSignOn::url_template(), "/single_sign_on.json");
    assert_eq!(RequestSingleSignOn::http_method(), ApiHttpMethod::Get);
}
