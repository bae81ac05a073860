//! Scenario tests for the field codec policy: tolerant identifier
//! decoding, date format handling, strict enumerations, optional-field
//! omission, and error reporting.

use sharesight_types::cash_accounts::CashAccountCreate;
use sharesight_types::cash_accounts::CashAccountCreateCashAccountParameters;
use sharesight_types::cash_accounts::CashAccountCreateParameters;
use sharesight_types::cash_accounts::CashAccountShow;
use sharesight_types::cash_accounts::CashAccountShowLinksSuccess;
use sharesight_types::cash_accounts::CashAccountShowParameters;
use sharesight_types::codec::DecodeError;
use sharesight_types::codec::ErrorKind;
use sharesight_types::codec::FromJson;
use sharesight_types::codec::ToJson;
use sharesight_types::date::Date;
use sharesight_types::date::DateTime;
use sharesight_types::enums::Currency;
use sharesight_types::json::Decimal;
use sharesight_types::json::JsonField;
use sharesight_types::json::JsonValue;
use sharesight_types::portfolios::GroupsListGroupsSuccess;
use sharesight_types::reports::CapitalGainsSuccess;
use sharesight_types::portfolios::GroupsListSuccess;
use sharesight_types::trades::TradesDestroy;
use sharesight_types::trades::TradesDestroyParameters;
use sharesight_types::trades::TradesUpdateParameters;
use sharesight_types::trades::TradesUpdateTradeParameters;

fn obj(fields: Vec<(&str, JsonValue)>) -> JsonValue {
    JsonValue::Obj(
        fields
            .into_iter()
            .map(|(k, v)| JsonField { key: k.to_string(), value: v })
            .collect(),
    )
}

fn num(n: u64) -> JsonValue {
    JsonValue::Num(Decimal::new(false, n, 0))
}

fn s(t: &str) -> JsonValue {
    JsonValue::Str(t.to_string())
}

#[test]
fn id_decodes_from_native_number() {
    let v = obj(vec![("id", num(7))]);
    let p = TradesDestroyParameters::decode(&v).unwrap();
    assert_eq!(p.id, 7);
}

#[test]
fn id_decodes_from_numeric_string() {
    let v = obj(vec![("id", s("7"))]);
    let p = TradesDestroyParameters::decode(&v).unwrap();
    assert_eq!(p.id, 7);
}

#[test]
fn id_decodes_from_negative_and_signed_strings() {
    let v = obj(vec![("id", s("-12"))]);
    assert_eq!(TradesDestroyParameters::decode(&v).unwrap().id, -12);
    let v = obj(vec![("id", s("+12"))]);
    assert_eq!(TradesDestroyParameters::decode(&v).unwrap().id, 12);
}

#[test]
fn id_encodes_as_native_number_and_round_trips() {
    let p = TradesDestroyParameters { id: 7 };
    let v = p.encode();
    match &v {
        JsonValue::Obj(fields) => {
            assert_eq!(fields.len(), 1);
            assert_eq!(fields[0].key, "id");
            assert_eq!(fields[0].value, num(7));
        }
        other => panic!("expected an object, got {:?}", other),
    }
    assert_eq!(TradesDestroyParameters::decode(&v).unwrap(), p);
}

#[test]
fn id_extremes_round_trip() {
    for id in [i64::MIN, -1, 0, 1, i64::MAX] {
        let p = TradesDestroyParameters { id };
        assert_eq!(TradesDestroyParameters::decode(&p.encode()).unwrap(), p);
    }
}

#[test]
fn id_rejects_malformed_and_out_of_range_strings() {
    for bad in ["", "x12", "12x", "1.5", "9223372036854775808", "--4"] {
        let v = obj(vec![("id", s(bad))]);
        let e = TradesDestroyParameters::decode(&v).unwrap_err();
        assert_eq!(e.kind, ErrorKind::BadNumber);
    }
    let v = obj(vec![("id", s("-9223372036854775808"))]);
    assert_eq!(TradesDestroyParameters::decode(&v).unwrap().id, i64::MIN);
}

#[test]
fn id_rejects_fractional_number() {
    let v = obj(vec![("id", JsonValue::Num(Decimal::new(false, 75, 1)))]);
    let e = TradesDestroyParameters::decode(&v).unwrap_err();
    assert_eq!(e.kind, ErrorKind::BadNumber);
}

#[test]
fn optional_absent_decodes_to_unset() {
    let v = obj(vec![("id", num(3))]);
    let p = CashAccountShowParameters::decode(&v).unwrap();
    assert_eq!(p.date, None);
}

#[test]
fn optional_null_decodes_to_unset() {
    let v = obj(vec![("id", num(3)), ("date", JsonValue::Null)]);
    let p = CashAccountShowParameters::decode(&v).unwrap();
    assert_eq!(p.date, None);
}

#[test]
fn optional_unset_is_omitted_from_encoded_output() {
    let p = CashAccountShowParameters { id: 3, date: None };
    match p.encode() {
        JsonValue::Obj(fields) => {
            assert_eq!(fields.len(), 1);
            assert_eq!(fields[0].key, "id");
        }
        other => panic!("expected an object, got {:?}", other),
    }
}

#[test]
fn optional_set_is_present_in_encoded_output() {
    let p = CashAccountShowParameters { id: 3, date: Date::from_ymd(2020, 1, 15) };
    match p.encode() {
        JsonValue::Obj(fields) => {
            assert_eq!(fields.len(), 2);
            assert_eq!(fields[1].key, "date");
            assert_eq!(fields[1].value, s("2020-01-15"));
        }
        other => panic!("expected an object, got {:?}", other),
    }
}

#[test]
fn unknown_currency_code_fails_decoding() {
    let v = obj(vec![("name", s("savings")), ("currency", s("ZZZ"))]);
    let e = CashAccountCreateCashAccountParameters::decode(&v).unwrap_err();
    assert_eq!(e.kind, ErrorKind::UnknownCode);
    assert_eq!(e.path, "currency");
    assert_eq!(e.message(), "currency: unknown code");
}

#[test]
fn known_currency_codes_round_trip() {
    for c in [Currency::Aud, Currency::Usd, Currency::Nzd, Currency::Try] {
        let v = Currency::decode(&c.encode()).unwrap();
        assert_eq!(v, c);
    }
    assert_eq!(Currency::from_code("GBP"), Some(Currency::Gbp));
    assert_eq!(Currency::from_code("zzz"), None);
    assert_eq!(Currency::Aud.code(), "AUD");
}

#[test]
fn iso_date_parses_to_calendar_date() {
    let d = Date::decode(&s("2020-01-15")).unwrap();
    assert_eq!((d.year, d.month, d.day), (2020, 1, 15));
}

#[test]
fn slash_date_is_accepted_as_second_format() {
    let d = Date::decode(&s("2020/01/15")).unwrap();
    assert_eq!((d.year, d.month, d.day), (2020, 1, 15));
}

#[test]
fn unrecognized_date_formats_fail_decoding() {
    for bad in ["15 Jan 2020", "2020-1-15", "20200115", "2020-13-01", "2020-02-30", "2019-02-29"] {
        let e = Date::decode(&s(bad)).unwrap_err();
        assert_eq!(e.kind, ErrorKind::BadDate);
    }
}

#[test]
fn leap_day_is_a_valid_date() {
    let d = Date::decode(&s("2020-02-29")).unwrap();
    assert_eq!((d.year, d.month, d.day), (2020, 2, 29));
    assert_eq!(Date::from_ymd(1900, 2, 29), None);
    assert!(Date::from_ymd(2000, 2, 29).is_some());
}

#[test]
fn date_encodes_in_iso_form() {
    let d = Date::from_ymd(2020, 1, 15).unwrap();
    assert_eq!(d.encode(), s("2020-01-15"));
}

#[test]
fn timestamps_round_trip_in_every_offset_shape() {
    let base = Date::from_ymd(2021, 12, 31).unwrap();
    for off in [0, 600, -330, 1439, -1439] {
        let t = DateTime::new(base, 23, 59, 58, off).unwrap();
        assert_eq!(DateTime::decode(&t.encode()).unwrap(), t);
    }
}

#[test]
fn timestamp_accepts_utc_and_offset_forms() {
    let t = DateTime::decode(&s("2020-01-15T10:30:00Z")).unwrap();
    assert_eq!(t.offset_minutes, 0);
    assert_eq!((t.hour, t.minute, t.second), (10, 30, 0));
    let t = DateTime::decode(&s("2020-01-15T10:30:00+10:00")).unwrap();
    assert_eq!(t.offset_minutes, 600);
    let t = DateTime::decode(&s("2020-01-15T10:30:00-05:30")).unwrap();
    assert_eq!(t.offset_minutes, -330);
}

#[test]
fn malformed_timestamps_fail_decoding() {
    for bad in ["2020-01-15 10:30:00Z", "2020-01-15T10:30:00", "2020-01-15T25:00:00Z", "nope"] {
        let e = DateTime::decode(&s(bad)).unwrap_err();
        assert_eq!(e.kind, ErrorKind::BadTimestamp);
    }
}

#[test]
fn missing_required_field_names_field_and_endpoint() {
    let v = obj(vec![("api_transaction", obj(vec![]))]);
    let e = TradesDestroy::decode_success(&v).unwrap_err();
    assert_eq!(e.kind, ErrorKind::MissingField);
    assert_eq!(e.path, "TradesDestroy: deleted");
    assert_eq!(e.message(), "TradesDestroy: deleted: missing field");
}

#[test]
fn wrong_shape_fails_decoding() {
    let e = TradesDestroyParameters::decode(&JsonValue::Null).unwrap_err();
    assert_eq!(e.kind, ErrorKind::WrongType);
    let v = obj(vec![("id", JsonValue::Bool(true))]);
    let e = TradesDestroyParameters::decode(&v).unwrap_err();
    assert_eq!(e.kind, ErrorKind::WrongType);
}

#[test]
fn nested_field_errors_carry_the_full_path() {
    let v = obj(vec![("name", s("savings")), ("currency", num(1))]);
    let e = CashAccountCreateCashAccountParameters::decode(&v).unwrap_err();
    assert_eq!(e.kind, ErrorKind::WrongType);
    assert_eq!(e.path, "currency");
}

fn empty_trade_update() -> TradesUpdateTradeParameters {
    TradesUpdateTradeParameters {
        transaction_date: None,
        quantity: None,
        price: None,
        cost_base: None,
        exchange_rate: None,
        brokerage: None,
        brokerage_currency_code: None,
        adjust_cost_base_value: None,
        capital_return_value: None,
        paid_on: None,
        comments: None,
        instrument_id: None,
        symbol: None,
        market: None,
        market_country_code: None,
        transaction_type: None,
        attachment: None,
        attachment_filename: None,
    }
}

#[test]
fn trade_update_with_only_price_encodes_only_price() {
    let trade = TradesUpdateTradeParameters {
        price: Some(Decimal::new(false, 1050, 2)),
        ..empty_trade_update()
    };
    match trade.encode() {
        JsonValue::Obj(fields) => {
            assert_eq!(fields.len(), 1);
            assert_eq!(fields[0].key, "price");
            assert_eq!(fields[0].value, JsonValue::Num(Decimal::new(false, 1050, 2)));
        }
        other => panic!("expected an object, got {:?}", other),
    }
    let p = TradesUpdateParameters { id: 9, trade };
    match p.encode() {
        JsonValue::Obj(fields) => {
            assert_eq!(fields.len(), 2);
            assert_eq!(fields[0].key, "id");
            assert_eq!(fields[1].key, "trade");
        }
        other => panic!("expected an object, got {:?}", other),
    }
}

#[test]
fn cash_account_create_url_for_portfolio_42() {
    let p = CashAccountCreateParameters {
        portfolio_id: 42,
        cash_account: CashAccountCreateCashAccountParameters {
            name: "savings".to_string(),
            currency: Currency::Aud,
        },
    };
    assert_eq!(CashAccountCreate::url(&p), "/portfolios/42/cash_accounts.json");
}

#[test]
fn url_resolution_substitutes_each_placeholder() {
    let p = CashAccountShowParameters { id: 42, date: None };
    assert_eq!(CashAccountShow::url(&p), "/cash_accounts/42.json");
    let p = CashAccountShowParameters { id: -3, date: None };
    assert_eq!(CashAccountShow::url(&p), "/cash_accounts/-3.json");
}

#[test]
fn renamed_link_field_travels_under_the_wire_key_self() {
    let v = obj(vec![("portfolio", s("p")), ("self", s("me"))]);
    let l = CashAccountShowLinksSuccess::decode(&v).unwrap();
    assert_eq!(l.itself, "me");
    match l.encode() {
        JsonValue::Obj(fields) => assert_eq!(fields[1].key, "self"),
        other => panic!("expected an object, got {:?}", other),
    }
}

#[test]
fn decode_error_values_compare_by_content() {
    let a = DecodeError::new(ErrorKind::BadDate, "paid_on");
    let b = DecodeError::new(ErrorKind::BadDate, "paid_on");
    assert_eq!(a, b);
    assert_eq!(a.kind_name(), "unrecognized date format");
}

#[test]
fn empty_arrays_round_trip() {
    let g = GroupsListSuccess { groups: vec![] };
    assert_eq!(GroupsListSuccess::decode(&g.encode()).unwrap(), g);
    let g = GroupsListSuccess {
        groups: vec![GroupsListGroupsSuccess {
            id: "g1".to_string(),
            name: "growth".to_string(),
            custom: "no".to_string(),
            portfolio_ids: vec![],
        }],
    };
    assert_eq!(GroupsListSuccess::decode(&g.encode()).unwrap(), g);
}

#[test]
fn array_element_errors_carry_the_element_index() {
    let v = obj(vec![(
        "groups",
        JsonValue::Arr(vec![JsonValue::Null]),
    )]);
    let e = GroupsListSuccess::decode(&v).unwrap_err();
    assert_eq!(e.kind, ErrorKind::WrongType);
    assert_eq!(e.path, "groups.[0].id");
}

#[test]
fn array_of_tolerant_ids_accepts_mixed_forms() {
    let v = obj(vec![(
        "groups",
        JsonValue::Arr(vec![obj(vec![
            ("id", s("g1")),
            ("name", s("growth")),
            ("custom", s("no")),
            ("portfolio_ids", JsonValue::Arr(vec![num(4), s("5")])),
        ])]),
    )]);
    let g = GroupsListSuccess::decode(&v).unwrap();
    assert_eq!(g.groups[0].portfolio_ids, vec![4, 5]);
}

#[test]
fn capital_gains_with_empty_lists_round_trips() {
    let zero = Decimal::new(false, 0, 0);
    let day = Date::from_ymd(2020, 1, 15).unwrap();
    let g = CapitalGainsSuccess {
        short_term_gains: zero,
        long_term_gains: zero,
        losses: zero,
        short_term_losses: zero,
        long_term_losses: zero,
        total_discounted_capital_gain_distributions: zero,
        total_non_discounted_capital_gain_distributions: zero,
        cgt_concession_rate: zero,
        cgt_concession_amount: zero,
        market_value: zero,
        tax_gain_loss: zero,
        discounted_capital_gain_distributions: vec![],
        non_discounted_capital_gain_distributions: vec![],
        short_term_parcels: vec![],
        long_term_parcels: vec![],
        loss_parcels: vec![],
        start_date: day,
        end_date: day,
        portfolio_id: 7,
    };
    let d = CapitalGainsSuccess::decode(&g.encode()).unwrap();
    assert_eq!(d, g);
    assert!(d.discounted_capital_gain_distributions.is_empty());
    assert!(d.non_discounted_capital_gain_distributions.is_empty());
}
