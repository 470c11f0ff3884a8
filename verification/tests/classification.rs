use ib_flex::date::Date;
use ib_flex::money::Amount;
use ib_flex::notes::{note_marks_wash_sale, notes_flag_wash_sale, wash_sale_marks};
use ib_flex::tax::holding::{classify, classify_holding, reference_date, HoldingPeriod};
use ib_flex::tax::wash_sale::{detect_wash_sale, records_wash_sale};
use ib_flex::text::{contains_char, contains_run, same_text};
use ib_flex::types::Trade;

fn day(year: i32, month: u32, day: u32) -> Date {
    Date::from_ymd(year, month, day).unwrap()
}

fn sale(trade_date: Date, orig: Option<Date>, holding: Option<&str>, pnl: i64, notes: Option<&str>) -> Trade {
    Trade {
        symbol: "ABC".to_string(),
        conid: "1001".to_string(),
        trade_date,
        quantity: Some(Amount::from_i64(-10)),
        fifo_pnl_realized: Some(Amount::from_i64(pnl)),
        orig_trade_date: orig,
        holding_period_date_time: holding.map(|t| t.to_string()),
        notes: notes.map(|t| t.to_string()),
    }
}

#[test]
fn opening_date_366_days_back_is_long_term() {
    let trade = sale(day(2025, 3, 1), Some(day(2024, 2, 29)), None, 100, None);
    assert_eq!(trade.trade_date.days_since(day(2024, 2, 29)), 366);
    assert_eq!(classify(&trade), HoldingPeriod::LongTerm);
}

#[test]
fn opening_date_365_days_back_is_short_term() {
    let trade = sale(day(2025, 3, 1), Some(day(2024, 3, 1)), None, 100, None);
    assert_eq!(trade.trade_date.days_since(day(2024, 3, 1)), 365);
    assert_eq!(classify(&trade), HoldingPeriod::ShortTerm);
}

#[test]
fn opening_date_after_the_trade_is_short_term() {
    let trade = sale(day(2025, 3, 1), Some(day(2026, 6, 1)), None, 100, None);
    assert_eq!(classify(&trade), HoldingPeriod::ShortTerm);
}

#[test]
fn opening_date_comes_before_the_holding_text() {
    let trade = sale(day(2025, 3, 1), Some(day(2025, 2, 1)), Some("2020-01-01;120000"), 100, None);
    assert_eq!(classify(&trade), HoldingPeriod::ShortTerm);
    let other = sale(day(2025, 3, 1), Some(day(2020, 1, 1)), Some("2025-02-01;120000"), 100, None);
    assert_eq!(classify(&other), HoldingPeriod::LongTerm);
}

#[test]
fn holding_text_is_the_fallback() {
    let long = sale(day(2025, 3, 1), None, Some("2024-02-29;093000"), 100, None);
    assert_eq!(classify(&long), HoldingPeriod::LongTerm);
    let short = sale(day(2025, 3, 1), None, Some("2024-03-01;093000"), 100, None);
    assert_eq!(classify(&short), HoldingPeriod::ShortTerm);
}

#[test]
fn no_reference_date_is_short_term() {
    assert_eq!(classify(&sale(day(2025, 3, 1), None, None, 100, None)), HoldingPeriod::ShortTerm);
}

#[test]
fn short_holding_text_is_short_term() {
    assert_eq!(classify(&sale(day(2025, 3, 1), None, Some("2020-01"), 100, None)), HoldingPeriod::ShortTerm);
    assert_eq!(classify(&sale(day(2025, 3, 1), None, Some(""), 100, None)), HoldingPeriod::ShortTerm);
}

#[test]
fn unparsable_holding_text_is_short_term() {
    assert_eq!(
        classify(&sale(day(2025, 3, 1), None, Some("01/01/2020 09:30"), 100, None)),
        HoldingPeriod::ShortTerm
    );
    assert_eq!(
        classify(&sale(day(2025, 3, 1), None, Some("2020-02-30;093000"), 100, None)),
        HoldingPeriod::ShortTerm
    );
}

#[test]
fn reference_date_tries_in_order() {
    let text = Some("2024-05-06;101500".to_string());
    assert_eq!(reference_date(Some(day(2023, 1, 2)), &text), Some(day(2023, 1, 2)));
    assert_eq!(reference_date(None, &text), Some(day(2024, 5, 6)));
    assert_eq!(reference_date(None, &Some("garbage text".to_string())), None);
    assert_eq!(reference_date(None, &None), None);
}

#[test]
fn classify_holding_counts_days() {
    let trade_date = day(2025, 3, 1);
    assert_eq!(classify_holding(trade_date, Some(Date::from_days(trade_date.days - 366))), HoldingPeriod::LongTerm);
    assert_eq!(classify_holding(trade_date, Some(Date::from_days(trade_date.days - 365))), HoldingPeriod::ShortTerm);
    assert_eq!(classify_holding(trade_date, Some(trade_date)), HoldingPeriod::ShortTerm);
    assert_eq!(classify_holding(trade_date, None), HoldingPeriod::ShortTerm);
    assert_eq!(
        classify_holding(Date::from_days(i32::MAX), Some(Date::from_days(i32::MIN))),
        HoldingPeriod::LongTerm
    );
}

#[test]
fn contains_char_finds_a_character() {
    assert!(contains_char("P;W", 'W'));
    assert!(!contains_char("P;w", 'W'));
    assert!(!contains_char("", 'W'));
    assert!(contains_char("straße", 'ß'));
}

#[test]
fn contains_run_finds_a_run() {
    assert!(contains_run("A WASH SALE", "WASH"));
    assert!(contains_run("WASH", "WASH"));
    assert!(contains_run("XWASH", "WASH"));
    assert!(!contains_run("WAS", "WASH"));
    assert!(!contains_run("WA SH", "WASH"));
    assert!(!contains_run("", "WASH"));
    assert!(contains_run("anything", ""));
    assert!(contains_run("", ""));
    assert!(contains_run("WAWASH", "WASH"));
}

#[test]
fn same_text_compares_every_character() {
    assert!(same_text("Dividends", "Dividends"));
    assert!(!same_text("Dividends", "dividends"));
    assert!(!same_text("Dividends", "Dividend"));
    assert!(!same_text("Dividend", "Dividends"));
    assert!(same_text("", ""));
    assert!(!same_text("", "x"));
}

#[test]
fn wash_sale_marks_reads_both_forms() {
    assert!(wash_sale_marks("W", "W"));
    assert!(wash_sale_marks("wash", "WASH"));
    assert!(!wash_sale_marks("wash", "wash"));
    assert!(wash_sale_marks("xWx", "nothing"));
    assert!(!wash_sale_marks("p", "P"));
}

#[test]
fn capital_w_marks_a_wash_sale() {
    assert!(note_marks_wash_sale("W"));
    assert!(note_marks_wash_sale("P;W"));
    assert!(note_marks_wash_sale("Wash"));
    assert!(note_marks_wash_sale("Won the bid"));
}

#[test]
fn the_word_wash_marks_a_wash_sale_in_any_case() {
    assert!(note_marks_wash_sale("wash sale"));
    assert!(note_marks_wash_sale("loss from a wash"));
    assert!(note_marks_wash_sale("wAsH"));
}

#[test]
fn other_notes_mark_no_wash_sale() {
    assert!(!note_marks_wash_sale(""));
    assert!(!note_marks_wash_sale("w"));
    assert!(!note_marks_wash_sale("P;O"));
    assert!(!note_marks_wash_sale("was h"));
}

#[test]
fn absent_notes_mark_no_wash_sale() {
    assert!(!notes_flag_wash_sale(&None));
    assert!(notes_flag_wash_sale(&Some("W".to_string())));
    assert!(notes_flag_wash_sale(&Some("wash".to_string())));
    assert!(!notes_flag_wash_sale(&Some("P".to_string())));
}

#[test]
fn only_a_flagged_loss_is_recorded() {
    assert!(records_wash_sale(true, &Amount::from_i64(-1)));
    assert!(!records_wash_sale(true, &Amount::from_i64(1)));
    assert!(!records_wash_sale(true, &Amount::zero()));
    assert!(!records_wash_sale(false, &Amount::from_i64(-1)));
    assert!(!records_wash_sale(false, &Amount::from_i64(1)));
}

#[test]
fn wash_sale_record_carries_the_loss() {
    let trade = sale(day(2025, 3, 1), None, None, -100, Some("W"));
    let record = detect_wash_sale(&trade, &Amount::from_i64(-100)).unwrap();
    assert_eq!(record.symbol, "ABC");
    assert_eq!(record.sell_date, day(2025, 3, 1));
    assert_eq!(record.loss_amount, Amount::from_i64(-100));
    assert_eq!(record.disallowed_amount, Amount::from_i64(100));
    assert_eq!(record.repurchase_date, None);
}

#[test]
fn flagged_gain_is_no_wash_sale() {
    let trade = sale(day(2025, 3, 1), None, None, 100, Some("W"));
    assert!(detect_wash_sale(&trade, &Amount::from_i64(100)).is_none());
}

#[test]
fn unflagged_loss_is_no_wash_sale() {
    let trade = sale(day(2025, 3, 1), None, None, -100, Some("P"));
    assert!(detect_wash_sale(&trade, &Amount::from_i64(-100)).is_none());
    let bare = sale(day(2025, 3, 1), None, None, -100, None);
    assert!(detect_wash_sale(&bare, &Amount::from_i64(-100)).is_none());
}
