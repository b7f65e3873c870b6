use beancount_completion::date::{
    add_one_month, clock_date, complete_date, current_date, render_date_label,
    render_month_label, sub_one_month, Date,
};
use beancount_completion::syntax::{probe_range, SyntaxKind};
use beancount_completion::trigger::date_trigger_active;

#[test]
fn date_suggestions_have_four_items_in_order() {
    let items = complete_date(Date { year: 2023, month: 1, day: 15 });
    assert_eq!(items.len(), 4);
    assert_eq!(items[0].label, "2023-01-15");
    assert_eq!(items[0].detail, "today");
    assert_eq!(items[1].label, "2023-01-");
    assert_eq!(items[1].detail, "this month");
    assert_eq!(items[2].label, "2022-12-");
    assert_eq!(items[2].detail, "prev month");
    assert_eq!(items[3].label, "2023-02-");
    assert_eq!(items[3].detail, "next month");
}

#[test]
fn month_wraps_at_year_boundaries() {
    let jan = Date { year: 2023, month: 1, day: 15 };
    assert_eq!(sub_one_month(jan), Date { year: 2022, month: 12, day: 1 });
    let dec = Date { year: 2023, month: 12, day: 31 };
    assert_eq!(add_one_month(dec), Date { year: 2024, month: 1, day: 1 });
}

#[test]
fn month_shifts_within_a_year() {
    let jun = Date { year: 2024, month: 6, day: 20 };
    assert_eq!(add_one_month(jun), Date { year: 2024, month: 7, day: 1 });
    assert_eq!(sub_one_month(jun), Date { year: 2024, month: 5, day: 1 });
}

#[test]
fn labels_are_zero_padded() {
    let d = Date { year: 9, month: 3, day: 4 };
    assert_eq!(render_date_label(d), "0009-03-04");
    assert_eq!(render_month_label(d), "0009-03-");
}

#[test]
fn december_suggestions_wrap_forward() {
    let items = complete_date(Date { year: 2022, month: 12, day: 31 });
    assert_eq!(items[2].label, "2022-11-");
    assert_eq!(items[3].label, "2023-01-");
}

#[test]
fn current_date_is_well_formed() {
    let d = current_date().expect("the clock's year fits the label format");
    assert!((1..=12).contains(&d.month));
    assert!((1..=31).contains(&d.day));
    assert!((1..=9998).contains(&d.year));
}

#[test]
fn clock_readings_are_kept_exactly_within_the_label_range() {
    assert_eq!(clock_date(2023, 1, 15), Some(Date { year: 2023, month: 1, day: 15 }));
    assert_eq!(clock_date(1, 12, 31), Some(Date { year: 1, month: 12, day: 31 }));
    assert_eq!(clock_date(9998, 6, 1), Some(Date { year: 9998, month: 6, day: 1 }));
}

#[test]
fn clock_readings_outside_the_label_range_are_refused() {
    assert_eq!(clock_date(0, 1, 1), None);
    assert_eq!(clock_date(-44, 3, 15), None);
    assert_eq!(clock_date(9999, 1, 1), None);
    assert_eq!(clock_date(262143, 1, 1), None);
}

#[test]
fn trigger_honoured_only_in_first_two_columns() {
    assert!(date_trigger_active(Some("2"), 0));
    assert!(date_trigger_active(Some("2"), 1));
    assert!(!date_trigger_active(Some("2"), 2));
    assert!(!date_trigger_active(Some("2"), 40));
}

#[test]
fn only_the_reserved_symbol_triggers() {
    assert!(!date_trigger_active(None, 0));
    assert!(!date_trigger_active(Some(""), 0));
    assert!(!date_trigger_active(Some("3"), 0));
    assert!(!date_trigger_active(Some("22"), 0));
}

#[test]
fn probe_range_is_one_column_wide() {
    let (start, end) = probe_range(7, 5);
    assert_eq!((start.row, start.column), (7, 4));
    assert_eq!((end.row, end.column), (7, 5));
}

#[test]
fn probe_range_is_zero_width_at_line_start() {
    let (start, end) = probe_range(3, 0);
    assert_eq!((start.row, start.column), (3, 0));
    assert_eq!((end.row, end.column), (3, 0));
}

#[test]
fn grammar_names_map_to_kinds() {
    assert_eq!(SyntaxKind::from_name("ERROR"), SyntaxKind::Error);
    assert_eq!(SyntaxKind::from_name("identifier"), SyntaxKind::Identifier);
    assert_eq!(SyntaxKind::from_name("string"), SyntaxKind::StringLiteral);
    assert_eq!(SyntaxKind::from_name("txn_strings"), SyntaxKind::TxnStrings);
    assert_eq!(
        SyntaxKind::from_name("posting_or_kv_list"),
        SyntaxKind::PostingOrKvList
    );
    assert_eq!(SyntaxKind::from_name("comment"), SyntaxKind::Other);
    assert_eq!(SyntaxKind::from_name(""), SyntaxKind::Other);
}
