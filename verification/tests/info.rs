use bot::info::{bot_info, signed_to_string, unsigned_to_string, Info, SearchStats};

fn entry(label: &str, value: Option<&str>) -> (String, Option<String>) {
    (label.to_string(), value.map(|v| v.to_string()))
}

#[test]
fn unsigned_numbers_are_written_in_decimal() {
    assert_eq!(unsigned_to_string(0), "0");
    assert_eq!(unsigned_to_string(7), "7");
    assert_eq!(unsigned_to_string(9), "9");
    assert_eq!(unsigned_to_string(10), "10");
    assert_eq!(unsigned_to_string(407), "407");
    assert_eq!(unsigned_to_string(1234567890), "1234567890");
    assert_eq!(unsigned_to_string(u64::MAX), "18446744073709551615");
}

#[test]
fn signed_numbers_carry_their_sign() {
    assert_eq!(signed_to_string(0), "0");
    assert_eq!(signed_to_string(15), "15");
    assert_eq!(signed_to_string(-1), "-1");
    assert_eq!(signed_to_string(-120), "-120");
    assert_eq!(signed_to_string(i64::MAX), "9223372036854775807");
    assert_eq!(signed_to_string(i64::MIN), "-9223372036854775808");
}

#[test]
fn numbers_are_written_as_std_writes_them() {
    for n in [0u64, 1, 9, 10, 11, 99, 100, 101, 65535, 4294967296, u64::MAX - 1] {
        assert_eq!(unsigned_to_string(n), format!("{}", n));
    }
    for v in [0i64, 1, -1, 9, -9, 10, -10, 1000, -1000, i64::MIN + 1] {
        assert_eq!(signed_to_string(v), format!("{}", v));
    }
}

#[test]
fn opening_report_is_the_title_alone_without_entries() {
    let info = bot_info(Vec::new(), None);
    assert_eq!(info, vec![entry("Cold Clear", None)]);
}

#[test]
fn opening_report_puts_the_title_before_the_evaluator_entries() {
    let report: Info = vec![entry("Standard", None), entry("Weights", Some("tuned"))];
    let info = bot_info(report, None);
    assert_eq!(
        info,
        vec![
            entry("Cold Clear", None),
            entry("Standard", None),
            entry("Weights", Some("tuned")),
        ]
    );
}

#[test]
fn report_after_commit_ends_with_the_search_figures() {
    let report: Info = vec![entry("Standard", None)];
    let stats = SearchStats { depth: 6, evaluation: -315, nodes: 20481 };
    let info = bot_info(report, Some(stats));
    assert_eq!(
        info,
        vec![
            entry("Cold Clear", None),
            entry("Standard", None),
            entry("Depth", Some("6")),
            entry("Evaluation", Some("")),
            entry("", Some("-315")),
            entry("Nodes", Some("")),
            entry("", Some("20481")),
        ]
    );
}

#[test]
fn report_after_commit_without_entries_has_six_lines() {
    let stats = SearchStats { depth: 0, evaluation: 0, nodes: 1 };
    let info = bot_info(Vec::new(), Some(stats));
    assert_eq!(
        info,
        vec![
            entry("Cold Clear", None),
            entry("Depth", Some("0")),
            entry("Evaluation", Some("")),
            entry("", Some("0")),
            entry("Nodes", Some("")),
            entry("", Some("1")),
        ]
    );
}

#[test]
fn report_keeps_the_order_of_the_evaluator_entries() {
    let report: Info = vec![entry("b", Some("2")), entry("a", Some("1")), entry("b", None)];
    let info = bot_info(report.clone(), None);
    assert_eq!(&info[1..], &report[..]);
}
