use kubectl_diagnostics::args::Args;
use kubectl_diagnostics::diagnostic_report::{
    push_issue, DiagnosticIssue, DiagnosticReport, Severity,
};
use kubectl_diagnostics::text::{
    append_decimal, append_signed_decimal, text_eq, text_or,
};
use kubectl_diagnostics::time::Timestamp;

#[test]
fn new_issue_keeps_fields_and_leaves_the_rest_unset() {
    let issue = DiagnosticIssue::new("web-0".to_string(), "Phase: Pending".to_string(), Severity::Warning);
    assert_eq!(issue.resource, "web-0");
    assert_eq!(issue.message, "Phase: Pending");
    assert_eq!(issue.severity, Severity::Warning);
    assert_eq!(issue.namespace, None);
    assert_eq!(issue.reason, None);
    assert_eq!(issue.timestamp, None);
}

#[test]
fn new_issue_does_not_swap_resource_and_message() {
    let issue = DiagnosticIssue::new("r".to_string(), "m".to_string(), Severity::Error);
    assert_ne!(issue.resource, issue.message);
    assert_eq!(issue.severity, Severity::Error);
}

#[test]
fn severity_is_ordered_info_warning_error() {
    assert_eq!(Severity::Info.rank(), 0);
    assert_eq!(Severity::Warning.rank(), 1);
    assert_eq!(Severity::Error.rank(), 2);
    assert!(Severity::Info < Severity::Warning);
    assert!(Severity::Warning < Severity::Error);
}

#[test]
fn push_issue_appends_at_the_end() {
    let mut issues = vec![DiagnosticIssue::new("a".to_string(), "first".to_string(), Severity::Info)];
    push_issue(&mut issues, "b", "second".to_string(), Severity::Error);
    assert_eq!(issues.len(), 2);
    assert_eq!(issues[0].resource, "a");
    assert_eq!(issues[1], DiagnosticIssue::new("b".to_string(), "second".to_string(), Severity::Error));
}

#[test]
fn issues_are_not_deduplicated() {
    let mut issues = Vec::new();
    push_issue(&mut issues, "a", "same".to_string(), Severity::Info);
    push_issue(&mut issues, "a", "same".to_string(), Severity::Info);
    let report = DiagnosticReport { summary: "2 things".to_string(), issues };
    assert_eq!(report.issues.len(), 2);
    assert_eq!(report.issues[0], report.issues[1]);
}

#[test]
fn decimal_of_small_and_large_numbers() {
    let cases: Vec<(u64, &str)> = vec![
        (0, "0"),
        (7, "7"),
        (9, "9"),
        (10, "10"),
        (99, "99"),
        (100, "100"),
        (1234567890, "1234567890"),
        (u64::MAX, "18446744073709551615"),
    ];
    for (n, expected) in cases {
        let mut out = String::new();
        append_decimal(&mut out, n);
        assert_eq!(out, expected);
    }
}

#[test]
fn decimal_is_appended_after_what_is_there() {
    let mut out = "n = ".to_string();
    append_decimal(&mut out, 405);
    assert_eq!(out, "n = 405");
}

#[test]
fn signed_decimal_of_negative_and_extreme_numbers() {
    let cases: Vec<(i64, &str)> = vec![
        (0, "0"),
        (-1, "-1"),
        (137, "137"),
        (-255, "-255"),
        (i64::MAX, "9223372036854775807"),
        (i64::MIN, "-9223372036854775808"),
    ];
    for (n, expected) in cases {
        let mut out = String::from("exit ");
        append_signed_decimal(&mut out, n);
        assert_eq!(out, format!("exit {}", expected));
    }
}

#[test]
fn text_eq_compares_characters() {
    assert!(text_eq("Running", "Running"));
    assert!(!text_eq("Running", "running"));
    assert!(!text_eq("Running", "Running "));
    assert!(text_eq("", ""));
    assert!(!text_eq("", "x"));
}

#[test]
fn text_or_falls_back_only_when_absent() {
    assert_eq!(text_or(&Some("kubelet".to_string()), "<unknown>"), "kubelet");
    assert_eq!(text_or(&Some(String::new()), "<unknown>"), "");
    assert_eq!(text_or(&None, "<unknown>"), "<unknown>");
}

#[test]
fn rfc3339_of_whole_seconds() {
    let t = Timestamp { secs: 1_431_648_000, nanos: 0 };
    assert_eq!(t.to_rfc3339(), Some("2015-05-15T00:00:00+00:00".to_string()));
}

#[test]
fn rfc3339_of_the_epoch_and_before() {
    assert_eq!(
        Timestamp { secs: 0, nanos: 0 }.to_rfc3339(),
        Some("1970-01-01T00:00:00+00:00".to_string())
    );
    assert_eq!(
        Timestamp { secs: -1, nanos: 0 }.to_rfc3339(),
        Some("1969-12-31T23:59:59+00:00".to_string())
    );
}

#[test]
fn rfc3339_shows_fractions_in_groups_of_three_digits() {
    let at = |nanos: u32| Timestamp { secs: 1_431_648_000, nanos }.to_rfc3339().unwrap();
    assert_eq!(at(500_000_000), "2015-05-15T00:00:00.500+00:00");
    assert_eq!(at(123_456_000), "2015-05-15T00:00:00.123456+00:00");
    assert_eq!(at(1), "2015-05-15T00:00:00.000000001+00:00");
}

#[test]
fn rfc3339_of_a_leap_second() {
    let t = Timestamp { secs: 59, nanos: 1_500_000_000 };
    assert_eq!(t.to_rfc3339(), Some("1970-01-01T00:00:60.500+00:00".to_string()));
}

#[test]
fn rfc3339_of_years_beyond_four_digits() {
    let t = Timestamp { secs: 253_402_300_800, nanos: 0 };
    assert_eq!(t.to_rfc3339(), Some("+10000-01-01T00:00:00+00:00".to_string()));
}

#[test]
fn rfc3339_is_none_out_of_range() {
    assert_eq!(Timestamp { secs: i64::MAX, nanos: 0 }.to_rfc3339(), None);
    assert_eq!(Timestamp { secs: i64::MIN, nanos: 0 }.to_rfc3339(), None);
    assert_eq!(Timestamp { secs: 0, nanos: 2_000_000_000 }.to_rfc3339(), None);
    assert_eq!(Timestamp { secs: 0, nanos: 1_000_000_000 }.to_rfc3339(), None);
}

#[test]
fn rfc3339_differs_for_different_times() {
    let a = Timestamp { secs: 1, nanos: 0 }.to_rfc3339();
    let b = Timestamp { secs: 2, nanos: 0 }.to_rfc3339();
    assert_ne!(a, b);
}

#[test]
fn namespace_defaults_to_default() {
    assert_eq!(Args { namespace: None }.target_namespace(), "default");
    assert_eq!(Args::default().target_namespace(), "default");
}

#[test]
fn named_namespace_is_kept() {
    let args = Args { namespace: Some("kube-system".to_string()) };
    assert_eq!(args.target_namespace(), "kube-system");
    let empty = Args { namespace: Some(String::new()) };
    assert_eq!(empty.target_namespace(), "");
}
