use kubectl_diagnostics::cluster::{Event, EventSource};
use kubectl_diagnostics::diagnostic::{CheckKind, Diagnostic};
use kubectl_diagnostics::diagnostic_report::{DiagnosticIssue, Severity};
use kubectl_diagnostics::events_diagnostic::{extract_timestamp, EventsDiagnostic};
use kubectl_diagnostics::time::Timestamp;

fn at(secs: i64) -> Option<Timestamp> {
    Some(Timestamp { secs, nanos: 0 })
}

fn event(name: &str, last: Option<Timestamp>) -> Event {
    Event {
        involved_object_name: Some(name.to_string()),
        message: Some("Back-off restarting failed container".to_string()),
        reason: Some("BackOff".to_string()),
        event_time: None,
        last_timestamp: last,
        source: Some(EventSource { component: Some("kubelet".to_string()) }),
    }
}

fn warning(resource: &str, message: &str) -> DiagnosticIssue {
    DiagnosticIssue::new(resource.to_string(), message.to_string(), Severity::Warning)
}

#[test]
fn event_gets_one_warning_with_all_fields() {
    let report = EventsDiagnostic::evaluate(&vec![event("web-0", at(1_700_000_000))]);
    assert_eq!(report.summary, "1 events analyzed");
    assert_eq!(
        report.issues,
        vec![warning(
            "web-0",
            "(BackOff) 2023-11-14T22:13:20+00:00 Back-off restarting failed container kubelet"
        )]
    );
}

#[test]
fn bare_event_gets_placeholders() {
    let report = EventsDiagnostic::evaluate(&vec![Event::default()]);
    assert_eq!(
        report.issues,
        vec![warning("<unknown>", "(<no reason>) <no time> <no message> <unknown>")]
    );
}

#[test]
fn source_without_component_is_unknown() {
    let mut e = event("web-0", None);
    e.source = Some(EventSource { component: None });
    let report = EventsDiagnostic::evaluate(&vec![e]);
    assert_eq!(
        report.issues,
        vec![warning("web-0", "(BackOff) <no time> Back-off restarting failed container <unknown>")]
    );
}

#[test]
fn event_time_is_preferred_over_last_timestamp() {
    let mut e = event("web-0", at(1_700_000_000));
    e.event_time = Some(Timestamp { secs: 1_600_000_000, nanos: 123_456_000 });
    assert_eq!(extract_timestamp(&e), Some(Timestamp { secs: 1_600_000_000, nanos: 123_456_000 }));
    let report = EventsDiagnostic::evaluate(&vec![e]);
    assert_eq!(
        report.issues[0].message,
        "(BackOff) 2020-09-13T12:26:40.123456+00:00 Back-off restarting failed container kubelet"
    );
}

#[test]
fn last_timestamp_is_used_without_event_time() {
    let e = event("web-0", at(42));
    assert_eq!(extract_timestamp(&e), at(42));
}

#[test]
fn event_without_any_time_has_none() {
    assert_eq!(extract_timestamp(&event("web-0", None)), None);
}

#[test]
fn event_time_that_cannot_be_rendered_reads_no_time() {
    let mut e = event("web-0", at(1_700_000_000));
    e.event_time = Some(Timestamp { secs: i64::MIN, nanos: 0 });
    let report = EventsDiagnostic::evaluate(&vec![e]);
    assert_eq!(
        report.issues[0].message,
        "(BackOff) <no time> Back-off restarting failed container kubelet"
    );
}

#[test]
fn events_are_rendered_newest_first() {
    let events = vec![event("t1", at(100)), event("t2", at(200)), event("t3", at(300))];
    let report = EventsDiagnostic::evaluate(&events);
    assert_eq!(report.summary, "3 events analyzed");
    let resources: Vec<&str> = report.issues.iter().map(|i| i.resource.as_str()).collect();
    assert_eq!(resources, vec!["t3", "t2", "t1"]);
    assert_eq!(
        report.issues[0].message,
        "(BackOff) 1970-01-01T00:05:00+00:00 Back-off restarting failed container kubelet"
    );
    assert_eq!(
        report.issues[1].message,
        "(BackOff) 1970-01-01T00:03:20+00:00 Back-off restarting failed container kubelet"
    );
    assert_eq!(
        report.issues[2].message,
        "(BackOff) 1970-01-01T00:01:40+00:00 Back-off restarting failed container kubelet"
    );
}

#[test]
fn events_are_reversed_whatever_their_times() {
    let events = vec![event("late", at(900)), event("early", at(1)), event("none", None)];
    let report = EventsDiagnostic::evaluate(&events);
    let resources: Vec<&str> = report.issues.iter().map(|i| i.resource.as_str()).collect();
    assert_eq!(resources, vec!["none", "early", "late"]);
}

#[test]
fn all_event_issues_are_warnings() {
    let events = vec![event("a", None), Event::default(), event("b", at(5))];
    let report = EventsDiagnostic::evaluate(&events);
    assert_eq!(report.issues.len(), 3);
    assert!(report.issues.iter().all(|i| i.severity == Severity::Warning));
    assert!(report.issues.iter().all(|i| i.namespace.is_none()
        && i.reason.is_none()
        && i.timestamp.is_none()));
}

#[test]
fn no_events_gives_empty_report() {
    let report = EventsDiagnostic::evaluate(&vec![]);
    assert_eq!(report.summary, "0 events analyzed");
    assert!(report.issues.is_empty());
}

#[test]
fn events_request_is_namespaced_with_limit() {
    let request = EventsDiagnostic.request("staging");
    assert_eq!(request.namespace, Some("staging".to_string()));
    assert_eq!(request.limit, Some(100));
    assert_eq!(EventsDiagnostic.kind(), CheckKind::Events);
}

#[test]
fn events_run_reports_or_passes_failure_on() {
    let events = vec![event("a", at(1)), event("b", at(2))];
    let report = EventsDiagnostic.run(Ok(events.clone())).unwrap();
    assert_eq!(report, EventsDiagnostic::evaluate(&events));
    assert_eq!(report.issues.len(), 2);
    let error = EventsDiagnostic.run(Err("timed out".to_string())).unwrap_err();
    assert_eq!(error.check, CheckKind::Events);
    assert_eq!(error.cause, "timed out");
}

#[test]
fn events_run_twice_gives_identical_reports() {
    let events = vec![event("a", at(1)), event("b", at(2))];
    assert_eq!(EventsDiagnostic.run(Ok(events.clone())), EventsDiagnostic.run(Ok(events)));
}

#[test]
fn event_issue_holds_the_given_time_text() {
    let mut issues = Vec::new();
    let e = event("web-0", None);
    EventsDiagnostic::push_event_issue(&e, &Some("2024-02-29T12:00:00+00:00".to_string()), &mut issues);
    assert_eq!(
        issues,
        vec![warning(
            "web-0",
            "(BackOff) 2024-02-29T12:00:00+00:00 Back-off restarting failed container kubelet"
        )]
    );
}

#[test]
fn event_issue_without_time_text_reads_no_time() {
    let mut issues = vec![warning("earlier", "kept")];
    let e = event("web-0", at(5));
    EventsDiagnostic::push_event_issue(&e, &None, &mut issues);
    assert_eq!(
        issues,
        vec![
            warning("earlier", "kept"),
            warning("web-0", "(BackOff) <no time> Back-off restarting failed container kubelet"),
        ]
    );
}
