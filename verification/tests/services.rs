use kubectl_diagnostics::cluster::{EndpointSubset, Endpoints};
use kubectl_diagnostics::diagnostic::{CheckKind, Diagnostic};
use kubectl_diagnostics::diagnostic_report::{DiagnosticIssue, Severity};
use kubectl_diagnostics::services_diagnostics::ServicesDiagnostic;

fn endpoints(name: &str, subsets: Option<Vec<EndpointSubset>>) -> Endpoints {
    Endpoints { name: Some(name.to_string()), subsets }
}

fn backed() -> EndpointSubset {
    EndpointSubset { addresses: vec!["10.0.0.12".to_string()] }
}

fn note(message: &str) -> DiagnosticIssue {
    DiagnosticIssue::new("Endpoint".to_string(), message.to_string(), Severity::Info)
}

#[test]
fn endpoints_with_empty_subsets_get_one_note() {
    let report = ServicesDiagnostic::evaluate(&vec![endpoints("orders", Some(vec![]))]);
    assert_eq!(report.summary, "1 services analyzed");
    assert_eq!(report.issues, vec![note("orders")]);
}

#[test]
fn endpoints_with_absent_subsets_get_one_note() {
    let report = ServicesDiagnostic::evaluate(&vec![endpoints("orders", None)]);
    assert_eq!(report.issues, vec![note("orders")]);
}

#[test]
fn endpoints_with_one_subset_get_no_issue() {
    let report = ServicesDiagnostic::evaluate(&vec![endpoints("orders", Some(vec![backed()]))]);
    assert_eq!(report.summary, "1 services analyzed");
    assert!(report.issues.is_empty());
}

#[test]
fn subset_without_addresses_still_counts_as_subset() {
    let hollow = EndpointSubset { addresses: vec![] };
    let report = ServicesDiagnostic::evaluate(&vec![endpoints("orders", Some(vec![hollow]))]);
    assert!(report.issues.is_empty());
}

#[test]
fn endpoints_without_name_are_passed_over() {
    let list = vec![
        Endpoints { name: None, subsets: None },
        Endpoints { name: None, subsets: Some(vec![]) },
        endpoints("named", None),
    ];
    let report = ServicesDiagnostic::evaluate(&list);
    assert_eq!(report.summary, "3 services analyzed");
    assert_eq!(report.issues, vec![note("named")]);
}

#[test]
fn services_are_reported_in_list_order() {
    let list = vec![
        endpoints("a", None),
        endpoints("b", Some(vec![backed(), backed()])),
        endpoints("c", Some(vec![])),
        endpoints("d", Some(vec![backed()])),
    ];
    let report = ServicesDiagnostic::evaluate(&list);
    assert_eq!(report.summary, "4 services analyzed");
    assert_eq!(report.issues, vec![note("a"), note("c")]);
    assert!(report.issues.len() <= list.len());
}

#[test]
fn no_services_gives_empty_report() {
    let report = ServicesDiagnostic::evaluate(&vec![]);
    assert_eq!(report.summary, "0 services analyzed");
    assert!(report.issues.is_empty());
}

#[test]
fn services_request_is_namespaced_without_limit() {
    let request = ServicesDiagnostic.request("default");
    assert_eq!(request.namespace, Some("default".to_string()));
    assert_eq!(request.limit, None);
    assert_eq!(ServicesDiagnostic.kind(), CheckKind::Services);
}

#[test]
fn services_run_reports_or_passes_failure_on() {
    let list = vec![endpoints("a", None)];
    let report = ServicesDiagnostic.run(Ok(list.clone())).unwrap();
    assert_eq!(report, ServicesDiagnostic::evaluate(&list));
    assert_eq!(report.issues.len(), 1);
    let error = ServicesDiagnostic.run(Err("unauthorized".to_string())).unwrap_err();
    assert_eq!(error.check, CheckKind::Services);
    assert_eq!(error.cause, "unauthorized");
}

#[test]
fn services_run_twice_gives_identical_reports() {
    let list = vec![endpoints("a", None), endpoints("b", Some(vec![backed()]))];
    assert_eq!(ServicesDiagnostic.run(Ok(list.clone())), ServicesDiagnostic.run(Ok(list)));
}

#[test]
fn check_endpoints_appends_after_earlier_issues() {
    let mut issues = vec![note("earlier")];
    ServicesDiagnostic::check_endpoints(&endpoints("orders", None), &mut issues);
    ServicesDiagnostic::check_endpoints(&endpoints("billing", Some(vec![backed()])), &mut issues);
    assert_eq!(issues, vec![note("earlier"), note("orders")]);
}
