//! The services check: every service of a namespace that no address backs.

use crate::cluster::{Endpoints, EndpointsView};
use crate::diagnostic::{
    namespaced, CheckKind, Diagnostic, DiagnosticError, ListRequest, ListRequestView,
};
use crate::diagnostic_report::{
    all_named, plain_issue, push_issue, DiagnosticIssue, DiagnosticReport, IssueView, ReportView,
    Severity,
};
use crate::sequences::{lemma_flat_map_all, lemma_flat_map_kept};
use crate::text::{append_decimal, decimal};
use vstd::prelude::*;
use vstd::string::*;

verus! {

/// Whether an endpoints object lists no subset: the list is absent or empty.
pub open spec fn has_no_subsets(endpoints: EndpointsView) -> bool {
    match endpoints.subsets {
        Some(subsets) => subsets.len() == 0,
        None => true,
    }
}

/// An endpoints object without subsets gets one note, filed under `Endpoint`,
/// whose message is the object's name. One that has no name is passed over.
pub open spec fn endpoint_issues(endpoints: EndpointsView) -> Seq<IssueView> {
    if has_no_subsets(endpoints) {
        match endpoints.name {
            Some(name) => seq![plain_issue("Endpoint"@, name, Severity::Info)],
            None => seq![],
        }
    } else {
        seq![]
    }
}

/// The issues of the listed endpoints objects, one object after the other in
/// the order of the list.
pub open spec fn services_issues(endpoints: Seq<EndpointsView>) -> Seq<IssueView> {
    endpoints.flat_map(|endpoints: EndpointsView| endpoint_issues(endpoints))
}

/// The report on the listed endpoints objects, of which there is one for
/// each service.
pub open spec fn services_report(endpoints: Seq<EndpointsView>) -> ReportView {
    ReportView {
        summary: decimal(endpoints.len()) + " services analyzed"@,
        issues: services_issues(endpoints),
    }
}

/// The check on the services of a namespace.
#[derive(Debug, Clone, Copy, Default, PartialEq, Eq)]
pub struct ServicesDiagnostic;

impl ServicesDiagnostic {
    /// Appends the issues of one endpoints object to `issues`.
    pub fn check_endpoints(endpoints: &Endpoints, issues: &mut Vec<DiagnosticIssue>)
        ensures
            final(issues).deep_view() == old(issues).deep_view() + endpoint_issues(
                endpoints.deep_view(),
            ),
    {
        let unbacked = match &endpoints.subsets {
            Some(subsets) => subsets.len() == 0,
            None => true,
        };
        if unbacked {
            if let Some(name) = &endpoints.name {
                push_issue(issues, "Endpoint", name.clone(), Severity::Info);
            }
        }
        assert(issues.deep_view() =~= old(issues).deep_view() + endpoint_issues(
            endpoints.deep_view(),
        ));
    }

    /// The report on the listed endpoints objects: how many there are, and
    /// the issues of each in the order of the list.
    pub fn evaluate(endpoints: &Vec<Endpoints>) -> (report: DiagnosticReport)
        ensures
            report@ == services_report(endpoints.deep_view()),
    {
        let mut issues: Vec<DiagnosticIssue> = Vec::new();
        let ghost all = endpoints.deep_view();
        let ghost each = |endpoints: EndpointsView| endpoint_issues(endpoints);
        assert(all.take(0).flat_map(each) =~= Seq::<IssueView>::empty());
        assert(issues.deep_view() =~= Seq::<IssueView>::empty());
        for i in 0..endpoints.len()
            invariant
                all == endpoints.deep_view(),
                each == |endpoints: EndpointsView| endpoint_issues(endpoints),
                issues.deep_view() == all.take(i as int).flat_map(each),
        {
            Self::check_endpoints(&endpoints[i], &mut issues);
            proof {
                all.lemma_flat_map_take_append(each, i as int);
            }
        }
        assert(all.take(endpoints.len() as int) =~= all);
        let mut summary = String::new();
        append_decimal(&mut summary, endpoints.len() as u64);
        summary.append(" services analyzed");
        DiagnosticReport { summary, issues }
    }
}

impl Diagnostic for ServicesDiagnostic {
    type Item = Endpoints;

    open spec fn kind_spec(&self) -> CheckKind {
        CheckKind::Services
    }

    open spec fn request_spec(&self, namespace: Seq<char>) -> ListRequestView {
        namespaced(namespace, None)
    }

    open spec fn report_spec(&self, items: Seq<EndpointsView>) -> ReportView {
        services_report(items)
    }

    fn kind(&self) -> (kind: CheckKind) {
        CheckKind::Services
    }

    fn request(&self, namespace: &str) -> (request: ListRequest) {
        ListRequest { namespace: Some(String::from_str(namespace)), limit: None }
    }

    fn run(&self, listing: Result<Vec<Endpoints>, String>) -> (outcome: Result<
        DiagnosticReport,
        DiagnosticError,
    >) {
        match listing {
            Ok(endpoints) => Ok(Self::evaluate(&endpoints)),
            Err(cause) => Err(DiagnosticError { check: CheckKind::Services, cause }),
        }
    }
}

/// Whether an endpoints object gets a note: it has a name and lists no subset.
pub open spec fn is_reported(endpoints: EndpointsView) -> bool {
    has_no_subsets(endpoints) && endpoints.name is Some
}

/// The note on an endpoints object that has a name.
pub open spec fn endpoint_note(endpoints: EndpointsView) -> IssueView
    recommends
        endpoints.name is Some,
{
    plain_issue("Endpoint"@, endpoints.name.unwrap(), Severity::Info)
}

/// An endpoints object that has a name and lists no subset, the list being
/// absent or empty, gets exactly one note. One that lists a subset gets no
/// issue, and neither does one without a name.
pub proof fn lemma_endpoint_issues(endpoints: EndpointsView)
    ensures
        has_no_subsets(endpoints) && endpoints.name is Some ==> endpoint_issues(endpoints)
            == seq![endpoint_note(endpoints)],
        !has_no_subsets(endpoints) ==> endpoint_issues(endpoints) == Seq::<IssueView>::empty(),
        endpoints.name is None ==> endpoint_issues(endpoints) == Seq::<IssueView>::empty(),
{
}

/// The issues of a report on services are the notes on the endpoints objects
/// that have a name and list no subset: one for each, in the order of the
/// list, and no others.
pub proof fn lemma_report_notes(endpoints: Seq<EndpointsView>)
    ensures
        services_issues(endpoints) == endpoints.filter(
            |endpoints: EndpointsView| is_reported(endpoints),
        ).map_values(|endpoints: EndpointsView| endpoint_note(endpoints)),
        services_issues(endpoints).len() <= endpoints.len(),
{
    let keep = |endpoints: EndpointsView| is_reported(endpoints);
    lemma_flat_map_kept(
        endpoints,
        |endpoints: EndpointsView| endpoint_issues(endpoints),
        keep,
        |endpoints: EndpointsView| endpoint_note(endpoints),
    );
    endpoints.lemma_filter_len(keep);
}

/// Every issue of a report on services is a note filed under `Endpoint`.
pub proof fn lemma_services_issues_are_notes(endpoints: Seq<EndpointsView>)
    ensures
        all_named(services_issues(endpoints)),
        forall|i: int|
            0 <= i < services_issues(endpoints).len() ==> {
                &&& (#[trigger] services_issues(endpoints)[i]).resource == "Endpoint"@
                &&& services_issues(endpoints)[i].severity == Severity::Info
            },
{
    reveal_strlit("Endpoint");
    lemma_flat_map_all(
        endpoints,
        |endpoints: EndpointsView| endpoint_issues(endpoints),
        |issue: IssueView| issue.resource == "Endpoint"@ && issue.severity == Severity::Info,
    );
}

} // verus!
