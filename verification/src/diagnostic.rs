//! What every check has in common: the list request it asks for, and the
//! report or failure it makes of the answer.

use crate::diagnostic_report::{DiagnosticReport, ReportView};
use vstd::prelude::*;

verus! {

/// The checks that exist.
#[derive(Clone, Copy, Debug, PartialEq, Eq, Hash, Structural)]
pub enum CheckKind {
    Pods,
    Nodes,
    Events,
    Services,
}

/// Content of a [`ListRequest`].
pub struct ListRequestView {
    pub namespace: Option<Seq<char>>,
    pub limit: Option<u32>,
}

/// A request to list the objects of one kind.
#[derive(Debug, Clone, PartialEq, Eq)]
pub struct ListRequest {
    /// The namespace to list in; `None` asks for the whole cluster.
    pub namespace: Option<String>,
    /// The largest number of objects to return; `None` sets no bound.
    pub limit: Option<u32>,
}

impl View for ListRequest {
    type V = ListRequestView;

    open spec fn view(&self) -> ListRequestView {
        ListRequestView { namespace: self.namespace.deep_view(), limit: self.limit }
    }
}

/// The request for at most `limit` objects of the namespace `namespace`.
pub open spec fn namespaced(namespace: Seq<char>, limit: Option<u32>) -> ListRequestView {
    ListRequestView { namespace: Some(namespace), limit }
}

/// The request for every object of the cluster, whatever its namespace.
pub open spec fn cluster_wide() -> ListRequestView {
    ListRequestView { namespace: None, limit: None }
}

/// Content of a [`DiagnosticError`].
pub struct ErrorView {
    pub check: CheckKind,
    pub cause: Seq<char>,
}

/// A check that could not be made because its list request failed.
#[derive(Debug, Clone, PartialEq, Eq)]
pub struct DiagnosticError {
    /// The check that failed.
    pub check: CheckKind,
    /// What the cluster client said of the failure.
    pub cause: String,
}

impl View for DiagnosticError {
    type V = ErrorView;

    open spec fn view(&self) -> ErrorView {
        ErrorView { check: self.check, cause: self.cause@ }
    }
}

/// A check on the objects of one kind.
///
/// A check is made in two steps. `request` says what to list. `run` takes the
/// answer, which is the listed objects or the word of a failure, and returns
/// the report or the failure.
pub trait Diagnostic {
    /// The objects that the check reads.
    type Item: DeepView;

    /// Which check this is.
    spec fn kind_spec(&self) -> CheckKind;

    /// The list request that the check is made on.
    spec fn request_spec(&self, namespace: Seq<char>) -> ListRequestView;

    /// The report that the check owes on the listed objects.
    spec fn report_spec(&self, items: Seq<<Self::Item as DeepView>::V>) -> ReportView;

    /// Which check this is.
    fn kind(&self) -> (kind: CheckKind)
        ensures
            kind == self.kind_spec(),
    ;

    /// The list request to make for the namespace that the user chose.
    fn request(&self, namespace: &str) -> (request: ListRequest)
        ensures
            request@ == self.request_spec(namespace@),
    ;

    /// Turns the answer to the list request into the check's outcome: the
    /// report on the listed objects, or the failure where listing failed.
    fn run(&self, listing: Result<Vec<Self::Item>, String>) -> (outcome: Result<
        DiagnosticReport,
        DiagnosticError,
    >)
        ensures
            match listing {
                Ok(items) => outcome matches Ok(report) && report@ == self.report_spec(
                    items.deep_view(),
                ),
                Err(cause) => outcome matches Err(error) && error@ == (ErrorView {
                    check: self.kind_spec(),
                    cause: cause@,
                }),
            },
    ;
}

/// The content of an answer to a list request: the contents of the listed
/// objects, or the word of the failure.
pub open spec fn listing_view<T: DeepView>(listing: Result<Vec<T>, String>) -> Result<
    Seq<T::V>,
    Seq<char>,
> {
    match listing {
        Ok(items) => Ok(items.deep_view()),
        Err(cause) => Err(cause@),
    }
}

/// The content of a check's outcome.
pub open spec fn outcome_view(outcome: Result<DiagnosticReport, DiagnosticError>) -> Result<
    ReportView,
    ErrorView,
> {
    match outcome {
        Ok(report) => Ok(report@),
        Err(error) => Err(error@),
    }
}

/// Running a check twice on the same answer gives the same outcome: the same
/// summary and the same issues in the same order, or the same failure.
pub proof fn lemma_run_repeats<D: Diagnostic>(
    check: &D,
    first: Result<Vec<D::Item>, String>,
    second: Result<Vec<D::Item>, String>,
    once: Result<DiagnosticReport, DiagnosticError>,
    again: Result<DiagnosticReport, DiagnosticError>,
)
    requires
        listing_view(first) == listing_view(second),
        call_ensures(D::run, (check, first), once),
        call_ensures(D::run, (check, second), again),
    ensures
        outcome_view(once) == outcome_view(again),
{
}

} // verus!
