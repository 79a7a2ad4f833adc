//! The shared data model: an issue, its severity, and a report of issues.

use vstd::prelude::*;
use vstd::string::*;

verus! {

/// How much emphasis an issue deserves. `Info` is the lowest, `Error` the highest.
#[derive(Clone, Copy, Debug, PartialEq, Eq, PartialOrd, Ord, Hash, Structural)]
pub enum Severity {
    Info,
    Warning,
    Error,
}

impl Severity {
    /// The place of a severity in the order `Info < Warning < Error`.
    pub open spec fn rank_spec(self) -> nat {
        match self {
            Severity::Info => 0,
            Severity::Warning => 1,
            Severity::Error => 2,
        }
    }

    /// The place of this severity in the order `Info < Warning < Error`.
    pub fn rank(&self) -> (r: u8)
        ensures
            r == self.rank_spec(),
    {
        match self {
            Severity::Info => 0,
            Severity::Warning => 1,
            Severity::Error => 2,
        }
    }
}

/// The mathematical content of a [`DiagnosticIssue`].
pub struct IssueView {
    pub resource: Seq<char>,
    pub message: Seq<char>,
    pub severity: Severity,
    pub namespace: Option<Seq<char>>,
    pub reason: Option<Seq<char>>,
    pub timestamp: Option<Seq<char>>,
}

/// One abnormal condition found on one object.
#[derive(Debug, Clone, PartialEq, Eq)]
pub struct DiagnosticIssue {
    /// Name of the affected object.
    pub resource: String,
    /// Human-readable explanation.
    pub message: String,
    pub severity: Severity,
    pub namespace: Option<String>,
    /// Machine-readable reason code.
    pub reason: Option<String>,
    /// ISO 8601 time.
    pub timestamp: Option<String>,
}

impl View for DiagnosticIssue {
    type V = IssueView;

    open spec fn view(&self) -> IssueView {
        IssueView {
            resource: self.resource@,
            message: self.message@,
            severity: self.severity,
            namespace: self.namespace.deep_view(),
            reason: self.reason.deep_view(),
            timestamp: self.timestamp.deep_view(),
        }
    }
}

impl DeepView for DiagnosticIssue {
    type V = IssueView;

    open spec fn deep_view(&self) -> IssueView {
        self@
    }
}

impl IssueView {
    /// Whether the issue names the object that it is about: its `resource` is
    /// not empty.
    pub open spec fn is_named(self) -> bool {
        self.resource.len() > 0
    }
}

/// Whether every one of the issues names the object that it is about.
pub open spec fn all_named(issues: Seq<IssueView>) -> bool {
    forall|i: int| 0 <= i < issues.len() ==> (#[trigger] issues[i]).is_named()
}

/// The issue that names `resource`, explains itself with `message`, and leaves
/// namespace, reason and timestamp unset.
pub open spec fn plain_issue(resource: Seq<char>, message: Seq<char>, severity: Severity) -> IssueView {
    IssueView { resource, message, severity, namespace: None, reason: None, timestamp: None }
}

impl DiagnosticIssue {
    /// An issue on `resource` with the given message and severity; namespace,
    /// reason and timestamp are left unset. The issue names its object if
    /// `resource` is not empty.
    pub fn new(resource: String, message: String, severity: Severity) -> (issue: DiagnosticIssue)
        ensures
            issue@ == plain_issue(resource@, message@, severity),
            issue@.is_named() <==> resource@.len() > 0,
    {
        DiagnosticIssue { resource, message, severity, namespace: None, reason: None, timestamp: None }
    }
}

/// Appends to `issues` a new issue on `resource`, as [`DiagnosticIssue::new`]
/// makes it.
pub fn push_issue(
    issues: &mut Vec<DiagnosticIssue>,
    resource: &str,
    message: String,
    severity: Severity,
)
    ensures
        final(issues).deep_view() == old(issues).deep_view().push(
            plain_issue(resource@, message@, severity),
        ),
{
    let issue = DiagnosticIssue::new(String::from_str(resource), message, severity);
    issues.push(issue);
    assert(issues.deep_view() =~= old(issues).deep_view().push(
        plain_issue(resource@, message@, severity),
    ));
}

/// The mathematical content of a [`DiagnosticReport`].
pub struct ReportView {
    pub summary: Seq<char>,
    pub issues: Seq<IssueView>,
}

/// What one check found: a one-line summary and the issues in the order in
/// which the check came upon them.
#[derive(Debug, Clone, PartialEq, Eq)]
pub struct DiagnosticReport {
    pub summary: String,
    pub issues: Vec<DiagnosticIssue>,
}

impl View for DiagnosticReport {
    type V = ReportView;

    open spec fn view(&self) -> ReportView {
        ReportView { summary: self.summary@, issues: self.issues.deep_view() }
    }
}

impl DeepView for DiagnosticReport {
    type V = ReportView;

    open spec fn deep_view(&self) -> ReportView {
        self@
    }
}

} // verus!
