//! The nodes check: every node of the cluster that reports itself not ready.

use crate::cluster::{Node, NodeCondition, NodeConditionView, NodeView};
use crate::diagnostic::{
    cluster_wide, CheckKind, Diagnostic, DiagnosticError, ListRequest, ListRequestView,
};
use crate::diagnostic_report::{
    all_named, plain_issue, push_issue, DiagnosticIssue, DiagnosticReport, IssueView, ReportView,
    Severity,
};
use crate::sequences::lemma_flat_map_all;
use crate::text::{append_decimal, decimal, or_default, text_eq, text_or};
use vstd::prelude::*;
use vstd::string::*;

verus! {

/// Whether a condition says that its node is not ready.
pub open spec fn is_not_ready(condition: NodeConditionView) -> bool {
    condition.type_ == "Ready"@ && condition.status == "False"@
}

/// A condition that says that its node is not ready gets one note, filed
/// under `Node`, whose message is the condition's reason.
pub open spec fn node_condition_issues(condition: NodeConditionView) -> Seq<IssueView> {
    if is_not_ready(condition) {
        seq![plain_issue("Node"@, or_default(condition.reason, Seq::empty()), Severity::Info)]
    } else {
        seq![]
    }
}

/// The issues of one node, condition by condition. A node without a status,
/// or whose status lists no conditions, has none.
pub open spec fn node_issues(node: NodeView) -> Seq<IssueView> {
    match node.status {
        Some(status) => match status.conditions {
            Some(conditions) => conditions.flat_map(
                |condition: NodeConditionView| node_condition_issues(condition),
            ),
            None => seq![],
        },
        None => seq![],
    }
}

/// The issues of the listed nodes, node by node, from the last of the list to
/// the first.
pub open spec fn nodes_issues(nodes: Seq<NodeView>) -> Seq<IssueView> {
    nodes.reverse().flat_map(|node: NodeView| node_issues(node))
}

/// The report on the listed nodes.
pub open spec fn nodes_report(nodes: Seq<NodeView>) -> ReportView {
    ReportView { summary: decimal(nodes.len()) + " nodes analyzed"@, issues: nodes_issues(nodes) }
}

fn check_conditions(conditions: &Vec<NodeCondition>, issues: &mut Vec<DiagnosticIssue>)
    ensures
        final(issues).deep_view() == old(issues).deep_view() + conditions.deep_view().flat_map(
            |condition: NodeConditionView| node_condition_issues(condition),
        ),
{
    let ghost before = issues.deep_view();
    let ghost all = conditions.deep_view();
    let ghost each = |condition: NodeConditionView| node_condition_issues(condition);
    assert(all.take(0).flat_map(each) =~= Seq::<IssueView>::empty());
    for i in 0..conditions.len()
        invariant
            all == conditions.deep_view(),
            each == |condition: NodeConditionView| node_condition_issues(condition),
            issues.deep_view() == before + all.take(i as int).flat_map(each),
    {
        let condition = &conditions[i];
        if text_eq(condition.type_.as_str(), "Ready") && text_eq(
            condition.status.as_str(),
            "False",
        ) {
            proof {
                reveal_strlit("");
                assert(""@ =~= Seq::<char>::empty());
            }
            let message = String::from_str(text_or(&condition.reason, ""));
            push_issue(issues, "Node", message, Severity::Info);
        }
        proof {
            all.lemma_flat_map_take_append(each, i as int);
            assert(issues.deep_view() =~= before + all.take(i + 1).flat_map(each));
        }
    }
    assert(all.take(conditions.len() as int) =~= all);
}

/// The check on the nodes of the cluster.
#[derive(Debug, Clone, Copy, Default, PartialEq, Eq)]
pub struct NodesDiagnostic;

impl NodesDiagnostic {
    /// Appends the issues of one node to `issues`.
    pub fn check_node(node: &Node, issues: &mut Vec<DiagnosticIssue>)
        ensures
            final(issues).deep_view() == old(issues).deep_view() + node_issues(node.deep_view()),
    {
        if let Some(status) = &node.status {
            if let Some(conditions) = &status.conditions {
                check_conditions(conditions, issues);
            }
        }
        assert(issues.deep_view() =~= old(issues).deep_view() + node_issues(node.deep_view()));
    }

    /// The report on the listed nodes: how many there are, and the issues of
    /// each, from the last node of the list to the first.
    pub fn evaluate(nodes: &Vec<Node>) -> (report: DiagnosticReport)
        ensures
            report@ == nodes_report(nodes.deep_view()),
    {
        let mut issues: Vec<DiagnosticIssue> = Vec::new();
        let ghost all = nodes.deep_view();
        let ghost turned = all.reverse();
        let ghost each = |node: NodeView| node_issues(node);
        let count = nodes.len();
        let mut left = count;
        assert(turned.take(0).flat_map(each) =~= Seq::<IssueView>::empty());
        assert(issues.deep_view() =~= Seq::<IssueView>::empty());
        while left > 0
            invariant
                all == nodes.deep_view(),
                turned == all.reverse(),
                each == |node: NodeView| node_issues(node),
                count == nodes.len(),
                left <= count,
                issues.deep_view() == turned.take(count - left).flat_map(each),
            decreases left,
        {
            left = left - 1;
            Self::check_node(&nodes[left], &mut issues);
            proof {
                turned.lemma_flat_map_take_append(each, count - left - 1);
            }
        }
        assert(turned.take(count as int) =~= turned);
        let mut summary = String::new();
        append_decimal(&mut summary, count as u64);
        summary.append(" nodes analyzed");
        DiagnosticReport { summary, issues }
    }
}

impl Diagnostic for NodesDiagnostic {
    type Item = Node;

    open spec fn kind_spec(&self) -> CheckKind {
        CheckKind::Nodes
    }

    open spec fn request_spec(&self, namespace: Seq<char>) -> ListRequestView {
        cluster_wide()
    }

    open spec fn report_spec(&self, items: Seq<NodeView>) -> ReportView {
        nodes_report(items)
    }

    fn kind(&self) -> (kind: CheckKind) {
        CheckKind::Nodes
    }

    fn request(&self, namespace: &str) -> (request: ListRequest) {
        ListRequest { namespace: None, limit: None }
    }

    fn run(&self, listing: Result<Vec<Node>, String>) -> (outcome: Result<
        DiagnosticReport,
        DiagnosticError,
    >) {
        match listing {
            Ok(nodes) => Ok(Self::evaluate(&nodes)),
            Err(cause) => Err(DiagnosticError { check: CheckKind::Nodes, cause }),
        }
    }
}

/// Every issue of a report on nodes is a note filed under `Node`.
pub proof fn lemma_nodes_issues_are_notes(nodes: Seq<NodeView>)
    ensures
        all_named(nodes_issues(nodes)),
        forall|i: int|
            0 <= i < nodes_issues(nodes).len() ==> {
                &&& (#[trigger] nodes_issues(nodes)[i]).resource == "Node"@
                &&& nodes_issues(nodes)[i].severity == Severity::Info
            },
{
    reveal_strlit("Node");
    let is_note = |issue: IssueView| issue.resource == "Node"@ && issue.severity == Severity::Info;
    let each = |node: NodeView| node_issues(node);
    let turned = nodes.reverse();
    assert forall|i: int, j: int| 0 <= i < turned.len() && 0 <= j < each(turned[i]).len() implies is_note(
        #[trigger] each(turned[i])[j],
    ) by {
        if let Some(status) = turned[i].status {
            if let Some(conditions) = status.conditions {
                lemma_flat_map_all(
                    conditions,
                    |condition: NodeConditionView| node_condition_issues(condition),
                    is_note,
                );
            }
        }
    }
    lemma_flat_map_all(turned, each, is_note);
}

} // verus!
