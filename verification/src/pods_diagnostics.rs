//! The pods check: phase, conditions, container statuses, placement and start
//! time of every pod of a namespace.

use crate::cluster::{
    ContainerState, ContainerStateView, ContainerStatus, ContainerStatusView, Pod, PodCondition,
    PodConditionView, PodStatusView, PodView,
};
use crate::diagnostic::{
    namespaced, CheckKind, Diagnostic, DiagnosticError, ListRequest, ListRequestView,
};
use crate::diagnostic_report::{
    all_named, plain_issue, push_issue, DiagnosticIssue, DiagnosticReport, IssueView, ReportView,
    Severity,
};
use crate::sequences::{
    lemma_concat_all, lemma_filter_everything, lemma_filter_nothing, lemma_flat_map_agree,
    lemma_flat_map_all, lemma_flat_map_filter, lemma_flat_map_kept, lemma_flat_map_same_len,
};
use crate::text::{
    append_decimal, append_signed_decimal, decimal, or_default, signed_decimal, text_eq, text_or,
};
use crate::time::Timestamp;
use vstd::prelude::*;
use vstd::string::*;

verus! {

/// The largest number of pods that the check asks for.
pub const POD_LIMIT: u32 = 100;

/// The name under which a pod's issues are filed: its own, or the empty name
/// where it has none.
pub open spec fn pod_name(pod: PodView) -> Seq<char> {
    or_default(pod.name, Seq::empty())
}

/// A pod whose phase is known and is not `Running` gets one warning.
pub open spec fn phase_issues(name: Seq<char>, phase: Option<Seq<char>>) -> Seq<IssueView> {
    match phase {
        Some(phase) => if phase != "Running"@ {
            seq![plain_issue(name, "Phase: "@ + phase, Severity::Warning)]
        } else {
            seq![]
        },
        None => seq![],
    }
}

/// A condition whose status is `False` gets one error.
pub open spec fn condition_issues(name: Seq<char>, condition: PodConditionView) -> Seq<IssueView> {
    if condition.status == "False"@ {
        seq![
            plain_issue(
                name,
                condition.type_ + ": "@ + or_default(condition.message, Seq::empty()),
                Severity::Error,
            ),
        ]
    } else {
        seq![]
    }
}

/// The issues of a pod's conditions, condition by condition.
pub open spec fn conditions_issues(
    name: Seq<char>,
    conditions: Option<Seq<PodConditionView>>,
) -> Seq<IssueView> {
    match conditions {
        Some(conditions) => conditions.flat_map(
            |condition: PodConditionView| condition_issues(name, condition),
        ),
        None => seq![],
    }
}

/// The error that reports `restarts` restarts of a container.
pub open spec fn restart_issue(name: Seq<char>, restarts: i32) -> IssueView {
    plain_issue(name, "Restart Count: "@ + decimal(restarts as nat), Severity::Error)
}

/// A container that has restarted gets one error.
pub open spec fn restart_issues(name: Seq<char>, container: ContainerStatusView) -> Seq<IssueView> {
    if container.restart_count > 0 {
        seq![restart_issue(name, container.restart_count)]
    } else {
        seq![]
    }
}

/// A container that waits gets one error, and one that has terminated gets
/// one; where a state holds both, the waiting comes first.
pub open spec fn state_issues(name: Seq<char>, state: Option<ContainerStateView>) -> Seq<IssueView> {
    match state {
        Some(state) => {
            let waiting = match state.waiting {
                Some(waiting) => seq![
                    plain_issue(
                        name,
                        "Waiting: "@ + or_default(waiting.reason, "<no reason>"@) + " "@
                            + or_default(waiting.message, "<no message>"@),
                        Severity::Error,
                    ),
                ],
                None => seq![],
            };
            let terminated = match state.terminated {
                Some(terminated) => seq![
                    plain_issue(
                        name,
                        "Terminated: "@ + or_default(terminated.reason, "<no reason>"@)
                            + " (exit "@ + signed_decimal(terminated.exit_code as int) + ")"@,
                        Severity::Error,
                    ),
                ],
                None => seq![],
            };
            waiting + terminated
        },
        None => seq![],
    }
}

/// The issues of one container: its restarts, then its state.
pub open spec fn container_issues(name: Seq<char>, container: ContainerStatusView) -> Seq<
    IssueView,
> {
    restart_issues(name, container) + state_issues(name, container.state)
}

/// The note that says which host a pod is placed on. Its message begins as
/// that of a terminated container does; the two differ in severity.
pub open spec fn placement_issue(name: Seq<char>, host_ip: Option<Seq<char>>) -> IssueView {
    plain_issue(name, "Terminated: "@ + or_default(host_ip, "<no node>"@), Severity::Info)
}

/// The container statuses that a status lists; none where the list is absent.
pub open spec fn listed_containers(containers: Option<Seq<ContainerStatusView>>) -> Seq<
    ContainerStatusView,
> {
    match containers {
        Some(containers) => containers,
        None => Seq::empty(),
    }
}

/// The issues of a pod's container statuses, container by container, and
/// after them the note on the pod's placement. A pod that has no container
/// status, the list being absent or empty, gets neither.
pub open spec fn containers_issues(
    name: Seq<char>,
    containers: Option<Seq<ContainerStatusView>>,
    host_ip: Option<Seq<char>>,
) -> Seq<IssueView> {
    let containers = listed_containers(containers);
    if containers.len() > 0 {
        containers.flat_map(
            |container: ContainerStatusView| container_issues(name, container),
        ).push(placement_issue(name, host_ip))
    } else {
        seq![]
    }
}

/// The note on a pod's start, given the text that the start time renders to:
/// one note that holds the text, or none where there is no text.
pub open spec fn start_note(name: Seq<char>, rendered: Option<Seq<char>>) -> Seq<IssueView> {
    match rendered {
        Some(text) => seq![plain_issue(name, "Started at: "@ + text, Severity::Info)],
        None => seq![],
    }
}

/// A pod whose start time is known and can be rendered gets one note.
pub open spec fn start_issues(name: Seq<char>, start_time: Option<Timestamp>) -> Seq<IssueView> {
    match start_time {
        Some(start) => start_note(name, start.rfc3339()),
        None => seq![],
    }
}

/// The issues of a pod with the given status, in the order in which the
/// check raises them.
pub open spec fn status_issues(name: Seq<char>, status: PodStatusView) -> Seq<IssueView> {
    phase_issues(name, status.phase) + conditions_issues(name, status.conditions)
        + containers_issues(name, status.container_statuses, status.host_ip) + start_issues(
        name,
        status.start_time,
    )
}

/// The issues of one pod. A pod without a status has none.
pub open spec fn pod_issues(pod: PodView) -> Seq<IssueView> {
    match pod.status {
        Some(status) => status_issues(pod_name(pod), status),
        None => seq![],
    }
}

/// The issues of the listed pods, pod by pod in the order of the list.
pub open spec fn pods_issues(pods: Seq<PodView>) -> Seq<IssueView> {
    pods.flat_map(|pod: PodView| pod_issues(pod))
}

/// The report on the listed pods.
pub open spec fn pods_report(pods: Seq<PodView>) -> ReportView {
    ReportView { summary: decimal(pods.len()) + " pods analyzed"@, issues: pods_issues(pods) }
}

/// The check on the pods of a namespace.
#[derive(Debug, Clone, Copy, Default, PartialEq, Eq)]
pub struct PodsDiagnostic;

fn check_phase(name: &str, phase: &Option<String>, issues: &mut Vec<DiagnosticIssue>)
    ensures
        final(issues).deep_view() == old(issues).deep_view() + phase_issues(
            name@,
            phase.deep_view(),
        ),
{
    if let Some(phase) = phase {
        if !text_eq(phase.as_str(), "Running") {
            let mut message = String::from_str("Phase: ");
            message.append(phase.as_str());
            push_issue(issues, name, message, Severity::Warning);
        }
    }
    assert(issues.deep_view() =~= old(issues).deep_view() + phase_issues(name@, phase.deep_view()));
}

fn check_conditions(
    name: &str,
    conditions: &Option<Vec<PodCondition>>,
    issues: &mut Vec<DiagnosticIssue>,
)
    ensures
        final(issues).deep_view() == old(issues).deep_view() + conditions_issues(
            name@,
            conditions.deep_view(),
        ),
{
    let ghost before = issues.deep_view();
    if let Some(conditions) = conditions {
        let ghost all = conditions.deep_view();
        let ghost each = |condition: PodConditionView| condition_issues(name@, condition);
        assert(all.take(0).flat_map(each) =~= Seq::<IssueView>::empty());
        for i in 0..conditions.len()
            invariant
                all == conditions.deep_view(),
                each == |condition: PodConditionView| condition_issues(name@, condition),
                issues.deep_view() == before + all.take(i as int).flat_map(each),
        {
            let condition = &conditions[i];
            if text_eq(condition.status.as_str(), "False") {
                let mut message = condition.type_.clone();
                message.append(": ");
                message.append(text_or(&condition.message, ""));
                proof {
                    reveal_strlit("");
                    assert(""@ =~= Seq::<char>::empty());
                }
                push_issue(issues, name, message, Severity::Error);
            }
            proof {
                all.lemma_flat_map_take_append(each, i as int);
                assert(issues.deep_view() =~= before + all.take(i + 1).flat_map(each));
            }
        }
        assert(all.take(conditions.len() as int) =~= all);
    } else {
        assert(issues.deep_view() =~= before + Seq::<IssueView>::empty());
    }
}

fn check_state(name: &str, state: &Option<ContainerState>, issues: &mut Vec<DiagnosticIssue>)
    ensures
        final(issues).deep_view() == old(issues).deep_view() + state_issues(
            name@,
            state.deep_view(),
        ),
{
    if let Some(state) = state {
        if let Some(waiting) = &state.waiting {
            let mut message = String::from_str("Waiting: ");
            message.append(text_or(&waiting.reason, "<no reason>"));
            message.append(" ");
            message.append(text_or(&waiting.message, "<no message>"));
            push_issue(issues, name, message, Severity::Error);
        }
        if let Some(terminated) = &state.terminated {
            let mut message = String::from_str("Terminated: ");
            message.append(text_or(&terminated.reason, "<no reason>"));
            message.append(" (exit ");
            append_signed_decimal(&mut message, terminated.exit_code as i64);
            message.append(")");
            push_issue(issues, name, message, Severity::Error);
        }
    }
    assert(issues.deep_view() =~= old(issues).deep_view() + state_issues(name@, state.deep_view()));
}

fn check_container(name: &str, container: &ContainerStatus, issues: &mut Vec<DiagnosticIssue>)
    ensures
        final(issues).deep_view() == old(issues).deep_view() + container_issues(
            name@,
            container.deep_view(),
        ),
{
    if container.restart_count > 0 {
        let mut message = String::from_str("Restart Count: ");
        append_decimal(&mut message, container.restart_count as u64);
        push_issue(issues, name, message, Severity::Error);
    }
    check_state(name, &container.state, issues);
    assert(issues.deep_view() =~= old(issues).deep_view() + container_issues(
        name@,
        container.deep_view(),
    ));
}

fn check_containers(
    name: &str,
    containers: &Option<Vec<ContainerStatus>>,
    host_ip: &Option<String>,
    issues: &mut Vec<DiagnosticIssue>,
)
    ensures
        final(issues).deep_view() == old(issues).deep_view() + containers_issues(
            name@,
            containers.deep_view(),
            host_ip.deep_view(),
        ),
{
    let ghost before = issues.deep_view();
    if let Some(containers) = containers {
        let ghost all = containers.deep_view();
        let ghost each = |container: ContainerStatusView| container_issues(name@, container);
        assert(all.take(0).flat_map(each) =~= Seq::<IssueView>::empty());
        for i in 0..containers.len()
            invariant
                all == containers.deep_view(),
                each == |container: ContainerStatusView| container_issues(name@, container),
                issues.deep_view() == before + all.take(i as int).flat_map(each),
        {
            check_container(name, &containers[i], issues);
            proof {
                all.lemma_flat_map_take_append(each, i as int);
                assert(issues.deep_view() =~= before + all.take(i + 1).flat_map(each));
            }
        }
        assert(all.take(containers.len() as int) =~= all);
        if containers.len() > 0 {
            let mut message = String::from_str("Terminated: ");
            message.append(text_or(host_ip, "<no node>"));
            push_issue(issues, name, message, Severity::Info);
        }
        assert(issues.deep_view() =~= before + containers_issues(
            name@,
            Some(all),
            host_ip.deep_view(),
        ));
    } else {
        assert(issues.deep_view() =~= before + Seq::<IssueView>::empty());
    }
}

/// Appends the note on a pod's start to `issues`, given the text that the
/// start time renders to; appends nothing where there is no text.
pub fn push_start_note(name: &str, rendered: &Option<String>, issues: &mut Vec<DiagnosticIssue>)
    ensures
        final(issues).deep_view() == old(issues).deep_view() + start_note(
            name@,
            rendered.deep_view(),
        ),
{
    if let Some(text) = rendered {
        let mut message = String::from_str("Started at: ");
        message.append(text.as_str());
        push_issue(issues, name, message, Severity::Info);
    }
    assert(issues.deep_view() =~= old(issues).deep_view() + start_note(
        name@,
        rendered.deep_view(),
    ));
}

fn check_start(name: &str, start_time: &Option<Timestamp>, issues: &mut Vec<DiagnosticIssue>)
    ensures
        final(issues).deep_view() == old(issues).deep_view() + start_issues(
            name@,
            start_time.deep_view(),
        ),
{
    if let Some(start) = start_time {
        let rendered = start.to_rfc3339();
        push_start_note(name, &rendered, issues);
    } else {
        assert(issues.deep_view() =~= old(issues).deep_view() + Seq::<IssueView>::empty());
    }
}

impl PodsDiagnostic {
    /// Appends the issues of one pod to `issues`.
    pub fn check_pod(pod: &Pod, issues: &mut Vec<DiagnosticIssue>)
        ensures
            final(issues).deep_view() == old(issues).deep_view() + pod_issues(pod.deep_view()),
    {
        if let Some(status) = &pod.status {
            proof {
                reveal_strlit("");
                assert(""@ =~= Seq::<char>::empty());
            }
            let name = text_or(&pod.name, "");
            check_phase(name, &status.phase, issues);
            check_conditions(name, &status.conditions, issues);
            check_containers(name, &status.container_statuses, &status.host_ip, issues);
            check_start(name, &status.start_time, issues);
        }
        assert(issues.deep_view() =~= old(issues).deep_view() + pod_issues(pod.deep_view()));
    }

    /// The report on the listed pods: how many there are, and the issues of
    /// each in the order of the list.
    pub fn evaluate(pods: &Vec<Pod>) -> (report: DiagnosticReport)
        ensures
            report@ == pods_report(pods.deep_view()),
    {
        let mut issues: Vec<DiagnosticIssue> = Vec::new();
        let ghost all = pods.deep_view();
        let ghost each = |pod: PodView| pod_issues(pod);
        assert(all.take(0).flat_map(each) =~= Seq::<IssueView>::empty());
        assert(issues.deep_view() =~= Seq::<IssueView>::empty());
        for i in 0..pods.len()
            invariant
                all == pods.deep_view(),
                each == |pod: PodView| pod_issues(pod),
                issues.deep_view() == all.take(i as int).flat_map(each),
        {
            Self::check_pod(&pods[i], &mut issues);
            proof {
                all.lemma_flat_map_take_append(each, i as int);
            }
        }
        assert(all.take(pods.len() as int) =~= all);
        let mut summary = String::new();
        append_decimal(&mut summary, pods.len() as u64);
        summary.append(" pods analyzed");
        assert(summary@ =~= decimal(all.len()) + " pods analyzed"@);
        DiagnosticReport { summary, issues }
    }
}

impl Diagnostic for PodsDiagnostic {
    type Item = Pod;

    open spec fn kind_spec(&self) -> CheckKind {
        CheckKind::Pods
    }

    open spec fn request_spec(&self, namespace: Seq<char>) -> ListRequestView {
        namespaced(namespace, Some(POD_LIMIT))
    }

    open spec fn report_spec(&self, items: Seq<PodView>) -> ReportView {
        pods_report(items)
    }

    fn kind(&self) -> (kind: CheckKind) {
        CheckKind::Pods
    }

    fn request(&self, namespace: &str) -> (request: ListRequest) {
        ListRequest { namespace: Some(String::from_str(namespace)), limit: Some(POD_LIMIT) }
    }

    fn run(&self, listing: Result<Vec<Pod>, String>) -> (outcome: Result<
        DiagnosticReport,
        DiagnosticError,
    >) {
        match listing {
            Ok(pods) => Ok(Self::evaluate(&pods)),
            Err(cause) => Err(DiagnosticError { check: CheckKind::Pods, cause }),
        }
    }
}

/// Whether an issue is a warning.
pub open spec fn is_warning(issue: IssueView) -> bool {
    issue.severity == Severity::Warning
}

/// Whether a pod's phase is known and is not `Running`.
pub open spec fn has_abnormal_phase(pod: PodView) -> bool {
    match pod.status {
        Some(status) => match status.phase {
            Some(phase) => phase != "Running"@,
            None => false,
        },
        None => false,
    }
}

/// The warning that names the phase of a pod whose phase is known.
pub open spec fn phase_warning(pod: PodView) -> IssueView
    recommends
        has_abnormal_phase(pod),
{
    plain_issue(pod_name(pod), "Phase: "@ + pod.status.unwrap().phase.unwrap(), Severity::Warning)
}

proof fn lemma_phase_warnings(name: Seq<char>, phase: Option<Seq<char>>)
    ensures
        phase_issues(name, phase).filter(|issue: IssueView| is_warning(issue)) == phase_issues(
            name,
            phase,
        ),
{
    lemma_filter_everything(phase_issues(name, phase), |issue: IssueView| is_warning(issue));
}

proof fn lemma_conditions_warnings(name: Seq<char>, conditions: Option<Seq<PodConditionView>>)
    ensures
        conditions_issues(name, conditions).filter(|issue: IssueView| is_warning(issue))
            == Seq::<IssueView>::empty(),
{
    if let Some(conditions) = conditions {
        lemma_flat_map_all(
            conditions,
            |condition: PodConditionView| condition_issues(name, condition),
            |issue: IssueView| !is_warning(issue),
        );
    }
    lemma_filter_nothing(
        conditions_issues(name, conditions),
        |issue: IssueView| is_warning(issue),
    );
}

proof fn lemma_containers_warnings(
    name: Seq<char>,
    containers: Option<Seq<ContainerStatusView>>,
    host_ip: Option<Seq<char>>,
)
    ensures
        containers_issues(name, containers, host_ip).filter(|issue: IssueView| is_warning(issue))
            == Seq::<IssueView>::empty(),
{
    if let Some(containers) = containers {
        lemma_flat_map_all(
            containers,
            |container: ContainerStatusView| container_issues(name, container),
            |issue: IssueView| !is_warning(issue),
        );
    }
    lemma_filter_nothing(
        containers_issues(name, containers, host_ip),
        |issue: IssueView| is_warning(issue),
    );
}

proof fn lemma_start_warnings(name: Seq<char>, start_time: Option<Timestamp>)
    ensures
        start_issues(name, start_time).filter(|issue: IssueView| is_warning(issue))
            == Seq::<IssueView>::empty(),
{
    lemma_filter_nothing(start_issues(name, start_time), |issue: IssueView| is_warning(issue));
}

proof fn lemma_status_warnings(name: Seq<char>, status: PodStatusView)
    ensures
        status_issues(name, status).filter(|issue: IssueView| is_warning(issue)) == phase_issues(
            name,
            status.phase,
        ),
{
    let pick = |issue: IssueView| is_warning(issue);
    let of_phase = phase_issues(name, status.phase);
    let of_conditions = conditions_issues(name, status.conditions);
    let of_containers = containers_issues(name, status.container_statuses, status.host_ip);
    let of_start = start_issues(name, status.start_time);
    lemma_phase_warnings(name, status.phase);
    lemma_conditions_warnings(name, status.conditions);
    lemma_containers_warnings(name, status.container_statuses, status.host_ip);
    lemma_start_warnings(name, status.start_time);
    Seq::filter_distributes_over_add(of_phase, of_conditions, pick);
    Seq::filter_distributes_over_add(of_phase + of_conditions, of_containers, pick);
    Seq::filter_distributes_over_add(of_phase + of_conditions + of_containers, of_start, pick);
    assert(of_phase + Seq::<IssueView>::empty() =~= of_phase);
}

/// A pod whose phase is known and is not `Running` gets exactly one warning,
/// and that warning names the phase. Any other pod gets no warning.
pub proof fn lemma_pod_warnings(pod: PodView)
    ensures
        pod_issues(pod).filter(|issue: IssueView| is_warning(issue)) == if has_abnormal_phase(pod) {
            seq![phase_warning(pod)]
        } else {
            Seq::<IssueView>::empty()
        },
{
    match pod.status {
        Some(status) => {
            lemma_status_warnings(pod_name(pod), status);
        },
        None => {
            lemma_filter_nothing(pod_issues(pod), |issue: IssueView| is_warning(issue));
        },
    }
}

/// The warnings of a report on pods are the phase warnings of the pods whose
/// phase is known and is not `Running`: one for each such pod, in the order of
/// the list, and no others.
pub proof fn lemma_report_warnings(pods: Seq<PodView>)
    ensures
        pods_issues(pods).filter(|issue: IssueView| is_warning(issue)) == pods.filter(
            |pod: PodView| has_abnormal_phase(pod),
        ).map_values(|pod: PodView| phase_warning(pod)),
{
    let pick = |issue: IssueView| is_warning(issue);
    let each = |pod: PodView| pod_issues(pod);
    let picked = |pod: PodView| each(pod).filter(pick);
    lemma_flat_map_filter(pods, each, pick);
    assert forall|i: int| 0 <= i < pods.len() implies #[trigger] picked(pods[i]) == if has_abnormal_phase(
        pods[i],
    ) {
        seq![phase_warning(pods[i])]
    } else {
        Seq::<IssueView>::empty()
    } by {
        lemma_pod_warnings(pods[i]);
    }
    lemma_flat_map_kept(
        pods,
        picked,
        |pod: PodView| has_abnormal_phase(pod),
        |pod: PodView| phase_warning(pod),
    );
}

/// Whether an issue reports the restarts of a container: an error whose
/// message begins with `Restart Count: `.
pub open spec fn is_restart_issue(issue: IssueView) -> bool {
    issue.severity == Severity::Error && "Restart Count: "@.is_prefix_of(issue.message)
}

/// Whether a container has restarted at least once.
pub open spec fn has_restarted(container: ContainerStatusView) -> bool {
    container.restart_count > 0
}

/// The container statuses of a pod; none where the pod lists none.
pub open spec fn pod_containers(pod: PodView) -> Seq<ContainerStatusView> {
    match pod.status {
        Some(status) => listed_containers(status.container_statuses),
        None => Seq::empty(),
    }
}

/// The reports of restarts that a pod gets: one for each of its containers
/// that has restarted, in the order of the containers.
pub open spec fn pod_restart_issues(pod: PodView) -> Seq<IssueView> {
    pod_containers(pod).filter(|container: ContainerStatusView| has_restarted(container)).map_values(
        |container: ContainerStatusView| restart_issue(pod_name(pod), container.restart_count),
    )
}

/// Whether no issue that a pod gets for its conditions reads like a report of
/// restarts.
pub open spec fn conditions_read_plain(pod: PodView) -> bool {
    match pod.status {
        Some(status) => forall|i: int|
            0 <= i < conditions_issues(pod_name(pod), status.conditions).len()
                ==> !is_restart_issue(
                #[trigger] conditions_issues(pod_name(pod), status.conditions)[i],
            ),
        None => true,
    }
}

proof fn lemma_restart_issue_is_one(name: Seq<char>, restarts: i32)
    ensures
        is_restart_issue(restart_issue(name, restarts)),
{
    let head = "Restart Count: "@;
    let message = head + decimal(restarts as nat);
    assert(message.subrange(0, head.len() as int) =~= head);
}

proof fn lemma_state_issues_are_none(name: Seq<char>, state: Option<ContainerStateView>)
    ensures
        state_issues(name, state).filter(|issue: IssueView| is_restart_issue(issue))
            == Seq::<IssueView>::empty(),
{
    reveal_strlit("Restart Count: ");
    reveal_strlit("Waiting: ");
    reveal_strlit("Terminated: ");
    let head = "Restart Count: "@;
    let issues = state_issues(name, state);
    assert forall|i: int| 0 <= i < issues.len() implies !is_restart_issue(#[trigger] issues[i]) by {
        let message = issues[i].message;
        assert(head[0] == 'R');
        assert(message[0] == 'W' || message[0] == 'T');
        if head.is_prefix_of(message) {
            assert(message.subrange(0, head.len() as int)[0] == message[0]);
        }
    }
    lemma_filter_nothing(issues, |issue: IssueView| is_restart_issue(issue));
}

/// Of the issues that one container gets, those that report restarts are the
/// one that it gets for having restarted, or none.
pub proof fn lemma_container_restart_issues(name: Seq<char>, container: ContainerStatusView)
    ensures
        container_issues(name, container).filter(|issue: IssueView| is_restart_issue(issue))
            == restart_issues(name, container),
{
    let pick = |issue: IssueView| is_restart_issue(issue);
    let of_restarts = restart_issues(name, container);
    let of_state = state_issues(name, container.state);
    lemma_state_issues_are_none(name, container.state);
    lemma_restart_issue_is_one(name, container.restart_count);
    lemma_filter_everything(of_restarts, pick);
    Seq::filter_distributes_over_add(of_restarts, of_state, pick);
    assert(of_restarts + Seq::<IssueView>::empty() =~= of_restarts);
}

/// Of the issues that a pod gets for its container statuses, those that
/// report restarts are one for each container that has restarted, in the
/// order of the containers; so there are never more of them than containers.
pub proof fn lemma_containers_restart_issues(
    name: Seq<char>,
    containers: Seq<ContainerStatusView>,
    host_ip: Option<Seq<char>>,
)
    ensures
        containers_issues(name, Some(containers), host_ip).filter(
            |issue: IssueView| is_restart_issue(issue),
        ) == containers.filter(|container: ContainerStatusView| has_restarted(container)).map_values(
            |container: ContainerStatusView| restart_issue(name, container.restart_count),
        ),
        containers_issues(name, Some(containers), host_ip).filter(
            |issue: IssueView| is_restart_issue(issue),
        ).len() <= containers.len(),
{
    let pick = |issue: IssueView| is_restart_issue(issue);
    let each = |container: ContainerStatusView| container_issues(name, container);
    let picked = |container: ContainerStatusView| each(container).filter(pick);
    let keep = |container: ContainerStatusView| has_restarted(container);
    let item = |container: ContainerStatusView| restart_issue(name, container.restart_count);
    let placement = placement_issue(name, host_ip);
    lemma_flat_map_filter(containers, each, pick);
    assert forall|i: int| 0 <= i < containers.len() implies #[trigger] picked(containers[i]) == if keep(
        containers[i],
    ) {
        seq![item(containers[i])]
    } else {
        Seq::<IssueView>::empty()
    } by {
        lemma_container_restart_issues(name, containers[i]);
    }
    lemma_flat_map_kept(containers, picked, keep, item);
    containers.flat_map(each).lemma_filter_push(placement, pick);
    containers.lemma_filter_len(keep);
}

proof fn lemma_status_restart_issues(name: Seq<char>, status: PodStatusView)
    requires
        forall|i: int|
            0 <= i < conditions_issues(name, status.conditions).len() ==> !is_restart_issue(
                #[trigger] conditions_issues(name, status.conditions)[i],
            ),
    ensures
        status_issues(name, status).filter(|issue: IssueView| is_restart_issue(issue))
            == containers_issues(name, status.container_statuses, status.host_ip).filter(
            |issue: IssueView| is_restart_issue(issue),
        ),
{
    let pick = |issue: IssueView| is_restart_issue(issue);
    let of_phase = phase_issues(name, status.phase);
    let of_conditions = conditions_issues(name, status.conditions);
    let of_containers = containers_issues(name, status.container_statuses, status.host_ip);
    let of_start = start_issues(name, status.start_time);
    lemma_filter_nothing(of_phase, pick);
    lemma_filter_nothing(of_conditions, pick);
    lemma_filter_nothing(of_start, pick);
    Seq::filter_distributes_over_add(of_phase, of_conditions, pick);
    Seq::filter_distributes_over_add(of_phase + of_conditions, of_containers, pick);
    Seq::filter_distributes_over_add(of_phase + of_conditions + of_containers, of_start, pick);
    assert(Seq::<IssueView>::empty() + Seq::<IssueView>::empty() + of_containers.filter(pick)
        + Seq::<IssueView>::empty() =~= of_containers.filter(pick));
}

/// Of the issues that a pod gets, those that report restarts are one for each
/// of its containers that has restarted, in the order of the containers; so
/// there are never more of them than the pod has containers. This is said of
/// a pod none of whose conditions reads like a report of restarts.
pub proof fn lemma_pod_restart_issues(pod: PodView)
    requires
        conditions_read_plain(pod),
    ensures
        pod_issues(pod).filter(|issue: IssueView| is_restart_issue(issue)) == pod_restart_issues(
            pod,
        ),
        pod_restart_issues(pod).len() <= pod_containers(pod).len(),
{
    let pick = |issue: IssueView| is_restart_issue(issue);
    let keep = |container: ContainerStatusView| has_restarted(container);
    pod_containers(pod).lemma_filter_len(keep);
    match pod.status {
        Some(status) => {
            lemma_status_restart_issues(pod_name(pod), status);
            match status.container_statuses {
                Some(containers) => {
                    lemma_containers_restart_issues(pod_name(pod), containers, status.host_ip);
                },
                None => {
                    lemma_filter_nothing(Seq::<IssueView>::empty(), pick);
                    lemma_filter_nothing(Seq::<ContainerStatusView>::empty(), keep);
                    assert(pod_restart_issues(pod) =~= Seq::<IssueView>::empty());
                },
            }
        },
        None => {
            lemma_filter_nothing(Seq::<IssueView>::empty(), pick);
            lemma_filter_nothing(Seq::<ContainerStatusView>::empty(), keep);
            assert(pod_restart_issues(pod) =~= Seq::<IssueView>::empty());
        },
    }
}

/// The reports of restarts in a report on pods are those of the pods, pod by
/// pod: one for each container that has restarted, and so never more than
/// there are container statuses in the list. This is said of pods none of
/// whose conditions reads like a report of restarts.
pub proof fn lemma_report_restart_issues(pods: Seq<PodView>)
    requires
        forall|i: int| 0 <= i < pods.len() ==> conditions_read_plain(#[trigger] pods[i]),
    ensures
        pods_issues(pods).filter(|issue: IssueView| is_restart_issue(issue)) == pods.flat_map(
            |pod: PodView| pod_restart_issues(pod),
        ),
        pods_issues(pods).filter(|issue: IssueView| is_restart_issue(issue)).len()
            == pods.flat_map(|pod: PodView| pod_containers(pod)).filter(
            |container: ContainerStatusView| has_restarted(container),
        ).len(),
        pods_issues(pods).filter(|issue: IssueView| is_restart_issue(issue)).len() <= pods.flat_map(
            |pod: PodView| pod_containers(pod),
        ).len(),
{
    let pick = |issue: IssueView| is_restart_issue(issue);
    let keep = |container: ContainerStatusView| has_restarted(container);
    let each = |pod: PodView| pod_issues(pod);
    let picked = |pod: PodView| each(pod).filter(pick);
    let owed = |pod: PodView| pod_restart_issues(pod);
    let held = |pod: PodView| pod_containers(pod);
    let kept = |pod: PodView| held(pod).filter(keep);
    lemma_flat_map_filter(pods, each, pick);
    assert forall|i: int| 0 <= i < pods.len() implies picked(pods[i]) == owed(pods[i]) by {
        lemma_pod_restart_issues(pods[i]);
    }
    lemma_flat_map_agree(pods, picked, owed);
    lemma_flat_map_same_len(pods, owed, kept);
    lemma_flat_map_filter(pods, held, keep);
    pods.flat_map(held).lemma_filter_len(keep);
}

/// Every issue of a pod is filed under the pod's name; so the issues of a pod
/// whose name is not empty all name the object that they are about.
pub proof fn lemma_pod_issues_carry_name(pod: PodView)
    ensures
        forall|i: int|
            0 <= i < pod_issues(pod).len() ==> (#[trigger] pod_issues(pod)[i]).resource == pod_name(
                pod,
            ),
        pod_name(pod).len() > 0 ==> all_named(pod_issues(pod)),
{
    let name = pod_name(pod);
    let carries = |issue: IssueView| issue.resource == name;
    if let Some(status) = pod.status {
        let of_phase = phase_issues(name, status.phase);
        let of_conditions = conditions_issues(name, status.conditions);
        let of_containers = containers_issues(name, status.container_statuses, status.host_ip);
        let of_start = start_issues(name, status.start_time);
        if let Some(conditions) = status.conditions {
            lemma_flat_map_all(
                conditions,
                |condition: PodConditionView| condition_issues(name, condition),
                carries,
            );
        }
        if let Some(containers) = status.container_statuses {
            lemma_flat_map_all(
                containers,
                |container: ContainerStatusView| container_issues(name, container),
                carries,
            );
        }
        assert forall|i: int| 0 <= i < of_conditions.len() implies carries(
            #[trigger] of_conditions[i],
        ) by {}
        assert forall|i: int| 0 <= i < of_containers.len() implies carries(
            #[trigger] of_containers[i],
        ) by {}
        assert forall|i: int| 0 <= i < of_phase.len() implies carries(#[trigger] of_phase[i]) by {}
        assert forall|i: int| 0 <= i < of_start.len() implies carries(#[trigger] of_start[i]) by {}
        lemma_concat_all(of_phase, of_conditions, carries);
        lemma_concat_all(of_phase + of_conditions, of_containers, carries);
        lemma_concat_all(of_phase + of_conditions + of_containers, of_start, carries);
    }
}

} // verus!
