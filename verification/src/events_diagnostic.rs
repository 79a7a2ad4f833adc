//! The events check: one warning for every listed event, newest first.

use crate::cluster::{Event, EventView};
use crate::diagnostic::{
    namespaced, CheckKind, Diagnostic, DiagnosticError, ListRequest, ListRequestView,
};
use crate::diagnostic_report::{
    all_named, plain_issue, push_issue, DiagnosticIssue, DiagnosticReport, IssueView, ReportView,
    Severity,
};
use crate::text::{append_decimal, decimal, or_default, text_or};
use crate::time::Timestamp;
use vstd::prelude::*;
use vstd::string::*;

verus! {

/// The largest number of events that the check asks for.
pub const EVENT_LIMIT: u32 = 100;

/// The time of an event: the precise event time where there is one, else the
/// time at which the event was last recorded.
pub open spec fn event_timestamp(event: EventView) -> Option<Timestamp> {
    match event.event_time {
        Some(precise) => Some(precise),
        None => event.last_timestamp,
    }
}

/// The RFC 3339 text that the time of an event renders to; `None` for an event
/// that has no time, or whose time cannot be rendered.
pub open spec fn event_time_rendered(event: EventView) -> Option<Seq<char>> {
    match event_timestamp(event) {
        Some(time) => time.rfc3339(),
        None => None,
    }
}

/// The component that reported an event; `<unknown>` where none is named.
pub open spec fn event_source_text(event: EventView) -> Seq<char> {
    match event.source {
        Some(source) => or_default(source.component, "<unknown>"@),
        None => "<unknown>"@,
    }
}

/// The message of an event's issue, given the text that the event's time
/// renders to: reason in brackets, then time, message and source, a space
/// between each two. Where there is no text, `<no time>` stands for the time.
pub open spec fn event_message(event: EventView, rendered: Option<Seq<char>>) -> Seq<char> {
    "("@ + or_default(event.reason, "<no reason>"@) + ") "@ + or_default(rendered, "<no time>"@)
        + " "@ + or_default(event.message, "<no message>"@) + " "@ + event_source_text(event)
}

/// The warning that an event gets, given the text that the event's time
/// renders to. It is filed under the object that the event is about.
pub open spec fn event_issue_at(event: EventView, rendered: Option<Seq<char>>) -> IssueView {
    plain_issue(
        or_default(event.involved_object_name, "<unknown>"@),
        event_message(event, rendered),
        Severity::Warning,
    )
}

/// The warning that an event gets.
pub open spec fn event_issue(event: EventView) -> IssueView {
    event_issue_at(event, event_time_rendered(event))
}

/// The issues of the listed events: one for each, and the issue of the event
/// that was listed last comes first.
pub open spec fn events_issues(events: Seq<EventView>) -> Seq<IssueView> {
    Seq::new(events.len(), |i: int| event_issue(events[events.len() - 1 - i]))
}

/// The report on the listed events.
pub open spec fn events_report(events: Seq<EventView>) -> ReportView {
    ReportView {
        summary: decimal(events.len()) + " events analyzed"@,
        issues: events_issues(events),
    }
}

/// The time of an event: the precise event time where there is one, else the
/// time at which the event was last recorded.
pub fn extract_timestamp(event: &Event) -> (time: Option<Timestamp>)
    ensures
        time == event_timestamp(event.deep_view()),
{
    if let Some(precise) = event.event_time {
        Some(precise)
    } else if let Some(last) = event.last_timestamp {
        Some(last)
    } else {
        None
    }
}

fn render_time(event: &Event) -> (rendered: Option<String>)
    ensures
        rendered.deep_view() == event_time_rendered(event.deep_view()),
{
    match extract_timestamp(event) {
        Some(time) => time.to_rfc3339(),
        None => None,
    }
}

fn source_text(event: &Event) -> (text: &str)
    ensures
        text@ == event_source_text(event.deep_view()),
{
    match &event.source {
        Some(source) => text_or(&source.component, "<unknown>"),
        None => "<unknown>",
    }
}

/// The check on the events of a namespace.
#[derive(Debug, Clone, Copy, Default, PartialEq, Eq)]
pub struct EventsDiagnostic;

impl EventsDiagnostic {
    /// Appends the issue of one event to `issues`, given the text that the
    /// event's time renders to.
    pub fn push_event_issue(
        event: &Event,
        rendered: &Option<String>,
        issues: &mut Vec<DiagnosticIssue>,
    )
        ensures
            final(issues).deep_view() == old(issues).deep_view().push(
                event_issue_at(event.deep_view(), rendered.deep_view()),
            ),
    {
        let mut message = String::from_str("(");
        message.append(text_or(&event.reason, "<no reason>"));
        message.append(") ");
        message.append(text_or(rendered, "<no time>"));
        message.append(" ");
        message.append(text_or(&event.message, "<no message>"));
        message.append(" ");
        message.append(source_text(event));
        push_issue(
            issues,
            text_or(&event.involved_object_name, "<unknown>"),
            message,
            Severity::Warning,
        );
    }

    /// Appends the issue of one event to `issues`.
    pub fn check_event(event: &Event, issues: &mut Vec<DiagnosticIssue>)
        ensures
            final(issues).deep_view() == old(issues).deep_view().push(
                event_issue(event.deep_view()),
            ),
    {
        let rendered = render_time(event);
        Self::push_event_issue(event, &rendered, issues);
    }

    /// The report on the listed events: how many there are, and one issue
    /// for each, from the last of the list to the first.
    pub fn evaluate(events: &Vec<Event>) -> (report: DiagnosticReport)
        ensures
            report@ == events_report(events.deep_view()),
    {
        let mut issues: Vec<DiagnosticIssue> = Vec::new();
        let ghost all = events.deep_view();
        let count = events.len();
        let mut left = count;
        assert(issues.deep_view() =~= Seq::<IssueView>::empty());
        while left > 0
            invariant
                all == events.deep_view(),
                count == events.len(),
                left <= count,
                issues.deep_view().len() == count - left,
                forall|i: int|
                    0 <= i < count - left ==> issues.deep_view()[i] == event_issue(
                        all[count - 1 - i],
                    ),
            decreases left,
        {
            left = left - 1;
            Self::check_event(&events[left], &mut issues);
        }
        assert(issues.deep_view() =~= events_issues(all));
        let mut summary = String::new();
        append_decimal(&mut summary, count as u64);
        summary.append(" events analyzed");
        DiagnosticReport { summary, issues }
    }
}

impl Diagnostic for EventsDiagnostic {
    type Item = Event;

    open spec fn kind_spec(&self) -> CheckKind {
        CheckKind::Events
    }

    open spec fn request_spec(&self, namespace: Seq<char>) -> ListRequestView {
        namespaced(namespace, Some(EVENT_LIMIT))
    }

    open spec fn report_spec(&self, items: Seq<EventView>) -> ReportView {
        events_report(items)
    }

    fn kind(&self) -> (kind: CheckKind) {
        CheckKind::Events
    }

    fn request(&self, namespace: &str) -> (request: ListRequest) {
        ListRequest { namespace: Some(String::from_str(namespace)), limit: Some(EVENT_LIMIT) }
    }

    fn run(&self, listing: Result<Vec<Event>, String>) -> (outcome: Result<
        DiagnosticReport,
        DiagnosticError,
    >) {
        match listing {
            Ok(events) => Ok(Self::evaluate(&events)),
            Err(cause) => Err(DiagnosticError { check: CheckKind::Events, cause }),
        }
    }
}

/// Whether the time `a` is not later than the time `b`.
pub open spec fn not_later(a: Timestamp, b: Timestamp) -> bool {
    a.secs < b.secs || (a.secs == b.secs && a.nanos <= b.nanos)
}

/// Whether every event has a time and no event is listed before an older one.
pub open spec fn listed_oldest_first(events: Seq<EventView>) -> bool {
    forall|a: int, b: int|
        0 <= a <= b < events.len() ==> match (
            event_timestamp(#[trigger] events[a]),
            event_timestamp(#[trigger] events[b]),
        ) {
            (Some(former), Some(latter)) => not_later(former, latter),
            _ => false,
        }
}

/// A report on events has one issue for each event, and issue `i` belongs to
/// the event that stands `i` places before the last of the list. So where the
/// events are listed from the oldest to the newest, the issues run from the
/// newest to the oldest: of two issues, the one that comes first belongs to an
/// event that is not older than the event of the other.
pub proof fn lemma_events_newest_first(events: Seq<EventView>, i: int, j: int)
    requires
        0 <= i <= j < events.len(),
    ensures
        events_issues(events).len() == events.len(),
        events_issues(events)[i] == event_issue(events[events.len() - 1 - i]),
        events_issues(events)[j] == event_issue(events[events.len() - 1 - j]),
        listed_oldest_first(events) ==> not_later(
            event_timestamp(events[events.len() - 1 - j]).unwrap(),
            event_timestamp(events[events.len() - 1 - i]).unwrap(),
        ),
{
    if listed_oldest_first(events) {
        let a = events.len() - 1 - j;
        let b = events.len() - 1 - i;
        assert(event_timestamp(events[a]) is Some && event_timestamp(events[b]) is Some);
    }
}

/// Every issue of a report on events is a warning, and names the object that
/// it is about unless the event gives that object the empty name.
pub proof fn lemma_events_issues_are_warnings(events: Seq<EventView>)
    ensures
        forall|i: int|
            0 <= i < events_issues(events).len() ==> (#[trigger] events_issues(events)[i]).severity
                == Severity::Warning,
        (forall|k: int|
            0 <= k < events.len() ==> (#[trigger] events[k]).involved_object_name != Some(
                Seq::<char>::empty(),
            )) ==> all_named(events_issues(events)),
{
    reveal_strlit("<unknown>");
    if forall|k: int|
        0 <= k < events.len() ==> (#[trigger] events[k]).involved_object_name != Some(
            Seq::<char>::empty(),
        ) {
        assert forall|i: int| 0 <= i < events_issues(events).len() implies (
        #[trigger] events_issues(events)[i]).is_named() by {
            let event = events[events.len() - 1 - i];
            match event.involved_object_name {
                Some(name) => {
                    assert(!(name =~= Seq::<char>::empty()));
                },
                None => {},
            }
        }
    }
}

} // verus!
