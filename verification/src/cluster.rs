//! The parts of the cluster's objects that the checks read.
//!
//! Each type holds plain values and has a `deep_view` that gives its
//! mathematical content: strings as sequences of characters, vectors as
//! sequences. The checks are specified over those contents.

use crate::time::Timestamp;
use vstd::prelude::*;

verus! {

/// Content of a [`PodCondition`].
pub struct PodConditionView {
    pub type_: Seq<char>,
    pub status: Seq<char>,
    pub message: Option<Seq<char>>,
}

/// One aspect of a pod's health.
#[derive(Debug, Clone, Default, PartialEq, Eq)]
pub struct PodCondition {
    /// Which aspect, such as `Ready` or `PodScheduled`.
    pub type_: String,
    /// `True`, `False` or `Unknown`.
    pub status: String,
    pub message: Option<String>,
}

impl DeepView for PodCondition {
    type V = PodConditionView;

    open spec fn deep_view(&self) -> PodConditionView {
        PodConditionView {
            type_: self.type_@,
            status: self.status@,
            message: self.message.deep_view(),
        }
    }
}

/// Content of a [`ContainerStateWaiting`].
pub struct ContainerStateWaitingView {
    pub reason: Option<Seq<char>>,
    pub message: Option<Seq<char>>,
}

/// Why a container has not started yet.
#[derive(Debug, Clone, Default, PartialEq, Eq)]
pub struct ContainerStateWaiting {
    pub reason: Option<String>,
    pub message: Option<String>,
}

impl DeepView for ContainerStateWaiting {
    type V = ContainerStateWaitingView;

    open spec fn deep_view(&self) -> ContainerStateWaitingView {
        ContainerStateWaitingView {
            reason: self.reason.deep_view(),
            message: self.message.deep_view(),
        }
    }
}

/// Content of a [`ContainerStateTerminated`].
pub struct ContainerStateTerminatedView {
    pub reason: Option<Seq<char>>,
    pub exit_code: i32,
}

/// How a container ended.
#[derive(Debug, Clone, Default, PartialEq, Eq)]
pub struct ContainerStateTerminated {
    pub reason: Option<String>,
    pub exit_code: i32,
}

impl DeepView for ContainerStateTerminated {
    type V = ContainerStateTerminatedView;

    open spec fn deep_view(&self) -> ContainerStateTerminatedView {
        ContainerStateTerminatedView { reason: self.reason.deep_view(), exit_code: self.exit_code }
    }
}

/// Content of a [`ContainerState`].
pub struct ContainerStateView {
    pub waiting: Option<ContainerStateWaitingView>,
    pub terminated: Option<ContainerStateTerminatedView>,
}

/// What a container is doing now.
#[derive(Debug, Clone, Default, PartialEq, Eq)]
pub struct ContainerState {
    pub waiting: Option<ContainerStateWaiting>,
    pub terminated: Option<ContainerStateTerminated>,
}

impl DeepView for ContainerState {
    type V = ContainerStateView;

    open spec fn deep_view(&self) -> ContainerStateView {
        ContainerStateView {
            waiting: self.waiting.deep_view(),
            terminated: self.terminated.deep_view(),
        }
    }
}

/// Content of a [`ContainerStatus`].
pub struct ContainerStatusView {
    pub restart_count: i32,
    pub state: Option<ContainerStateView>,
}

/// The observed status of one container of a pod.
#[derive(Debug, Clone, Default, PartialEq, Eq)]
pub struct ContainerStatus {
    pub restart_count: i32,
    pub state: Option<ContainerState>,
}

impl DeepView for ContainerStatus {
    type V = ContainerStatusView;

    open spec fn deep_view(&self) -> ContainerStatusView {
        ContainerStatusView { restart_count: self.restart_count, state: self.state.deep_view() }
    }
}

/// Content of a [`PodStatus`].
pub struct PodStatusView {
    pub phase: Option<Seq<char>>,
    pub conditions: Option<Seq<PodConditionView>>,
    pub container_statuses: Option<Seq<ContainerStatusView>>,
    pub host_ip: Option<Seq<char>>,
    pub start_time: Option<Timestamp>,
}

/// The observed status of a pod.
#[derive(Debug, Clone, Default, PartialEq, Eq)]
pub struct PodStatus {
    /// Coarse lifecycle state, such as `Pending` or `Running`.
    pub phase: Option<String>,
    pub conditions: Option<Vec<PodCondition>>,
    pub container_statuses: Option<Vec<ContainerStatus>>,
    /// Address of the host that the pod is scheduled to.
    pub host_ip: Option<String>,
    pub start_time: Option<Timestamp>,
}

impl DeepView for PodStatus {
    type V = PodStatusView;

    open spec fn deep_view(&self) -> PodStatusView {
        PodStatusView {
            phase: self.phase.deep_view(),
            conditions: self.conditions.deep_view(),
            container_statuses: self.container_statuses.deep_view(),
            host_ip: self.host_ip.deep_view(),
            start_time: self.start_time.deep_view(),
        }
    }
}

/// Content of a [`Pod`].
pub struct PodView {
    pub name: Option<Seq<char>>,
    pub status: Option<PodStatusView>,
}

/// A pod, as far as the pods check reads it.
#[derive(Debug, Clone, Default, PartialEq, Eq)]
pub struct Pod {
    pub name: Option<String>,
    pub status: Option<PodStatus>,
}

impl DeepView for Pod {
    type V = PodView;

    open spec fn deep_view(&self) -> PodView {
        PodView { name: self.name.deep_view(), status: self.status.deep_view() }
    }
}

/// Content of a [`NodeCondition`].
pub struct NodeConditionView {
    pub type_: Seq<char>,
    pub status: Seq<char>,
    pub reason: Option<Seq<char>>,
}

/// One aspect of a node's health.
#[derive(Debug, Clone, Default, PartialEq, Eq)]
pub struct NodeCondition {
    /// Which aspect, such as `Ready` or `MemoryPressure`.
    pub type_: String,
    /// `True`, `False` or `Unknown`.
    pub status: String,
    pub reason: Option<String>,
}

impl DeepView for NodeCondition {
    type V = NodeConditionView;

    open spec fn deep_view(&self) -> NodeConditionView {
        NodeConditionView {
            type_: self.type_@,
            status: self.status@,
            reason: self.reason.deep_view(),
        }
    }
}

/// Content of a [`NodeStatus`].
pub struct NodeStatusView {
    pub conditions: Option<Seq<NodeConditionView>>,
}

/// The observed status of a node.
#[derive(Debug, Clone, Default, PartialEq, Eq)]
pub struct NodeStatus {
    pub conditions: Option<Vec<NodeCondition>>,
}

impl DeepView for NodeStatus {
    type V = NodeStatusView;

    open spec fn deep_view(&self) -> NodeStatusView {
        NodeStatusView { conditions: self.conditions.deep_view() }
    }
}

/// Content of a [`Node`].
pub struct NodeView {
    pub status: Option<NodeStatusView>,
}

/// A node, as far as the nodes check reads it.
#[derive(Debug, Clone, Default, PartialEq, Eq)]
pub struct Node {
    pub status: Option<NodeStatus>,
}

impl DeepView for Node {
    type V = NodeView;

    open spec fn deep_view(&self) -> NodeView {
        NodeView { status: self.status.deep_view() }
    }
}

/// Content of an [`EventSource`].
pub struct EventSourceView {
    pub component: Option<Seq<char>>,
}

/// Who reported an event.
#[derive(Debug, Clone, Default, PartialEq, Eq)]
pub struct EventSource {
    pub component: Option<String>,
}

impl DeepView for EventSource {
    type V = EventSourceView;

    open spec fn deep_view(&self) -> EventSourceView {
        EventSourceView { component: self.component.deep_view() }
    }
}

/// Content of an [`Event`].
pub struct EventView {
    pub involved_object_name: Option<Seq<char>>,
    pub message: Option<Seq<char>>,
    pub reason: Option<Seq<char>>,
    pub event_time: Option<Timestamp>,
    pub last_timestamp: Option<Timestamp>,
    pub source: Option<EventSourceView>,
}

/// A record of something that happened to an object.
#[derive(Debug, Clone, Default, PartialEq, Eq)]
pub struct Event {
    /// Name of the object that the event is about.
    pub involved_object_name: Option<String>,
    pub message: Option<String>,
    pub reason: Option<String>,
    /// When the event was first observed, to the microsecond.
    pub event_time: Option<Timestamp>,
    /// When the event was last recorded, to the second.
    pub last_timestamp: Option<Timestamp>,
    pub source: Option<EventSource>,
}

impl DeepView for Event {
    type V = EventView;

    open spec fn deep_view(&self) -> EventView {
        EventView {
            involved_object_name: self.involved_object_name.deep_view(),
            message: self.message.deep_view(),
            reason: self.reason.deep_view(),
            event_time: self.event_time.deep_view(),
            last_timestamp: self.last_timestamp.deep_view(),
            source: self.source.deep_view(),
        }
    }
}

/// Content of an [`EndpointSubset`].
pub struct EndpointSubsetView {
    pub addresses: Seq<Seq<char>>,
}

/// A group of addresses that back a service on the same ports.
#[derive(Debug, Clone, Default, PartialEq, Eq)]
pub struct EndpointSubset {
    /// The addresses that are ready to take traffic.
    pub addresses: Vec<String>,
}

impl DeepView for EndpointSubset {
    type V = EndpointSubsetView;

    open spec fn deep_view(&self) -> EndpointSubsetView {
        EndpointSubsetView { addresses: self.addresses.deep_view() }
    }
}

/// Content of an [`Endpoints`].
pub struct EndpointsView {
    pub name: Option<Seq<char>>,
    pub subsets: Option<Seq<EndpointSubsetView>>,
}

/// The addresses that back one service.
#[derive(Debug, Clone, Default, PartialEq, Eq)]
pub struct Endpoints {
    pub name: Option<String>,
    pub subsets: Option<Vec<EndpointSubset>>,
}

impl DeepView for Endpoints {
    type V = EndpointsView;

    open spec fn deep_view(&self) -> EndpointsView {
        EndpointsView { name: self.name.deep_view(), subsets: self.subsets.deep_view() }
    }
}

} // verus!
