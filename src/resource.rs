//! The webhook sink resource as the controller reads and writes it.
use vstd::prelude::*;

verus! {

/// One environment entry of the worker container.
#[derive(Clone, Debug)]
pub struct EnvVar {
    pub name: String,
    pub value: String,
}

impl View for EnvVar {
    type V = (Seq<char>, Seq<char>);

    open spec fn view(&self) -> (Seq<char>, Seq<char>) {
        (self.name@, self.value@)
    }
}

/// A pod volume backed by a config map.
#[derive(Clone, Debug)]
pub struct Volume {
    pub name: String,
    pub config_map: String,
}

impl View for Volume {
    type V = (Seq<char>, Seq<char>);

    open spec fn view(&self) -> (Seq<char>, Seq<char>) {
        (self.name@, self.config_map@)
    }
}

/// Where a volume is mounted in the container.
#[derive(Clone, Debug)]
pub struct VolumeMount {
    pub name: String,
    pub mount_path: String,
}

impl View for VolumeMount {
    type V = (Seq<char>, Seq<char>);

    open spec fn view(&self) -> (Seq<char>, Seq<char>) {
        (self.name@, self.mount_path@)
    }
}

/// A file handed to the worker through a volume: the volume, its mount, and
/// the environment entry that points the worker at it.
#[derive(Clone, Debug)]
pub struct MountedFile {
    pub volume: Volume,
    pub mount: VolumeMount,
    pub env: EnvVar,
}

/// Image reference and pull options.
#[derive(Clone, Debug)]
pub struct ImageSpec {
    pub name: Option<String>,
    pub pull_secrets: Option<Vec<String>>,
    pub pull_policy: Option<String>,
}

/// Optional filter and transform stream files.
#[derive(Clone, Debug)]
pub struct StreamSpec {
    pub filter: Option<MountedFile>,
    pub transform: Option<MountedFile>,
}

/// Configuration shared by every sink kind.
#[derive(Clone, Debug)]
pub struct CommonSpec {
    pub image: Option<ImageSpec>,
    pub stream: StreamSpec,
    /// Environment contributions, already flattened to entries.
    pub env: Vec<EnvVar>,
}

/// The desired state of a webhook sink.
#[derive(Clone, Debug)]
pub struct SinkWebhookSpec {
    pub target_url: String,
    pub raw: Option<bool>,
    pub common: CommonSpec,
}

/// Controller-wide settings.
#[derive(Clone, Debug)]
pub struct Defaults {
    /// Image used when the resource names none.
    pub webhook_image: String,
}

/// An instant as milliseconds since the Unix epoch, or the earliest instant
/// that the platform can represent.
#[derive(Clone, Copy, Debug, PartialEq, Eq, Structural)]
pub enum Time {
    Earliest,
    At(i64),
}

#[derive(Clone, Copy, Debug, PartialEq, Eq, Structural)]
pub enum ConditionStatus {
    True,
    False,
    Unknown,
}

/// A condition in the platform's generic condition schema.
#[derive(Clone, Debug)]
pub struct Condition {
    pub type_: String,
    pub status: ConditionStatus,
    pub reason: String,
    pub message: String,
    pub last_transition_time: Time,
    pub observed_generation: Option<i64>,
}

/// What a condition is, as plain values.
pub struct ConditionView {
    pub type_: Seq<char>,
    pub status: ConditionStatus,
    pub reason: Seq<char>,
    pub message: Seq<char>,
    pub last_transition_time: Time,
    pub observed_generation: Option<i64>,
}

impl View for Condition {
    type V = ConditionView;

    open spec fn view(&self) -> ConditionView {
        ConditionView {
            type_: self.type_@,
            status: self.status,
            reason: self.reason@,
            message: self.message@,
            last_transition_time: self.last_transition_time,
            observed_generation: self.observed_generation,
        }
    }
}

#[derive(Clone, Copy, Debug, PartialEq, Eq, Structural)]
pub enum Phase {
    Running,
    Error,
}

/// The observed state that the controller writes into the resource.
#[derive(Clone, Debug)]
pub struct SinkWebhookStatus {
    pub instance_name: Option<String>,
    pub pod_created: Option<i64>,
    pub phase: Option<Phase>,
    pub conditions: Option<Vec<Condition>>,
    pub restart_count: Option<u32>,
}

/// What a status is, as plain values.
pub struct StatusView {
    pub instance_name: Option<Seq<char>>,
    pub pod_created: Option<i64>,
    pub phase: Option<Phase>,
    pub conditions: Option<Seq<ConditionView>>,
    pub restart_count: Option<u32>,
}

pub open spec fn opt_string_view(s: Option<String>) -> Option<Seq<char>> {
    match s {
        Some(v) => Some(v@),
        None => None,
    }
}

pub open spec fn conditions_view(cs: Seq<Condition>) -> Seq<ConditionView> {
    cs.map_values(|c: Condition| c@)
}

impl View for SinkWebhookStatus {
    type V = StatusView;

    open spec fn view(&self) -> StatusView {
        StatusView {
            instance_name: opt_string_view(self.instance_name),
            pod_created: self.pod_created,
            phase: self.phase,
            conditions: match self.conditions {
                Some(cs) => Some(conditions_view(cs@)),
                None => None,
            },
            restart_count: self.restart_count,
        }
    }
}

/// The restart count recorded in a status, zero where there is none.
pub open spec fn recorded_restarts(status: Option<SinkWebhookStatus>) -> u32 {
    match status {
        Some(s) => match s.restart_count {
            Some(n) => n,
            None => 0,
        },
        None => 0,
    }
}

/// A webhook sink resource as one reconcile pass sees it.
#[derive(Clone, Debug)]
pub struct SinkWebhook {
    pub name: String,
    pub generation: Option<i64>,
    pub spec: SinkWebhookSpec,
    pub status: Option<SinkWebhookStatus>,
}

} // verus!
