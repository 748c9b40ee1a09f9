//! The status that a reconcile pass writes back into the resource.
use vstd::prelude::*;
use crate::health::{Health, restart_increment};
use crate::resource::{
    Condition, ConditionStatus, ConditionView, Phase, SinkWebhookStatus, StatusView, Time,
    conditions_view, opt_string_view, recorded_restarts,
};

verus! {

/// What the cluster answered to the pod apply.
#[derive(Clone, Debug)]
pub struct AppliedPod {
    pub name: Option<String>,
    /// Creation time of the pod, in milliseconds since the epoch.
    pub created: Option<i64>,
}

/// The time a scheduled condition carries: the pod's creation, else the
/// earliest instant.
pub open spec fn scheduled_time(created: Option<i64>) -> Time {
    match created {
        Some(t) => Time::At(t),
        None => Time::Earliest,
    }
}

/// The condition added on every pass.
pub open spec fn scheduled_condition(created: Option<i64>, generation: Option<i64>) -> ConditionView {
    ConditionView {
        type_: "PodScheduled"@,
        status: ConditionStatus::True,
        reason: "PodScheduled"@,
        message: "Pod has been scheduled"@,
        last_transition_time: scheduled_time(created),
        observed_generation: generation,
    }
}

/// The condition added while a terminated pod is within its grace window.
pub open spec fn terminated_condition(finished_at: i64, generation: Option<i64>) -> ConditionView {
    ConditionView {
        type_: "PodTerminated"@,
        status: ConditionStatus::False,
        reason: "PodTerminate"@,
        message: "Pod has been terminated"@,
        last_transition_time: Time::At(finished_at),
        observed_generation: generation,
    }
}

/// The conditions of a pass: scheduled always, terminated where the pod
/// terminated recently.
pub open spec fn pass_conditions(h: Health, created: Option<i64>, generation: Option<i64>) -> Seq<ConditionView> {
    seq![scheduled_condition(created, generation)] + match h {
        Health::RecentlyTerminated { finished_at } => seq![terminated_condition(finished_at, generation)],
        _ => Seq::empty(),
    }
}

pub open spec fn pass_phase(h: Health) -> Phase {
    if h is RecentlyTerminated {
        Phase::Error
    } else {
        Phase::Running
    }
}

/// The previous count plus the increment of the verdict, held at the
/// largest count representable.
pub open spec fn next_restart_count(prev: Option<SinkWebhookStatus>, h: Health) -> u32 {
    let sum = recorded_restarts(prev) + restart_increment(h);
    if sum > u32::MAX {
        u32::MAX
    } else {
        sum as u32
    }
}

/// The status written after a pass with verdict `h` that applied `applied`.
pub open spec fn projected_status(
    prev: Option<SinkWebhookStatus>,
    h: Health,
    applied: AppliedPod,
    generation: Option<i64>,
) -> StatusView {
    StatusView {
        instance_name: opt_string_view(applied.name),
        pod_created: applied.created,
        phase: Some(pass_phase(h)),
        conditions: Some(pass_conditions(h, applied.created, generation)),
        restart_count: Some(next_restart_count(prev, h)),
    }
}

fn scheduled_condition_exec(created: Option<i64>, generation: Option<i64>) -> (r: Condition)
    ensures
        r@ == scheduled_condition(created, generation),
{
    let last_transition_time = match created {
        Some(t) => Time::At(t),
        None => Time::Earliest,
    };
    Condition {
        type_: "PodScheduled".to_string(),
        status: ConditionStatus::True,
        reason: "PodScheduled".to_string(),
        message: "Pod has been scheduled".to_string(),
        last_transition_time,
        observed_generation: generation,
    }
}

fn terminated_condition_exec(finished_at: i64, generation: Option<i64>) -> (r: Condition)
    ensures
        r@ == terminated_condition(finished_at, generation),
{
    Condition {
        type_: "PodTerminated".to_string(),
        status: ConditionStatus::False,
        reason: "PodTerminate".to_string(),
        message: "Pod has been terminated".to_string(),
        last_transition_time: Time::At(finished_at),
        observed_generation: generation,
    }
}

/// Builds the new status from the previous one, the verdict on the pod, and
/// the pod that was applied.
pub fn project_status(
    prev: &Option<SinkWebhookStatus>,
    health: Health,
    applied: &AppliedPod,
    generation: Option<i64>,
) -> (r: SinkWebhookStatus)
    ensures
        r@ == projected_status(*prev, health, *applied, generation),
{
    let mut conditions: Vec<Condition> = Vec::new();
    conditions.push(scheduled_condition_exec(applied.created, generation));
    let phase = match health {
        Health::RecentlyTerminated { finished_at } => {
            conditions.push(terminated_condition_exec(finished_at, generation));
            Phase::Error
        },
        _ => Phase::Running,
    };
    let previous: u32 = match prev {
        Some(s) => match s.restart_count {
            Some(n) => n,
            None => 0,
        },
        None => 0,
    };
    let restart_count: u32 = match health {
        Health::StaleTerminated => previous.saturating_add(1),
        _ => previous,
    };
    let instance_name = match &applied.name {
        Some(n) => Some(n.clone()),
        None => None,
    };
    let r = SinkWebhookStatus {
        instance_name,
        pod_created: applied.created,
        phase: Some(phase),
        conditions: Some(conditions),
        restart_count: Some(restart_count),
    };
    assert(conditions_view(r.conditions.unwrap()@) =~= pass_conditions(health, applied.created, generation));
    r
}

} // verus!
