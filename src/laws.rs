//! Properties of the controller that hold of every input, proved over the
//! contracts of the passes.
use vstd::prelude::*;
use crate::health::{Health, ObservedPod, health_of};
use crate::pod_spec::{Entry, desired_env, desired_pod, mounted_files, raw_enabled, raw_entry, env_view};
use crate::resource::{Defaults, MountedFile, Phase, SinkWebhook, SinkWebhookSpec, SinkWebhookStatus, recorded_restarts};
use crate::session::{
    CleanupStage, CommandView, Event, ReconcileStage, cleanup_transition, reconcile_transition,
    REQUEUE_SECS,
};
use crate::status::{AppliedPod, projected_status, terminated_condition};

verus! {

/// The desired pod depends on the resource's name and spec alone, so every
/// pass over an unchanged spec applies the very same manifest.
pub proof fn lemma_manifest_depends_on_spec_only(r1: SinkWebhook, r2: SinkWebhook, d: Defaults)
    requires
        r1.name@ == r2.name@,
        r1.spec == r2.spec,
    ensures
        desired_pod(r1, d) == desired_pod(r2, d),
{
}

/// Writing the status again, from the status the previous pass wrote and
/// with the same pod applied, changes nothing, unless the pod was recycled.
pub proof fn lemma_status_rewrite_is_noop(
    prev: Option<SinkWebhookStatus>,
    written: SinkWebhookStatus,
    h: Health,
    applied: AppliedPod,
    generation: Option<i64>,
)
    requires
        !(h is StaleTerminated),
        written@ == projected_status(prev, h, applied, generation),
    ensures
        projected_status(Some(written), h, applied, generation) == projected_status(
            prev,
            h,
            applied,
            generation,
        ),
{
}

/// The restart count written by a pass is never below the count it read,
/// and the next pass reads what was written.
pub proof fn lemma_restart_count_never_decreases(
    prev: Option<SinkWebhookStatus>,
    written: SinkWebhookStatus,
    h: Health,
    applied: AppliedPod,
    generation: Option<i64>,
)
    requires
        written@ == projected_status(prev, h, applied, generation),
    ensures
        recorded_restarts(Some(written)) >= recorded_restarts(prev),
        written.restart_count == Some(recorded_restarts(Some(written))),
{
}

/// A pod whose container finished at `t`: read 30 s later it is kept, the
/// status turns to error with a terminated condition and the same restart
/// count; read 61 s later it is deleted, recreated in the same pass, and the
/// count goes up by exactly one.
pub proof fn lemma_termination_grace(
    res: SinkWebhook,
    d: Defaults,
    pod: ObservedPod,
    t: i64,
    applied: AppliedPod,
)
    requires
        pod.finished_at == Some(t),
        t <= i64::MAX - 61000,
        recorded_restarts(res.status) < u32::MAX,
    ensures
        ({
            let early = Event::PodFetched { pod: Some(pod), now: (t + 30000) as i64 };
            let (s1, h1, c1) = reconcile_transition(
                res,
                d,
                ReconcileStage::FetchingPod,
                Health::Healthy,
                early,
            );
            let (s2, h2, c2) = reconcile_transition(res, d, s1, h1, Event::PodApplied(applied));
            &&& s1 == ReconcileStage::ApplyingPod
            &&& c1 == CommandView::ApplyPod(desired_pod(res, d))
            &&& c2 matches CommandView::PatchStatus(_, st) && {
                &&& st.phase == Some(Phase::Error)
                &&& st.conditions matches Some(cs) && cs.len() == 2 && cs[1]
                    == terminated_condition(t, res.generation)
                &&& st.restart_count == Some(recorded_restarts(res.status))
            }
        }),
        ({
            let late = Event::PodFetched { pod: Some(pod), now: (t + 61000) as i64 };
            let (s1, h1, c1) = reconcile_transition(
                res,
                d,
                ReconcileStage::FetchingPod,
                Health::Healthy,
                late,
            );
            let (s2, h2, c2) = reconcile_transition(res, d, s1, h1, Event::PodDeleted);
            let (s3, h3, c3) = reconcile_transition(res, d, s2, h2, Event::PodApplied(applied));
            &&& s1 == ReconcileStage::DeletingPod
            &&& c1 == CommandView::DeletePod(pod.name@)
            &&& s2 == ReconcileStage::ApplyingPod
            &&& c2 == CommandView::ApplyPod(desired_pod(res, d))
            &&& c3 matches CommandView::PatchStatus(_, st) && {
                &&& st.phase == Some(Phase::Running)
                &&& st.restart_count == Some((recorded_restarts(res.status) + 1) as u32)
            }
        }),
{
}

/// Cleanup of a resource named `name` deletes the pod of that name exactly
/// once where it exists, and only then reports success; where there is no
/// pod it deletes nothing.
pub proof fn lemma_cleanup_deletes_before_done(name: Seq<char>, pod: ObservedPod, now: i64)
    ensures
        ({
            let (s1, c1) = cleanup_transition(name, Event::PodFetched { pod: Some(pod), now });
            let (s2, c2) = cleanup_transition(name, Event::PodDeleted);
            &&& s1 == CleanupStage::DeletingPod
            &&& c1 == CommandView::DeletePod(name)
            &&& s2 == CleanupStage::Finished
            &&& c2 == CommandView::Done(Ok(REQUEUE_SECS as u64))
        }),
        ({
            let (s1, c1) = cleanup_transition(name, Event::PodFetched { pod: None, now });
            &&& s1 == CleanupStage::Finished
            &&& c1 == CommandView::Done(Ok(REQUEUE_SECS as u64))
        }),
{
}

/// No entry of the common contributions or of the mounted files is named
/// `RAW`.
pub open spec fn no_other_raw(spec: SinkWebhookSpec) -> bool {
    &&& forall|i: int| 0 <= i < spec.common.env@.len() ==> (#[trigger] spec.common.env@[i]).name@ != "RAW"@
    &&& forall|i: int| 0 <= i < mounted_files(spec).len() ==> (#[trigger] mounted_files(spec)[i]).env.name@ != "RAW"@
}

/// The target URL is always the first entry of the worker's environment, and
/// an entry named `RAW` is there exactly when raw delivery is set.
pub proof fn lemma_env_assembly(spec: SinkWebhookSpec)
    requires
        no_other_raw(spec),
    ensures
        desired_env(spec)[0] == ("TARGET_URL"@, spec.target_url@),
        (exists|i: int| 0 <= i < desired_env(spec).len() && (#[trigger] desired_env(spec)[i]).0 == "RAW"@)
            <==> raw_enabled(spec),
        raw_enabled(spec) ==> desired_env(spec)[1] == raw_entry(),
{
    reveal_strlit("TARGET_URL");
    reveal_strlit("RAW");
    let env = desired_env(spec);
    let head: Seq<Entry> = seq![crate::pod_spec::target_url_entry(spec)] + (if raw_enabled(spec) {
        seq![raw_entry()]
    } else {
        Seq::empty()
    });
    let common = env_view(spec.common.env@);
    let files = mounted_files(spec).map_values(|m: MountedFile| m.env@);
    assert(env == head + common + files);
    assert("TARGET_URL"@.len() != "RAW"@.len());
    if raw_enabled(spec) {
        assert(env[1] == raw_entry());
    } else {
        assert forall|i: int| 0 <= i < env.len() implies (#[trigger] env[i]).0 != "RAW"@ by {
            if i == 0 {
            } else if i < 1 + common.len() {
                assert(env[i] == common[i - 1]);
                assert(spec.common.env@[i - 1].name@ != "RAW"@);
            } else {
                assert(env[i] == files[i - 1 - common.len()]);
                assert(mounted_files(spec)[i - 1 - common.len()].env.name@ != "RAW"@);
            }
        }
    }
}

/// Where no pod is found, a pass judges it healthy, applies the desired pod
/// and keeps the recorded restart count (zero where none is recorded).
pub proof fn lemma_absent_pod_keeps_count(res: SinkWebhook, d: Defaults, now: i64, applied: AppliedPod)
    ensures
        ({
            let (s1, h1, c1) = reconcile_transition(
                res,
                d,
                ReconcileStage::FetchingPod,
                Health::Healthy,
                Event::PodFetched { pod: None, now },
            );
            let (s2, h2, c2) = reconcile_transition(res, d, s1, h1, Event::PodApplied(applied));
            &&& h1 == Health::Healthy
            &&& c1 == CommandView::ApplyPod(desired_pod(res, d))
            &&& c2 matches CommandView::PatchStatus(_, st) && st.restart_count == Some(
                recorded_restarts(res.status),
            )
        }),
{
    assert(health_of(None, now) == Health::Healthy);
}

} // verus!
