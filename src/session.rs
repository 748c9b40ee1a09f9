//! One reconcile pass and one cleanup pass, each as a step machine: the caller
//! performs each command against the cluster and feeds back what came of it.
use vstd::prelude::*;
use crate::health::{Health, ObservedPod, evaluate_health, health_of};
use crate::pod_spec::{PodManifest, PodView, desired_pod};
use crate::resource::{Defaults, SinkWebhook, SinkWebhookStatus, StatusView, opt_string_view};
use crate::status::{AppliedPod, project_status, projected_status};

verus! {

/// Seconds until the next regular pass over a resource.
pub const REQUEUE_SECS: u64 = 10;

/// Seconds until a failed pass is retried.
pub const ERROR_BACKOFF_SECS: u64 = 30;

/// Why a pass or the controller's start failed.
#[derive(Clone, Debug)]
pub enum ControllerError {
    /// The resource type is not registered with the platform.
    CrdNotInstalled(String),
    /// Adding or removing the finalizer token failed, or the pass it wrapped.
    Finalizer(String),
    /// A read or write against the cluster failed.
    Api(String),
}

pub enum ErrorView {
    CrdNotInstalled(Seq<char>),
    Finalizer(Seq<char>),
    Api(Seq<char>),
}

impl View for ControllerError {
    type V = ErrorView;

    open spec fn view(&self) -> ErrorView {
        match self {
            ControllerError::CrdNotInstalled(s) => ErrorView::CrdNotInstalled(s@),
            ControllerError::Finalizer(s) => ErrorView::Finalizer(s@),
            ControllerError::Api(s) => ErrorView::Api(s@),
        }
    }
}

/// When the work queue should look at the resource again.
#[derive(Clone, Copy, Debug, PartialEq, Eq, Structural)]
pub struct Requeue {
    pub after_secs: u64,
}

/// What the caller does next.
#[derive(Debug)]
pub enum Command {
    /// Read the pod of this name; feed back `PodFetched`.
    GetPod(String),
    /// Delete the pod of this name; feed back `PodDeleted`.
    DeletePod(String),
    /// Apply this manifest as a full-object patch; feed back `PodApplied`.
    ApplyPod(PodManifest),
    /// Merge this status into the named resource; feed back `StatusPatched`.
    PatchStatus(String, SinkWebhookStatus),
    /// The pass is over.
    Done(Result<Requeue, ControllerError>),
}

pub enum CommandView {
    GetPod(Seq<char>),
    DeletePod(Seq<char>),
    ApplyPod(PodView),
    PatchStatus(Seq<char>, StatusView),
    Done(Result<u64, ErrorView>),
}

impl View for Command {
    type V = CommandView;

    open spec fn view(&self) -> CommandView {
        match self {
            Command::GetPod(n) => CommandView::GetPod(n@),
            Command::DeletePod(n) => CommandView::DeletePod(n@),
            Command::ApplyPod(m) => CommandView::ApplyPod(m@),
            Command::PatchStatus(n, s) => CommandView::PatchStatus(n@, s@),
            Command::Done(r) => CommandView::Done(
                match r {
                    Ok(q) => Ok(q.after_secs),
                    Err(e) => Err(e@),
                },
            ),
        }
    }
}

/// What came of the last command.
#[derive(Debug)]
pub enum Event {
    /// The pod read, with the instant at which it was read.
    PodFetched { pod: Option<ObservedPod>, now: i64 },
    PodDeleted,
    PodApplied(AppliedPod),
    StatusPatched,
    /// The command failed against the cluster.
    Failed(String),
}

#[derive(Clone, Copy, Debug, PartialEq, Eq, Structural)]
pub enum ReconcileStage {
    FetchingPod,
    DeletingPod,
    ApplyingPod,
    PatchingStatus,
    Finished,
}

/// Whether `e` answers the command issued in stage `s`; a failure answers any.
pub open spec fn reconcile_expects(s: ReconcileStage, e: Event) -> bool {
    match e {
        Event::Failed(_) => s != ReconcileStage::Finished,
        Event::PodFetched { .. } => s == ReconcileStage::FetchingPod,
        Event::PodDeleted => s == ReconcileStage::DeletingPod,
        Event::PodApplied(_) => s == ReconcileStage::ApplyingPod,
        Event::StatusPatched => s == ReconcileStage::PatchingStatus,
    }
}

/// The first stage and command of a pass over `res`: read the pod last
/// recorded in the status, or apply the desired pod where none is recorded.
pub open spec fn reconcile_begin(res: SinkWebhook, d: Defaults) -> (ReconcileStage, CommandView) {
    match recorded_instance(res) {
        Some(n) => (ReconcileStage::FetchingPod, CommandView::GetPod(n)),
        None => (ReconcileStage::ApplyingPod, CommandView::ApplyPod(desired_pod(res, d))),
    }
}

/// The pod name recorded in the resource's status, if any.
pub open spec fn recorded_instance(res: SinkWebhook) -> Option<Seq<char>> {
    match res.status {
        Some(s) => opt_string_view(s.instance_name),
        None => None,
    }
}

/// One step of a reconcile pass over `res`: from the stage and verdict so
/// far and the event, the next stage, verdict and command.
pub open spec fn reconcile_transition(
    res: SinkWebhook,
    d: Defaults,
    s: ReconcileStage,
    h: Health,
    e: Event,
) -> (ReconcileStage, Health, CommandView) {
    match e {
        Event::Failed(m) => (ReconcileStage::Finished, h, CommandView::Done(Err(ErrorView::Api(m@)))),
        Event::PodFetched { pod, now } => {
            let v = health_of(pod, now);
            if v is StaleTerminated {
                (ReconcileStage::DeletingPod, v, CommandView::DeletePod(pod.unwrap().name@))
            } else {
                (ReconcileStage::ApplyingPod, v, CommandView::ApplyPod(desired_pod(res, d)))
            }
        },
        Event::PodDeleted => (ReconcileStage::ApplyingPod, h, CommandView::ApplyPod(desired_pod(res, d))),
        Event::PodApplied(a) => (
            ReconcileStage::PatchingStatus,
            h,
            CommandView::PatchStatus(res.name@, projected_status(res.status, h, a, res.generation)),
        ),
        Event::StatusPatched => (ReconcileStage::Finished, h, CommandView::Done(Ok(REQUEUE_SECS as u64))),
    }
}

/// A reconcile pass in progress.
#[derive(Debug)]
pub struct ReconcilePass {
    pub resource: SinkWebhook,
    pub defaults: Defaults,
    pub stage: ReconcileStage,
    /// The verdict on the existing pod; healthy until a pod has been read.
    pub health: Health,
}

impl SinkWebhook {
    /// Starts a reconcile pass over this resource.
    pub fn reconcile(self, defaults: Defaults) -> (r: (ReconcilePass, Command))
        ensures
            r.0.resource == self,
            r.0.defaults == defaults,
            r.0.health == Health::Healthy,
            (r.0.stage, r.1@) == reconcile_begin(self, defaults),
    {
        let recorded: Option<String> = match &self.status {
            Some(s) => match &s.instance_name {
                Some(n) => Some(n.clone()),
                None => None,
            },
            None => None,
        };
        match recorded {
            Some(name) => {
                let pass = ReconcilePass {
                    resource: self,
                    defaults,
                    stage: ReconcileStage::FetchingPod,
                    health: Health::Healthy,
                };
                (pass, Command::GetPod(name))
            },
            None => {
                let manifest = self.pod_manifest(&defaults);
                let pass = ReconcilePass {
                    resource: self,
                    defaults,
                    stage: ReconcileStage::ApplyingPod,
                    health: Health::Healthy,
                };
                (pass, Command::ApplyPod(manifest))
            },
        }
    }
}

impl ReconcilePass {
    /// Advances the pass by the outcome of its last command.
    pub fn step(&mut self, event: Event) -> (cmd: Command)
        requires
            reconcile_expects(old(self).stage, event),
        ensures
            final(self).resource == old(self).resource,
            final(self).defaults == old(self).defaults,
            (final(self).stage, final(self).health, cmd@) == reconcile_transition(
                old(self).resource,
                old(self).defaults,
                old(self).stage,
                old(self).health,
                event,
            ),
    {
        match event {
            Event::Failed(m) => {
                self.stage = ReconcileStage::Finished;
                Command::Done(Err(ControllerError::Api(m)))
            },
            Event::PodFetched { pod, now } => {
                let h = evaluate_health(&pod, now);
                self.health = h;
                match h {
                    Health::StaleTerminated => {
                        self.stage = ReconcileStage::DeletingPod;
                        Command::DeletePod(pod.unwrap().name)
                    },
                    _ => {
                        self.stage = ReconcileStage::ApplyingPod;
                        Command::ApplyPod(self.resource.pod_manifest(&self.defaults))
                    },
                }
            },
            Event::PodDeleted => {
                self.stage = ReconcileStage::ApplyingPod;
                Command::ApplyPod(self.resource.pod_manifest(&self.defaults))
            },
            Event::PodApplied(a) => {
                self.stage = ReconcileStage::PatchingStatus;
                let status = project_status(
                    &self.resource.status,
                    self.health,
                    &a,
                    self.resource.generation,
                );
                Command::PatchStatus(self.resource.name.clone(), status)
            },
            Event::StatusPatched => {
                self.stage = ReconcileStage::Finished;
                Command::Done(Ok(Requeue { after_secs: REQUEUE_SECS }))
            },
        }
    }
}

#[derive(Clone, Copy, Debug, PartialEq, Eq, Structural)]
pub enum CleanupStage {
    FetchingPod,
    DeletingPod,
    Finished,
}

/// Whether `e` answers the command issued in cleanup stage `s`.
pub open spec fn cleanup_expects(s: CleanupStage, e: Event) -> bool {
    match e {
        Event::Failed(_) => s != CleanupStage::Finished,
        Event::PodFetched { .. } => s == CleanupStage::FetchingPod,
        Event::PodDeleted => s == CleanupStage::DeletingPod,
        _ => false,
    }
}

/// One step of the cleanup of the resource named `name`: delete the pod of
/// that name where there is one, then finish.
pub open spec fn cleanup_transition(name: Seq<char>, e: Event) -> (CleanupStage, CommandView) {
    match e {
        Event::PodFetched { pod: Some(_), .. } => (CleanupStage::DeletingPod, CommandView::DeletePod(name)),
        Event::Failed(m) => (CleanupStage::Finished, CommandView::Done(Err(ErrorView::Api(m@)))),
        _ => (CleanupStage::Finished, CommandView::Done(Ok(REQUEUE_SECS as u64))),
    }
}

/// The cleanup of a resource that is being deleted, in progress.
#[derive(Debug)]
pub struct CleanupPass {
    /// Name of the resource, and so of its pod.
    pub name: String,
    pub stage: CleanupStage,
}

impl SinkWebhook {
    /// Starts the cleanup of this resource: read the pod named after it.
    pub fn cleanup(&self) -> (r: (CleanupPass, Command))
        ensures
            r.0.name@ == self.name@,
            r.0.stage == CleanupStage::FetchingPod,
            r.1@ == CommandView::GetPod(self.name@),
    {
        (
            CleanupPass { name: self.name.clone(), stage: CleanupStage::FetchingPod },
            Command::GetPod(self.name.clone()),
        )
    }
}

impl CleanupPass {
    /// Advances the cleanup by the outcome of its last command.
    pub fn step(&mut self, event: Event) -> (cmd: Command)
        requires
            cleanup_expects(old(self).stage, event),
        ensures
            final(self).name == old(self).name,
            (final(self).stage, cmd@) == cleanup_transition(old(self).name@, event),
    {
        match event {
            Event::PodFetched { pod: Some(_), .. } => {
                self.stage = CleanupStage::DeletingPod;
                Command::DeletePod(self.name.clone())
            },
            Event::Failed(m) => {
                self.stage = CleanupStage::Finished;
                Command::Done(Err(ControllerError::Api(m)))
            },
            _ => {
                self.stage = CleanupStage::Finished;
                Command::Done(Ok(Requeue { after_secs: REQUEUE_SECS }))
            },
        }
    }
}

/// When to retry a resource whose pass failed: after a fixed backoff,
/// whatever the error.
pub fn error_policy(error: &ControllerError) -> (r: Requeue)
    ensures
        r.after_secs == ERROR_BACKOFF_SECS,
{
    Requeue { after_secs: ERROR_BACKOFF_SECS }
}

/// The controller may start only where listing the resource type succeeded;
/// else it fails with the type's registered name.
pub fn check_installed(list_succeeded: bool, crd_name: &str) -> (r: Result<(), ControllerError>)
    ensures
        list_succeeded <==> r is Ok,
        !list_succeeded ==> (r matches Err(ControllerError::CrdNotInstalled(n)) && n@ == crd_name@),
{
    if list_succeeded {
        Ok(())
    } else {
        Err(ControllerError::CrdNotInstalled(crd_name.to_owned()))
    }
}

} // verus!
