//! The worker pod that a webhook sink resource asks for.
use vstd::prelude::*;
use crate::resource::{EnvVar, MountedFile, SinkWebhook, SinkWebhookSpec, Volume, VolumeMount, Defaults};

verus! {

/// Port of the worker's status server.
pub const STATUS_PORT: i32 = 8118;

/// An HTTP GET probe.
#[derive(Clone, Debug)]
pub struct HttpProbe {
    pub path: String,
    pub port: i32,
    pub scheme: String,
}

#[derive(Clone, Debug)]
pub struct ContainerPort {
    pub container_port: i32,
    pub name: String,
}

/// The worker container.
#[derive(Clone, Debug)]
pub struct Container {
    pub name: String,
    pub image: String,
    pub args: Vec<String>,
    pub env: Vec<EnvVar>,
    pub ports: Vec<ContainerPort>,
    pub image_pull_policy: Option<String>,
    pub liveness_probe: HttpProbe,
    pub readiness_probe: HttpProbe,
    pub volume_mounts: Vec<VolumeMount>,
}

/// The pod-level part of the manifest; the pod runs exactly one container.
#[derive(Clone, Debug)]
pub struct PodSpec {
    pub container: Container,
    pub volumes: Vec<Volume>,
    pub image_pull_secrets: Option<Vec<String>>,
    pub restart_policy: String,
}

/// The metadata the controller sets on its pod: the name alone.
#[derive(Clone, Debug)]
pub struct ObjectMeta {
    pub name: String,
}

/// A full pod manifest, as applied to the cluster.
#[derive(Clone, Debug)]
pub struct PodManifest {
    pub metadata: ObjectMeta,
    pub spec: PodSpec,
}

pub type Entry = (Seq<char>, Seq<char>);

/// What a pod spec is, as plain values.
pub struct PodSpecView {
    pub container_name: Seq<char>,
    pub image: Seq<char>,
    pub args: Seq<Seq<char>>,
    pub env: Seq<Entry>,
    pub ports: Seq<(i32, Seq<char>)>,
    pub image_pull_policy: Option<Seq<char>>,
    pub liveness_probe: (Seq<char>, i32, Seq<char>),
    pub readiness_probe: (Seq<char>, i32, Seq<char>),
    pub volume_mounts: Seq<Entry>,
    pub volumes: Seq<Entry>,
    pub image_pull_secrets: Option<Seq<Seq<char>>>,
    pub restart_policy: Seq<char>,
}

pub open spec fn strings_view(s: Seq<String>) -> Seq<Seq<char>> {
    s.map_values(|x: String| x@)
}

pub open spec fn opt_strings_view(s: Option<Vec<String>>) -> Option<Seq<Seq<char>>> {
    match s {
        Some(v) => Some(strings_view(v@)),
        None => None,
    }
}

pub open spec fn env_view(s: Seq<EnvVar>) -> Seq<Entry> {
    s.map_values(|e: EnvVar| e@)
}

pub open spec fn probe_view(p: HttpProbe) -> (Seq<char>, i32, Seq<char>) {
    (p.path@, p.port, p.scheme@)
}

/// What a pod manifest is, as plain values.
pub struct PodView {
    pub name: Seq<char>,
    pub spec: PodSpecView,
}

impl View for PodManifest {
    type V = PodView;

    open spec fn view(&self) -> PodView {
        PodView { name: self.metadata.name@, spec: self.spec@ }
    }
}

impl View for PodSpec {
    type V = PodSpecView;

    open spec fn view(&self) -> PodSpecView {
        let c = self.container;
        PodSpecView {
            container_name: c.name@,
            image: c.image@,
            args: strings_view(c.args@),
            env: env_view(c.env@),
            ports: c.ports@.map_values(|p: ContainerPort| (p.container_port, p.name@)),
            image_pull_policy: crate::resource::opt_string_view(c.image_pull_policy),
            liveness_probe: probe_view(c.liveness_probe),
            readiness_probe: probe_view(c.readiness_probe),
            volume_mounts: c.volume_mounts@.map_values(|m: VolumeMount| m@),
            volumes: self.volumes@.map_values(|v: Volume| v@),
            image_pull_secrets: opt_strings_view(self.image_pull_secrets),
            restart_policy: self.restart_policy@,
        }
    }
}

/// The files mounted into the worker: the filter first, then the transform.
pub open spec fn mounted_files(spec: SinkWebhookSpec) -> Seq<MountedFile> {
    present(spec.common.stream.filter) + present(spec.common.stream.transform)
}

/// The file, if there is one, as a sequence of at most one.
pub open spec fn present(file: Option<MountedFile>) -> Seq<MountedFile> {
    match file {
        Some(m) => seq![m],
        None => Seq::empty(),
    }
}

pub open spec fn raw_enabled(spec: SinkWebhookSpec) -> bool {
    spec.raw == Some(true)
}

/// The environment entry that carries the target URL.
pub open spec fn target_url_entry(spec: SinkWebhookSpec) -> Entry {
    ("TARGET_URL"@, spec.target_url@)
}

/// The environment entry that turns raw delivery on.
pub open spec fn raw_entry() -> Entry {
    ("RAW"@, "true"@)
}

/// The worker's environment: the target URL, the raw flag where it is set,
/// the common contributions, then one entry per mounted file.
pub open spec fn desired_env(spec: SinkWebhookSpec) -> Seq<Entry> {
    seq![target_url_entry(spec)]
        + (if raw_enabled(spec) { seq![raw_entry()] } else { Seq::empty() })
        + env_view(spec.common.env@)
        + mounted_files(spec).map_values(|m: MountedFile| m.env@)
}

/// The image named by the resource, else the controller default.
pub open spec fn desired_image(spec: SinkWebhookSpec, d: Defaults) -> Seq<char> {
    match spec.common.image {
        Some(i) => match i.name {
            Some(n) => n@,
            None => d.webhook_image@,
        },
        None => d.webhook_image@,
    }
}

pub open spec fn status_probe() -> (Seq<char>, i32, Seq<char>) {
    ("/status"@, STATUS_PORT, "HTTP"@)
}

pub open spec fn status_server_arg() -> Seq<char> {
    "--status-server-address=0.0.0.0:8118"@
}

/// The pod that a resource asks for: named after it, running its spec.
pub open spec fn desired_pod(res: SinkWebhook, d: Defaults) -> PodView {
    PodView { name: res.name@, spec: desired_pod_spec(res.spec, d) }
}

/// The pod spec that a resource spec asks for.
pub open spec fn desired_pod_spec(spec: SinkWebhookSpec, d: Defaults) -> PodSpecView {
    let files = mounted_files(spec);
    PodSpecView {
        container_name: "sink"@,
        image: desired_image(spec, d),
        args: seq![status_server_arg()],
        env: desired_env(spec),
        ports: seq![(STATUS_PORT, "status"@)],
        image_pull_policy: match spec.common.image {
            Some(i) => crate::resource::opt_string_view(i.pull_policy),
            None => None,
        },
        liveness_probe: status_probe(),
        readiness_probe: status_probe(),
        volume_mounts: files.map_values(|m: MountedFile| m.mount@),
        volumes: files.map_values(|m: MountedFile| m.volume@),
        image_pull_secrets: match spec.common.image {
            Some(i) => opt_strings_view(i.pull_secrets),
            None => None,
        },
        restart_policy: "Never"@,
    }
}

fn copy_env(e: &EnvVar) -> (r: EnvVar)
    ensures
        r@ == e@,
{
    EnvVar { name: e.name.clone(), value: e.value.clone() }
}

fn copy_strings(v: &Vec<String>) -> (r: Vec<String>)
    ensures
        strings_view(r@) == strings_view(v@),
{
    let mut r: Vec<String> = Vec::new();
    let mut i: usize = 0;
    while i < v.len()
        invariant
            i <= v@.len(),
            r@.len() == i,
            strings_view(r@) =~= strings_view(v@.subrange(0, i as int)),
        decreases v@.len() - i,
    {
        let ghost before = r@;
        let s = v[i].clone();
        r.push(s);
        assert(r@ == before.push(s));
        i = i + 1;
        assert(v@.subrange(0, i as int) =~= v@.subrange(0, i - 1).push(v@[i - 1]));
        assert forall|j: int| 0 <= j < i implies #[trigger] strings_view(r@)[j] == strings_view(
            v@.subrange(0, i as int),
        )[j] by {
            if j < i - 1 {
                assert(strings_view(before)[j] == strings_view(v@.subrange(0, i - 1))[j]);
            }
        }
        assert(strings_view(r@) =~= strings_view(v@.subrange(0, i as int)));
    }
    assert(v@.subrange(0, v@.len() as int) =~= v@);
    r
}

fn copy_opt_string(s: &Option<String>) -> (r: Option<String>)
    ensures
        crate::resource::opt_string_view(r) == crate::resource::opt_string_view(*s),
{
    match s {
        Some(v) => Some(v.clone()),
        None => None,
    }
}

fn status_probe_exec() -> (r: HttpProbe)
    ensures
        probe_view(r) == status_probe(),
{
    HttpProbe { path: "/status".to_string(), port: STATUS_PORT, scheme: "HTTP".to_string() }
}

/// Appends the common environment contributions to `env`.
fn append_env(env: &mut Vec<EnvVar>, extra: &Vec<EnvVar>)
    ensures
        env_view(final(env)@) == env_view(old(env)@) + env_view(extra@),
{
    let ghost start = env_view(env@);
    let ghost start_len = env@.len();
    let mut i: usize = 0;
    while i < extra.len()
        invariant
            i <= extra@.len(),
            env@.len() == start_len + i,
            start.len() == start_len,
            env_view(env@) =~= start + env_view(extra@.subrange(0, i as int)),
        decreases extra@.len() - i,
    {
        let ghost before = env@;
        let e = copy_env(&extra[i]);
        env.push(e);
        assert(env@ == before.push(e));
        i = i + 1;
        assert(extra@.subrange(0, i as int) =~= extra@.subrange(0, i - 1).push(extra@[i - 1]));
        assert forall|j: int| 0 <= j < env@.len() implies #[trigger] env_view(env@)[j] == (start
            + env_view(extra@.subrange(0, i as int)))[j] by {
            if j < env@.len() - 1 {
                assert(env_view(before)[j] == (start + env_view(extra@.subrange(0, i - 1)))[j]);
            }
        }
        assert(env_view(env@) =~= start + env_view(extra@.subrange(0, i as int)));
    }
    assert(extra@.subrange(0, extra@.len() as int) =~= extra@);
}

/// Adds one mounted file: its volume, its mount and its environment entry.
fn add_mounted_file(
    file: &Option<MountedFile>,
    volumes: &mut Vec<Volume>,
    mounts: &mut Vec<VolumeMount>,
    env: &mut Vec<EnvVar>,
)
    ensures
        ({
            let added = present(*file);
            &&& final(volumes)@.map_values(|v: Volume| v@) == old(volumes)@.map_values(
                |v: Volume| v@,
            ) + added.map_values(|m: MountedFile| m.volume@)
            &&& final(mounts)@.map_values(|m: VolumeMount| m@) == old(mounts)@.map_values(
                |m: VolumeMount| m@,
            ) + added.map_values(|m: MountedFile| m.mount@)
            &&& env_view(final(env)@) == env_view(old(env)@) + added.map_values(
                |m: MountedFile| m.env@,
            )
        }),
{
    match file {
        Some(m) => {
            volumes.push(Volume { name: m.volume.name.clone(), config_map: m.volume.config_map.clone() });
            mounts.push(VolumeMount { name: m.mount.name.clone(), mount_path: m.mount.mount_path.clone() });
            env.push(copy_env(&m.env));
            assert(volumes@.map_values(|v: Volume| v@) =~= old(volumes)@.map_values(|v: Volume| v@) + seq![*m].map_values(|m: MountedFile| m.volume@));
            assert(mounts@.map_values(|x: VolumeMount| x@) =~= old(mounts)@.map_values(|x: VolumeMount| x@) + seq![*m].map_values(|m: MountedFile| m.mount@));
            assert(env_view(env@) =~= env_view(old(env)@) + seq![*m].map_values(|m: MountedFile| m.env@));
        },
        None => {
            assert(volumes@.map_values(|v: Volume| v@) =~= old(volumes)@.map_values(|v: Volume| v@) + Seq::<MountedFile>::empty().map_values(|m: MountedFile| m.volume@));
            assert(mounts@.map_values(|x: VolumeMount| x@) =~= old(mounts)@.map_values(|x: VolumeMount| x@) + Seq::<MountedFile>::empty().map_values(|m: MountedFile| m.mount@));
            assert(env_view(env@) =~= env_view(old(env)@) + Seq::<MountedFile>::empty().map_values(|m: MountedFile| m.env@));
        },
    }
}

impl SinkWebhook {
    /// The metadata of the pod that this resource owns.
    pub fn object_metadata(&self) -> (r: ObjectMeta)
        ensures
            r.name@ == self.name@,
    {
        ObjectMeta { name: self.name.clone() }
    }

    /// The spec of the worker pod that this resource asks for.
    pub fn pod_spec(&self, defaults: &Defaults) -> (r: PodSpec)
        ensures
            r@ == desired_pod_spec(self.spec, *defaults),
    {
        let spec = &self.spec;
        let image: String = match &spec.common.image {
            Some(i) => match &i.name {
                Some(n) => n.clone(),
                None => defaults.webhook_image.clone(),
            },
            None => defaults.webhook_image.clone(),
        };
        let image_pull_secrets: Option<Vec<String>> = match &spec.common.image {
            Some(i) => match &i.pull_secrets {
                Some(v) => Some(copy_strings(v)),
                None => None,
            },
            None => None,
        };
        let image_pull_policy: Option<String> = match &spec.common.image {
            Some(i) => copy_opt_string(&i.pull_policy),
            None => None,
        };

        let mut args: Vec<String> = Vec::new();
        args.push("--status-server-address=0.0.0.0:8118".to_string());

        let mut volumes: Vec<Volume> = Vec::new();
        let mut volume_mounts: Vec<VolumeMount> = Vec::new();
        let mut env: Vec<EnvVar> = Vec::new();
        env.push(EnvVar { name: "TARGET_URL".to_string(), value: spec.target_url.clone() });
        let raw = match spec.raw {
            Some(b) => b,
            None => false,
        };
        if raw {
            env.push(EnvVar { name: "RAW".to_string(), value: "true".to_string() });
        }
        let ghost before_common = env_view(env@);
        append_env(&mut env, &spec.common.env);
        let ghost before_files = env_view(env@);
        add_mounted_file(&spec.common.stream.filter, &mut volumes, &mut volume_mounts, &mut env);
        add_mounted_file(&spec.common.stream.transform, &mut volumes, &mut volume_mounts, &mut env);

        let mut ports: Vec<ContainerPort> = Vec::new();
        ports.push(ContainerPort { container_port: STATUS_PORT, name: "status".to_string() });

        let container = Container {
            name: "sink".to_string(),
            image,
            args,
            env,
            ports,
            image_pull_policy,
            liveness_probe: status_probe_exec(),
            readiness_probe: status_probe_exec(),
            volume_mounts,
        };
        let r = PodSpec {
            container,
            volumes,
            image_pull_secrets,
            restart_policy: "Never".to_string(),
        };
        proof {
            let files = mounted_files(*spec);
            let f = present(spec.common.stream.filter);
            let t = present(spec.common.stream.transform);
            assert(files == f + t);
            assert(files.map_values(|m: MountedFile| m.env@) =~= f.map_values(|m: MountedFile| m.env@) + t.map_values(|m: MountedFile| m.env@));
            assert(files.map_values(|m: MountedFile| m.volume@) =~= Seq::<Volume>::empty().map_values(|v: Volume| v@) + f.map_values(|m: MountedFile| m.volume@) + t.map_values(|m: MountedFile| m.volume@));
            assert(files.map_values(|m: MountedFile| m.mount@) =~= Seq::<VolumeMount>::empty().map_values(|v: VolumeMount| v@) + f.map_values(|m: MountedFile| m.mount@) + t.map_values(|m: MountedFile| m.mount@));
            assert(r@.env =~= desired_env(*spec));
            assert(r@.args =~= seq![status_server_arg()]);
            assert(r@.ports =~= seq![(STATUS_PORT, "status"@)]);
            assert(r@.volumes =~= files.map_values(|m: MountedFile| m.volume@));
            assert(r@.volume_mounts =~= files.map_values(|m: MountedFile| m.mount@));
        }
        r
    }

    /// The full manifest of the worker pod that this resource asks for.
    pub fn pod_manifest(&self, defaults: &Defaults) -> (r: PodManifest)
        ensures
            r@ == desired_pod(*self, *defaults),
    {
        PodManifest { metadata: self.object_metadata(), spec: self.pod_spec(defaults) }
    }
}

} // verus!
