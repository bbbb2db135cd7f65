//! Kubernetes worker fleet: what a worker pod and the worker service look
//! like, which pods are ready, which pods of a role to delete, and the fleet
//! statistics.
//!
//! The application talks to the Kubernetes API; it hands this module the pods
//! it listed as [`PodInfo`] values and turns [`WorkerPodSpec`] and
//! [`WorkerServiceSpec`] into API objects.

use vstd::prelude::*;
use crate::text::{push_str, str_eq, string_from_chars};

verus! {

/// Settings of the worker fleet manager.
#[derive(Debug, Clone)]
pub struct K8sManagerConfig {
    /// Namespace of the workers.
    pub namespace: String,
    /// Container image of a worker.
    pub image: String,
    /// Label key that marks worker pods.
    pub label_key: String,
    /// Label value that marks worker pods.
    pub label_value: String,
    /// ConfigMap mounted at `/etc/ravenclaws` in workers.
    pub config_map_name: String,
    /// Secret holding the LiteLLM API key.
    pub secret_name: String,
    /// Key of the API key within the secret.
    pub secret_key: String,
}

impl Default for K8sManagerConfig {
    fn default() -> (c: Self)
        ensures
            c.namespace@ == "ravenclaws"@,
            c.image@ == "ghcr.io/egkristi/ravenclaws:latest"@,
            c.label_key@ == "app"@,
            c.label_value@ == "ravenclaws-worker"@,
            c.config_map_name@ == "ravenclaws-worker-config"@,
            c.secret_name@ == "ravenclaws-secrets"@,
            c.secret_key@ == "LITELLM_API_KEY"@,
    {
        K8sManagerConfig {
            namespace: String::from_str("ravenclaws"),
            image: String::from_str("ghcr.io/egkristi/ravenclaws:latest"),
            label_key: String::from_str("app"),
            label_value: String::from_str("ravenclaws-worker"),
            config_map_name: String::from_str("ravenclaws-worker-config"),
            secret_name: String::from_str("ravenclaws-secrets"),
            secret_key: String::from_str("LITELLM_API_KEY"),
        }
    }
}

impl K8sManagerConfig {
    /// A default configuration for another namespace.
    pub fn for_namespace(namespace: String) -> (c: Self)
        ensures
            c.namespace == namespace,
            c.label_key@ == "app"@,
            c.label_value@ == "ravenclaws-worker"@,
    {
        let d = K8sManagerConfig::default();
        K8sManagerConfig { namespace, ..d }
    }

    /// The label selector of worker pods: `key=value`.
    pub fn selector(&self) -> (s: String)
        ensures
            s@ == self.label_key@ + "="@ + self.label_value@,
    {
        let mut v: Vec<char> = Vec::new();
        push_str(&mut v, self.label_key.as_str());
        push_str(&mut v, "=");
        push_str(&mut v, self.label_value.as_str());
        string_from_chars(&v)
    }
}

// ── Pods ───────────────────────────────────────────────────────────────────

/// What the fleet logic reads of a pod.
#[derive(Debug, Clone)]
pub struct PodInfo {
    /// Pod name.
    pub name: Option<String>,
    /// Pod labels (key, value).
    pub labels: Vec<(String, String)>,
    /// Status phase (e.g. `Running`), when the pod has a status.
    pub phase: Option<String>,
    /// Status conditions (type, status), when the pod reports them.
    pub conditions: Option<Vec<(String, String)>>,
}

/// The value of the first `role` label.
pub open spec fn role_of(labels: Seq<(String, String)>) -> Option<Seq<char>>
    decreases labels.len(),
{
    if labels.len() == 0 {
        None
    } else if labels[0].0@ == "role"@ {
        Some(labels[0].1@)
    } else {
        role_of(labels.skip(1))
    }
}

/// Whether a pod is `Running` with a `Ready=True` condition.
pub open spec fn pod_ready(p: PodInfo) -> bool {
    &&& p.phase matches Some(ph) && ph@ == "Running"@
    &&& p.conditions matches Some(cs) && exists|i: int|
        0 <= i < cs@.len() && cs@[i].0@ == "Ready"@ && #[trigger] cs@[i].1@ == "True"@
}

/// The `role` label of a pod, if it has one.
pub fn pod_role(pod: &PodInfo) -> (r: Option<&str>)
    ensures
        match role_of(pod.labels@) {
            Some(x) => r matches Some(s) && s@ == x,
            None => r is None,
        },
{
    let mut i: usize = 0;
    assert(pod.labels@.skip(0) =~= pod.labels@);
    while i < pod.labels.len()
        invariant
            i <= pod.labels@.len(),
            role_of(pod.labels@) == role_of(pod.labels@.skip(i as int)),
        decreases pod.labels@.len() - i,
    {
        proof {
            assert(pod.labels@.skip(i as int)[0] == pod.labels@[i as int]);
            assert(pod.labels@.skip(i as int).skip(1) =~= pod.labels@.skip(i + 1));
        }
        if str_eq(pod.labels[i].0.as_str(), "role") {
            return Some(pod.labels[i].1.as_str());
        }
        i = i + 1;
    }
    None
}

/// Whether a pod is `Running` with a `Ready=True` condition.
pub fn is_pod_ready(pod: &PodInfo) -> (b: bool)
    ensures
        b == pod_ready(*pod),
{
    let running = match &pod.phase {
        Some(ph) => str_eq(ph.as_str(), "Running"),
        None => false,
    };
    if !running {
        return false;
    }
    match &pod.conditions {
        None => false,
        Some(cs) => {
            let mut i: usize = 0;
            while i < cs.len()
                invariant
                    i <= cs@.len(),
                    pod.phase matches Some(ph) && ph@ == "Running"@,
                    pod.conditions matches Some(c) && c@ == cs@,
                    forall|k: int| 0 <= k < i ==> !(cs@[k].0@ == "Ready"@ && #[trigger] cs@[k].1@ == "True"@),
                decreases cs@.len() - i,
            {
                if str_eq(cs[i].0.as_str(), "Ready") && str_eq(cs[i].1.as_str(), "True") {
                    assert(cs@[i as int].0@ == "Ready"@ && cs@[i as int].1@ == "True"@);
                    return true;
                }
                i = i + 1;
            }
            false
        },
    }
}

/// The number of ready pods.
pub open spec fn ready_count(pods: Seq<PodInfo>) -> nat
    decreases pods.len(),
{
    if pods.len() == 0 {
        0
    } else {
        ready_count(pods.drop_last()) + if pod_ready(pods.last()) { 1nat } else { 0nat }
    }
}

/// Counts the ready pods.
pub fn count_ready(pods: &[PodInfo]) -> (n: usize)
    ensures
        n == ready_count(pods@),
{
    let mut n: usize = 0;
    let mut i: usize = 0;
    while i < pods.len()
        invariant
            i <= pods@.len(),
            n == ready_count(pods@.take(i as int)),
            n <= i,
        decreases pods@.len() - i,
    {
        proof {
            let p = pods@.take(i + 1);
            assert(p.drop_last() == pods@.take(i as int));
            assert(p.last() == pods@[i as int]);
        }
        if is_pod_ready(&pods[i]) {
            n = n + 1;
        }
        i = i + 1;
    }
    proof {
        assert(pods@.take(pods@.len() as int) == pods@);
    }
    n
}

/// The pods whose `role` label is `role`, in order.
pub open spec fn pods_with_role(pods: Seq<PodInfo>, role: Seq<char>) -> Seq<PodInfo>
    decreases pods.len(),
{
    if pods.len() == 0 {
        seq![]
    } else {
        let prev = pods_with_role(pods.drop_last(), role);
        if role_of(pods.last().labels@) == Some(role) { prev.push(pods.last()) } else { prev }
    }
}

/// The names of the named pods among `pods`, in order.
pub open spec fn named(pods: Seq<PodInfo>) -> Seq<Seq<char>>
    decreases pods.len(),
{
    if pods.len() == 0 {
        seq![]
    } else {
        let prev = named(pods.drop_last());
        match pods.last().name {
            Some(n) => prev.push(n@),
            None => prev,
        }
    }
}

/// The pods of a role to delete so that `keep` remain: the first ones beyond
/// `keep`, counted from the start of the list.
pub open spec fn deletion_plan(pods: Seq<PodInfo>, role: Seq<char>, keep: nat) -> Seq<Seq<char>> {
    let rs = pods_with_role(pods, role);
    let n = if rs.len() >= keep { (rs.len() - keep) as int } else { 0int };
    named(rs.take(n))
}

proof fn lemma_pods_with_role_len(pods: Seq<PodInfo>, role: Seq<char>)
    ensures
        pods_with_role(pods, role).len() <= pods.len(),
    decreases pods.len(),
{
    if pods.len() > 0 {
        lemma_pods_with_role_len(pods.drop_last(), role);
    }
}

/// The names of the pods of `role` to delete, keeping `keep` of them; pods
/// without a name are skipped.
pub fn pods_to_delete(pods: &[PodInfo], role: &str, keep: usize) -> (names: Vec<String>)
    ensures
        names@.len() == deletion_plan(pods@, role@, keep as nat).len(),
        forall|i: int| 0 <= i < names@.len() ==> #[trigger] names@[i]@ == deletion_plan(pods@, role@, keep as nat)[i],
{
    let mut matching: Vec<usize> = Vec::new();
    let mut i: usize = 0;
    while i < pods.len()
        invariant
            i <= pods@.len(),
            matching@.len() == pods_with_role(pods@.take(i as int), role@).len(),
            forall|k: int| 0 <= k < matching@.len() ==> #[trigger] matching@[k] < i && pods@[matching@[k] as int]
                == pods_with_role(pods@.take(i as int), role@)[k],
        decreases pods@.len() - i,
    {
        proof {
            let p = pods@.take(i + 1);
            assert(p.drop_last() == pods@.take(i as int));
            assert(p.last() == pods@[i as int]);
        }
        let r = pod_role(&pods[i]);
        let is_role = match r {
            Some(x) => str_eq(x, role),
            None => false,
        };
        if is_role {
            matching.push(i);
        }
        i = i + 1;
    }
    proof {
        assert(pods@.take(pods@.len() as int) == pods@);
        lemma_pods_with_role_len(pods@, role@);
    }
    let ghost rs = pods_with_role(pods@, role@);
    let to_delete: usize = if matching.len() >= keep { matching.len() - keep } else { 0 };
    let mut names: Vec<String> = Vec::new();
    let mut j: usize = 0;
    while j < to_delete
        invariant
            j <= to_delete <= matching@.len(),
            matching@.len() == rs.len(),
            to_delete == (if rs.len() >= keep { (rs.len() - keep) as int } else { 0int }),
            forall|k: int| 0 <= k < matching@.len() ==> #[trigger] matching@[k] < pods@.len() && pods@[matching@[k] as int]
                == rs[k],
            names@.len() == named(rs.take(j as int)).len(),
            forall|k: int| 0 <= k < names@.len() ==> #[trigger] names@[k]@ == named(rs.take(j as int))[k],
        decreases to_delete - j,
    {
        proof {
            let p = rs.take(j + 1);
            assert(p.drop_last() == rs.take(j as int));
            assert(p.last() == rs[j as int]);
        }
        let pod = &pods[matching[j]];
        match &pod.name {
            Some(n) => {
                names.push(n.clone());
            },
            None => {},
        }
        j = j + 1;
    }
    names
}

// ── Fleet statistics ───────────────────────────────────────────────────────

/// The role a pod is counted under: its `role` label, or `unknown`.
pub open spec fn role_name(p: PodInfo) -> Seq<char> {
    match role_of(p.labels@) {
        Some(r) => r,
        None => "unknown"@,
    }
}

/// The number of pods counted under role `r`.
pub open spec fn role_count(pods: Seq<PodInfo>, r: Seq<char>) -> nat
    decreases pods.len(),
{
    if pods.len() == 0 {
        0
    } else {
        role_count(pods.drop_last(), r) + if role_name(pods.last()) == r { 1nat } else { 0nat }
    }
}

/// Role `r` has an entry among `roles`.
pub open spec fn listed(roles: Seq<(String, usize)>, r: Seq<char>) -> bool {
    exists|j: int| 0 <= j < roles.len() && (#[trigger] roles[j]).0@ == r
}

/// `roles` counts the pods by role: one entry per role present, each with
/// its number of pods.
pub open spec fn counts_roles(roles: Seq<(String, usize)>, pods: Seq<PodInfo>) -> bool {
    &&& forall|j: int| 0 <= j < roles.len() ==> (#[trigger] roles[j]).1 == role_count(pods, roles[j].0@)
    &&& forall|j: int, k: int| 0 <= j < k < roles.len() ==> (#[trigger] roles[j]).0@ != (#[trigger] roles[k]).0@
    &&& forall|r: Seq<char>| #[trigger] role_count(pods, r) > 0 ==> listed(roles, r)
}

/// The statistics of a worker fleet.
#[derive(Debug, Clone)]
pub struct FleetStats {
    /// Worker pods.
    pub total_pods: usize,
    /// Ready worker pods.
    pub ready_pods: usize,
    /// Pods per role.
    pub roles: Vec<(String, usize)>,
    /// Namespace of the fleet.
    pub namespace: String,
}

proof fn lemma_role_count_le(pods: Seq<PodInfo>, r: Seq<char>)
    ensures
        role_count(pods, r) <= pods.len(),
    decreases pods.len(),
{
    if pods.len() > 0 {
        lemma_role_count_le(pods.drop_last(), r);
    }
}

fn role_name_of(p: &PodInfo) -> (r: String)
    ensures
        r@ == role_name(*p),
{
    match pod_role(p) {
        Some(x) => String::from_str(x),
        None => String::from_str("unknown"),
    }
}

/// Counts the pods of a fleet, the ready ones and those of each role.
pub fn fleet_stats(namespace: &str, pods: &[PodInfo]) -> (st: FleetStats)
    ensures
        st.total_pods == pods@.len(),
        st.ready_pods == ready_count(pods@),
        counts_roles(st.roles@, pods@),
        st.namespace@ == namespace@,
{
    let mut roles: Vec<(String, usize)> = Vec::new();
    let mut i: usize = 0;
    while i < pods.len()
        invariant
            i <= pods@.len(),
            counts_roles(roles@, pods@.take(i as int)),
        decreases pods@.len() - i,
    {
        let ghost before = pods@.take(i as int);
        let ghost after = pods@.take(i + 1);
        proof {
            assert(after.drop_last() =~= before);
            assert(after.last() == pods@[i as int]);
            lemma_role_count_le(before, role_name(pods@[i as int]));
        }
        let name = role_name_of(&pods[i]);
        let mut j: usize = 0;
        let mut found: Option<usize> = None;
        while j < roles.len()
            invariant_except_break
                j <= roles@.len(),
                found is None,
                forall|k: int| 0 <= k < j ==> (#[trigger] roles@[k]).0@ != name@,
            ensures
                found matches Some(k) ==> k < roles@.len() && roles@[k as int].0@ == name@,
                found is None ==> forall|k: int| 0 <= k < roles@.len() ==> (#[trigger] roles@[k]).0@ != name@,
            decreases roles@.len() - j,
        {
            if crate::text::str_eq(roles[j].0.as_str(), name.as_str()) {
                found = Some(j);
                break;
            }
            j = j + 1;
        }
        let ghost old_roles = roles@;
        match found {
            Some(k) => {
                proof {
                    assert(old_roles[k as int].1 == role_count(before, name@));
                }
                let c = roles[k].1;
                let entry = (roles[k].0.clone(), c + 1);
                roles.set(k, entry);
                proof {
                    assert forall|m: int| 0 <= m < roles@.len() implies (#[trigger] roles@[m]).1 == role_count(
                        after,
                        roles@[m].0@,
                    ) by {
                        if m != k {
                            assert(roles@[m] == old_roles[m]);
                        }
                    }
                    assert forall|r: Seq<char>| #[trigger] role_count(after, r) > 0 implies listed(roles@, r) by {
                        if r == name@ {
                            assert(roles@[k as int].0@ == r);
                        } else {
                            assert(role_count(before, r) > 0);
                            let w = choose|w: int| 0 <= w < old_roles.len() && (#[trigger] old_roles[w]).0@ == r;
                            assert(roles@[w].0@ == r);
                        }
                    }
                    assert forall|a: int, b: int| 0 <= a < b < roles@.len() implies (#[trigger] roles@[a]).0@
                        != (#[trigger] roles@[b]).0@ by {
                        assert(roles@[a].0@ == old_roles[a].0@);
                        assert(roles@[b].0@ == old_roles[b].0@);
                    }
                }
            },
            None => {
                proof {
                    if role_count(before, name@) > 0 {
                        let w = choose|w: int| 0 <= w < old_roles.len() && (#[trigger] old_roles[w]).0@ == name@;
                        assert(false);
                    }
                }
                roles.push((name, 1));
                proof {
                    let n = old_roles.len();
                    assert forall|m: int| 0 <= m < roles@.len() implies (#[trigger] roles@[m]).1 == role_count(
                        after,
                        roles@[m].0@,
                    ) by {
                        if m < n {
                            assert(roles@[m] == old_roles[m]);
                        }
                    }
                    assert forall|r: Seq<char>| #[trigger] role_count(after, r) > 0 implies listed(roles@, r) by {
                        if r == roles@[n as int].0@ {
                            assert(roles@[n as int].0@ == r);
                        } else {
                            assert(role_count(before, r) > 0);
                            let w = choose|w: int| 0 <= w < old_roles.len() && (#[trigger] old_roles[w]).0@ == r;
                            assert(roles@[w].0@ == r);
                        }
                    }
                    assert forall|a: int, b: int| 0 <= a < b < roles@.len() implies (#[trigger] roles@[a]).0@
                        != (#[trigger] roles@[b]).0@ by {
                        if b == n {
                            assert(roles@[a] == old_roles[a]);
                        } else {
                            assert(roles@[a] == old_roles[a]);
                            assert(roles@[b] == old_roles[b]);
                        }
                    }
                }
            },
        }
        i = i + 1;
    }
    proof {
        assert(pods@.take(pods@.len() as int) =~= pods@);
    }
    FleetStats {
        total_pods: pods.len(),
        ready_pods: count_ready(pods),
        roles,
        namespace: String::from_str(namespace),
    }
}

// ── Worker pod and service specs ───────────────────────────────────────────

/// An environment variable of a worker container: a literal value, or a key
/// of a secret (secret name, key).
#[derive(Debug, Clone)]
pub struct EnvVarSpec {
    pub name: String,
    pub value: Option<String>,
    pub secret_key_ref: Option<(String, String)>,
}

/// An HTTP probe of a worker container.
#[derive(Debug, Clone)]
pub struct ProbeSpec {
    pub path: String,
    pub port: i32,
    pub initial_delay_seconds: i32,
    pub period_seconds: i32,
    pub timeout_seconds: Option<i32>,
    pub failure_threshold: Option<i32>,
}

/// Everything a worker pod is made of.
#[derive(Debug, Clone)]
pub struct WorkerPodSpec {
    pub name: String,
    pub labels: Vec<(String, String)>,
    pub container_name: String,
    pub image: String,
    pub command: Vec<String>,
    pub args: Vec<String>,
    pub container_port: i32,
    pub env: Vec<EnvVarSpec>,
    /// Volume mount name.
    pub mount_name: String,
    /// Where the volume is mounted.
    pub mount_path: String,
    /// Whether the mount is read-only.
    pub mount_read_only: bool,
    /// Resource requests: (resource, quantity).
    pub requests: Vec<(String, String)>,
    /// Resource limits: (resource, quantity).
    pub limits: Vec<(String, String)>,
    pub liveness_probe: ProbeSpec,
    pub readiness_probe: ProbeSpec,
    /// Name of the configuration volume.
    pub volume_name: String,
    /// ConfigMap behind the configuration volume.
    pub volume_config_map: String,
    pub restart_policy: String,
}

/// The worker service: a ClusterIP service in front of the workers.
#[derive(Debug, Clone)]
pub struct WorkerServiceSpec {
    pub name: String,
    pub labels: Vec<(String, String)>,
    pub selector: Vec<(String, String)>,
    pub port: i32,
    pub target_port: i32,
    pub protocol: String,
    pub port_name: String,
    pub service_type: String,
}

fn s(text: &str) -> (r: String)
    ensures
        r@ == text@,
{
    String::from_str(text)
}

fn pair(a: &str, b: &str) -> (r: (String, String))
    ensures
        r.0@ == a@,
        r.1@ == b@,
{
    (String::from_str(a), String::from_str(b))
}

/// The pod of worker `name` with role `role`. `rust_log` is the log filter
/// handed down to the worker (`RUST_LOG`, `info` when unset).
pub fn worker_pod_spec(config: &K8sManagerConfig, name: &str, role: &str, rust_log: &str) -> (p: WorkerPodSpec)
    ensures
        p.name@ == name@,
        p.labels@.len() == 2,
        p.labels@[0].0@ == config.label_key@ && p.labels@[0].1@ == config.label_value@,
        p.labels@[1].0@ == "role"@ && p.labels@[1].1@ == role@,
        p.container_name@ == "ravenclaws"@,
        p.image@ == config.image@,
        p.command@.len() == 1 && p.command@[0]@ == "/app/ravenclaws"@,
        p.args@.len() == 3 && p.args@[0]@ == "--config"@ && p.args@[1]@ == "/etc/ravenclaws/ravenclaws.toml"@
            && p.args@[2]@ == "--serve"@,
        p.container_port == 8080,
        p.env@.len() == 4,
        p.env@[0].name@ == "LITELLM_API_KEY"@ && p.env@[0].value is None && (p.env@[0].secret_key_ref matches Some(
            r,
        ) && r.0@ == config.secret_name@ && r.1@ == config.secret_key@),
        p.env@[1].name@ == "RAVENCLAWS_ROLE"@ && (p.env@[1].value matches Some(v) && v@ == role@)
            && p.env@[1].secret_key_ref is None,
        p.env@[2].name@ == "RAVENCLAW_OTEL_DISABLED"@ && (p.env@[2].value matches Some(v) && v@ == "true"@)
            && p.env@[2].secret_key_ref is None,
        p.env@[3].name@ == "RUST_LOG"@ && (p.env@[3].value matches Some(v) && v@ == rust_log@)
            && p.env@[3].secret_key_ref is None,
        p.mount_name@ == "config"@ && p.mount_path@ == "/etc/ravenclaws"@ && p.mount_read_only,
        p.requests@.len() == 2 && p.requests@[0].0@ == "cpu"@ && p.requests@[0].1@ == "100m"@
            && p.requests@[1].0@ == "memory"@ && p.requests@[1].1@ == "128Mi"@,
        p.limits@.len() == 2 && p.limits@[0].0@ == "cpu"@ && p.limits@[0].1@ == "500m"@ && p.limits@[1].0@
            == "memory"@ && p.limits@[1].1@ == "256Mi"@,
        p.liveness_probe.path@ == "/health"@ && p.liveness_probe.port == 8080
            && p.liveness_probe.initial_delay_seconds == 10 && p.liveness_probe.period_seconds == 15
            && p.liveness_probe.timeout_seconds is None && p.liveness_probe.failure_threshold is None,
        p.readiness_probe.path@ == "/ready"@ && p.readiness_probe.port == 8080
            && p.readiness_probe.initial_delay_seconds == 5 && p.readiness_probe.period_seconds == 15
            && p.readiness_probe.timeout_seconds == Some(5i32) && p.readiness_probe.failure_threshold == Some(3i32),
        p.volume_name@ == "config"@ && p.volume_config_map@ == config.config_map_name@,
        p.restart_policy@ == "Always"@,
{
    let mut labels: Vec<(String, String)> = Vec::new();
    labels.push((config.label_key.clone(), config.label_value.clone()));
    labels.push(pair("role", role));
    let mut command: Vec<String> = Vec::new();
    command.push(s("/app/ravenclaws"));
    let mut args: Vec<String> = Vec::new();
    args.push(s("--config"));
    args.push(s("/etc/ravenclaws/ravenclaws.toml"));
    args.push(s("--serve"));
    let mut env: Vec<EnvVarSpec> = Vec::new();
    env.push(
        EnvVarSpec {
            name: s("LITELLM_API_KEY"),
            value: None,
            secret_key_ref: Some((config.secret_name.clone(), config.secret_key.clone())),
        },
    );
    env.push(EnvVarSpec { name: s("RAVENCLAWS_ROLE"), value: Some(s(role)), secret_key_ref: None });
    env.push(EnvVarSpec { name: s("RAVENCLAW_OTEL_DISABLED"), value: Some(s("true")), secret_key_ref: None });
    env.push(EnvVarSpec { name: s("RUST_LOG"), value: Some(s(rust_log)), secret_key_ref: None });
    let mut requests: Vec<(String, String)> = Vec::new();
    requests.push(pair("cpu", "100m"));
    requests.push(pair("memory", "128Mi"));
    let mut limits: Vec<(String, String)> = Vec::new();
    limits.push(pair("cpu", "500m"));
    limits.push(pair("memory", "256Mi"));
    WorkerPodSpec {
        name: s(name),
        labels,
        container_name: s("ravenclaws"),
        image: config.image.clone(),
        command,
        args,
        container_port: 8080,
        env,
        mount_name: s("config"),
        mount_path: s("/etc/ravenclaws"),
        mount_read_only: true,
        requests,
        limits,
        liveness_probe: ProbeSpec {
            path: s("/health"),
            port: 8080,
            initial_delay_seconds: 10,
            period_seconds: 15,
            timeout_seconds: None,
            failure_threshold: None,
        },
        readiness_probe: ProbeSpec {
            path: s("/ready"),
            port: 8080,
            initial_delay_seconds: 5,
            period_seconds: 15,
            timeout_seconds: Some(5),
            failure_threshold: Some(3),
        },
        volume_name: s("config"),
        volume_config_map: config.config_map_name.clone(),
        restart_policy: s("Always"),
    }
}

/// The name of the worker service: `<label value>-workers`.
pub fn worker_service_name(config: &K8sManagerConfig) -> (n: String)
    ensures
        n@ == config.label_value@ + "-workers"@,
{
    let mut v: Vec<char> = Vec::new();
    push_str(&mut v, config.label_value.as_str());
    push_str(&mut v, "-workers");
    string_from_chars(&v)
}

/// The worker service: port 80 to the workers' 8080 over TCP, selecting and
/// labelled with the worker label.
pub fn worker_service_spec(config: &K8sManagerConfig) -> (svc: WorkerServiceSpec)
    ensures
        svc.name@ == config.label_value@ + "-workers"@,
        svc.labels@.len() == 1 && svc.labels@[0].0@ == config.label_key@ && svc.labels@[0].1@ == config.label_value@,
        svc.selector@.len() == 1 && svc.selector@[0].0@ == config.label_key@ && svc.selector@[0].1@
            == config.label_value@,
        svc.port == 80,
        svc.target_port == 8080,
        svc.protocol@ == "TCP"@,
        svc.port_name@ == "http"@,
        svc.service_type@ == "ClusterIP"@,
{
    let mut labels: Vec<(String, String)> = Vec::new();
    labels.push((config.label_key.clone(), config.label_value.clone()));
    let mut selector: Vec<(String, String)> = Vec::new();
    selector.push((config.label_key.clone(), config.label_value.clone()));
    WorkerServiceSpec {
        name: worker_service_name(config),
        labels,
        selector,
        port: 80,
        target_port: 8080,
        protocol: s("TCP"),
        port_name: s("http"),
        service_type: s("ClusterIP"),
    }
}

} // verus!
