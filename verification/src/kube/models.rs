//! The notebook resource and its volume claim.
use vstd::prelude::*;

use crate::config::Notebook;
use crate::text::{
    clone_opt_string, clone_opt_strings, copy_string, decimal, decimal_string, join_strings,
    join_with, opt_view, opt_views, views,
};

verus! {

/// The namespace notebooks run in.
pub const NAMESPACE: &'static str = "notebook";

/// The body of a notebook resource.
#[derive(Debug)]
pub struct NotebookSpec {
    pub template: NotebookTemplateSpec,
}

/// The pod template of a notebook.
#[derive(Debug)]
pub struct NotebookTemplateSpec {
    pub spec: PodSpec,
}

/// The pod of a notebook.
#[derive(Debug)]
pub struct PodSpec {
    pub containers: Vec<ContainerSpec>,
    pub image_pull_secrets: Option<Vec<ImagePullSecret>>,
    pub volumes: Option<Vec<VolumeSpec>>,
}

/// A secret for pulling an image.
#[derive(Debug)]
pub struct ImagePullSecret {
    pub name: String,
}

/// The notebook container.
#[derive(Debug)]
pub struct ContainerSpec {
    pub name: String,
    pub image: String,
    pub resources: Option<ResourceRequirements>,
    pub workingdir: Option<String>,
    pub image_pull_policy: String,
    pub volume_mounts: Option<Vec<VolumeMount>>,
    pub command: Option<Vec<String>>,
    pub args: Option<Vec<String>>,
    pub env: Option<Vec<EnvVar>>,
}

/// Resource requests and limits, each a list of resource names and
/// quantities kept as a map keeps them: by name, in strictly ascending order
/// (see `ResourceRequirements::wf`).
#[derive(Debug)]
pub struct ResourceRequirements {
    pub requests: Vec<(String, String)>,
    pub limits: Vec<(String, String)>,
}

/// `a` sorts strictly before `b` in the order of strings: by the first
/// character where they differ, and a proper prefix first.
pub open spec fn text_before(a: Seq<char>, b: Seq<char>) -> bool
    decreases a.len(),
{
    if a.len() == 0 {
        b.len() > 0
    } else if b.len() == 0 {
        false
    } else if a[0] != b[0] {
        (a[0] as u32) < (b[0] as u32)
    } else {
        text_before(a.drop_first(), b.drop_first())
    }
}

/// The names are in strictly ascending order, so no name occurs twice.
pub open spec fn names_ascending(v: Seq<(Seq<char>, Seq<char>)>) -> bool {
    forall|i: int, j: int| 0 <= i < j < v.len() ==> text_before(v[i].0, v[j].0)
}

impl ResourceRequirements {
    /// Requests and limits each name a resource at most once, in ascending
    /// order of names.
    pub open spec fn wf(self) -> bool {
        &&& names_ascending(pair_views(self.requests@))
        &&& names_ascending(pair_views(self.limits@))
    }
}

/// An environment variable.
#[derive(Debug)]
pub struct EnvVar {
    pub name: String,
    pub value: String,
}

/// A volume mounted into the container.
#[derive(Debug)]
pub struct VolumeMount {
    pub name: String,
    pub mount_path: String,
}

/// A volume of the pod.
#[derive(Debug)]
pub struct VolumeSpec {
    pub name: String,
    pub persistent_volume_claim: Option<PersistentVolumeClaimSpec>,
    pub config_map: Option<ConfigMapSpec>,
}

/// A config map used as a volume.
#[derive(Debug)]
pub struct ConfigMapSpec {
    pub name: String,
}

/// A persistent volume claim used as a volume.
#[derive(Debug)]
pub struct PersistentVolumeClaimSpec {
    pub claim_name: String,
    pub read_only: Option<bool>,
}

/// The characters of each name and value.
pub open spec fn pair_views(v: Seq<(String, String)>) -> Seq<(Seq<char>, Seq<char>)> {
    v.map_values(|p: (String, String)| (p.0@, p.1@))
}

/// The characters of each environment variable.
pub open spec fn env_views(v: Seq<EnvVar>) -> Seq<(Seq<char>, Seq<char>)> {
    v.map_values(|e: EnvVar| (e.name@, e.value@))
}

/// The compute resources every notebook requests and is limited to.
pub open spec fn notebook_resources() -> Seq<(Seq<char>, Seq<char>)> {
    seq![("cpu"@, "2"@), ("memory"@, "4Gi"@)]
}

/// The argument that serves a notebook under its own path.
pub open spec fn base_url_arg(name: Seq<char>) -> Seq<char> {
    "--ServerApp.base_url='notebook/"@ + NAMESPACE@ + "/"@ + name + "'"@
}

/// The value of `NOTEBOOK_ARGS`: the image's notebook arguments and the base
/// URL argument, separated by spaces.
pub open spec fn notebook_args(image_args: Seq<Seq<char>>, name: Seq<char>) -> Seq<char> {
    join_with(image_args.push(base_url_arg(name)), " "@)
}

/// The notebook arguments an image configures.
pub open spec fn image_notebook_env(image: &Notebook) -> Seq<Seq<char>> {
    match image.notebook_env {
        Some(v) => views(v@),
        None => Seq::empty(),
    }
}

/// The container of a notebook spec is the one the image describes.
pub open spec fn container_of(
    c: ContainerSpec,
    name: Seq<char>,
    image: &Notebook,
    volume_name: Seq<char>,
    env_to_add: Seq<(Seq<char>, Seq<char>)>,
) -> bool {
    &&& c.name@ == name
    &&& c.image@ == image.url@
    &&& c.resources matches Some(res) && res.wf() && pair_views(res.requests@)
        == notebook_resources() && pair_views(res.limits@) == notebook_resources()
    &&& opt_view(c.workingdir) == opt_view(image.working_dir)
    &&& c.image_pull_policy@ == image.pull_policy@
    &&& c.volume_mounts matches Some(m) && m@.len() == 1 && m@[0].name@ == volume_name
        && m@[0].mount_path@ == (match image.volume_mnt_path {
        Some(p) => p@,
        None => Seq::<char>::empty(),
    })
    &&& opt_views(c.command) == opt_views(image.command)
    &&& opt_views(c.args) == opt_views(image.args)
    &&& c.env matches Some(e) && env_views(e@) == seq![
        ("NOTEBOOK_ARGS"@, notebook_args(image_notebook_env(image), name)),
    ] + env_to_add
}

/// The pod's only volume is the claim `volume_name`, writable.
pub open spec fn volumes_of(vs: Option<Vec<VolumeSpec>>, volume_name: Seq<char>) -> bool {
    match vs {
        Some(vs) => vs@.len() == 1 && vs@[0].name@ == volume_name && vs@[0].config_map is None
            && match vs@[0].persistent_volume_claim {
            Some(pvc) => pvc.claim_name@ == volume_name && pvc.read_only is None,
            None => false,
        },
        None => false,
    }
}

fn string_pair(a: &str, b: &str) -> (r: (String, String))
    ensures
        r.0@ == a@,
        r.1@ == b@,
{
    (copy_string(a), copy_string(b))
}

fn notebook_resource_list() -> (r: Vec<(String, String)>)
    ensures
        pair_views(r@) == notebook_resources(),
        names_ascending(pair_views(r@)),
{
    proof {
        reveal_strlit("cpu");
        reveal_strlit("memory");
        assert(text_before("cpu"@, "memory"@));
    }
    let mut v: Vec<(String, String)> = Vec::new();
    v.push(string_pair("cpu", "2"));
    v.push(string_pair("memory", "4Gi"));
    assert(pair_views(v@) =~= notebook_resources());
    v
}

impl NotebookSpec {
    /// The notebook resource `name` for the image `notebook_image`, with its
    /// volume claim `volume_name` and the extra environment `env_to_add`.
    /// Also hands back the image's start-up URL and maximum idle time.
    pub fn new(
        name: String,
        notebook_image: &Notebook,
        volume_name: String,
        notebook_start_url: &mut Option<String>,
        max_idle_time: &mut Option<u64>,
        env_to_add: Vec<(String, String)>,
    ) -> (r: Self)
        ensures
            r.template.spec.containers@.len() == 1,
            container_of(
                r.template.spec.containers@[0],
                name@,
                notebook_image,
                volume_name@,
                pair_views(env_to_add@),
            ),
            match notebook_image.secret {
                Some(s) => r.template.spec.image_pull_secrets matches Some(ps) && ps@.len() == 1
                    && ps@[0].name@ == s@,
                None => r.template.spec.image_pull_secrets is None,
            },
            volumes_of(r.template.spec.volumes, volume_name@),
            opt_view(*final(notebook_start_url)) == opt_view(notebook_image.start_up_url),
            *final(max_idle_time) == notebook_image.max_idle_time,
    {
        let mut notebook_env: Vec<String> = match &notebook_image.notebook_env {
            Some(v) => crate::text::clone_strings(v),
            None => Vec::new(),
        };
        assert(views(notebook_env@) == image_notebook_env(notebook_image));
        let base = copy_string("--ServerApp.base_url='notebook/").concat(NAMESPACE).concat(
            "/",
        ).concat(name.as_str()).concat("'");
        let ghost before = notebook_env@;
        notebook_env.push(base);
        assert(views(notebook_env@) =~= views(before).push(base_url_arg(name@)));
        let mut env: Vec<EnvVar> = Vec::new();
        env.push(EnvVar { name: copy_string("NOTEBOOK_ARGS"), value: join_strings(&notebook_env, " ") });
        let mut i: usize = 0;
        while i < env_to_add.len()
            invariant
                i <= env_to_add@.len(),
                env_views(env@) == seq![
                    ("NOTEBOOK_ARGS"@, notebook_args(image_notebook_env(notebook_image), name@)),
                ] + pair_views(env_to_add@).take(i as int),
            decreases env_to_add@.len() - i,
        {
            let ghost before_env = env@;
            env.push(EnvVar { name: env_to_add[i].0.clone(), value: env_to_add[i].1.clone() });
            assert(env_views(env@) =~= env_views(before_env).push(
                (env_to_add@[i as int].0@, env_to_add@[i as int].1@),
            ));
            assert(pair_views(env_to_add@).take(i + 1) =~= pair_views(env_to_add@).take(i as int).push(
                (env_to_add@[i as int].0@, env_to_add@[i as int].1@),
            ));
            i = i + 1;
        }
        assert(pair_views(env_to_add@).take(env_to_add@.len() as int) =~= pair_views(env_to_add@));
        *notebook_start_url = clone_opt_string(&notebook_image.start_up_url);
        *max_idle_time = notebook_image.max_idle_time;
        let mount_path = match &notebook_image.volume_mnt_path {
            Some(p) => p.clone(),
            None => String::new(),
        };
        let mut volume_mounts: Vec<VolumeMount> = Vec::new();
        volume_mounts.push(VolumeMount { name: volume_name.clone(), mount_path });
        let image_pull_secrets = match &notebook_image.secret {
            Some(secret) => {
                let mut v: Vec<ImagePullSecret> = Vec::new();
                v.push(ImagePullSecret { name: secret.clone() });
                Some(v)
            },
            None => None,
        };
        let mut volumes: Vec<VolumeSpec> = Vec::new();
        volumes.push(
            VolumeSpec {
                name: volume_name.clone(),
                persistent_volume_claim: Some(
                    PersistentVolumeClaimSpec { claim_name: volume_name, read_only: None },
                ),
                config_map: None,
            },
        );
        let mut containers: Vec<ContainerSpec> = Vec::new();
        containers.push(
            ContainerSpec {
                name,
                image: notebook_image.url.clone(),
                resources: Some(
                    ResourceRequirements {
                        requests: notebook_resource_list(),
                        limits: notebook_resource_list(),
                    },
                ),
                image_pull_policy: notebook_image.pull_policy.clone(),
                volume_mounts: Some(volume_mounts),
                command: clone_opt_strings(&notebook_image.command),
                args: clone_opt_strings(&notebook_image.args),
                workingdir: clone_opt_string(&notebook_image.working_dir),
                env: Some(env),
            },
        );
        NotebookSpec {
            template: NotebookTemplateSpec {
                spec: PodSpec { containers, image_pull_secrets, volumes: Some(volumes) },
            },
        }
    }
}

/// A persistent volume claim for a notebook's storage.
#[derive(Debug)]
pub struct PVCSpec {
    /// The name of the claim.
    pub name: String,
    /// The access modes of the claim.
    pub access_modes: Vec<String>,
    /// The storage requested, in the Kubernetes quantity notation.
    pub storage: String,
}

impl PVCSpec {
    /// A claim `name` of `storage_size` gibibytes, mounted read-write by one node.
    pub fn new(name: String, storage_size: usize) -> (r: Self)
        ensures
            r.name == name,
            views(r.access_modes@) == seq!["ReadWriteOnce"@],
            r.storage@ == decimal(storage_size as nat) + "Gi"@,
    {
        let mut access_modes: Vec<String> = Vec::new();
        access_modes.push(copy_string("ReadWriteOnce"));
        assert(views(access_modes@) =~= seq!["ReadWriteOnce"@]);
        PVCSpec { name, access_modes, storage: decimal_string(storage_size).concat("Gi") }
    }
}

} // verus!
