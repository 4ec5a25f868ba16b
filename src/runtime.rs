//! Policy engine: from a container descriptor and its root directory to the
//! resolved path layout and the hook plan handed to the interception
//! pipeline and the launcher.

use vstd::prelude::*;
use crate::paths::{path_join, join_path};
use crate::registry::{ContainerManifest, RegisteredContainer};

verus! {

/// A virtualized environment alias and the host path it stands for.
#[derive(Clone, Debug)]
pub struct MountPlan {
    pub alias: String,
    pub host_path: String,
}

/// Prefix rewrite: paths under `original` are served from under `redirected`.
#[derive(Clone, Debug)]
pub struct PathRedirect {
    pub original: String,
    pub redirected: String,
}

/// Resolved policy of one container: environment overlay, alias descriptors
/// and redirect rules (tried in declaration order).
#[derive(Clone, Debug)]
pub struct HookPlan {
    pub env: Vec<(String, String)>,
    pub mounts: Vec<MountPlan>,
    pub redirects: Vec<PathRedirect>,
}

/// The four virtualized roots of one container, as host paths.
#[derive(Clone, Debug)]
pub struct PathLayout {
    pub program_files: String,
    pub appdata: String,
    pub local_appdata: String,
    pub temp: String,
}

/// Stateless builder of hook plans.
pub struct HookEngine;

pub open spec fn env_view(env: Seq<(String, String)>) -> Seq<(Seq<char>, Seq<char>)> {
    env.map_values(|e: (String, String)| (e.0@, e.1@))
}

pub open spec fn mounts_view(mounts: Seq<MountPlan>) -> Seq<(Seq<char>, Seq<char>)> {
    mounts.map_values(|m: MountPlan| (m.alias@, m.host_path@))
}

/// `root` joined with the override when there is one, else with `default`.
pub open spec fn resolved_root(root: Seq<char>, value: Option<String>, default: Seq<char>) -> Seq<
    char,
> {
    match value {
        Some(v) => path_join(root, v@),
        None => path_join(root, default),
    }
}

impl PathLayout {
    /// The layout that a descriptor and a container root resolve to.
    pub open spec fn resolves(&self, manifest: ContainerManifest, root: Seq<char>) -> bool {
        &&& self.program_files@ == resolved_root(
            root,
            manifest.paths.program_files,
            "rootfs/ProgramFiles"@,
        )
        &&& self.appdata@ == resolved_root(root, manifest.paths.appdata, "user/AppData/Roaming"@)
        &&& self.local_appdata@ == resolved_root(
            root,
            manifest.paths.local_appdata,
            "user/LocalAppData"@,
        )
        &&& self.temp@ == resolved_root(root, manifest.paths.temp, "temp"@)
    }

    pub fn from_manifest(manifest: &ContainerManifest, root: &String) -> (r: Self)
        ensures
            r.resolves(*manifest, root@),
    {
        PathLayout {
            program_files: resolve_path(
                root,
                manifest.paths.program_files.as_ref(),
                "rootfs/ProgramFiles",
            ),
            appdata: resolve_path(root, manifest.paths.appdata.as_ref(), "user/AppData/Roaming"),
            local_appdata: resolve_path(
                root,
                manifest.paths.local_appdata.as_ref(),
                "user/LocalAppData",
            ),
            temp: resolve_path(root, manifest.paths.temp.as_ref(), "temp"),
        }
    }

    /// The directories to materialize before the plan is used, in order:
    /// program files, roaming data, local data, temp.
    pub fn directories(&self) -> (r: Vec<String>)
        ensures
            r@.len() == 4,
            r@[0]@ == self.program_files@,
            r@[1]@ == self.appdata@,
            r@[2]@ == self.local_appdata@,
            r@[3]@ == self.temp@,
    {
        let mut out: Vec<String> = Vec::new();
        out.push(self.program_files.clone());
        out.push(self.appdata.clone());
        out.push(self.local_appdata.clone());
        out.push(self.temp.clone());
        out
    }
}

pub open spec fn keys_distinct(env: Seq<(Seq<char>, Seq<char>)>) -> bool {
    forall|i: int, j: int| 0 <= i < env.len() && 0 <= j < env.len() && i != j ==> env[i].0 != env[j].0
}

/// The environment overlay of a container rooted at `root` with layout `l`.
pub open spec fn plan_env(root: Seq<char>, l: PathLayout) -> Seq<(Seq<char>, Seq<char>)> {
    seq![
        ("CONTAINER_ROOT"@, root),
        ("APPDATA"@, l.appdata@),
        ("LOCALAPPDATA"@, l.local_appdata@),
        ("PROGRAMFILES"@, l.program_files@),
        ("TEMP"@, l.temp@),
        ("TMP"@, l.temp@),
    ]
}

/// The four alias descriptors of layout `l`.
pub open spec fn plan_mounts(l: PathLayout) -> Seq<(Seq<char>, Seq<char>)> {
    seq![
        ("%APPDATA%"@, l.appdata@),
        ("%LOCALAPPDATA%"@, l.local_appdata@),
        ("%PROGRAMFILES%"@, l.program_files@),
        ("%TEMP%"@, l.temp@),
    ]
}

fn env_entry(key: &str, value: &String) -> (r: (String, String))
    ensures
        r.0@ == key@,
        r.1@ == value@,
{
    (String::from_str(key), value.clone())
}

fn mount_entry(alias: &str, host_path: &String) -> (r: MountPlan)
    ensures
        r.alias@ == alias@,
        r.host_path@ == host_path@,
{
    MountPlan { alias: String::from_str(alias), host_path: host_path.clone() }
}

impl HookEngine {
    pub fn new() -> Self {
        HookEngine
    }

    /// The plan of a container rooted at `root` whose directories are laid
    /// out as `layout`: the environment overlay and the alias descriptors of
    /// the four roots; no redirect rule is synthesized.
    pub fn build_plan(&self, root: &String, layout: &PathLayout) -> (r: HookPlan)
        ensures
            env_view(r.env@) == plan_env(root@, *layout),
            keys_distinct(env_view(r.env@)),
            mounts_view(r.mounts@) == plan_mounts(*layout),
            r.redirects@.len() == 0,
    {
        let mut env: Vec<(String, String)> = Vec::new();
        env.push(env_entry("CONTAINER_ROOT", root));
        env.push(env_entry("APPDATA", &layout.appdata));
        env.push(env_entry("LOCALAPPDATA", &layout.local_appdata));
        env.push(env_entry("PROGRAMFILES", &layout.program_files));
        env.push(env_entry("TEMP", &layout.temp));
        env.push(env_entry("TMP", &layout.temp));
        let mut mounts: Vec<MountPlan> = Vec::new();
        mounts.push(mount_entry("%APPDATA%", &layout.appdata));
        mounts.push(mount_entry("%LOCALAPPDATA%", &layout.local_appdata));
        mounts.push(mount_entry("%PROGRAMFILES%", &layout.program_files));
        mounts.push(mount_entry("%TEMP%", &layout.temp));
        assert(env_view(env@) =~= plan_env(root@, *layout));
        assert(mounts_view(mounts@) =~= plan_mounts(*layout));
        proof {
            reveal_strlit("CONTAINER_ROOT");
            reveal_strlit("APPDATA");
            reveal_strlit("LOCALAPPDATA");
            reveal_strlit("PROGRAMFILES");
            reveal_strlit("TEMP");
            reveal_strlit("TMP");
            let e = plan_env(root@, *layout);
            assert forall|i: int, j: int| 0 <= i < e.len() && 0 <= j < e.len() && i != j implies e[i].0
                != e[j].0 by {
                assert(e[i].0.len() != e[j].0.len() || e[i].0[0] != e[j].0[0]
                    || e[i].0[1] != e[j].0[1]);
            }
        }
        HookPlan { env, mounts, redirects: Vec::new() }
    }
}

pub fn resolve_path(root: &String, value: Option<&String>, default: &str) -> (r: String)
    ensures
        r@ == resolved_root(
            root@,
            match value {
                Some(v) => Some(*v),
                None => None,
            },
            default@,
        ),
{
    match value {
        Some(val) => join_path(root.as_str(), val.as_str()),
        None => join_path(root.as_str(), default),
    }
}

} // verus!
