use agent::registry::{ContainerManifest, PathConfig, RuntimeConfig};
use agent::runtime::{resolve_path, HookEngine, PathLayout};

fn manifest(id: &str, paths: PathConfig) -> ContainerManifest {
    ContainerManifest {
        id: id.to_string(),
        name: id.to_string(),
        version: None,
        entrypoint: None,
        runtime: RuntimeConfig { build: None },
        paths,
    }
}

fn no_overrides() -> PathConfig {
    PathConfig { program_files: None, appdata: None, local_appdata: None, temp: None }
}

fn env_value<'a>(env: &'a [(String, String)], key: &str) -> Option<&'a str> {
    env.iter().find(|(k, _)| k == key).map(|(_, v)| v.as_str())
}

#[test]
fn default_layout_scenario() {
    let root = "R".to_string();
    let m = manifest("c1", no_overrides());
    let layout = PathLayout::from_manifest(&m, &root);
    let plan = HookEngine::new().build_plan(&root, &layout);
    assert_eq!(env_value(&plan.env, "APPDATA"), Some("R/user/AppData/Roaming"));
    assert_eq!(env_value(&plan.env, "TEMP"), Some("R/temp"));
    assert_eq!(env_value(&plan.env, "TMP"), Some("R/temp"));
    assert_eq!(env_value(&plan.env, "LOCALAPPDATA"), Some("R/user/LocalAppData"));
    assert_eq!(env_value(&plan.env, "PROGRAMFILES"), Some("R/rootfs/ProgramFiles"));
    assert_eq!(env_value(&plan.env, "CONTAINER_ROOT"), Some("R"));
    assert_eq!(plan.env.len(), 6);
    assert!(plan.redirects.is_empty());
}

#[test]
fn overrides_replace_defaults() {
    let root = "C:\\containers\\c2".to_string();
    let paths = PathConfig {
        program_files: Some("apps".to_string()),
        appdata: None,
        local_appdata: Some("D:\\local".to_string()),
        temp: Some("scratch\\tmp".to_string()),
    };
    let layout = PathLayout::from_manifest(&manifest("c2", paths), &root);
    assert_eq!(layout.program_files, "C:\\containers\\c2\\apps");
    assert_eq!(layout.appdata, "C:\\containers\\c2\\user/AppData/Roaming");
    assert_eq!(layout.local_appdata, "D:\\local");
    assert_eq!(layout.temp, "C:\\containers\\c2\\scratch\\tmp");
}

#[test]
fn mounts_name_the_four_roots() {
    let root = "R".to_string();
    let layout = PathLayout::from_manifest(&manifest("c1", no_overrides()), &root);
    let plan = HookEngine::new().build_plan(&root, &layout);
    let mounts: Vec<(&str, &str)> =
        plan.mounts.iter().map(|m| (m.alias.as_str(), m.host_path.as_str())).collect();
    assert_eq!(
        mounts,
        vec![
            ("%APPDATA%", "R/user/AppData/Roaming"),
            ("%LOCALAPPDATA%", "R/user/LocalAppData"),
            ("%PROGRAMFILES%", "R/rootfs/ProgramFiles"),
            ("%TEMP%", "R/temp"),
        ]
    );
}

#[test]
fn directories_list_the_layout() {
    let root = "R".to_string();
    let layout = PathLayout::from_manifest(&manifest("c1", no_overrides()), &root);
    assert_eq!(
        layout.directories(),
        vec![
            "R/rootfs/ProgramFiles".to_string(),
            "R/user/AppData/Roaming".to_string(),
            "R/user/LocalAppData".to_string(),
            "R/temp".to_string(),
        ]
    );
}

#[test]
fn resolve_path_prefers_override() {
    let root = "R".to_string();
    let over = "mine".to_string();
    assert_eq!(resolve_path(&root, Some(&over), "temp"), "R/mine");
    assert_eq!(resolve_path(&root, None, "temp"), "R/temp");
}
