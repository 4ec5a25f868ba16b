use agent::registry::{
    ContainerManifest, ContainerRegistry, PathConfig, RegisteredContainer, RuntimeConfig,
};

fn container(id: &str, name: &str, root: &str) -> RegisteredContainer {
    RegisteredContainer {
        manifest: ContainerManifest {
            id: id.to_string(),
            name: name.to_string(),
            version: Some("1.0".to_string()),
            entrypoint: None,
            runtime: RuntimeConfig { build: None },
            paths: PathConfig { program_files: None, appdata: None, local_appdata: None, temp: None },
        },
        root: root.to_string(),
    }
}

#[test]
fn registry_starts_empty() {
    assert!(ContainerRegistry::new().list().is_empty());
}

#[test]
fn registry_keeps_order_and_replaces_same_id() {
    let mut r = ContainerRegistry::new();
    r.insert(container("a", "first", "ra"));
    r.insert(container("b", "second", "rb"));
    r.insert(container("a", "third", "ra2"));
    let listed = r.list();
    assert_eq!(listed.len(), 2);
    assert_eq!(listed[0].manifest.id, "a");
    assert_eq!(listed[0].manifest.name, "third");
    assert_eq!(listed[0].root, "ra2");
    assert_eq!(listed[1].manifest.name, "second");
}
