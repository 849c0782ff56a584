use script_runner::mounts::{
    parent_of, resolve_mount_paths, VolumeAccessMode, VolumeMount,
};

#[test]
fn mount_constructors_set_mode() {
    let ro = VolumeMount::read_only("/opt/data".to_string());
    assert_eq!(ro.path, "/opt/data");
    assert_eq!(ro.access_mode, VolumeAccessMode::ReadOnly);

    let rw = VolumeMount::read_write("/work".to_string());
    assert_eq!(rw.path, "/work");
    assert_eq!(rw.access_mode, VolumeAccessMode::ReadWrite);
}

#[test]
fn parent_of_walks_one_level_up() {
    assert_eq!(parent_of("/a/b"), Some("/a".to_string()));
    assert_eq!(parent_of("/a"), Some("/".to_string()));
    assert_eq!(parent_of("/"), None);
    assert_eq!(parent_of("relative"), None);
    assert_eq!(parent_of("a/b"), Some("a".to_string()));
}

#[test]
fn resolution_includes_paths_and_parents() {
    let paths = vec!["/w/build".to_string(), "/opt/data".to_string()];
    let resolved = resolve_mount_paths(&paths);
    assert!(resolved.contains(&"/w/build".to_string()));
    assert!(resolved.contains(&"/w".to_string()));
    assert!(resolved.contains(&"/opt/data".to_string()));
    assert!(resolved.contains(&"/opt".to_string()));
}

#[test]
fn resolution_includes_parent_of_missing_path() {
    // The path need not exist on disk for its parent to be included.
    let paths = vec!["/no/such/path/anywhere".to_string()];
    let resolved = resolve_mount_paths(&paths);
    assert!(resolved.contains(&"/no/such/path/anywhere".to_string()));
    assert!(resolved.contains(&"/no/such/path".to_string()));
}

#[test]
fn resolution_deduplicates() {
    let paths = vec!["/a/b".to_string(), "/a/b".to_string(), "/a".to_string()];
    let resolved = resolve_mount_paths(&paths);
    for i in 0..resolved.len() {
        for j in 0..resolved.len() {
            if i != j {
                assert_ne!(resolved[i], resolved[j]);
            }
        }
    }
    assert_eq!(resolved, vec!["/a/b".to_string(), "/a".to_string(), "/".to_string()]);
}

#[test]
fn resolution_is_deterministic() {
    // Two calls on identical inputs yield identical output.
    let paths = vec!["/w/build".to_string(), "/opt/data".to_string(), "/w".to_string()];
    let first = resolve_mount_paths(&paths);
    let second = resolve_mount_paths(&paths);
    assert_eq!(first, second);
}

#[test]
fn resolution_keeps_first_occurrence_order() {
    let paths = vec!["/b/x".to_string(), "/a/y".to_string()];
    let resolved = resolve_mount_paths(&paths);
    assert_eq!(
        resolved,
        vec!["/b/x".to_string(), "/b".to_string(), "/a/y".to_string(), "/a".to_string()]
    );
}
