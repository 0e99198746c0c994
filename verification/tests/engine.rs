use setuprs::error::Error;
use setuprs::manifest::Project;
use setuprs::manifest::SetuprsConfig;
use setuprs::manifest::Variables;
use setuprs::manifest::resolve_answers;
use setuprs::snapshot::clone_snapshot;
use setuprs::snapshot::create_snapshot;
use setuprs::snapshot::locate_snapshot;
use setuprs::tree::TreeEntry;

fn file(path: &str, content: &str) -> TreeEntry {
    TreeEntry { path: path.to_string(), content: Some(content.to_string()) }
}

fn dir(path: &str) -> TreeEntry {
    TreeEntry { path: path.to_string(), content: None }
}

fn initialized_source() -> Vec<TreeEntry> {
    vec![
        file("setuprs.toml", "[project]\nname=\"project\""),
        file(".setuprsignore", "file1\nfolder1\nfolder2/file2"),
        file("file1", ""),
        dir("folder1"),
        dir("folder2"),
        file("folder2/file2", ""),
    ]
}

#[test]
fn on_snapshot_create_should_ignore_files_and_folders_on_setuprsignore() {
    let source = initialized_source();
    let snapshot = create_snapshot(&source, "./src_dir", Some("tag_name"), None).unwrap();

    assert_eq!(snapshot.id, "tag_name");
    assert!(!snapshot.entries.iter().any(|e| e.path == "file1"));
    assert!(!snapshot.entries.iter().any(|e| e.path == "folder1"));
    assert!(snapshot.entries.iter().any(|e| e.path == "folder2"));
    assert!(!snapshot.entries.iter().any(|e| e.path == "folder2/file2"));
}

#[test]
fn on_snapshot_create_snapshots_should_fail_when_no_setuprsignore() {
    let source = vec![file(
        "file.toml",
        "config_file_path = '.'\ndebug_mode = 'error'\nsnapshots_path = '.'",
    )];
    let err = create_snapshot(&source, "./src_dir", None, None).unwrap_err();
    assert!(matches!(err, Error::MissingBasicInitialization));
    assert_eq!(
        err.message(),
        "Missing setuprs init files, please run setuprs init"
    );
}

#[test]
fn create_performs_no_copy_without_the_manifest_file() {
    let source = vec![
        file(".setuprsignore", ""),
        file("data.txt", "payload"),
    ];
    let r = create_snapshot(&source, "./src_dir", Some("tag"), None);
    assert!(matches!(r, Err(Error::MissingBasicInitialization)));
}

#[test]
fn on_snapshot_create_should_create_snapshot_with_setuprs_toml_project_name() {
    let config_text = "config_file_path = '.'\ndebug_mode = 'error'\nsnapshots_path = '.'";
    let source = vec![
        file("setuprs.toml", "[project]\nname=\"project\""),
        file(".setuprsignore", ""),
        file("file.toml", config_text),
    ];
    let parsed = SetuprsConfig {
        project: Some(Project { name: "project".to_string() }),
        variables: None,
    };
    let snapshot = create_snapshot(&source, "./src_dir", None, Some(Ok(parsed))).unwrap();

    assert_eq!(snapshot.id, "project");
    let copied = snapshot
        .entries
        .iter()
        .find(|e| e.path == "file.toml")
        .unwrap();
    assert_eq!(copied.content.as_deref(), Some(config_text));
}

#[test]
fn on_snapshot_create_should_create_snapshot_with_uuid() {
    let source = vec![
        file("setuprs.toml", ""),
        file(".setuprsignore", ""),
        file("file.toml", "config_file_path = '.'\ndebug_mode = 'error'\nsnapshots_path = '.'"),
    ];
    let parsed = SetuprsConfig { project: None, variables: None };
    let snapshot = create_snapshot(&source, "./src_dir", None, Some(Ok(parsed))).unwrap();

    assert_eq!(snapshot.id.len(), 36);
    assert!(snapshot.entries.iter().any(|e| e.path == "file.toml"));
}

#[test]
fn on_snapshot_create_snapshots_created_with_tag_success() {
    let config_text = "config_file_path = '.'\ndebug_mode = 'error'\nsnapshots_path = '.'";
    let source = vec![
        file("setuprs.toml", ""),
        file(".setuprsignore", ""),
        file("file.toml", config_text),
    ];
    let snapshot = create_snapshot(&source, "./src_dir", Some("tag_name"), None).unwrap();

    assert_eq!(snapshot.id, "tag_name");
    let copied = snapshot
        .entries
        .iter()
        .find(|e| e.path == "file.toml")
        .unwrap();
    assert_eq!(copied.content.as_deref(), Some(config_text));
}

#[test]
fn create_propagates_a_manifest_parse_failure() {
    let source = vec![
        file("setuprs.toml", "[project"),
        file(".setuprsignore", ""),
    ];
    let err = create_snapshot(
        &source,
        "./src_dir",
        None,
        Some(Err("expected `]`".to_string())),
    )
    .unwrap_err();
    assert_eq!(err.message(), "expected `]`");
    match err {
        Error::TomlError(m) => assert_eq!(m, "expected `]`"),
        other => panic!("unexpected error: {:?}", other),
    }
}

#[test]
fn two_creates_without_any_name_get_distinct_ids() {
    let source = vec![file("setuprs.toml", ""), file(".setuprsignore", "")];
    let parsed_a = SetuprsConfig { project: None, variables: None };
    let parsed_b = SetuprsConfig { project: None, variables: None };
    let a = create_snapshot(&source, "./src_dir", None, Some(Ok(parsed_a))).unwrap();
    let b = create_snapshot(&source, "./src_dir", None, Some(Ok(parsed_b))).unwrap();
    assert_eq!(a.id.len(), 36);
    assert_eq!(b.id.len(), 36);
    assert_ne!(a.id, b.id);
}

#[test]
fn on_snapshot_clone_should_return_err_when_snapshot_dont_exist() {
    let err = locate_snapshot("registry", "snap_inexistent", false).unwrap_err();
    assert!(matches!(err, Error::SnapshotDontExist));
    assert_eq!(err.message(), "Provided snapshot don't exist");
}

#[test]
fn on_snapshot_clone_should_copy_from_snapshot_id() {
    let located = locate_snapshot("registry", "snap_1", true).unwrap();
    assert_eq!(located, "registry/snap_1");

    let snapshot_tree = vec![file("mockfile", "")];
    let answers = resolve_answers(&Vec::new(), &Vec::new());
    let out = clone_snapshot(&snapshot_tree, &answers);
    assert_eq!(out, snapshot_tree);
}

#[test]
fn locate_does_not_double_the_separator() {
    let located = locate_snapshot("registry/", "snap_1", true).unwrap();
    assert_eq!(located, "registry/snap_1");
}

#[test]
fn on_snapshot_clone_snapshots_should_create_and_replace_variables() {
    let vars = vec![
        Variables { name: "var0".to_string(), default: None },
        Variables { name: "var1".to_string(), default: Some("value1".to_string()) },
    ];
    let raw = vec!["value0".to_string(), "".to_string()];
    let answers = resolve_answers(&vars, &raw);

    let snapshot_tree = vec![
        file("setuprs.toml", "[project]\nname = 'snap_1'"),
        file("replaced_file_0.txt", "this value should be replaced -> var0 = {{var0}}"),
        file("replaced_file_1.txt", "this value should be replaced -> var1 = {{var1}}"),
    ];
    let out = clone_snapshot(&snapshot_tree, &answers);

    let content_0 = out
        .iter()
        .find(|e| e.path == "replaced_file_0.txt")
        .unwrap()
        .content
        .clone()
        .unwrap();
    let content_1 = out
        .iter()
        .find(|e| e.path == "replaced_file_1.txt")
        .unwrap()
        .content
        .clone()
        .unwrap();

    assert_eq!("this value should be replaced -> var0 = value0", content_0);
    assert_eq!("this value should be replaced -> var1 = value1", content_1);
    assert_eq!(out.len(), snapshot_tree.len());
}
