use setuprs::ignore::is_ignored;
use setuprs::ignore::load_ignore_patterns;
use setuprs::tree::copy_dir_all;
use setuprs::tree::TreeEntry;

fn file(path: &str, content: &str) -> TreeEntry {
    TreeEntry { path: path.to_string(), content: Some(content.to_string()) }
}

fn dir(path: &str) -> TreeEntry {
    TreeEntry { path: path.to_string(), content: None }
}

#[test]
fn should_return_true_when_file_is_on_ignore() {
    let folder = "sandbox";
    let rules = load_ignore_patterns(folder, "ignored_file_0\nignored_file_1\nfolder/ignored_file_2");

    let on_folder = |file: &str| -> String { format!("{folder}/{file}") };

    assert!(is_ignored(&rules, &format!("{folder}/ignored_file_0")));
    assert!(is_ignored(&rules, &on_folder("ignored_file_0")));
    assert!(is_ignored(&rules, &on_folder("ignored_file_1")));
    assert!(is_ignored(&rules, &on_folder("folder/ignored_file_2")));

    assert!(!is_ignored(&rules, "file_1"));
}

#[test]
fn should_return_false_when_file_is_not_on_ignore() {
    let folder = "sandbox";
    let rules = load_ignore_patterns(folder, "ignored_file_0\nignored_file_1\nfolder/ignored_file_2");

    let on_folder = |file: &str| -> String { format!("{folder}/{file}") };
    assert!(!is_ignored(&rules, &on_folder("file_1")));
    assert!(is_ignored(&rules, &on_folder("ignored_file_0")));
}

#[test]
fn ignore_skips_blank_lines_and_comments() {
    let rules = load_ignore_patterns("root", "\n  \n# a comment\nkept\n");
    assert!(is_ignored(&rules, "root/kept"));
    assert!(!is_ignored(&rules, "root/# a comment"));
    assert!(!is_ignored(&rules, "root/"));
}

#[test]
fn ignore_trims_each_line() {
    let rules = load_ignore_patterns("root", "  spaced  \n\ttabbed\t\n");
    assert!(is_ignored(&rules, "root/spaced"));
    assert!(is_ignored(&rules, "root/tabbed"));
    assert!(!is_ignored(&rules, "root/  spaced  "));
}

#[test]
fn ignore_supports_glob_metacharacters() {
    let rules = load_ignore_patterns("root", "*.log\ncache-?");
    assert!(is_ignored(&rules, "root/build.log"));
    assert!(is_ignored(&rules, "root/cache-a"));
    assert!(!is_ignored(&rules, "root/build.txt"));
    assert!(!is_ignored(&rules, "root/cache-ab"));
}

#[test]
fn directory_pattern_with_trailing_slash_excludes_subtree() {
    let rules = load_ignore_patterns("root", "target/");
    let source = vec![
        file("keep.txt", "x"),
        dir("target"),
        file("target/deep.o", "y"),
    ];
    let out = copy_dir_all(&source, "root", Some(&rules), None);
    assert_eq!(out, vec![file("keep.txt", "x")]);
}

#[test]
fn utils_should_copy_folder_recurcivilly() {
    let source = vec![file(
        "file.toml",
        "config_file_path = '.'\ndebug_mode = 'error'\nsnapshots_path = '.'",
    )];
    let out = copy_dir_all(&source, "folder", None, None);
    assert_eq!(out, source);
}

#[test]
fn lib_should_copy_folder_recurcivilly() {
    let source = vec![
        dir("nested"),
        file(
            "nested/file.toml",
            "config_file_path = '.'\ndebug_mode = 'error'\nsnapshots_path = '.'",
        ),
    ];
    let out = copy_dir_all(&source, "folder", None, None);
    assert_eq!(out, source);
}

#[test]
fn should_copy_folder_recurcivilly_ignoring_files_of_setuprsignore() {
    let rules = load_ignore_patterns("src_dir", "ignored_file_0\nfolder/ignored_file_1");
    let source = vec![
        file("normalfile", ""),
        file("normalfile1", ""),
        file("ignored_file_0", ""),
        dir("folder"),
        file("folder/ignored_file_1", ""),
    ];
    let out = copy_dir_all(&source, "src_dir", Some(&rules), None);

    assert!(out.iter().any(|e| e.path == "normalfile"));
    assert!(!out.iter().any(|e| e.path == "ignored_file_0"));
    assert!(!out.iter().any(|e| e.path == "folder/ignored_file_1"));
}

#[test]
fn round_trip_copy_is_byte_identical() {
    let source = vec![
        file("a.txt", "alpha"),
        dir("sub"),
        file("sub/b.bin", "{{not_a_var}} stays"),
        file("sub/empty", ""),
    ];
    let out = copy_dir_all(&source, "anywhere", None, None);
    assert_eq!(out, source);
}

#[test]
fn excluding_a_directory_excludes_what_lies_beneath() {
    let rules = load_ignore_patterns("r", "folder1");
    let source = vec![
        dir("folder1"),
        file("folder1/inner.txt", "hidden"),
        file("folder10", "kept: folder10 is not folder1"),
    ];
    let out = copy_dir_all(&source, "r", Some(&rules), None);
    assert_eq!(
        out,
        vec![file("folder10", "kept: folder10 is not folder1")]
    );
}
