use tempfile::{NamedTempFile, TempDir};
use treeclip::aggregate::{aggregate, render_record, FileRecord};
use treeclip::exclude::ExcludeMatcher;
use treeclip::paths::{relative_to, trim_end};
use treeclip::walker::{collect_from_entries, resolve_config, EntryInfo, Walker};

fn entry(path: &str, is_dir: bool) -> EntryInfo {
    EntryInfo {
        path: path.to_string(),
        is_dir,
        is_file: !is_dir,
    }
}

fn record(path: &str, content: &str) -> FileRecord {
    FileRecord {
        path: path.to_string(),
        content: content.to_string(),
    }
}

#[test]
fn test_walker_creation() {
    let temp_dir = TempDir::new().unwrap();
    let root = temp_dir.path().to_str().unwrap();
    let output = format!("{}/output.txt", root);

    let walker = Walker::new(root, root, &output, &vec!["node_modules".to_string()]);

    assert_eq!(walker.root, root);
    assert_eq!(walker.input, root);
    assert_eq!(walker.output, output);
    assert_eq!(walker.exclude_patterns, vec!["node_modules"]);
}

#[test]
fn test_collect_files_finds_real_file() {
    let temp_dir = TempDir::new().unwrap();
    let root = temp_dir.path().to_str().unwrap();
    let file = NamedTempFile::new_in(temp_dir.path()).unwrap();
    let file_path = file.path().to_str().unwrap().to_string();

    let output = format!("{}/output.txt", root);
    let walker = Walker::new(root, root, &output, &vec![]);
    let files = walker.collect_files(&vec![], false).unwrap();

    assert_eq!(files, vec![file_path]);
}

#[test]
fn test_collect_files_skips_own_output() {
    let temp_dir = TempDir::new().unwrap();
    let root = temp_dir.path().to_str().unwrap();
    let file = NamedTempFile::new_in(temp_dir.path()).unwrap();
    let file_path = file.path().to_str().unwrap().to_string();

    let walker = Walker::new(root, root, &file_path, &vec![]);
    let files = walker.collect_files(&vec![], false).unwrap();

    assert!(files.is_empty());
}

#[test]
fn test_collect_files_missing_input_yields_nothing() {
    let walker = Walker::new("/nonexistent/a", "/nonexistent/a", "/tmp/out.txt", &vec![]);
    let files = walker.collect_files(&vec![], false).unwrap();
    assert!(files.is_empty());
}

#[test]
fn test_excluded_directory_prunes_subtree() {
    let matcher = ExcludeMatcher::new("/proj", &vec!["sub".to_string()], &vec![]).unwrap();
    let entries = vec![
        entry("/proj", true),
        entry("/proj/a.txt", false),
        entry("/proj/sub", true),
        entry("/proj/sub/b.txt", false),
        entry("/proj/sub/deep", true),
        entry("/proj/sub/deep/c.txt", false),
    ];
    let files = collect_from_entries(&matcher, false, "/proj/out.txt", &entries);
    assert_eq!(files, vec!["/proj/a.txt".to_string()]);
}

#[test]
fn test_scenario_ignore_file_excludes_subdir() {
    let matcher = ExcludeMatcher::new("/proj", &vec!["sub".to_string()], &vec![]).unwrap();
    let entries = vec![
        entry("/proj", true),
        entry("/proj/a.txt", false),
        entry("/proj/sub", true),
        entry("/proj/sub/b.txt", false),
    ];
    let files = collect_from_entries(&matcher, false, "/out.txt", &entries);
    assert_eq!(files, vec!["/proj/a.txt".to_string()]);

    let records = vec![record("/proj/a.txt", "hello")];
    let (out, count) = aggregate("/proj", &records);
    assert_eq!(out, "==> a.txt\nhello\n");
    assert_eq!(count, 1);
    assert!(!out.contains("b.txt"));
    assert!(!out.contains("sub"));
}

#[test]
fn test_scenario_cli_pattern_excludes_file() {
    let matcher = ExcludeMatcher::new("/proj", &vec![], &vec!["a.txt".to_string()]).unwrap();
    let entries = vec![
        entry("/proj", true),
        entry("/proj/a.txt", false),
        entry("/proj/sub", true),
        entry("/proj/sub/b.txt", false),
    ];
    let files = collect_from_entries(&matcher, false, "/out.txt", &entries);
    assert_eq!(files, vec!["/proj/sub/b.txt".to_string()]);

    let records = vec![record("/proj/sub/b.txt", "world")];
    let (out, _) = aggregate("/proj", &records);
    assert_eq!(out, "==> sub/b.txt\nworld\n");
    assert!(!out.contains("a.txt"));
}

#[test]
fn test_scenario_hidden_skip() {
    let matcher = ExcludeMatcher::new("/proj", &vec![], &vec![]).unwrap();
    let entries = vec![
        entry("/proj", true),
        entry("/proj/.env", false),
        entry("/proj/visible.txt", false),
    ];
    let files = collect_from_entries(&matcher, true, "/out.txt", &entries);
    assert_eq!(files, vec!["/proj/visible.txt".to_string()]);

    let records = vec![record("/proj/visible.txt", "ok")];
    let (out, _) = aggregate("/proj", &records);
    assert!(!out.contains(".env"));
    assert!(out.contains("visible.txt"));
}

#[test]
fn test_hidden_directory_prunes_children() {
    let matcher = ExcludeMatcher::new("/proj", &vec![], &vec![]).unwrap();
    let entries = vec![
        entry("/proj", true),
        entry("/proj/.git", true),
        entry("/proj/.git/config", false),
        entry("/proj/a.txt", false),
    ];
    let files = collect_from_entries(&matcher, true, "/out.txt", &entries);
    assert_eq!(files, vec!["/proj/a.txt".to_string()]);
}

#[test]
fn test_output_inside_tree_never_collected() {
    let matcher = ExcludeMatcher::new("/proj", &vec![], &vec![]).unwrap();
    let entries = vec![
        entry("/proj", true),
        entry("/proj/out.txt", false),
        entry("/proj/a.txt", false),
    ];
    let files = collect_from_entries(&matcher, false, "/proj/out.txt", &entries);
    assert_eq!(files, vec!["/proj/a.txt".to_string()]);
}

#[test]
fn test_aggregate_is_idempotent() {
    let records = vec![
        record("/proj/a.txt", "alpha\n"),
        record("/proj/b.txt", "beta"),
    ];
    let (first, _) = aggregate("/proj", &records);
    let (second, _) = aggregate("/proj", &records);
    assert_eq!(first, second);
}

#[test]
fn test_three_records_separators() {
    let records = vec![
        record("/proj/a.txt", "one"),
        record("/proj/b.txt", "two"),
        record("/proj/c.txt", "three"),
    ];
    let (out, count) = aggregate("/proj", &records);
    assert_eq!(count, 3);
    assert_eq!(out, "==> a.txt\none\n\n==> b.txt\ntwo\n\n==> c.txt\nthree\n");
    assert_eq!(out.matches("==> ").count(), 3);
    assert_eq!(out.matches("\n\n").count(), 2);
}

#[test]
fn test_record_trims_trailing_whitespace() {
    let out = render_record("/proj", "/proj/a.txt", "text\n\n  \n", true);
    assert_eq!(out, "==> a.txt\ntext\n");

    let sep = render_record("/proj", "/proj/b.txt", "more", false);
    assert_eq!(sep, "\n==> b.txt\nmore\n");
}

#[test]
fn test_trim_end_keeps_interior_whitespace() {
    assert_eq!(trim_end("a b\nc\t\n \n"), "a b\nc");
    assert_eq!(trim_end("   "), "");
    assert_eq!(trim_end(""), "");
}

#[test]
fn test_relative_to_strips_root_prefix() {
    assert_eq!(relative_to("/proj", "/proj/a/b.txt"), "a/b.txt");
    assert_eq!(relative_to("/proj", "/proj/a.txt"), "a.txt");
}

#[test]
fn test_relative_to_falls_back_outside_root() {
    assert_eq!(relative_to("/proj", "/other/x.txt"), "/other/x.txt");
    assert_eq!(relative_to("/pro", "/proj/a.txt"), "/proj/a.txt");
    assert_eq!(relative_to("", "/proj/a.txt"), "/proj/a.txt");
}

#[test]
fn test_collect_files_skips_hidden_on_request() {
    let temp_dir = TempDir::new().unwrap();
    let root = temp_dir.path().to_str().unwrap();
    let hidden = tempfile::Builder::new()
        .prefix(".hid")
        .tempfile_in(temp_dir.path())
        .unwrap();
    let hidden_path = hidden.path().to_str().unwrap().to_string();

    let output = format!("{}/output.txt", root);
    let walker = Walker::new(root, root, &output, &vec![]);

    let with_hidden = walker.collect_files(&vec![], false).unwrap();
    assert_eq!(with_hidden, vec![hidden_path]);

    let without_hidden = walker.collect_files(&vec![], true).unwrap();
    assert!(without_hidden.is_empty());
}

#[test]
fn test_collect_files_applies_patterns() {
    let temp_dir = TempDir::new().unwrap();
    let root = temp_dir.path().to_str().unwrap();
    let _file = NamedTempFile::new_in(temp_dir.path()).unwrap();

    let output = format!("{}/output.txt", root);
    let walker = Walker::new(root, root, &output, &vec!["*".to_string()]);
    let files = walker.collect_files(&vec![], false).unwrap();
    assert!(files.is_empty());
}

#[test]
fn test_resolve_config_defaults() {
    let (input, output, root) = resolve_config(".", ".", None, "/cwd");
    assert_eq!(input, "/cwd");
    assert_eq!(output, "./treeclip_temp.txt");
    assert_eq!(root, "/cwd");
}

#[test]
fn test_resolve_config_explicit() {
    let (input, output, root) = resolve_config("/in", "/out.txt", Some("/r"), "/cwd");
    assert_eq!(input, "/in");
    assert_eq!(output, "/out.txt");
    assert_eq!(root, "/r");

    let (_, _, dot_root) = resolve_config("/in", "/out.txt", Some("."), "/cwd");
    assert_eq!(dot_root, "/cwd");
}
