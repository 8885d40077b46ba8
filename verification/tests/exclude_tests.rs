use tempfile::TempDir;
use treeclip::exclude::{ignore_file_path, ExcludeMatcher};
use treeclip::error::PipelineError;

#[test]
fn test_exclude_matcher_creation() {
    let temp_dir = TempDir::new().unwrap();
    let root = temp_dir.path().to_str().unwrap();
    let matcher = ExcludeMatcher::new(root, &vec![], &vec![]).unwrap();

    assert!(!matcher.is_excluded(root, true));
}

#[test]
fn test_is_excluded_with_ignore_file() {
    let temp_dir = TempDir::new().unwrap();
    let root = temp_dir.path().to_str().unwrap();

    let node_modules = format!("{}/node_modules", root);
    let temp1 = format!("{}/temp1.txt", root);
    let temp2 = format!("{}/temp2.txt", root);

    let ignore_lines = vec!["node_modules".to_string()];
    let matcher = ExcludeMatcher::new(root, &ignore_lines, &vec![]).unwrap();

    assert!(!matcher.is_excluded(root, true));
    assert!(!matcher.is_excluded(&temp1, false));
    assert!(!matcher.is_excluded(&temp2, false));

    assert!(matcher.is_excluded(&node_modules, true));
}

#[test]
fn test_is_excluded_with_cli_patterns() {
    let temp_dir = TempDir::new().unwrap();
    let root = temp_dir.path().to_str().unwrap();

    let target = format!("{}/target", root);
    let src = format!("{}/src", root);

    let matcher = ExcludeMatcher::new(root, &vec![], &vec!["target".to_string()]).unwrap();

    assert!(!matcher.is_excluded(&src, true));
    assert!(matcher.is_excluded(&target, true));
}

#[test]
fn test_is_excluded_with_multiple_patterns() {
    let temp_dir = TempDir::new().unwrap();
    let root = temp_dir.path().to_str().unwrap();

    let node_modules = format!("{}/node_modules", root);
    let target = format!("{}/target", root);
    let src = format!("{}/src", root);

    let ignore_lines = vec!["node_modules".to_string()];
    let matcher = ExcludeMatcher::new(root, &ignore_lines, &vec!["target".to_string()]).unwrap();

    assert!(!matcher.is_excluded(&src, true));
    assert!(matcher.is_excluded(&node_modules, true));
    assert!(matcher.is_excluded(&target, true));
}

#[test]
fn test_negated_pattern_reincludes() {
    let temp_dir = TempDir::new().unwrap();
    let root = temp_dir.path().to_str().unwrap();

    let keep = format!("{}/logs/keep.txt", root);
    let other = format!("{}/logs/other.txt", root);

    let ignore_lines = vec!["logs/*".to_string()];
    let cli = vec!["!logs/keep.txt".to_string()];
    let matcher = ExcludeMatcher::new(root, &ignore_lines, &cli).unwrap();

    assert!(matcher.is_excluded(&other, false));
    assert!(!matcher.is_excluded(&keep, false));
}

#[test]
fn test_directory_only_pattern() {
    let temp_dir = TempDir::new().unwrap();
    let root = temp_dir.path().to_str().unwrap();

    let build = format!("{}/build", root);

    let matcher = ExcludeMatcher::new(root, &vec![], &vec!["build/".to_string()]).unwrap();

    assert!(matcher.is_excluded(&build, true));
    assert!(!matcher.is_excluded(&build, false));
}

#[test]
fn test_malformed_pattern_is_syntax_error() {
    let temp_dir = TempDir::new().unwrap();
    let root = temp_dir.path().to_str().unwrap();

    let result = ExcludeMatcher::new(root, &vec![], &vec!["[z-a]".to_string()]);
    assert!(matches!(result, Err(PipelineError::PatternSyntaxError)));
}

#[test]
fn test_malformed_ignore_file_line_is_fatal() {
    let temp_dir = TempDir::new().unwrap();
    let root = temp_dir.path().to_str().unwrap();

    let ignore_lines = vec!["[z-a]".to_string()];
    let result = ExcludeMatcher::new(root, &ignore_lines, &vec![]);
    assert!(matches!(result, Err(PipelineError::PatternSyntaxError)));
}

#[test]
fn test_ignore_file_path_name() {
    assert_eq!(ignore_file_path("/proj"), "/proj/.treeclipignore");
    assert_eq!(ignore_file_path("/proj/"), "/proj/.treeclipignore");
}
