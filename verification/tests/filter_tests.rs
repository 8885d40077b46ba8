use tempfile::TempDir;
use treeclip::paths::is_hidden;

#[test]
fn test_is_hidden_with_hidden_file() {
    let temp_dir = TempDir::new().unwrap();
    let hidden_file = format!("{}/.hidden", temp_dir.path().to_str().unwrap());
    assert!(is_hidden(&hidden_file));
}

#[test]
fn test_is_hidden_with_regular_file() {
    let temp_dir = TempDir::new().unwrap();
    let regular_file = format!("{}/visible.txt", temp_dir.path().to_str().unwrap());
    assert!(!is_hidden(&regular_file));
}

#[test]
fn test_is_hidden_with_hidden_directory() {
    let temp_dir = TempDir::new().unwrap();
    let hidden_dir = format!("{}/.git", temp_dir.path().to_str().unwrap());
    assert!(is_hidden(&hidden_dir));
}

#[test]
fn test_is_hidden_only_looks_at_name() {
    assert!(!is_hidden("/home/.config/visible.txt"));
    assert!(is_hidden("/home/user/.env"));
    assert!(!is_hidden("dotless"));
}
