use tempfile::TempDir;
use treeclip::error::PipelineError;
use treeclip::utils::{format_bytes, format_number, validate_path_exists};

#[test]
fn test_validate_path_exists_valid() {
    let temp_dir = TempDir::new().unwrap();
    let result = validate_path_exists(temp_dir.path().to_str().unwrap());
    assert!(result.is_ok());
}

#[test]
fn test_validate_path_exists_invalid() {
    let result = validate_path_exists("/nonexistent/path");
    assert!(result.is_err());
}

#[test]
fn test_validate_reports_input_path_not_found() {
    let result = validate_path_exists("/nonexistent/path");
    assert!(matches!(result, Err(PipelineError::InputPathNotFound)));
    assert_eq!(
        PipelineError::InputPathNotFound.message(),
        "input path does not exist"
    );
}

#[test]
fn test_format_number_small() {
    assert_eq!(format_number(0), "0");
    assert_eq!(format_number(123), "123");
}

#[test]
fn test_format_number_grouping() {
    assert_eq!(format_number(1234), "1,234");
    assert_eq!(format_number(1234567), "1,234,567");
    assert_eq!(format_number(-1234), "-1,234");
}

#[test]
fn test_format_bytes_plain() {
    assert_eq!(format_bytes(0), "0 B");
    assert_eq!(format_bytes(500), "500 B");
    assert_eq!(format_bytes(1023), "1023 B");
}

#[test]
fn test_format_bytes_scaled() {
    assert_eq!(format_bytes(1024), "1.0 KB");
    assert_eq!(format_bytes(1536), "1.5 KB");
    assert_eq!(format_bytes(1_000_000), "976.6 KB");
    assert_eq!(format_bytes(5_000_000), "4.8 MB");
}
