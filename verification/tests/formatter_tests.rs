use tempfile::TempDir;
use treeclip::formatter::{ConfigFormatter, StatsBox};

#[test]
fn test_format_section_header() {
    let header = ConfigFormatter::format_section_header("Test Section", "🔧");
    assert!(header.contains("Test Section"));
    assert!(header.contains("🔧"));
}

#[test]
fn test_format_config_line() {
    let line = ConfigFormatter::format_config_line("📂", "Input Path", "test");
    assert!(line.contains("📂"));
    assert!(line.contains("Input Path"));
}

#[test]
fn test_format_path_valid() {
    let temp_dir = TempDir::new().unwrap();
    let formatted = ConfigFormatter::format_path(temp_dir.path().to_str().unwrap());
    assert!(!formatted.is_empty());
}

#[test]
fn test_format_path_invalid() {
    let formatted = ConfigFormatter::format_path("/nonexistent/path");
    assert!(!formatted.is_empty());
}

#[test]
fn test_format_bool_true() {
    let formatted = ConfigFormatter::format_bool(true);
    assert!(formatted.contains("Yes"));
}

#[test]
fn test_format_bool_false() {
    let formatted = ConfigFormatter::format_bool(false);
    assert!(formatted.contains("No"));
}

#[test]
fn test_format_list_item() {
    let item = ConfigFormatter::format_list_item("▸", "test pattern");
    assert!(item.contains("▸"));
    assert!(item.contains("test pattern"));
}

#[test]
fn test_stats_box_creation() {
    let stats = StatsBox::new(100, 1000, 200, 5000);
    assert_eq!(stats.lines, 100);
    assert_eq!(stats.chars, 1000);
    assert_eq!(stats.words, 200);
    assert_eq!(stats.bytes, 5000);
}

#[test]
fn test_stats_box_render() {
    let stats = StatsBox::new(1, 100, 1_000, 1_000_000);
    let rendered = stats.render();

    assert!(rendered.contains("Content Statistics"));
    assert!(rendered.contains("Characters:"));
    assert!(rendered.contains("Lines:"));
    assert!(rendered.contains("Words:"));
    assert!(rendered.contains("Size:"));
}

#[test]
fn test_stats_box_render_values() {
    let stats = StatsBox::new(1, 100, 1_000, 1_000_000);
    let rendered = stats.render();

    assert!(rendered.contains("100"));
    assert!(rendered.contains("1,000"));
    assert!(rendered.contains("976.6 KB"));
}

#[test]
fn test_get_size_message_tiny() {
    let stats = StatsBox::new(1, 10, 2, 500);
    let (emoji, message) = stats.get_size_message();
    assert_eq!(emoji, "🐣");
    assert!(message.contains("Tiny but mighty!"));
}

#[test]
fn test_get_size_message_small() {
    let stats = StatsBox::new(10, 100, 20, 50_000);
    let (emoji, message) = stats.get_size_message();
    assert_eq!(emoji, "🐇");
    assert!(message.contains("Perfect size!"));
}

#[test]
fn test_get_size_message_medium() {
    let stats = StatsBox::new(100, 1000, 200, 500_000);
    let (emoji, message) = stats.get_size_message();
    assert_eq!(emoji, "🐘");
    assert!(message.contains("big one"));
}

#[test]
fn test_get_size_message_large() {
    let stats = StatsBox::new(1000, 10000, 2000, 5_000_000);
    let (emoji, message) = stats.get_size_message();
    assert_eq!(emoji, "🐋");
    assert!(message.contains("whale"));
}
