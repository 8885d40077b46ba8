use treeclip::table::{pad_left, Align, BorderStyle, FormattedBox};

#[test]
fn test_formatted_box_creation() {
    let box_formatter = FormattedBox::new("Test Title");
    assert_eq!(box_formatter.title, "Test Title");
    assert!(box_formatter.rows.is_empty());
}

#[test]
fn test_formatted_box_with_rows() {
    let box_formatter = FormattedBox::new("Statistics")
        .row("Label 1:", "Value 1")
        .row("Label 2:", "Value 2");

    assert_eq!(box_formatter.rows.len(), 2);
}

#[test]
fn test_renders_properly_aligned_box() {
    let output = FormattedBox::new("Content Statistics")
        .row("📝 Characters:", "1")
        .row("📄 Lines:", "100")
        .row("💬 Words:", "1,000")
        .row("💾 Size:", "976.6 KB")
        .render();

    assert!(output.contains("Content Statistics"));
    assert!(output.contains("📝 Characters:"));
    assert!(output.contains("📄 Lines:"));
    assert!(output.contains("💬 Words:"));
    assert!(output.contains("💾 Size:"));
}

#[test]
fn test_renders_message_box() {
    let banner = FormattedBox::new("✨  T R E E C L I P  ✨")
        .message_line("Your friendly code extraction companion!")
        .message_line("")
        .message_line("♡( ◡‿◡ )  Ready to explore your files~")
        .render();

    assert!(banner.contains("T R E E C L I P"));
    assert!(banner.contains("friendly code extraction companion"));
    assert!(banner.contains("Ready to explore"));
}

#[test]
fn test_message_box_with_border_styles() {
    let banner_rounded = FormattedBox::new("Test")
        .border_style(BorderStyle::Rounded)
        .message_line("Test message")
        .render();

    assert!(banner_rounded.contains("╭"));
    assert!(banner_rounded.contains("╯"));

    let banner_double = FormattedBox::new("Test")
        .border_style(BorderStyle::Double)
        .message_line("Test message")
        .render();

    assert!(banner_double.contains("╔"));
    assert!(banner_double.contains("╝"));
}

#[test]
fn test_padding_configuration() {
    let box_small = FormattedBox::new("Title")
        .padding(1)
        .message_line("Message")
        .render();

    let box_large = FormattedBox::new("Title")
        .padding(5)
        .message_line("Message")
        .render();

    assert!(box_large.lines().next().unwrap().len() > box_small.lines().next().unwrap().len());
}

#[test]
fn test_align_configuration() {
    let box_center = FormattedBox::new("Title")
        .align(Align::Center)
        .message_line("Message")
        .render();

    let box_left = FormattedBox::new("Title")
        .align(Align::Left)
        .message_line("Message")
        .render();

    assert!(!box_center.is_empty());
    assert!(!box_left.is_empty());
}

#[test]
fn test_unicode_width_handling() {
    let output = FormattedBox::new("📊 Statistics 統計")
        .row("🔥 Hot:", "🌟")
        .row("😀 Happy:", "✨")
        .render();

    assert!(output.contains("Statistics"));
    assert!(output.contains("🔥"));
    assert!(output.contains("😀"));
}

#[test]
fn test_pad_left_counts_display_width() {
    assert_eq!(pad_left("統", 4), "統  ");
    assert_eq!(pad_left("ab", 4), "ab  ");
    assert_eq!(pad_left("wider than the column", 4), "wider than the column");
}
