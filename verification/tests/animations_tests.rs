use treeclip::progress::progress_counter;

#[test]
fn test_progress_counter_at_interval() {
    let emojis = vec!["🌱", "🌿", "🍃"];
    let result = progress_counter(&emojis, 5, 5);
    assert!(result.is_some());
    assert!(result.unwrap().contains("5 files"));
}

#[test]
fn test_progress_counter_not_at_interval() {
    let emojis = vec!["🌱", "🌿", "🍃"];
    let result = progress_counter(&emojis, 3, 5);
    assert!(result.is_none());
}

#[test]
fn test_progress_counter_emoji_rotation() {
    let emojis = vec!["🌱", "🌿", "🍃"];

    let result1 = progress_counter(&emojis, 5, 5);
    assert!(result1.is_some());
    assert!(result1.unwrap().contains("🌱"));

    let result2 = progress_counter(&emojis, 10, 5);
    assert!(result2.is_some());
    assert!(result2.unwrap().contains("🌿"));

    let result3 = progress_counter(&emojis, 15, 5);
    assert!(result3.is_some());
    assert!(result3.unwrap().contains("🍃"));
}

#[test]
fn test_progress_counter_zero() {
    let emojis = vec!["🌱", "🌿"];
    let result = progress_counter(&emojis, 0, 5);
    assert!(result.is_some());
}
