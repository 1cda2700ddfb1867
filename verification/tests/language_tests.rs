use rustrans::language::detect_language;
use rustrans::language::select_target_language;

#[test]
fn test_detect_chinese() {
    assert_eq!(detect_language("你好世界"), "中文(简体)");
}

#[test]
fn test_detect_english() {
    assert_eq!(detect_language("Hello World"), "英语");
}

#[test]
fn test_select_target_language() {
    let (from, to) = select_target_language(
        "你好",
        &["中文(简体)".to_string(), "英语".to_string()],
        None,
    );
    assert_eq!(from, "中文(简体)");
    assert_eq!(to, "英语");
}

#[test]
fn test_select_first_destination_when_different() {
    let (from, to) = select_target_language(
        "Hello World",
        &["法语".to_string(), "德语".to_string()],
        Some("英语"),
    );
    assert_eq!(from, "英语");
    assert_eq!(to, "法语");
}

#[test]
fn test_select_second_destination_when_first_is_source() {
    let (from, to) = select_target_language(
        "irrelevant",
        &["日语".to_string(), "韩语".to_string()],
        Some("日语"),
    );
    assert_eq!(from, "日语");
    assert_eq!(to, "韩语");
}

#[test]
fn test_select_single_destination_even_when_it_is_source() {
    let (from, to) = select_target_language("irrelevant", &["日语".to_string()], Some("日语"));
    assert_eq!(from, "日语");
    assert_eq!(to, "日语");
}

#[test]
fn test_select_empty_destinations_falls_back() {
    let (from, to) = select_target_language("irrelevant", &[], Some("法语"));
    assert_eq!(from, "法语");
    assert_eq!(to, "英语");
    let (from2, to2) = select_target_language("Bonjour tout le monde", &[], None);
    assert_eq!(to2, "英语");
    let _ = from2;
}

#[test]
fn test_end_to_end_language_pair() {
    let (from, to) = select_target_language(
        "你好世界",
        &["中文(简体)".to_string(), "英语".to_string()],
        None,
    );
    assert_eq!(from, "中文(简体)");
    assert_eq!(to, "英语");
}
