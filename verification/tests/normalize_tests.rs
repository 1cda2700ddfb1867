use rustrans::normalize::normalize_spacing;
use rustrans::normalize::process_translation_result;
use rustrans::normalize::split_paragraphs;
use rustrans::normalize::trim_text;

#[test]
fn test_process_translation_result() {
    let original = "第一段\n第二段";
    let translated = "First paragraph\nSecond paragraph";
    let result = process_translation_result(original, translated);
    assert_eq!(result, vec!["First paragraph", "Second paragraph"]);
}

#[test]
fn test_process_translation_result_mismatch() {
    let original = "第一段\n第二段";
    let translated = "Combined translation";
    let result = process_translation_result(original, translated);
    assert_eq!(result, vec!["Combined translation"]);
}

#[test]
fn test_pangu_spacing() {
    let original = "第一段\n第二段";
    let translated = "这是test文本，包含English和中文混排";
    let result = process_translation_result(original, translated);
    assert_eq!(result, vec!["这是 test 文本，包含 English 和中文混排"]);
}

#[test]
fn test_spacing_idempotent() {
    let samples = [
        "这是test文本，包含English和中文混排",
        "abc中文def",
        "中a中a中",
        "no cjk at all",
        "只有中文",
        "",
        " 空格 mixed 中文 ",
    ];
    for s in samples {
        let once = normalize_spacing(s);
        let twice = normalize_spacing(&once);
        assert_eq!(once, twice);
    }
}

#[test]
fn test_spacing_exact() {
    assert_eq!(normalize_spacing("中a"), "中 a");
    assert_eq!(normalize_spacing("a中"), "a 中");
    assert_eq!(normalize_spacing("a b"), "a b");
    assert_eq!(normalize_spacing("中 文"), "中 文");
    assert_eq!(normalize_spacing("2024年"), "2024 年");
}

#[test]
fn test_paragraph_counts_preserved_on_match() {
    let result = process_translation_result("一\n二\n三", "one中\ntwo文\nthree");
    assert_eq!(result.len(), 3);
    assert_eq!(result, vec!["one 中", "two 文", "three"]);
}

#[test]
fn test_paragraph_counts_collapse_on_mismatch() {
    let result = process_translation_result("一\n二\n三", "one\ntwo");
    assert_eq!(result.len(), 1);
    assert_eq!(result, vec!["one\ntwo"]);
}

#[test]
fn test_split_paragraphs() {
    assert_eq!(split_paragraphs("a\nb"), vec!["a", "b"]);
    assert_eq!(split_paragraphs(""), vec![""]);
    assert_eq!(split_paragraphs("a\nb\n"), vec!["a", "b", ""]);
    assert_eq!(split_paragraphs("\n"), vec!["", ""]);
}

#[test]
fn test_trim_text() {
    assert_eq!(trim_text("  hello  "), "hello");
    assert_eq!(trim_text("\n\thello world\r\n"), "hello world");
    assert_eq!(trim_text(""), "");
    assert_eq!(trim_text(" \t\r\n"), "");
    assert_eq!(trim_text("inner  space"), "inner  space");
}
