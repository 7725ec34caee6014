use web_scraper::language::get_language_from_extension;
use web_scraper::WorkItem;

#[test]
fn test_language_mapping() {
    assert_eq!(get_language_from_extension("rs"), "rust");
    assert_eq!(get_language_from_extension("py"), "python");
    assert_eq!(get_language_from_extension("js"), "javascript");
    assert_eq!(get_language_from_extension("jsx"), "javascript");
    assert_eq!(get_language_from_extension("ts"), "typescript");
    assert_eq!(get_language_from_extension("tsx"), "typescript");
    assert_eq!(get_language_from_extension("cs"), "csharp");
    assert_eq!(get_language_from_extension("md"), "markdown");
    assert_eq!(get_language_from_extension("yaml"), "yaml");
    assert_eq!(get_language_from_extension("yml"), "yaml");
    assert_eq!(get_language_from_extension("rb"), "ruby");
}

#[test]
fn test_language_unknown_is_plaintext() {
    assert_eq!(get_language_from_extension(""), "plaintext");
    assert_eq!(get_language_from_extension("exe"), "plaintext");
    assert_eq!(get_language_from_extension("RS"), "plaintext");
}

#[test]
fn test_work_item_keeps_identifier() {
    let item = WorkItem::new(String::from("https://example.com"));
    assert_eq!(item.url, "https://example.com");
}
