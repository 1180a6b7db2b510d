use crawlkit::context::{Context, ElementData, NewsData, PageType, PersonData, ReportData};

#[test]
fn page_type_constructors() {
    assert!(matches!(PageType::index(), PageType::Index));
    assert!(matches!(PageType::news(), PageType::News(_)));
    assert!(matches!(PageType::person(), PageType::Person(_)));
    assert!(matches!(PageType::report(), PageType::Report(_)));
}

#[test]
fn page_type_with_payload() {
    assert!(matches!(PageType::news_with(NewsData {}), PageType::News(_)));
    assert!(matches!(PageType::person_with(PersonData {}), PageType::Person(_)));
    assert!(matches!(PageType::report_with(ReportData {}), PageType::Report(_)));
}

#[test]
fn page_type_clone_keeps_variant() {
    let p = PageType::news();
    let q = p.clone();
    assert_eq!(p, q);
}

#[test]
fn parse_href_resolves_against_page_address() {
    let ctx = Context {
        page_type: PageType::index(),
        current_address: "https://example.com/a/".to_string(),
    };
    let absolute = ElementData { href: Some("/b".to_string()), text: String::new() };
    assert_eq!(ctx.parse_href(&absolute), Some("https://example.com/b".to_string()));
    let relative = ElementData { href: Some("c".to_string()), text: String::new() };
    assert_eq!(ctx.parse_href(&relative), Some("https://example.com/a/c".to_string()));
    let missing = ElementData { href: None, text: String::new() };
    assert_eq!(ctx.parse_href(&missing), None);
}

#[test]
fn parse_href_invalid_base_yields_none() {
    let ctx = Context {
        page_type: PageType::index(),
        current_address: "not a url".to_string(),
    };
    let e = ElementData { href: Some("/b".to_string()), text: String::new() };
    assert_eq!(ctx.parse_href(&e), None);
}

#[test]
fn parse_text_resolves_text_content() {
    let ctx = Context {
        page_type: PageType::index(),
        current_address: "https://example.com/a/".to_string(),
    };
    let e = ElementData { href: None, text: "https://other.example/x".to_string() };
    assert_eq!(ctx.parse_text(&e), Some("https://other.example/x".to_string()));
}
