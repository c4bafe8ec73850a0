use piko::format::{format_fact, FactEntry};

#[test]
fn painted_fact_wraps_every_part() {
    colored::control::set_override(true);
    let f = FactEntry {
        key: "OS".to_string(),
        value: "Linux\nextra".to_string(),
        color: Some("#1793D1".to_string()),
        symbol: Some("*".to_string()),
    };
    let out = format_fact(&f);
    assert_eq!(out.len(), 2);
    assert!(out[0].starts_with("* \u{1b}["));
    assert!(out[0].contains("mOS\u{1b}[0m: \u{1b}["));
    assert!(out[0].ends_with("mLinux\u{1b}[0m"));
    assert!(out[1].starts_with("\u{1b}["));
    assert!(out[1].ends_with("mextra\u{1b}[0m"));
}
