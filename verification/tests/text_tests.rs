use ollama_client::text::{decimal_text, same_text};

#[test]
fn decimal_text_renders_port_numbers() {
    assert_eq!(decimal_text(0), "0");
    assert_eq!(decimal_text(7), "7");
    assert_eq!(decimal_text(80), "80");
    assert_eq!(decimal_text(11434), "11434");
    assert_eq!(decimal_text(65535), "65535");
}

#[test]
fn same_text_compares_by_characters() {
    assert!(same_text("", ""));
    assert!(same_text("model", "model"));
    assert!(!same_text("model", "mode"));
    assert!(!same_text("model", "modal"));
    assert!(same_text("h\u{e9}llo", "h\u{e9}llo"));
    assert!(!same_text("h\u{e9}llo", "hello"));
}
