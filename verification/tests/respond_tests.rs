use snappy_ocr::respond::send_to_ai;

#[test]
fn send_to_ai_fixed_template() {
    let r = send_to_ai("Hello World", "What language is this?");
    assert_eq!(r, "I received this:\nExtracted: Hello World\nQuestion: What language is this?");
}

#[test]
fn send_to_ai_contains_both_inputs() {
    let r = send_to_ai("Hello World", "What language is this?");
    assert!(r.contains("Hello World"));
    assert!(r.contains("What language is this?"));
}

#[test]
fn send_to_ai_deterministic() {
    let a = send_to_ai("some text", "a question");
    let b = send_to_ai("some text", "a question");
    assert_eq!(a, b);
}

#[test]
fn send_to_ai_empty_inputs() {
    let r = send_to_ai("", "");
    assert_eq!(r, "I received this:\nExtracted: \nQuestion: ");
}
