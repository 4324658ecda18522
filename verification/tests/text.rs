use libsystemd::text::{same_text, split};

#[test]
fn texts_are_compared_byte_for_byte() {
    assert!(same_text("", ""));
    assert!(same_text("MESSAGE", "MESSAGE"));
    assert!(!same_text("MESSAGE", "MESSAGE_"));
    assert!(!same_text("MESSAGE", "MESSAGe"));
    assert!(!same_text("", "a"));
    assert!(same_text("ä", "ä"));
    assert!(!same_text("ä", "a"));
}

#[test]
fn split_gives_the_parts_between_separators() {
    assert_eq!(split("", ':'), vec![""]);
    assert_eq!(split("a", ':'), vec!["a"]);
    assert_eq!(split("a:b", ':'), vec!["a", "b"]);
    assert_eq!(split(":", ':'), vec!["", ""]);
    assert_eq!(split("a::b:", ':'), vec!["a", "", "b", ""]);
    assert_eq!(split("ä=ö", '='), vec!["ä", "ö"]);
    for text in ["", "x", "::", "a:b:c", ":a:", "aä:öo"] {
        let expected: Vec<&str> = text.split(':').collect();
        assert_eq!(split(text, ':'), expected);
    }
}

#[test]
fn joining_the_parts_gives_the_text() {
    for text in ["", "x", "::", "a:b:c", ":a:", "aä:öo"] {
        assert_eq!(split(text, ':').join(":"), text);
        assert!(split(text, ':').iter().all(|part| !part.contains(':')));
    }
}
