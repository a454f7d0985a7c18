use gela::text::bracketed;

#[test]
fn bracketed_lists() {
    assert_eq!(bracketed(&[]), "[]");
    assert_eq!(bracketed(&["1".to_string()]), "[1]");
    assert_eq!(bracketed(&["1".to_string(), "2.5".to_string(), "-3".to_string()]), "[1, 2.5, -3]");
    let inner = bracketed(&["1".to_string(), "0".to_string()]);
    assert_eq!(bracketed(&[inner.clone(), inner]), "[[1, 0], [1, 0]]");
}
