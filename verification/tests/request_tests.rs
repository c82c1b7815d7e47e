use sdscan::request::{is_request_line, request_line_word_count};

fn count(bytes: &[u8]) -> usize {
    request_line_word_count(&bytes.to_vec())
}

fn ok(bytes: &[u8]) -> bool {
    is_request_line(&bytes.to_vec())
}

#[test]
fn a_full_request_line_counts_its_three_words() {
    assert_eq!(count(b"GET / HTTP/1.1\r\nHost: x\r\n\r\n"), 3);
    assert!(ok(b"GET / HTTP/1.1\r\nHost: x\r\n\r\n"));
}

#[test]
fn empty_input_has_no_words() {
    assert_eq!(count(b""), 0);
    assert!(!ok(b""));
}

#[test]
fn a_lone_method_is_not_a_request_line() {
    assert_eq!(count(b"GET\r\n"), 1);
    assert!(!ok(b"GET\r\n"));
}

#[test]
fn method_and_path_suffice() {
    assert!(ok(b"GET /index.html"));
    assert_eq!(count(b"GET /index.html"), 2);
}

#[test]
fn repeated_separators_do_not_add_words() {
    assert_eq!(count(b"GET  \t  /  "), 2);
    assert_eq!(count(b"   "), 0);
}

#[test]
fn only_the_first_line_is_read() {
    assert_eq!(count(b"ONE\nTWO THREE FOUR"), 1);
    assert!(!ok(b"\nGET / HTTP/1.1"));
}
