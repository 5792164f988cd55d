use oauth_loopback::request::extract_full_url_header;
use oauth_loopback::request::is_callback_request;

#[test]
fn extracts_header_from_full_request() {
    let req = "POST /cb HTTP/1.1\r\nHost: 127.0.0.1\r\nFull-Url: https://app.example/callback?code=abc#frag=1\r\nAccept: */*\r\n\r\n";
    assert_eq!(
        extract_full_url_header(req),
        Some(String::from("https://app.example/callback?code=abc#frag=1"))
    );
}

#[test]
fn header_name_casing_is_irrelevant() {
    let a = extract_full_url_header("FULL-URL: https://x.example/a#b\r\n");
    let b = extract_full_url_header("full-url: https://x.example/a#b\r\n");
    let c = extract_full_url_header("Full-Url: https://x.example/a#b\r\n");
    assert_eq!(a, Some(String::from("https://x.example/a#b")));
    assert_eq!(a, b);
    assert_eq!(b, c);
}

#[test]
fn missing_header_yields_nothing() {
    let req = "POST /cb HTTP/1.1\r\nHost: 127.0.0.1\r\nAccept: */*\r\n\r\n";
    assert_eq!(extract_full_url_header(req), None);
}

#[test]
fn empty_request_yields_nothing() {
    assert_eq!(extract_full_url_header(""), None);
}

#[test]
fn empty_header_value_is_kept() {
    assert_eq!(extract_full_url_header("Full-Url:\r\n"), Some(String::new()));
}

#[test]
fn header_value_is_trimmed() {
    assert_eq!(
        extract_full_url_header("Full-Url:   https://x.example/  \r\n"),
        Some(String::from("https://x.example/"))
    );
}

#[test]
fn first_matching_line_wins() {
    let req = "GET /cb HTTP/1.1\r\nFull-Url: first\r\nFull-Url: second\r\n\r\n";
    assert_eq!(extract_full_url_header(req), Some(String::from("first")));
}

#[test]
fn header_name_must_open_the_line() {
    assert_eq!(extract_full_url_header("X-Full-Url: nope\r\n"), None);
}

#[test]
fn header_without_line_break_is_found() {
    assert_eq!(
        extract_full_url_header("Full-Url: https://x.example/"),
        Some(String::from("https://x.example/"))
    );
}

#[test]
fn callback_paths_are_recognised() {
    assert!(is_callback_request("GET /cb HTTP/1.1\r\n\r\n"));
    assert!(is_callback_request("POST /cb HTTP/1.1\r\n\r\n"));
    assert!(is_callback_request("POST /cb"));
}

#[test]
fn other_paths_are_not_callbacks() {
    assert!(!is_callback_request("GET / HTTP/1.1\r\n\r\n"));
    assert!(!is_callback_request("GET /favicon.ico HTTP/1.1\r\n\r\n"));
    assert!(!is_callback_request("GET /c"));
    assert!(!is_callback_request(""));
    assert!(!is_callback_request("PUT /cb HTTP/1.1\r\n\r\n"));
}
