use oauth_loopback::response::bind_error_message;
use oauth_loopback::response::bridge_html;
use oauth_loopback::response::bridge_response;
use oauth_loopback::response::success_response;
use oauth_loopback::response::u64_to_decimal;
use oauth_loopback::worker::Outcome;
use oauth_loopback::worker::Worker;
use oauth_loopback::OAUTH_PORT;

#[test]
fn decimal_rendering_is_exact() {
    assert_eq!(u64_to_decimal(0), "0");
    assert_eq!(u64_to_decimal(7), "7");
    assert_eq!(u64_to_decimal(10), "10");
    assert_eq!(u64_to_decimal(17927), "17927");
    assert_eq!(u64_to_decimal(65535), "65535");
    assert_eq!(u64_to_decimal(u64::MAX), "18446744073709551615");
}

#[test]
fn success_response_is_exact() {
    assert_eq!(
        success_response(),
        "HTTP/1.1 200 OK\r\nContent-Length: 0\r\nAccess-Control-Allow-Origin: *\r\n\r\n"
    );
}

#[test]
fn bridge_page_targets_the_port() {
    let html = bridge_html(OAUTH_PORT);
    assert!(html.starts_with("<!DOCTYPE html>"));
    assert!(html.ends_with("</html>"));
    assert!(html.contains("fetch(\"http://127.0.0.1:17927/cb\""));
    assert!(html.contains("\"Full-Url\": window.location.href"));
}

#[test]
fn bridge_response_carries_page_length() {
    let resp = bridge_response(OAUTH_PORT);
    let head = "HTTP/1.1 200 OK\r\nContent-Type: text/html; charset=utf-8\r\nContent-Length: ";
    assert!(resp.starts_with(head));
    let rest = &resp[head.len()..];
    let sep = rest.find("\r\n\r\n").expect("blank line after headers");
    let declared: usize = rest[..sep].parse().expect("numeric length");
    let body = &rest[sep + 4..];
    assert_eq!(declared, body.len());
    assert_eq!(body, bridge_html(OAUTH_PORT));
}

#[test]
fn bind_error_names_port_and_reason() {
    assert_eq!(
        bind_error_message(17927, "address already in use"),
        "Failed to bind port 17927: address already in use"
    );
}

#[test]
fn round_trip_two_phase() {
    let mut w = Worker::new(OAUTH_PORT);
    assert!(w.can_accept());

    let first = w.on_connection("GET /?code=abc HTTP/1.1\r\nHost: 127.0.0.1\r\n\r\n");
    match first {
        Outcome::Bridge(page) => {
            assert!(page.contains("fetch(\"http://127.0.0.1:17927/cb\""));
        }
        _ => panic!("redirect connection must be answered with the bridge page"),
    }
    assert!(w.can_accept());

    let second = w.on_connection(
        "POST /cb HTTP/1.1\r\nFull-Url: https://app.example/callback?code=abc#frag=1\r\n\r\n",
    );
    match second {
        Outcome::Deliver(url, resp) => {
            assert_eq!(url, "https://app.example/callback?code=abc#frag=1");
            assert_eq!(
                resp,
                "HTTP/1.1 200 OK\r\nContent-Length: 0\r\nAccess-Control-Allow-Origin: *\r\n\r\n"
            );
        }
        _ => panic!("callback connection must deliver the URL"),
    }
    assert!(!w.can_accept());
    assert!(w.delivered);
}

#[test]
fn budget_is_two_connections() {
    let mut w = Worker::new(OAUTH_PORT);
    let first = w.on_connection("GET / HTTP/1.1\r\n\r\n");
    assert!(matches!(first, Outcome::Bridge(_)));
    assert!(w.can_accept());
    let second = w.on_connection("GET /favicon.ico HTTP/1.1\r\n\r\n");
    assert!(matches!(second, Outcome::Bridge(_)));
    assert!(!w.can_accept());
    assert!(!w.delivered);
    assert_eq!(w.attempts, 2);
}

#[test]
fn missing_header_is_dropped_in_silence() {
    let mut w = Worker::new(OAUTH_PORT);
    let first = w.on_connection("POST /cb HTTP/1.1\r\nHost: 127.0.0.1\r\n\r\n");
    assert!(matches!(first, Outcome::Ignore));
    assert!(!w.delivered);
    assert!(w.can_accept());
    let second = w.on_connection("POST /cb HTTP/1.1\r\nHost: 127.0.0.1\r\n\r\n");
    assert!(matches!(second, Outcome::Ignore));
    assert!(!w.delivered);
    assert!(!w.can_accept());
}

#[test]
fn unreadable_connection_consumes_an_attempt() {
    let mut w = Worker::new(OAUTH_PORT);
    w.skip_connection();
    assert!(w.can_accept());
    assert_eq!(w.attempts, 1);
    w.skip_connection();
    assert!(!w.can_accept());
    assert!(!w.delivered);
}

#[test]
fn delivery_on_first_connection_ends_the_flow() {
    let mut w = Worker::new(OAUTH_PORT);
    let out = w.on_connection("GET /cb HTTP/1.1\r\nfull-url: https://x.example/#t\r\n\r\n");
    match out {
        Outcome::Deliver(url, _) => assert_eq!(url, "https://x.example/#t"),
        _ => panic!("callback with header must deliver"),
    }
    assert!(!w.can_accept());
    assert_eq!(w.attempts, 1);
}
