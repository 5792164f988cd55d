//! The two wire responses of the flow and the launcher's error text.
//!
//! Phase one answers any request with the bridge page: a static HTML
//! document whose script re-submits the browser's complete URL — fragment
//! included — to the same port under the `Full-Url` header. Phase two
//! answers a delivering callback with an empty, CORS-permissive success
//! response.

use vstd::prelude::*;
use vstd::string::StrSliceExecFns;
use vstd::string::StringExecFns;

verus! {

/// The character of a single decimal digit.
pub open spec fn digit_char(d: nat) -> char {
    (((d + 48) as u8) as char)
}

/// The usual decimal numeral of `n`: no sign, no leading zeros, `"0"` for
/// zero.
pub open spec fn decimal(n: nat) -> Seq<char>
    decreases n,
{
    if n < 10 {
        seq![digit_char(n)]
    } else {
        decimal(n / 10) + seq![digit_char(n % 10)]
    }
}

fn digit_str(d: u64) -> (s: &'static str)
    requires
        d < 10,
    ensures
        s@ == seq![digit_char(d as nat)],
{
    proof {
        reveal_strlit("0");
        reveal_strlit("1");
        reveal_strlit("2");
        reveal_strlit("3");
        reveal_strlit("4");
        reveal_strlit("5");
        reveal_strlit("6");
        reveal_strlit("7");
        reveal_strlit("8");
        reveal_strlit("9");
    }
    let s = match d {
        0 => "0",
        1 => "1",
        2 => "2",
        3 => "3",
        4 => "4",
        5 => "5",
        6 => "6",
        7 => "7",
        8 => "8",
        _ => "9",
    };
    proof {
        assert(s@ =~= seq![digit_char(d as nat)]);
    }
    s
}

fn push_decimal(n: u64, out: &mut String)
    ensures
        final(out)@ == old(out)@ + decimal(n as nat),
    decreases n,
{
    if n < 10 {
        out.append(digit_str(n));
    } else {
        push_decimal(n / 10, out);
        out.append(digit_str(n % 10));
        proof {
            assert(old(out)@ + decimal((n / 10) as nat) + seq![digit_char((n % 10) as nat)]
                =~= old(out)@ + decimal(n as nat));
        }
    }
}

/// Renders `n` in decimal.
pub fn u64_to_decimal(n: u64) -> (r: String)
    ensures
        r@ == decimal(n as nat),
{
    let mut out = String::new();
    push_decimal(n, &mut out);
    proof {
        assert(Seq::<char>::empty() + decimal(n as nat) =~= decimal(n as nat));
    }
    out
}

/// The bridge page up to the point where the port number is spliced into
/// the script's fetch target.
pub open spec fn bridge_head() -> Seq<char> {
    "<!DOCTYPE html>\n<html>\n<head>\n    <title>Authentication Successful</title>\n    <style>\n        body {\n            font-family: -apple-system, BlinkMacSystemFont, 'Segoe UI', Roboto, sans-serif;\n            display: flex;\n            align-items: center;\n            justify-content: center;\n            height: 100vh;\n            margin: 0;\n            background: #f5f5f5;\n        }\n        .container {\n            text-align: center;\n            padding: 2rem;\n        }\n        h1 { color: #333; margin-bottom: 0.5rem; }\n        p { color: #666; }\n    </style>\n</head>\n<body>\n    <div class=\"container\">\n        <h1>Authentication Successful</h1>\n        <p>You can close this tab and return to the application.</p>\n    </div>\n    <script>\n        fetch(\"http://127.0.0.1:"@
}

/// The bridge page after the port number: the script posts the page's own
/// URL back to `/cb` in the `Full-Url` header.
pub open spec fn bridge_tail() -> Seq<char> {
    "/cb\", {\n            method: \"POST\",\n            headers: { \"Full-Url\": window.location.href }\n        });\n    </script>\n</body>\n</html>"@
}

/// The bridge page for a given port.
pub open spec fn bridge_html_spec(port: u16) -> Seq<char> {
    bridge_head() + decimal(port as nat) + bridge_tail()
}

fn bridge_head_str() -> (s: &'static str)
    ensures
        s@ == bridge_head(),
{
    "<!DOCTYPE html>\n<html>\n<head>\n    <title>Authentication Successful</title>\n    <style>\n        body {\n            font-family: -apple-system, BlinkMacSystemFont, 'Segoe UI', Roboto, sans-serif;\n            display: flex;\n            align-items: center;\n            justify-content: center;\n            height: 100vh;\n            margin: 0;\n            background: #f5f5f5;\n        }\n        .container {\n            text-align: center;\n            padding: 2rem;\n        }\n        h1 { color: #333; margin-bottom: 0.5rem; }\n        p { color: #666; }\n    </style>\n</head>\n<body>\n    <div class=\"container\">\n        <h1>Authentication Successful</h1>\n        <p>You can close this tab and return to the application.</p>\n    </div>\n    <script>\n        fetch(\"http://127.0.0.1:"
}

fn bridge_tail_str() -> (s: &'static str)
    ensures
        s@ == bridge_tail(),
{
    "/cb\", {\n            method: \"POST\",\n            headers: { \"Full-Url\": window.location.href }\n        });\n    </script>\n</body>\n</html>"
}

/// Builds the bridge page served on the redirect connection, with the
/// port spliced into the script's fetch target.
pub fn bridge_html(port: u16) -> (r: String)
    ensures
        r@ == bridge_html_spec(port),
{
    let mut out = String::new();
    out.append(bridge_head_str());
    push_decimal(port as u64, &mut out);
    out.append(bridge_tail_str());
    proof {
        assert(Seq::<char>::empty() + bridge_head() + decimal(port as nat) + bridge_tail()
            =~= bridge_html_spec(port));
    }
    out
}

/// The status line and headers that precede the bridge page's length.
pub open spec fn bridge_response_head() -> Seq<char> {
    "HTTP/1.1 200 OK\r\nContent-Type: text/html; charset=utf-8\r\nContent-Length: "@
}

/// The full phase-one response: headers, the page's length, a blank line,
/// the page itself.
pub open spec fn bridge_response_spec(port: u16) -> Seq<char> {
    bridge_response_head() + decimal(bridge_html_spec(port).len()) + "\r\n\r\n"@
        + bridge_html_spec(port)
}

/// Builds the complete phase-one response around the bridge page.
pub fn bridge_response(port: u16) -> (r: String)
    ensures
        r@ == bridge_response_spec(port),
{
    let html = bridge_html(port);
    let n = html.as_str().unicode_len();
    let mut out = String::new();
    out.append("HTTP/1.1 200 OK\r\nContent-Type: text/html; charset=utf-8\r\nContent-Length: ");
    push_decimal(n as u64, &mut out);
    out.append("\r\n\r\n");
    out.append(html.as_str());
    proof {
        assert(Seq::<char>::empty() + bridge_response_head() + decimal(n as nat) + "\r\n\r\n"@
            + html@ =~= bridge_response_spec(port));
    }
    out
}

/// The phase-two response: empty body, permissive CORS, nothing else.
pub open spec fn success_response_spec() -> Seq<char> {
    "HTTP/1.1 200 OK\r\nContent-Length: 0\r\nAccess-Control-Allow-Origin: *\r\n\r\n"@
}

/// The response sent once the URL has been delivered.
pub fn success_response() -> (r: &'static str)
    ensures
        r@ == success_response_spec(),
{
    "HTTP/1.1 200 OK\r\nContent-Length: 0\r\nAccess-Control-Allow-Origin: *\r\n\r\n"
}

/// The text of a bind failure: the attempted port and the reason the
/// system gave.
pub open spec fn bind_error_spec(port: u16, reason: Seq<char>) -> Seq<char> {
    "Failed to bind port "@ + decimal(port as nat) + ": "@ + reason
}

/// Renders the launcher's error when the port cannot be bound.
pub fn bind_error_message(port: u16, reason: &str) -> (r: String)
    ensures
        r@ == bind_error_spec(port, reason@),
{
    let mut out = String::new();
    out.append("Failed to bind port ");
    push_decimal(port as u64, &mut out);
    out.append(": ");
    out.append(reason);
    proof {
        assert(Seq::<char>::empty() + "Failed to bind port "@ + decimal(port as nat) + ": "@
            + reason@ =~= bind_error_spec(port, reason@));
    }
    out
}

} // verus!
