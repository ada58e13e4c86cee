//! The library's functions against the std operations they are specified after.

use dispatch::auth::AuthRequest;
use dispatch::client::outgoing_message;
use dispatch::request::{try_route, Route};
use dispatch::response::Response;
use dispatch::session::is_websocket_upgrade;

/// The routing as std's string operations compute it; `None` where they would panic.
fn std_route(request: &str) -> Option<(u8, String)> {
    let (headers, body) = request.split_once("\r\n\r\n")?;
    match headers.lines().next() {
        None => Some((0, String::new())),
        Some(line) => {
            let parts: Vec<&str> = line.split_whitespace().collect();
            if parts.len() < 2 {
                return None;
            }
            Some(match (parts[0], parts[1]) {
                ("POST", "/signin") => (1, body.to_string()),
                ("POST", "/signup") => (2, body.to_string()),
                ("GET", "/connect") => (3, headers.to_string()),
                _ => (0, String::new()),
            })
        }
    }
}

fn lib_route(request: &str) -> Option<(u8, String)> {
    try_route(request).map(|r| match r {
        Route::Signin(b) => (1, b),
        Route::Signup(b) => (2, b),
        Route::Connect(h) => (3, h),
        Route::Unmatched => (0, String::new()),
    })
}

const SAMPLES: &[&str] = &[
    "",
    "\r\n\r\n",
    "\r\n\r\nbody",
    "POST /signin HTTP/1.1\r\nHost: x\r\n\r\n{}",
    "POST /signup\r\n\r\n",
    "GET /connect HTTP/1.1\r\nUpgrade: websocket\r\n\r\n",
    "GET /connect\rHTTP/1.1\r\n\r\n",
    "POST /signin\r\r\n\r\nx",
    "POST\n/signin\r\n\r\nx",
    "\nPOST /signin\r\n\r\nx",
    " \u{2003}POST\u{3000}/signup \r\n\r\ny",
    "POST /signin\r\n\r\n\r\n\r\n",
    "POST",
    "POST /signin",
    "POST\r\n\r\n",
    "   \r\nA: b\r\n\r\n",
    "DELETE /signin HTTP/1.1\r\n\r\n",
    "POST /sign\u{0}in\r\n\r\n",
    "GET /connect\u{85}x\r\n\r\n",
    "post /connect\r\n\r\n",
    "é /x\r\n\r\nü",
];

#[test]
fn routing_agrees_with_std_parsing() {
    for sample in SAMPLES {
        assert_eq!(lib_route(sample), std_route(sample), "request {:?}", sample);
    }
}

#[test]
fn trimming_agrees_with_trim_end() {
    for sample in ["", " ", "a", "a ", " a", "a\u{2028}\u{85}", "x\u{200b}", "x\u{feff}", "ab\t\n\r", "日本 \u{3000}"] {
        let expected = sample.trim_end();
        let expected = if expected.is_empty() { None } else { Some(expected.to_string()) };
        assert_eq!(outgoing_message(sample), expected, "text {:?}", sample);
    }
}

#[test]
fn whitespace_agrees_with_char_is_whitespace() {
    for u in 0u32..0x3100 {
        if let Some(c) = char::from_u32(u) {
            let s = format!("a{}", c);
            let trimmed = outgoing_message(&s).unwrap();
            assert_eq!(trimmed == "a", c.is_whitespace(), "char {:#x}", u);
        }
    }
}

#[test]
fn upgrade_check_agrees_with_contains() {
    for sample in ["", "Upgrade: websocket", "xUpgrade: websocketx", "Upgrade:websocket", "upgrade: websocket", "Upgrade: websocke"] {
        assert_eq!(is_websocket_upgrade(sample), sample.contains("Upgrade: websocket"));
    }
}

#[test]
fn response_agrees_with_format() {
    for (code, text, body) in [(200u16, "OK", "t"), (0, "", ""), (409, "Conflict", "Already exists"), (1000, "é", "ü日")] {
        let expected = format!(
            "HTTP/1.1 {} {}\r\nContent-Length: {}\r\nContent-Type: text/plain\r\n\r\n{}",
            code,
            text,
            body.len(),
            body
        )
        .as_bytes()
        .to_vec();
        assert_eq!(Response::new(code, text, body), expected);
    }
}

#[test]
fn validity_agrees_with_the_original_expression() {
    for (u, p) in [("", ""), ("a", ""), ("", "b"), ("abcdefgh", "abcdefgh"), ("abcdefghi", "a"), ("ж", "жжжж"), ("жжжжж", "a")] {
        let r = AuthRequest { username: u, password: p };
        let expected = !(u.is_empty() || p.is_empty()) && u.len() <= 8 && p.len() <= 8;
        assert_eq!(r.is_valid(), expected);
        assert_eq!(r.is_empty(), u.is_empty() || p.is_empty());
    }
}
