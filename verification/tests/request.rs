use dispatch::request::{is_routable, route, route_request, try_route, Route};

fn body_of(r: Route) -> (u8, String) {
    match r {
        Route::Signin(b) => (1, b),
        Route::Signup(b) => (2, b),
        Route::Connect(h) => (3, h),
        Route::Unmatched => (0, String::new()),
    }
}

#[test]
fn routes_signin_with_body() {
    let req = "POST /signin HTTP/1.1\r\nHost: localhost\r\nContent-Type: application/json\r\n\r\n{\"username\":\"a\",\"password\":\"b\"}";
    assert!(is_routable(req));
    assert_eq!(body_of(route(req)), (1, "{\"username\":\"a\",\"password\":\"b\"}".to_string()));
}

#[test]
fn routes_signup_with_body() {
    let req = "POST /signup HTTP/1.1\r\n\r\nxyz";
    assert_eq!(body_of(route(req)), (2, "xyz".to_string()));
}

#[test]
fn routes_connect_with_headers() {
    let req = "GET /connect HTTP/1.1\r\nUpgrade: websocket\r\nConnection: Upgrade\r\n\r\n";
    assert_eq!(
        body_of(route(req)),
        (3, "GET /connect HTTP/1.1\r\nUpgrade: websocket\r\nConnection: Upgrade".to_string())
    );
}

#[test]
fn other_requests_are_unmatched() {
    assert_eq!(body_of(route("GET /signin HTTP/1.1\r\n\r\n")).0, 0);
    assert_eq!(body_of(route("POST /signinx HTTP/1.1\r\n\r\n")).0, 0);
    assert_eq!(body_of(route("post /signin HTTP/1.1\r\n\r\n")).0, 0);
}

#[test]
fn empty_headers_are_unmatched() {
    assert!(is_routable("\r\n\r\nbody"));
    assert_eq!(body_of(route("\r\n\r\nbody")).0, 0);
}

#[test]
fn words_split_on_any_whitespace() {
    assert_eq!(body_of(route("  POST\t /signup\r\n\r\nb")), (2, "b".to_string()));
    // Only two words are needed; the version is optional.
    assert_eq!(body_of(route("POST /signin\r\n\r\nb")), (1, "b".to_string()));
    // A non-breaking space separates words too.
    assert_eq!(body_of(route("POST\u{a0}/signin\r\n\r\nb")), (1, "b".to_string()));
}

#[test]
fn body_is_everything_after_the_first_blank_line() {
    assert_eq!(body_of(route("POST /signin\r\n\r\na\r\n\r\nb")), (1, "a\r\n\r\nb".to_string()));
}

#[test]
fn unroutable_requests() {
    assert!(!is_routable("POST /signin HTTP/1.1\r\n"));
    assert!(try_route("POST /signin HTTP/1.1\r\n").is_none());
    assert!(!is_routable("POST\r\n\r\n"));
    assert!(try_route("   \r\nHost: x\r\n\r\n").is_none());
    assert!(try_route("POST /signup\r\n\r\n").is_some());
}

#[test]
fn routes_bytes_read_from_a_socket() {
    let r = route_request(b"POST /signup HTTP/1.1\r\n\r\n{}").unwrap();
    assert_eq!(body_of(r), (2, "{}".to_string()));
    assert!(route_request(b"GET / HTTP/1.1").is_none());
}

#[test]
fn invalid_utf8_is_replaced() {
    let mut bytes = b"POST /signin HTTP/1.1\r\n\r\n".to_vec();
    bytes.push(0xff);
    let r = route_request(&bytes).unwrap();
    assert_eq!(body_of(r), (1, "\u{fffd}".to_string()));
}
