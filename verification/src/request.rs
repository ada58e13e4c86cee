use vstd::prelude::*;

use crate::text::{chars_of, find, find_from, is_white_space, is_whitespace, occurs_at};

verus! {

broadcast use vstd::string::group_string_axioms;

/// The blank line that ends the headers of an HTTP request.
pub open spec fn header_end() -> Seq<char> {
    seq!['\r', '\n', '\r', '\n']
}

/// The first index at or after `i` that holds no white space (or the length).
pub open spec fn skip_space(s: Seq<char>, i: int) -> int
    decreases s.len() - i,
{
    if 0 <= i < s.len() && is_white_space(s[i]) {
        skip_space(s, i + 1)
    } else {
        i
    }
}

/// The first index at or after `i` that holds white space (or the length).
pub open spec fn skip_word(s: Seq<char>, i: int) -> int
    decreases s.len() - i,
{
    if 0 <= i < s.len() && !is_white_space(s[i]) {
        skip_word(s, i + 1)
    } else {
        i
    }
}

/// The first line of `text` as `str::lines` yields it: up to the first `\n`, without a
/// `\r` just before it; `None` for an empty text.
pub open spec fn first_line(text: Seq<char>) -> Option<Seq<char>> {
    if text.len() == 0 {
        None
    } else {
        match find_from(text, seq!['\n'], 0) {
            Some(k) => if k > 0 && text[k - 1] == '\r' {
                Some(text.take(k - 1))
            } else {
                Some(text.take(k))
            },
            None => Some(text),
        }
    }
}

/// Start of the first whitespace-separated word of `line`.
pub open spec fn first_word_start(line: Seq<char>) -> int {
    skip_space(line, 0)
}

/// Start of the second whitespace-separated word of `line`.
pub open spec fn second_word_start(line: Seq<char>) -> int {
    skip_space(line, skip_word(line, first_word_start(line)))
}

/// `line` holds at least two whitespace-separated words.
pub open spec fn has_two_words(line: Seq<char>) -> bool {
    second_word_start(line) < line.len()
}

/// The first word of `line` (the request method).
pub open spec fn first_word(line: Seq<char>) -> Seq<char> {
    line.subrange(first_word_start(line), skip_word(line, first_word_start(line)))
}

/// The second word of `line` (the request path).
pub open spec fn second_word(line: Seq<char>) -> Seq<char> {
    line.subrange(second_word_start(line), skip_word(line, second_word_start(line)))
}

/// The requests that can be routed: the headers end with a blank line, and a first
/// line, if there is one, names a method and a path.
pub open spec fn routable(text: Seq<char>) -> bool {
    match find_from(text, header_end(), 0) {
        Some(i) => match first_line(text.take(i)) {
            Some(line) => has_two_words(line),
            None => true,
        },
        None => false,
    }
}

/// Where a request goes.
#[derive(Debug)]
pub enum Route {
    /// `POST /signin`, with the request body.
    Signin(String),
    /// `POST /signup`, with the request body.
    Signup(String),
    /// `GET /connect`, with the request headers.
    Connect(String),
    /// Any other request, or one without a request line.
    Unmatched,
}

/// `r` is where the routable request `text` goes.
pub open spec fn route_matches(text: Seq<char>, r: Route) -> bool {
    let i = find_from(text, header_end(), 0).unwrap();
    let headers = text.take(i);
    let body = text.skip(i + 4);
    match first_line(headers) {
        None => r is Unmatched,
        Some(line) => {
            let method = first_word(line);
            let path = second_word(line);
            if method == "POST"@ && path == "/signin"@ {
                r matches Route::Signin(b) && b@ == body
            } else if method == "POST"@ && path == "/signup"@ {
                r matches Route::Signup(b) && b@ == body
            } else if method == "GET"@ && path == "/connect"@ {
                r matches Route::Connect(h) && h@ == headers
            } else {
                r is Unmatched
            }
        },
    }
}

fn skip_space_exec(s: &Vec<char>, i: usize, end: usize) -> (j: usize)
    requires
        i <= end <= s@.len(),
    ensures
        j == skip_space(s@.take(end as int), i as int),
        i <= j <= end,
{
    let ghost t = s@.take(end as int);
    let mut j: usize = i;
    while j < end && is_whitespace(s[j])
        invariant
            i <= j <= end <= s@.len(),
            t == s@.take(end as int),
            skip_space(t, j as int) == skip_space(t, i as int),
        decreases end - j,
    {
        j = j + 1;
    }
    j
}

fn skip_word_exec(s: &Vec<char>, i: usize, end: usize) -> (j: usize)
    requires
        i <= end <= s@.len(),
    ensures
        j == skip_word(s@.take(end as int), i as int),
        i <= j <= end,
{
    let ghost t = s@.take(end as int);
    let mut j: usize = i;
    while j < end && !is_whitespace(s[j])
        invariant
            i <= j <= end <= s@.len(),
            t == s@.take(end as int),
            skip_word(t, j as int) == skip_word(t, i as int),
        decreases end - j,
    {
        j = j + 1;
    }
    j
}

/// Length of the first line of `s@.take(end)`, as `first_line` gives it.
fn first_line_len(s: &Vec<char>, end: usize) -> (n: usize)
    requires
        0 < end <= s@.len(),
    ensures
        n <= end,
        first_line(s@.take(end as int)) == Some(s@.take(n as int)),
{
    let ghost t = s@.take(end as int);
    let ghost nl = seq!['\n'];
    let mut k: usize = 0;
    while k < end && s[k] != '\n'
        invariant
            k <= end <= s@.len(),
            t == s@.take(end as int),
            nl == seq!['\n'],
            find_from(t, nl, 0) == find_from(t, nl, k as int),
        decreases end - k,
    {
        assert(!occurs_at(t, nl, k as int)) by {
            assert(t.subrange(k as int, k + 1)[0] == s@[k as int]);
        }
        k = k + 1;
    }
    if k < end {
        assert(t.subrange(k as int, k + 1) =~= nl);
        assert(find_from(t, nl, k as int) == Some(k as int));
        if k > 0 && s[k - 1] == '\r' {
            assert(t.take(k - 1) =~= s@.take(k - 1));
            k - 1
        } else {
            assert(t.take(k as int) =~= s@.take(k as int));
            k
        }
    } else {
        assert(find_from(t, nl, k as int) is None);
        assert(t =~= s@.take(end as int));
        end
    }
}

fn slice_eq(v: &Vec<char>, a: usize, b: usize, w: &Vec<char>) -> (eq: bool)
    requires
        a <= b <= v@.len(),
    ensures
        eq == (v@.subrange(a as int, b as int) == w@),
{
    if b - a != w.len() {
        return false;
    }
    let mut k: usize = 0;
    while k < w.len()
        invariant
            a <= b <= v@.len(),
            b - a == w@.len(),
            k <= w@.len(),
            forall|j: int| 0 <= j < k ==> v@[a + j] == w@[j],
        decreases w@.len() - k,
    {
        if v[a + k] != w[k] {
            assert(v@.subrange(a as int, b as int)[k as int] != w@[k as int]);
            return false;
        }
        k = k + 1;
    }
    assert(v@.subrange(a as int, b as int) =~= w@);
    true
}

/// Word boundaries of the request line that lies in `v@.take(n)`: start and end of
/// the first word, start and end of the second.
fn word_bounds(v: &Vec<char>, n: usize) -> (r: (usize, usize, usize, usize))
    requires
        n <= v@.len(),
    ensures
        r.0 == first_word_start(v@.take(n as int)),
        r.1 == skip_word(v@.take(n as int), r.0 as int),
        r.2 == second_word_start(v@.take(n as int)),
        r.3 == skip_word(v@.take(n as int), r.2 as int),
        r.0 <= r.1 <= r.2 <= r.3 <= n,
{
    let a = skip_space_exec(v, 0, n);
    let b = skip_word_exec(v, a, n);
    let c = skip_space_exec(v, b, n);
    let d = skip_word_exec(v, c, n);
    (a, b, c, d)
}

/// Whether the request can be routed: its headers end with a blank line and its first
/// line, if any, holds a method and a path.
pub fn is_routable(text: &str) -> (b: bool)
    ensures
        b == routable(text@),
{
    let v = chars_of(text);
    let sep: Vec<char> = vec!['\r', '\n', '\r', '\n'];
    assert(sep@ =~= header_end());
    match find(&v, &sep) {
        None => false,
        Some(i) => {
            if i == 0 {
                true
            } else {
                let n = first_line_len(&v, i);
                let (_a, _b, c, _d) = word_bounds(&v, n);
                c < n
            }
        },
    }
}

/// Routes a request by its method and path, as the server's connection handler does.
pub fn route(text: &str) -> (r: Route)
    requires
        routable(text@),
    ensures
        route_matches(text@, r),
{
    let v = chars_of(text);
    let sep: Vec<char> = vec!['\r', '\n', '\r', '\n'];
    assert(sep@ =~= header_end());
    let i = find(&v, &sep).unwrap();
    if i == 0 {
        return Route::Unmatched;
    }
    let n = first_line_len(&v, i);
    let (a, b, c, d) = word_bounds(&v, n);
    let post = chars_of("POST");
    let get = chars_of("GET");
    let signin = chars_of("/signin");
    let signup = chars_of("/signup");
    let connect = chars_of("/connect");
    let len = v.len();
    assert(v@.subrange(a as int, b as int) == v@.take(n as int).subrange(a as int, b as int));
    assert(v@.subrange(c as int, d as int) == v@.take(n as int).subrange(c as int, d as int));
    if slice_eq(&v, a, b, &post) && slice_eq(&v, c, d, &signin) {
        Route::Signin(text.substring_char(i + 4, len).to_owned())
    } else if slice_eq(&v, a, b, &post) && slice_eq(&v, c, d, &signup) {
        Route::Signup(text.substring_char(i + 4, len).to_owned())
    } else if slice_eq(&v, a, b, &get) && slice_eq(&v, c, d, &connect) {
        Route::Connect(text.substring_char(0, i).to_owned())
    } else {
        Route::Unmatched
    }
}

/// Routes a request, or gives `None` for one that cannot be routed (the server's
/// handler gives up on such a request with a panic).
pub fn try_route(text: &str) -> (r: Option<Route>)
    ensures
        r is Some <==> routable(text@),
        r matches Some(route) ==> route_matches(text@, route),
{
    if is_routable(text) {
        Some(route(text))
    } else {
        None
    }
}

/// The text that `String::from_utf8_lossy` makes of `bytes`.
pub uninterp spec fn utf8_lossy(bytes: Seq<u8>) -> Seq<char>;

/// Decodes bytes read from a socket as UTF-8, replacing invalid sequences.
///
/// Calls `String::from_utf8_lossy`. Trusted: its result is a function of the bytes
/// (named `utf8_lossy`), and valid UTF-8 is decoded unchanged, as std documents.
#[verifier::external_body]
fn decode_lossy(bytes: &[u8]) -> (text: String)
    ensures
        text@ == utf8_lossy(bytes@),
        vstd::utf8::valid_utf8(bytes@) ==> text@ == vstd::utf8::decode_utf8(bytes@),
{
    String::from_utf8_lossy(bytes).into_owned()
}

/// Routes the bytes of a request as the server reads them from a socket; `None` for a
/// request that cannot be routed.
pub fn route_request(bytes: &[u8]) -> (r: Option<Route>)
    ensures
        r is Some <==> routable(utf8_lossy(bytes@)),
        r matches Some(route) ==> route_matches(utf8_lossy(bytes@), route),
        vstd::utf8::valid_utf8(bytes@) ==> (r is Some <==> routable(vstd::utf8::decode_utf8(bytes@))),
        vstd::utf8::valid_utf8(bytes@) ==> (r matches Some(route) ==> route_matches(
            vstd::utf8::decode_utf8(bytes@),
            route,
        )),
{
    let text = decode_lossy(bytes);
    try_route(text.as_str())
}

} // verus!
