use vstd::prelude::*;
use vstd::string::StringSliceAdditionalSpecFns;
use vstd::utf8::{decode_utf8, encode_utf8, valid_utf8};

use crate::request::header_end;
use crate::text::{find_from, occurs_at};

verus! {

/// ASCII decimal digits of `n`, most significant first, without leading zeros.
pub open spec fn decimal(n: nat) -> Seq<u8>
    decreases n,
{
    if n < 10 {
        seq![(48 + n) as u8]
    } else {
        decimal(n / 10).push((48 + n % 10) as u8)
    }
}

/// The bytes of a plain-text HTTP/1.1 response with the given status line and body.
pub open spec fn http_response(status_code: nat, status_text: Seq<u8>, body: Seq<u8>) -> Seq<u8> {
    "HTTP/1.1 ".spec_bytes() + decimal(status_code) + " ".spec_bytes() + status_text
        + "\r\nContent-Length: ".spec_bytes() + decimal(body.len())
        + "\r\nContent-Type: text/plain\r\n\r\n".spec_bytes() + body
}

/// Builder of the raw HTTP responses that the server writes to its sockets.
pub struct Response;

fn push_bytes(out: &mut Vec<u8>, bytes: &[u8])
    ensures
        final(out)@ == old(out)@ + bytes@,
{
    let mut i: usize = 0;
    while i < bytes.len()
        invariant
            i <= bytes@.len(),
            out@ == old(out)@ + bytes@.subrange(0, i as int),
        decreases bytes@.len() - i,
    {
        out.push(bytes[i]);
        i = i + 1;
        assert(bytes@.subrange(0, i as int) == bytes@.subrange(0, i - 1).push(bytes@[i - 1]));
    }
    assert(bytes@.subrange(0, i as int) == bytes@);
}

fn push_decimal(out: &mut Vec<u8>, n: u64)
    ensures
        final(out)@ == old(out)@ + decimal(n as nat),
    decreases n,
{
    if n >= 10 {
        push_decimal(out, n / 10);
    }
    let digit: u8 = (n % 10) as u8;
    out.push(48u8 + digit);
    assert(decimal(n as nat) == if n < 10 {
        seq![(48 + n) as u8]
    } else {
        decimal((n / 10) as nat).push((48 + n % 10) as u8)
    });
}

impl Response {
    /// Renders a response with the given status code, status text and plain-text body;
    /// `Content-Length` is the byte length of the body.
    pub fn new(status_code: u16, status_text: &str, body: &str) -> (bytes: Vec<u8>)
        ensures
            bytes@ == http_response(status_code as nat, status_text.spec_bytes(), body.spec_bytes()),
    {
        let mut out: Vec<u8> = Vec::new();
        push_bytes(&mut out, "HTTP/1.1 ".as_bytes());
        push_decimal(&mut out, status_code as u64);
        push_bytes(&mut out, " ".as_bytes());
        push_bytes(&mut out, status_text.as_bytes());
        push_bytes(&mut out, "\r\nContent-Length: ".as_bytes());
        let body_bytes: &[u8] = body.as_bytes();
        push_decimal(&mut out, body_bytes.len() as u64);
        push_bytes(&mut out, "\r\nContent-Type: text/plain\r\n\r\n".as_bytes());
        push_bytes(&mut out, body_bytes);
        assert(out@ =~= http_response(status_code as nat, status_text.spec_bytes(), body.spec_bytes()));
        out
    }
}


/// A response is its head, the `Content-Length` header with the body's length in
/// bytes, the `Content-Type` header and a blank line, and then exactly the body: a
/// reader that trusts the header takes the body and nothing else.
pub proof fn lemma_response_frames_body(status_code: nat, status_text: Seq<u8>, body: Seq<u8>)
    ensures
        ({
            let r = http_response(status_code, status_text, body);
            let head = "HTTP/1.1 ".spec_bytes() + decimal(status_code) + " ".spec_bytes()
                + status_text + "\r\nContent-Length: ".spec_bytes();
            let tail = "\r\nContent-Type: text/plain\r\n\r\n".spec_bytes();
            &&& r.take(head.len() as int) == head
            &&& r.subrange(head.len() as int, (head.len() + decimal(body.len()).len()) as int) == decimal(body.len())
            &&& r.len() == head.len() + decimal(body.len()).len() + tail.len() + body.len()
            &&& r.skip(r.len() - body.len()) == body
        }),
{
    let head = "HTTP/1.1 ".spec_bytes() + decimal(status_code) + " ".spec_bytes() + status_text
        + "\r\nContent-Length: ".spec_bytes();
    let digits = decimal(body.len());
    let tail = "\r\nContent-Type: text/plain\r\n\r\n".spec_bytes();
    let r = http_response(status_code, status_text, body);
    assert(r == head + digits + tail + body);
    assert(r.take(head.len() as int) =~= head);
    assert(r.subrange(head.len() as int, (head.len() + digits.len()) as int) =~= digits);
    assert(r.skip(r.len() - body.len()) =~= body);
}


/// Decimal digits of `n` as characters.
pub open spec fn decimal_chars(n: nat) -> Seq<char>
    decreases n,
{
    if n < 10 {
        seq![(48 + n) as char]
    } else {
        decimal_chars(n / 10).push((48 + n % 10) as char)
    }
}

/// The head of a response as text: status line and headers, up to the blank line.
pub open spec fn response_head(status_code: nat, status_text: Seq<char>, body_len: nat) -> Seq<char> {
    "HTTP/1.1 "@ + decimal_chars(status_code) + " "@ + status_text + "\r\nContent-Length: "@
        + decimal_chars(body_len) + "\r\nContent-Type: text/plain"@
}

proof fn lemma_encode_concat(a: Seq<char>, b: Seq<char>)
    ensures
        encode_utf8(a + b) == encode_utf8(a) + encode_utf8(b),
    decreases a.len(),
{
    if a.len() == 0 {
        assert(a + b =~= b);
        assert(encode_utf8(a) =~= Seq::<u8>::empty());
        assert(encode_utf8(a) + encode_utf8(b) =~= encode_utf8(b));
    } else {
        assert((a + b).drop_first() =~= a.drop_first() + b);
        assert((a + b)[0] == a[0]);
        lemma_encode_concat(a.drop_first(), b);
        assert(encode_utf8(a + b) =~= encode_utf8(a) + encode_utf8(b));
    }
}

proof fn lemma_decimal_chars(n: nat)
    ensures
        encode_utf8(decimal_chars(n)) == decimal(n),
        forall|i: int| 0 <= i < decimal_chars(n).len() ==> '0' <= #[trigger] decimal_chars(n)[i] <= '9',
    decreases n,
{
    if n < 10 {
        assert(encode_utf8(decimal_chars(n)) =~= decimal(n)) by {
            assert(decimal_chars(n).drop_first() =~= Seq::<char>::empty());
            assert(encode_utf8(decimal_chars(n).drop_first()) =~= Seq::<u8>::empty());
            vstd::utf8::is_ascii_chars_encode_utf8(decimal_chars(n));
        }
    } else {
        lemma_decimal_chars(n / 10);
        let last = seq![(48 + n % 10) as char];
        assert(decimal_chars(n) == decimal_chars(n / 10) + last);
        lemma_encode_concat(decimal_chars(n / 10), last);
        assert(encode_utf8(last) =~= seq![(48 + n % 10) as u8]) by {
            assert(last.drop_first() =~= Seq::<char>::empty());
            assert(encode_utf8(last.drop_first()) =~= Seq::<u8>::empty());
            vstd::utf8::is_ascii_chars_encode_utf8(last);
        }
        assert(encode_utf8(decimal_chars(n)) =~= decimal(n));
    }
}

proof fn lemma_find_first(s: Seq<char>, pat: Seq<char>, i: int, k: int)
    requires
        0 <= i <= k,
        occurs_at(s, pat, k),
        forall|j: int| i <= j < k ==> !#[trigger] occurs_at(s, pat, j),
    ensures
        find_from(s, pat, i) == Some(k),
    decreases k - i,
{
    if i < k {
        lemma_find_first(s, pat, i + 1, k);
    }
}

/// The bytes of a response are the UTF-8 encoding of its head, a blank line and the body.
proof fn lemma_response_is_encoded_text(status_code: nat, status_text: Seq<char>, body: Seq<char>)
    ensures
        http_response(status_code, encode_utf8(status_text), encode_utf8(body)) == encode_utf8(
            response_head(status_code, status_text, encode_utf8(body).len()) + header_end() + body,
        ),
{
    reveal_strlit("\r\nContent-Type: text/plain");
    reveal_strlit("\r\nContent-Type: text/plain\r\n\r\n");
    let blen = encode_utf8(body).len();
    let p1 = "HTTP/1.1 "@;
    let d1 = decimal_chars(status_code);
    let p2 = " "@;
    let p3 = "\r\nContent-Length: "@;
    let d2 = decimal_chars(blen);
    let p4 = "\r\nContent-Type: text/plain"@;
    let head = response_head(status_code, status_text, blen);
    lemma_decimal_chars(status_code);
    lemma_decimal_chars(blen);
    assert("\r\nContent-Type: text/plain\r\n\r\n"@ =~= p4 + header_end());
    lemma_encode_concat(p1, d1);
    lemma_encode_concat(p1 + d1, p2);
    lemma_encode_concat(p1 + d1 + p2, status_text);
    lemma_encode_concat(p1 + d1 + p2 + status_text, p3);
    lemma_encode_concat(p1 + d1 + p2 + status_text + p3, d2);
    lemma_encode_concat(p4, header_end());
    lemma_encode_concat(p1 + d1 + p2 + status_text + p3 + d2, p4 + header_end() + body);
    lemma_encode_concat(p4 + header_end(), body);
    assert(head + header_end() + body =~= (p1 + d1 + p2 + status_text + p3 + d2) + ((p4
        + header_end()) + body));
    assert(http_response(status_code, encode_utf8(status_text), encode_utf8(body)) =~= encode_utf8(
        head + header_end() + body,
    ));
}

/// No blank line starts inside the head of a response whose status text holds no `\r`.
#[verifier::rlimit(40)]
proof fn lemma_head_has_no_blank_line(status_code: nat, status_text: Seq<char>, body_len: nat, rest: Seq<char>)
    requires
        !status_text.contains('\r'),
    ensures
        ({
            let head = response_head(status_code, status_text, body_len);
            forall|j: int| 0 <= j < head.len() ==> !#[trigger] occurs_at(head + rest, header_end(), j)
        }),
{
    reveal_strlit("HTTP/1.1 ");
    reveal_strlit(" ");
    reveal_strlit("\r\nContent-Length: ");
    reveal_strlit("\r\nContent-Type: text/plain");
    let p1 = "HTTP/1.1 "@;
    let d1 = decimal_chars(status_code);
    let p2 = " "@;
    let p3 = "\r\nContent-Length: "@;
    let d2 = decimal_chars(body_len);
    let p4 = "\r\nContent-Type: text/plain"@;
    let head = response_head(status_code, status_text, body_len);
    let whole = head + rest;
    lemma_decimal_chars(status_code);
    lemma_decimal_chars(body_len);
    let a = p1.len() + d1.len() + p2.len();
    let b = a + status_text.len();
    let c = b + p3.len();
    let d = c + d2.len();
    assert forall|j: int| 0 <= j < head.len() implies !#[trigger] occurs_at(whole, header_end(), j) by {
        if occurs_at(whole, header_end(), j) {
            assert(whole.subrange(j, j + 4)[0] == '\r');
            assert(whole.subrange(j, j + 4)[2] == '\r');
            assert(whole[j] == '\r');
            assert(whole[j + 2] == '\r');
            if j < p1.len() {
                assert(whole[j] == p1[j]);
            } else if j < p1.len() + d1.len() {
                assert(whole[j] == d1[j - p1.len()]);
            } else if j < a {
                assert(whole[j] == p2[j - p1.len() - d1.len()]);
            } else if j < b {
                assert(whole[j] == status_text[j - a]);
                assert(status_text.contains('\r'));
            } else if j < c {
                assert(whole[j] == p3[j - b]);
                assert(j == b);
                assert(whole[j + 2] == p3[2]);
            } else if j < d {
                assert(whole[j] == d2[j - c]);
            } else {
                assert(whole[j] == p4[j - d]);
                assert(j == d);
                assert(whole[j + 2] == p4[2]);
            }
        }
    }
}

/// The response framing law: when the status text holds no line break, the response
/// is valid UTF-8, its first blank line ends the head (status line, `Content-Length`
/// with the body's length in bytes, `Content-Type`), and everything after that blank
/// line is exactly the body.
pub proof fn lemma_response_splits_at_blank_line(status_code: nat, status_text: Seq<char>, body: Seq<char>)
    requires
        !status_text.contains('\r'),
        !status_text.contains('\n'),
    ensures
        ({
            let r = http_response(status_code, encode_utf8(status_text), encode_utf8(body));
            let text = decode_utf8(r);
            let head = response_head(status_code, status_text, encode_utf8(body).len());
            &&& valid_utf8(r)
            &&& text == head + header_end() + body
            &&& find_from(text, header_end(), 0) == Some(head.len() as int)
            &&& text.skip(head.len() + 4int) == body
        }),
{
    let head = response_head(status_code, status_text, encode_utf8(body).len());
    let whole = head + header_end() + body;
    lemma_response_is_encoded_text(status_code, status_text, body);
    vstd::utf8::encode_utf8_valid_utf8(whole);
    vstd::utf8::encode_utf8_decode_utf8(whole);
    let h = head.len() as int;
    assert(whole =~= head + (header_end() + body));
    lemma_head_has_no_blank_line(status_code, status_text, encode_utf8(body).len(), header_end() + body);
    assert(whole.subrange(h, h + 4) =~= header_end());
    lemma_find_first(whole, header_end(), 0, h);
    assert(whole.skip(h + 4) =~= body);
}

} // verus!
