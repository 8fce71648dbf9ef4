//! The answer envelope `code / message / data / request_id`, request ids, and the headers
//! that go with an answer.

use uuid::Uuid;
use vstd::prelude::*;

use crate::error::{AppError, ErrorData};
use crate::text::{trim, trim_spec};

verus! {

/// The header that carries the request id.
pub const X_REQUEST_ID_HEADER: &'static str = "x-request-id";

/// The header that marks an answer replayed for a repeated idempotent request.
pub const X_IDEMPOTENT_REPLAY_HEADER: &'static str = "x-idempotent-replay";

/// Whether `c` is a lower-case hexadecimal digit.
pub open spec fn is_lower_hex_digit(c: char) -> bool {
    ('0' <= c <= '9') || ('a' <= c <= 'f')
}

/// Whether `s` has the shape of a generated request id: `req_` and 32 lower-case hexadecimal
/// digits.
pub open spec fn is_generated_request_id(s: Seq<char>) -> bool {
    &&& s.len() == 36
    &&& s.subrange(0, 4) == "req_"@
    &&& forall|i: int| 4 <= i < 36 ==> #[trigger] is_lower_hex_digit(s[i])
}

/// A fresh random (version 4) UUID in its simple form, `Uuid::new_v4().simple()`: 32
/// lower-case hexadecimal digits, which is all the contract states; the digits themselves
/// are random.
#[verifier::external_body]
fn uuid_v4_simple() -> (s: String)
    ensures
        s@.len() == 32,
        forall|i: int| 0 <= i < 32 ==> #[trigger] is_lower_hex_digit(s@[i]),
{
    Uuid::new_v4().simple().to_string()
}

/// A new request id: `req_` followed by a random UUID's 32 hexadecimal digits.
pub fn generate_request_id() -> (r: String)
    ensures
        is_generated_request_id(r@),
{
    let u = uuid_v4_simple();
    let mut r = String::from_str("req_");
    proof {
        reveal_strlit("req_");
    }
    r.append(u.as_str());
    assert(r@.subrange(0, 4) =~= "req_"@);
    assert forall|i: int| 4 <= i < 36 implies #[trigger] is_lower_hex_digit(r@[i]) by {
        assert(r@[i] == u@[i - 4]);
    }
    r
}

/// A request header as the service sees it.
#[derive(Debug, Clone)]
pub enum HeaderText {
    /// The header is not there.
    Missing,
    /// The header is there, but not as visible ASCII text.
    NotVisibleAscii,
    /// The header's text.
    Text(String),
}

/// The request id of a request whose `x-request-id` header is `header`: the header's text
/// without surrounding whitespace when some is left, else a new id.
pub fn resolve_request_id(header: &HeaderText) -> (r: String)
    ensures
        match header {
            HeaderText::Text(s) => if trim_spec(s@).len() > 0 {
                r@ == trim_spec(s@)
            } else {
                is_generated_request_id(r@)
            },
            _ => is_generated_request_id(r@),
        },
{
    match header {
        HeaderText::Text(s) => {
            let t = trim(s.as_str());
            if t.unicode_len() > 0 {
                t
            } else {
                generate_request_id()
            }
        },
        _ => generate_request_id(),
    }
}

/// Whether `c` may stand in a header value: a tab, or any character but the ASCII control
/// characters.
pub open spec fn header_char_ok(c: char) -> bool {
    c == '\t' || (c as u32 >= 32 && c as u32 != 127)
}

/// Whether `s` can be sent as a header value, as `HeaderValue::from_str` accepts it.
pub open spec fn header_value_ok(s: Seq<char>) -> bool {
    forall|i: int| 0 <= i < s.len() ==> #[trigger] header_char_ok(s[i])
}

fn is_header_value(s: &str) -> (b: bool)
    ensures
        b == header_value_ok(s@),
{
    let n = s.unicode_len();
    let mut i: usize = 0;
    while i < n
        invariant
            i <= n,
            n == s@.len(),
            forall|k: int| 0 <= k < i ==> #[trigger] header_char_ok(s@[k]),
        decreases n - i,
    {
        let c = s.get_char(i);
        let u: u32 = c as u32;
        if !(c == '\t' || (u >= 32 && u != 127)) {
            assert(!header_char_ok(s@[i as int]));
            return false;
        }
        i = i + 1;
    }
    true
}

/// The headers of an answer, as `(name, value)` pairs.
pub open spec fn response_headers_spec(request_id: Seq<char>, is_idempotent_replay: bool) -> Seq<(Seq<char>, Seq<char>)> {
    let first: Seq<(Seq<char>, Seq<char>)> = if header_value_ok(request_id) {
        seq![("x-request-id"@, request_id)]
    } else {
        Seq::empty()
    };
    if is_idempotent_replay {
        first.push(("x-idempotent-replay"@, "true"@))
    } else {
        first
    }
}

/// The text of header pairs.
pub open spec fn header_pairs_text(h: Seq<(String, String)>) -> Seq<(Seq<char>, Seq<char>)> {
    h.map_values(|p: (String, String)| (p.0@, p.1@))
}

/// The headers of an answer to request `request_id`: the request id, when it can be sent as
/// a header value, and the replay mark for a replayed idempotent request.
pub fn build_response_headers(request_id: &str, is_idempotent_replay: bool) -> (h: Vec<(String, String)>)
    ensures
        header_pairs_text(h@) == response_headers_spec(request_id@, is_idempotent_replay),
{
    let mut h: Vec<(String, String)> = Vec::new();
    if is_header_value(request_id) {
        h.push((String::from_str(X_REQUEST_ID_HEADER), String::from_str(request_id)));
    }
    if is_idempotent_replay {
        h.push((String::from_str(X_IDEMPOTENT_REPLAY_HEADER), String::from_str("true")));
    }
    assert(header_pairs_text(h@) =~= response_headers_spec(request_id@, is_idempotent_replay));
    h
}

/// An answer: business code, message, data and the request it answers.
#[derive(Debug, Clone)]
pub struct ApiResponse<T> {
    pub code: i32,
    pub message: String,
    pub data: T,
    pub request_id: String,
}

impl<T> ApiResponse<T> {
    /// The answer to a request that succeeded: code 200, message `success`.
    pub fn success(data: T, request_id: String) -> (r: ApiResponse<T>)
        ensures
            r.code == 200,
            r.message@ == "success"@,
            r.data == data,
            r.request_id == request_id,
    {
        ApiResponse { code: 200, message: String::from_str("success"), data, request_id }
    }

    /// The answer to a request that failed.
    pub fn business_error(code: i32, message: String, data: T, request_id: String) -> (r: ApiResponse<T>)
        ensures
            r.code == code,
            r.message == message,
            r.data == data,
            r.request_id == request_id,
    {
        ApiResponse { code, message, data, request_id }
    }
}

/// What is sent back for a failure: HTTP status, headers and body.
#[derive(Debug)]
pub struct ErrorResponse {
    pub status: u16,
    pub headers: Vec<(String, String)>,
    pub body: ApiResponse<ErrorData>,
}

/// The answer sent for error `e`: its status, and a body with its code, message and data,
/// answering its request id, or a new one when it has none.
pub fn error_response(e: AppError) -> (r: ErrorResponse)
    ensures
        r.status == e.status,
        r.body.code == e.code,
        r.body.message == e.message,
        r.body.data == e.data,
        e.request_id matches Some(id) ==> r.body.request_id == id,
        e.request_id is None ==> is_generated_request_id(r.body.request_id@),
        header_pairs_text(r.headers@) == response_headers_spec(r.body.request_id@, false),
{
    let request_id = match e.request_id {
        Some(id) => id,
        None => generate_request_id(),
    };
    let headers = build_response_headers(request_id.as_str(), false);
    let body = ApiResponse::business_error(e.code, e.message, e.data, request_id);
    ErrorResponse { status: e.status, headers, body }
}

} // verus!
