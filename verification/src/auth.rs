use vstd::prelude::*;
use vstd::utf8::{decode_utf8, encode_utf8, valid_utf8};
use vstd::string::StringSliceAdditionalSpecFns;
use crate::response::{make_response, ErrCode, Resp, err_code_value, err_message};
use crate::text::{decimal_text, format_i32, parse_i32, parse_i32_text, same_text};

verus! {

broadcast use vstd::utf8::group_utf8_lib;

/// Calls `std::str::from_utf8`; the contract claims what its documentation
/// states: the bytes are accepted exactly when they are valid UTF-8, and
/// the text is then the one those bytes encode.
#[verifier::external_body]
fn utf8_text(bytes: &[u8]) -> (r: Option<&str>)
    ensures
        r is Some <==> valid_utf8(bytes@),
        r matches Some(s) ==> s.spec_bytes() == bytes@,
{
    std::str::from_utf8(bytes).ok()
}

/// A byte that a header value may hold to be read as text: a visible ASCII
/// character, a space or a tab.
pub open spec fn is_visible_ascii(b: u8) -> bool {
    (32 <= b < 127) || b == 9
}

/// The characters of ASCII bytes.
pub open spec fn ascii_chars(bytes: Seq<u8>) -> Seq<char> {
    Seq::new(bytes.len(), |i: int| (bytes[i] as u32) as char)
}

/// The text of a header value, when all of its bytes are visible ASCII.
pub open spec fn header_text(bytes: Seq<u8>) -> Option<Seq<char>> {
    if forall|i: int| 0 <= i < bytes.len() ==> is_visible_ascii(#[trigger] bytes[i]) {
        Some(ascii_chars(bytes))
    } else {
        None
    }
}

proof fn lemma_ascii_bytes_decode(bytes: Seq<u8>)
    requires
        forall|i: int| 0 <= i < bytes.len() ==> #[trigger] bytes[i] < 128,
    ensures
        valid_utf8(bytes),
        decode_utf8(bytes) == ascii_chars(bytes),
    decreases bytes.len(),
{
    if bytes.len() > 0 {
        let rest = bytes.subrange(1, bytes.len() as int);
        lemma_ascii_bytes_decode(rest);
        let b = bytes[0];
        assert(b & 0x7f == b) by (bit_vector)
            requires
                b < 128,
        ;
        assert(vstd::utf8::pop_first_scalar(bytes) == rest);
        assert(decode_utf8(bytes) =~= ascii_chars(bytes));
    }
}

/// Reads a header value as text, as `http::HeaderValue::to_str` does.
fn header_str(value: &[u8]) -> (r: Option<&str>)
    ensures
        match header_text(value@) {
            Some(t) => r matches Some(s) && s@ == t && s.is_ascii(),
            None => r is None,
        },
{
    let mut i: usize = 0;
    while i < value.len()
        invariant
            0 <= i <= value@.len(),
            forall|j: int| 0 <= j < i ==> is_visible_ascii(#[trigger] value@[j]),
        decreases value@.len() - i,
    {
        let b = value[i];
        if !((32 <= b && b < 127) || b == 9) {
            assert(header_text(value@) is None);
            return None;
        }
        i = i + 1;
    }
    proof {
        lemma_ascii_bytes_decode(value@);
    }
    let s = utf8_text(value);
    match s {
        Some(t) => {
            proof {
                assert(decode_utf8(encode_utf8(t@)) == t@);
                assert(vstd::utf8::is_ascii_chars(t@)) by {
                    assert forall|j: int| 0 <= j < t@.len() implies '\0' <= #[trigger] t@[j] <= '\u{7f}' by {
                        assert(t@[j] == ascii_chars(value@)[j]);
                    }
                }
            }
            Some(t)
        },
        None => None,
    }
}

/// The token that an `Authorization` header carries: its text must start
/// with `Bearer ` and the token is what follows; anything else is refused as
/// unauthorized.
pub open spec fn bearer_token_of(value: Seq<u8>) -> Result<Seq<char>, ErrCode> {
    match header_text(value) {
        Some(t) => if t.len() >= 7 && t.take(7) == "Bearer "@ {
            Ok(t.skip(7))
        } else {
            Err(ErrCode::UnAuthorized)
        },
        None => Err(ErrCode::UnAuthorized),
    }
}

/// Takes the bearer token out of an `Authorization` header value.
pub fn bearer_token(value: &[u8]) -> (r: Result<String, ErrCode>)
    ensures
        match r {
            Ok(t) => bearer_token_of(value@) == Ok::<Seq<char>, ErrCode>(t@),
            Err(e) => bearer_token_of(value@) == Err::<Seq<char>, ErrCode>(e),
        },
{
    proof {
        reveal_strlit("Bearer ");
    }
    let text = match header_str(value) {
        Some(t) => t,
        None => return Err(ErrCode::UnAuthorized),
    };
    let n = text.unicode_len();
    if n < 7 {
        return Err(ErrCode::UnAuthorized);
    }
    let head = text.substring_ascii(0, 7);
    if !same_text(head, "Bearer ") {
        return Err(ErrCode::UnAuthorized);
    }
    let token = text.substring_ascii(7, n);
    proof {
        assert(head@ =~= text@.take(7));
        assert(token@ =~= text@.skip(7));
    }
    Ok(token.to_owned())
}

/// A request speaks gRPC when its `Content-Type` header reads as text that
/// starts with `application/grpc`.
pub open spec fn is_grpc_content_type(content_type: Option<Seq<u8>>) -> bool {
    match content_type {
        Some(v) => match header_text(v) {
            Some(t) => t.len() >= 16 && t.take(16) == "application/grpc"@,
            None => false,
        },
        None => false,
    }
}

/// Tells whether a request speaks gRPC, from its `Content-Type` header.
pub fn is_grpc_request(content_type: Option<&[u8]>) -> (r: bool)
    ensures
        r == is_grpc_content_type(match content_type {
            Some(v) => Some(v@),
            None => None,
        }),
{
    proof {
        reveal_strlit("application/grpc");
    }
    let v = match content_type {
        Some(v) => v,
        None => return false,
    };
    let text = match header_str(v) {
        Some(t) => t,
        None => return false,
    };
    let n = text.unicode_len();
    if n < 16 {
        return false;
    }
    let head = text.substring_ascii(0, 16);
    proof {
        assert(head@ =~= text@.take(16));
    }
    same_text(head, "application/grpc")
}

/// The message a gRPC client gets when its credentials are refused.
pub open spec fn grpc_auth_message_text(err: ErrCode) -> Seq<char> {
    match err {
        ErrCode::UnAuthorized => "没有授权"@,
        ErrCode::InvalidToken => "无效的token"@,
        _ => "Internal error"@,
    }
}

/// The message a gRPC client gets when its credentials are refused.
pub fn grpc_auth_message(err: ErrCode) -> (r: &'static str)
    ensures
        r@ == grpc_auth_message_text(err),
{
    match err {
        ErrCode::UnAuthorized => "没有授权",
        ErrCode::InvalidToken => "无效的token",
        _ => "Internal error",
    }
}

/// The answer to a request whose credentials are refused: for gRPC an OK
/// response with gRPC status 16 (unauthenticated) and a message, otherwise
/// an Unauthorized response with the error envelope as JSON body.
pub enum AuthRejection {
    Grpc { http_status: u16, grpc_status: u16, message: &'static str },
    Rest { http_status: u16, body: Resp<()> },
}

/// `r` is the answer to a request refused with `err`, over gRPC or not.
pub open spec fn is_rejection(r: AuthRejection, err: ErrCode, grpc: bool) -> bool {
    if grpc {
        r matches AuthRejection::Grpc { http_status, grpc_status, message } && http_status == 200
            && grpc_status == 16 && message@ == grpc_auth_message_text(err)
    } else {
        r matches AuthRejection::Rest { http_status, body } && http_status == 401 && body.code
            == err_code_value(err) && body.msg@ == err_message(err) && body.data is None
    }
}

/// Builds the answer to a request whose credentials are refused with `err`.
pub fn reject(err: ErrCode, grpc: bool) -> (r: AuthRejection)
    ensures
        is_rejection(r, err, grpc),
{
    if grpc {
        AuthRejection::Grpc { http_status: 200, grpc_status: 16, message: grpc_auth_message(err) }
    } else {
        AuthRejection::Rest { http_status: 401, body: make_response::<()>(Err(err)) }
    }
}

/// What the authentication layer does first with a request.
pub enum AuthStep {
    /// No `Authorization` header: the request goes on without a user.
    Anonymous,
    /// A bearer token to check.
    Token(String),
    /// The header is unusable: answer with this rejection.
    Reject(AuthRejection),
}

/// Decides the first step of authentication from the request's
/// `Authorization` and `Content-Type` headers.
pub fn authorization_step(authorization: Option<&[u8]>, content_type: Option<&[u8]>) -> (r: AuthStep)
    ensures
        match authorization {
            None => r is Anonymous,
            Some(v) => match bearer_token_of(v@) {
                Ok(t) => r matches AuthStep::Token(s) && s@ == t,
                Err(e) => r matches AuthStep::Reject(j) && is_rejection(
                    j,
                    e,
                    is_grpc_content_type(
                        match content_type {
                            Some(c) => Some(c@),
                            None => None,
                        },
                    ),
                ),
            },
        },
{
    match authorization {
        None => AuthStep::Anonymous,
        Some(v) => match bearer_token(v) {
            Ok(t) => AuthStep::Token(t),
            Err(e) => {
                let grpc = is_grpc_request(content_type);
                AuthStep::Reject(reject(e, grpc))
            },
        },
    }
}

/// The user id that a token's subject names; a subject that is not the
/// decimal text of an `i32` makes the token invalid.
pub open spec fn subject_user_id(sub: Seq<char>) -> Result<i32, ErrCode> {
    match parse_i32_text(sub) {
        Some(v) => Ok(v),
        None => Err(ErrCode::InvalidToken),
    }
}

/// Reads the user id out of a token's subject.
pub fn user_id_from_subject(sub: &str) -> (r: Result<i32, ErrCode>)
    ensures
        r == subject_user_id(sub@),
{
    match parse_i32(sub) {
        Some(v) => Ok(v),
        None => Err(ErrCode::InvalidToken),
    }
}

/// The cache key under which a signed-in user's details are kept.
pub open spec fn cache_key_text(user_id: int) -> Seq<char> {
    "user:"@ + decimal_text(user_id)
}

/// The cache key under which a signed-in user's details are kept.
pub fn cache_key(user_id: i32) -> (r: String)
    ensures
        r@ == cache_key_text(user_id as int),
{
    let mut key = String::from_str("user:");
    let digits = format_i32(user_id);
    key.append(digits.as_str());
    key
}

/// The subject written into a token issued to a user names that same user
/// when the token is read back.
pub proof fn lemma_token_subject_names_user(user_id: i32)
    ensures
        subject_user_id(decimal_text(user_id as int)) == Ok::<i32, ErrCode>(user_id),
{
    crate::text::lemma_parse_format_i32(user_id);
}

/// Different users are cached under different keys.
pub proof fn lemma_cache_keys_distinct(a: i32, b: i32)
    requires
        a != b,
    ensures
        cache_key_text(a as int) != cache_key_text(b as int),
{
    reveal_strlit("user:");
    crate::text::lemma_parse_format_i32(a);
    crate::text::lemma_parse_format_i32(b);
    if cache_key_text(a as int) == cache_key_text(b as int) {
        assert(cache_key_text(a as int).skip(5) =~= decimal_text(a as int));
        assert(cache_key_text(b as int).skip(5) =~= decimal_text(b as int));
    }
}

} // verus!
