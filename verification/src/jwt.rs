use vstd::prelude::*;
use jsonwebtoken::{DecodingKey, EncodingKey};
use crate::text::{decimal_text, format_i32};

verus! {

#[verifier::external_type_specification]
#[verifier::external_body]
pub struct ExEncodingKey(jsonwebtoken::EncodingKey);

#[verifier::external_type_specification]
#[verifier::external_body]
pub struct ExDecodingKey(jsonwebtoken::DecodingKey);

/// The HMAC secret that a signing key holds (`jsonwebtoken` keeps it as
/// the key's private `content` bytes).
pub uninterp spec fn encoding_key_secret(key: EncodingKey) -> Seq<u8>;

/// The HMAC secret that a checking key holds (`jsonwebtoken` keeps it as
/// the key's private `SecretOrDer` bytes).
pub uninterp spec fn decoding_key_secret(key: DecodingKey) -> Seq<u8>;

/// Calls `jsonwebtoken::EncodingKey::from_secret`, which keeps a copy of
/// the secret bytes as the HMAC key; the contract claims just that.
#[verifier::external_body]
fn encoding_key_from_secret(secret: &[u8]) -> (r: EncodingKey)
    ensures
        encoding_key_secret(r) == secret@,
{
    EncodingKey::from_secret(secret)
}

/// Calls `jsonwebtoken::DecodingKey::from_secret`, which keeps a copy of
/// the secret bytes as the HMAC key; the contract claims just that.
#[verifier::external_body]
fn decoding_key_from_secret(secret: &[u8]) -> (r: DecodingKey)
    ensures
        decoding_key_secret(r) == secret@,
{
    DecodingKey::from_secret(secret)
}

/// How long an issued token stays valid: seven days, in seconds.
pub const TOKEN_EXPIRE_SECONDS: i64 = 604800;

/// The HMAC keys that sign and check tokens, both made from one secret.
pub struct Keys {
    pub encoding: EncodingKey,
    pub decoding: DecodingKey,
}

impl View for Keys {
    type V = (Seq<u8>, Seq<u8>);

    /// The secrets that the signing key and the checking key hold.
    open spec fn view(&self) -> (Seq<u8>, Seq<u8>) {
        (encoding_key_secret(self.encoding), decoding_key_secret(self.decoding))
    }
}

impl Keys {
    /// Makes the signing and the checking key from one shared secret.
    pub fn new(secret: &[u8]) -> (r: Self)
        ensures
            r@ == (secret@, secret@),
    {
        Keys { encoding: encoding_key_from_secret(secret), decoding: decoding_key_from_secret(secret) }
    }
}

/// The claims of a session token: the user id as decimal text, and the
/// expiry and issue times in seconds since the Unix epoch.
pub struct Claims {
    pub sub: String,
    pub exp: i64,
    pub iat: i64,
}

impl Claims {
    /// The claims of a token issued at `now` to user `user_id`, valid for
    /// seven days.
    pub fn for_user(user_id: i32, now: i64) -> (r: Self)
        requires
            now <= i64::MAX - TOKEN_EXPIRE_SECONDS,
        ensures
            r.sub@ == decimal_text(user_id as int),
            r.iat == now,
            r.exp == now + TOKEN_EXPIRE_SECONDS,
    {
        Claims { sub: format_i32(user_id), exp: now + TOKEN_EXPIRE_SECONDS, iat: now }
    }
}

/// The body answering a successful sign-in.
pub struct AuthBody {
    pub access_token: String,
    pub token_type: String,
}

impl AuthBody {
    /// A bearer-token answer carrying `access_token`.
    pub fn new(access_token: String) -> (r: Self)
        ensures
            r.access_token == access_token,
            r.token_type@ == "Bearer"@,
    {
        AuthBody { access_token, token_type: "Bearer".to_string() }
    }
}

} // verus!
