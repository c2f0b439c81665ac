//! Access tokens (HS256 JSON Web Tokens) and refresh tokens.
use vstd::prelude::*;
use vstd::string::StringExecFns;
use crate::clock::{new_uuid_v4, now_utc};
use crate::digest::{
    lemma_hex_lower_digits, lemma_hex_lower_len, base64_url_encode, base64_url_nopad, hex_encode, hex_lower, os_random_bytes, sha256_absorbed,
    sha256_finalize, sha256_new, sha256_of, sha256_update,
};
use crate::errors::AuthError;
use crate::text::{decimal, i64_to_decimal, strip_prefix, uuid_text, uuid_to_text};

verus! {

#[verifier::external_type_specification]
#[verifier::external_body]
pub struct ExJwtError(jsonwebtoken::errors::Error);

/// Issuer written into, and demanded of, every access token.
pub const TOKEN_ISSUER: &'static str = "my-api";

/// Audience written into, and demanded of, every access token.
pub const TOKEN_AUDIENCE: &'static str = "my-app";

/// Lifetime of an access token, in seconds.
pub const ACCESS_TOKEN_SECONDS: i64 = 600;

/// Clock skew tolerated when checking a token's expiry, in seconds.
pub const TOKEN_LEEWAY_SECONDS: u64 = 30;

/// The claims an access token carries. `sub` and `jti` are UUIDs by their 128-bit
/// value; `exp` and `iat` are Unix timestamps in seconds.
pub struct Claims {
    pub sub: u128,
    pub exp: i64,
    pub iat: i64,
    pub iss: String,
    pub aud: String,
    pub jti: u128,
}

/// The JSON text of an access token's claims, in the field order and form that
/// serde writes them: UUIDs as hyphenated strings, timestamps as integers.
pub open spec fn access_claims_text(sub: u128, iat: int, jti: u128) -> Seq<char> {
    "{\"sub\":\""@ + uuid_text(sub) + "\",\"exp\":"@ + decimal(iat + 600) + ",\"iat\":"@
        + decimal(iat) + ",\"iss\":\"my-api\",\"aud\":\"my-app\",\"jti\":\""@ + uuid_text(jti)
        + "\"}"@
}

/// The token `jsonwebtoken::encode` makes for an HS256 header, the given JSON text as
/// the payload and an HMAC key from `secret`; `None` where it fails.
pub uninterp spec fn jwt_hs256(payload: Seq<char>, secret: Seq<u8>) -> Option<Seq<char>>;

/// A JSON object's text: it opens with `{` and closes with `}`.
pub open spec fn is_object_text(payload: Seq<char>) -> bool {
    payload.len() > 0 && payload[0] == '{' && payload.last() == '}'
}

/// Claims text of an access token for some user, issue time and token id.
pub open spec fn is_access_claims_text(payload: Seq<char>) -> bool {
    exists|sub: u128, iat: int, jti: u128| payload == #[trigger] access_claims_text(sub, iat, jti)
}

/// `jsonwebtoken::encode` with an HS256 header, the JSON text `payload` taken as it
/// stands (`serde_json::value::RawValue`) and `EncodingKey::from_secret(secret)`. It
/// fails only where the text is not JSON (`RawValue::from_string`): the key is an
/// HMAC key, as HS256 asks, and HMAC signing takes a key of any length. Access-token
/// claims texts (strings, decimal integers and hyphenated UUIDs in an object) are JSON.
#[verifier::external_body]
fn jwt_encode_hs256(payload: &str, secret: &[u8]) -> (r: Result<String, jsonwebtoken::errors::Error>)
    ensures
        r is Ok <==> jwt_hs256(payload@, secret@) is Some,
        r matches Ok(t) ==> jwt_hs256(payload@, secret@) == Some(t@),
        is_access_claims_text(payload@) ==> r is Ok,
{
    let raw = serde_json::value::RawValue::from_string(payload.to_string())?;
    jsonwebtoken::encode(
        &jsonwebtoken::Header::new(jsonwebtoken::Algorithm::HS256),
        &raw,
        &jsonwebtoken::EncodingKey::from_secret(secret),
    )
}

/// Whether the claims JSON text `payload` passes, at some moment, the checks of a
/// `jsonwebtoken::Validation` for HS256 with the given audience, issuer, required
/// claims and leeway (`exp` validated): the checks on the claims that do not depend
/// on the clock hold, and the expiry allows some moment.
pub uninterp spec fn jwt_claims_pass(
    payload: Seq<char>,
    audience: Seq<char>,
    issuer: Seq<char>,
    required: Seq<Seq<char>>,
    leeway: u64,
) -> bool;

/// Whether the signature step of `jsonwebtoken::decode` for an HS256 validation accepts
/// `token` under `DecodingKey::from_secret(secret)`: the token has three dot-separated
/// parts, its header decodes and names HS256, and its signature is the HMAC-SHA256 of
/// the first two parts under that key.
pub uninterp spec fn jwt_hs256_signed(token: Seq<char>, secret: Seq<u8>) -> bool;

/// Whether `token` is an access token signed with `secret` whose expiry `jsonwebtoken`
/// reads as a `u64` (it was issued no earlier than ten minutes before the Unix epoch).
pub open spec fn issued_access_token(token: Seq<char>, secret: Seq<u8>) -> bool {
    exists|user_id: u128, iat: int, jti: u128|
        #![trigger jwt_hs256(access_claims_text(user_id, iat, jti), secret)]
        0 <= iat + 600 <= u64::MAX && jwt_hs256(access_claims_text(user_id, iat, jti), secret)
            == Some(token)
}

/// `jsonwebtoken::decode` with `DecodingKey::from_secret(secret)` and a validation
/// for HS256 that checks the expiry with the given leeway, demands the given audience
/// and issuer, and requires the given claims; the payload is returned as its JSON
/// text, and an error as whether it is `ErrorKind::ExpiredSignature`. Whether a token
/// passes depends on the clock, so success is not stated; where it passes for a token
/// that `jsonwebtoken::encode` made of a JSON object under the same secret, the text
/// returned is that object's. The signature is checked before the claims, so a token
/// accepted, or refused as expired, has a signature that verifies. An access token
/// issued under the same secret has a valid signature, an HS256 header, an expiry
/// that reads as a `u64`, and the issuer, audience and claims that the access
/// settings ask for: only its expiry can refuse it.
#[verifier::external_body]
fn jwt_decode_hs256(
    token: &str,
    secret: &[u8],
    audience: &str,
    issuer: &str,
    leeway: u64,
    required: &Vec<String>,
) -> (r: Result<String, bool>)
    ensures
        r matches Ok(p) ==> jwt_claims_pass(
            p@,
            audience@,
            issuer@,
            required@.map_values(|c: String| c@),
            leeway,
        ),
        forall|payload: Seq<char>|
            #![trigger jwt_hs256(payload, secret@)]
            jwt_hs256(payload, secret@) == Some(token@) && is_object_text(payload) ==> (r matches Ok(
                p,
            ) ==> p@ == payload),
        r is Ok ==> jwt_hs256_signed(token@, secret@),
        r matches Err(expired) ==> (expired ==> jwt_hs256_signed(token@, secret@)),
        r matches Err(expired) ==> (expired || !(issued_access_token(token@, secret@) && audience@
            == "my-app"@ && issuer@ == "my-api"@ && (forall|k: int|
            0 <= k < required@.len() ==> required_claim_names().contains(#[trigger] required@[k]@)))),
{
    let mut validation = jsonwebtoken::Validation::new(jsonwebtoken::Algorithm::HS256);
    validation.validate_exp = true;
    validation.set_audience(&[audience]);
    validation.set_issuer(&[issuer]);
    validation.required_spec_claims = required.iter().cloned().collect();
    validation.leeway = leeway;
    match jsonwebtoken::decode::<Box<serde_json::value::RawValue>>(
        token,
        &jsonwebtoken::DecodingKey::from_secret(secret),
        &validation,
    ) {
        Ok(data) => Ok(data.claims.get().to_string()),
        Err(e) => Err(matches!(e.kind(), jsonwebtoken::errors::ErrorKind::ExpiredSignature)),
    }
}

proof fn lemma_access_claims_is_object(sub: u128, iat: int, jti: u128)
    ensures
        is_object_text(access_claims_text(sub, iat, jti)),
{
    reveal_strlit("{\"sub\":\"");
    reveal_strlit("\"}");
    let t = access_claims_text(sub, iat, jti);
    let head = "{\"sub\":\""@;
    let tail = "\"}"@;
    let middle = uuid_text(sub) + "\",\"exp\":"@ + decimal(iat + 600) + ",\"iat\":"@ + decimal(iat)
        + ",\"iss\":\"my-api\",\"aud\":\"my-app\",\"jti\":\""@ + uuid_text(jti);
    assert(t =~= head + middle + tail);
    assert(t[0] == head[0]);
    assert(t.last() == tail.last());
}

/// Builds the claims text of an access token for `user_id`, issued at `iat`.
fn access_claims_json(user_id: u128, iat: i64, jti: u128) -> (s: String)
    requires
        iat <= i64::MAX - 600,
    ensures
        s@ == access_claims_text(user_id, iat as int, jti),
{
    let mut s = "{\"sub\":\"".to_string();
    s.append(uuid_to_text(user_id).as_str());
    s.append("\",\"exp\":");
    s.append(i64_to_decimal(iat + ACCESS_TOKEN_SECONDS).as_str());
    s.append(",\"iat\":");
    s.append(i64_to_decimal(iat).as_str());
    s.append(",\"iss\":\"my-api\",\"aud\":\"my-app\",\"jti\":\"");
    s.append(uuid_to_text(jti).as_str());
    s.append("\"}");
    s
}

/// Whether `token` is an access token for `user_id` signed with `secret`: the HS256
/// encoding of the claims for that user, issued at some time with some token id.
pub open spec fn is_access_token(token: Seq<char>, user_id: u128, secret: Seq<u8>) -> bool {
    exists|iat: int, jti: u128|
        #![trigger jwt_hs256(access_claims_text(user_id, iat, jti), secret)]
        jwt_hs256(access_claims_text(user_id, iat, jti), secret) == Some(token)
}

/// Issues an access token for `user_id` issued at the Unix time `iat`: its claims
/// name the user, `iat`, an expiry ten minutes later, issuer `my-api`, audience
/// `my-app` and a fresh random token id.
pub fn access_token_at(user_id: u128, secret: &[u8], iat: i64) -> (r: Result<String, AuthError>)
    requires
        iat <= i64::MAX - 600,
    ensures
        r is Ok,
        r matches Ok(t) ==> exists|jti: u128|
            #[trigger] jwt_hs256(access_claims_text(user_id, iat as int, jti), secret@) == Some(t@),
{
    let jti = new_uuid_v4();
    let payload = access_claims_json(user_id, iat, jti);
    assert(is_access_claims_text(payload@));
    match jwt_encode_hs256(payload.as_str(), secret) {
        Ok(t) => {
            assert(jwt_hs256(access_claims_text(user_id, iat as int, jti), secret@) == Some(t@));
            Ok(t)
        },
        Err(_) => Err(AuthError::InvalidToken),
    }
}

/// Issues an access token for `user_id`: issued now, expiring ten minutes later,
/// with issuer `my-api`, audience `my-app` and a fresh random token id.
pub fn generate_access_token(user_id: u128, secret: &[u8]) -> (r: Result<String, AuthError>)
    ensures
        r is Ok,
        r matches Ok(t) ==> is_access_token(t@, user_id, secret@),
{
    let now = now_utc();
    access_token_at(user_id, secret, now.0)
}

/// An access token issued at a time no earlier than ten minutes before the Unix epoch
/// is one that the token check can only accept or refuse as expired.
pub proof fn lemma_issued_token_is_checkable(
    token: Seq<char>,
    user_id: u128,
    secret: Seq<u8>,
    iat: int,
    jti: u128,
)
    requires
        jwt_hs256(access_claims_text(user_id, iat, jti), secret) == Some(token),
        -600 <= iat <= i64::MAX - 600,
    ensures
        issued_access_token(token, secret),
{
}

/// Names of the claims every access token must carry.
pub open spec fn required_claim_names() -> Seq<Seq<char>> {
    seq!["exp"@, "iat"@, "sub"@, "iss"@, "aud"@, "jti"@]
}

/// The claims every access token must carry.
fn required_claims() -> (v: Vec<String>)
    ensures
        v@.map_values(|c: String| c@) == required_claim_names(),
{
    let mut v: Vec<String> = Vec::new();
    v.push("exp".to_string());
    v.push("iat".to_string());
    v.push("sub".to_string());
    v.push("iss".to_string());
    v.push("aud".to_string());
    v.push("jti".to_string());
    assert(v@.map_values(|c: String| c@) =~= required_claim_names());
    v
}

/// What `verify_token` demands of a token's claims, apart from the clock: audience
/// `my-app`, issuer `my-api`, the six claims present, thirty seconds of leeway.
pub open spec fn access_claims_pass(payload: Seq<char>) -> bool {
    jwt_claims_pass(payload, "my-app"@, "my-api"@, required_claim_names(), 30)
}

/// Whether `payload` is the claims text that `token` was issued with, for every way
/// that `token` could have been issued as an access token under `secret`.
pub open spec fn gives_back_issued_claims(token: Seq<char>, secret: Seq<u8>, payload: Seq<char>) -> bool {
    forall|user_id: u128, iat: int, jti: u128|
        #![trigger jwt_hs256(access_claims_text(user_id, iat, jti), secret)]
        jwt_hs256(access_claims_text(user_id, iat, jti), secret) == Some(token) ==> payload
            == access_claims_text(user_id, iat, jti)
}

/// Checks an access token's signature, expiry (thirty seconds of leeway), issuer and
/// audience, and returns its claims as JSON text. A token issued by
/// `generate_access_token` under the same secret gives back exactly the claims it was
/// issued with, whenever it passes. The signature is checked first: a token accepted,
/// or refused as expired, is signed under `secret`; any other failure is
/// `InvalidToken`.
pub fn verify_token(token: &str, secret: &[u8]) -> (r: Result<String, AuthError>)
    ensures
        r matches Ok(p) ==> gives_back_issued_claims(token@, secret@, p@),
        r matches Ok(p) ==> access_claims_pass(p@),
        r matches Err(e) ==> e == AuthError::TokenExpired || e == AuthError::InvalidToken,
        r is Ok ==> jwt_hs256_signed(token@, secret@),
        r == Err::<String, AuthError>(AuthError::TokenExpired) ==> jwt_hs256_signed(token@, secret@),
        issued_access_token(token@, secret@) ==> (r is Ok || r == Err::<String, AuthError>(
            AuthError::TokenExpired,
        )),
{
    let required = required_claims();
    proof {
        reveal_strlit("my-app");
        reveal_strlit("my-api");
        assert forall|k: int| 0 <= k < required@.len() implies required_claim_names().contains(
            #[trigger] required@[k]@,
        ) by {
            assert(required@.map_values(|c: String| c@)[k] == required@[k]@);
        }
    }
    let r = jwt_decode_hs256(token, secret, TOKEN_AUDIENCE, TOKEN_ISSUER, TOKEN_LEEWAY_SECONDS, &required);
    proof {
        assert forall|user_id: u128, iat: int, jti: u128|
            #![trigger jwt_hs256(access_claims_text(user_id, iat, jti), secret@)]
            jwt_hs256(access_claims_text(user_id, iat, jti), secret@) == Some(token@) implies (r matches Ok(
                p,
            ) ==> p@ == access_claims_text(user_id, iat, jti)) by {
            lemma_access_claims_is_object(user_id, iat, jti);
        }
    }
    match r {
        Ok(p) => Ok(p),
        Err(expired) => Err(AuthError::from_token_failure(expired)),
    }
}

/// Whether an `Authorization` header starts with `Bearer `.
pub open spec fn has_bearer_prefix(h: Seq<char>) -> bool {
    h.len() >= 7 && h.subrange(0, 7) == "Bearer "@
}

/// Takes the token out of an `Authorization` header of the form `Bearer <token>` and
/// verifies it as `verify_token` does. A header without that prefix is refused as
/// `InvalidCredentials`; with it, only the token check's errors can come.
pub fn auth_required(auth_header: &str, secret: &[u8]) -> (r: Result<String, AuthError>)
    ensures
        !has_bearer_prefix(auth_header@) ==> r == Err::<String, AuthError>(
            AuthError::InvalidCredentials,
        ),
        has_bearer_prefix(auth_header@) ==> (r matches Err(e) ==> e == AuthError::TokenExpired
            || e == AuthError::InvalidToken),
        r matches Ok(p) ==> has_bearer_prefix(auth_header@) && gives_back_issued_claims(
            auth_header@.subrange(7, auth_header@.len() as int),
            secret@,
            p@,
        ) && access_claims_pass(p@),
        r == Err::<String, AuthError>(AuthError::TokenExpired) ==> has_bearer_prefix(auth_header@)
            && jwt_hs256_signed(auth_header@.subrange(7, auth_header@.len() as int), secret@),
        has_bearer_prefix(auth_header@) && issued_access_token(
            auth_header@.subrange(7, auth_header@.len() as int),
            secret@,
        ) ==> (r is Ok || r == Err::<String, AuthError>(AuthError::TokenExpired)),
{
    proof {
        reveal_strlit("Bearer ");
    }
    match strip_prefix(auth_header, "Bearer ") {
        Some(token) => verify_token(token, secret),
        None => Err(AuthError::InvalidCredentials),
    }
}

/// The outcome of authenticating a request by its `Authorization` header: a missing
/// header is `MissingHeader("Authorization")`, anything else as `auth_required`.
pub fn authenticate(auth_header: Option<&str>, secret: &[u8]) -> (r: Result<String, AuthError>)
    ensures
        auth_header is None ==> r == Err::<String, AuthError>(
            AuthError::MissingHeader("Authorization"),
        ),
        auth_header matches Some(h) ==> !(h@.len() >= 7 && h@.subrange(0, 7) == "Bearer "@)
            ==> r == Err::<String, AuthError>(AuthError::InvalidCredentials),
        auth_header matches Some(h) ==> has_bearer_prefix(h@) ==> (r matches Err(e) ==> e
            == AuthError::TokenExpired || e == AuthError::InvalidToken),
        r matches Ok(p) ==> (auth_header matches Some(h) && has_bearer_prefix(h@)
            && gives_back_issued_claims(h@.subrange(7, h@.len() as int), secret@, p@)
            && access_claims_pass(p@)),
        auth_header matches Some(h) ==> (has_bearer_prefix(h@) && issued_access_token(
            h@.subrange(7, h@.len() as int),
            secret@,
        ) ==> (r is Ok || r == Err::<String, AuthError>(AuthError::TokenExpired))),
{
    match auth_header {
        Some(h) => auth_required(h, secret),
        None => Err(AuthError::MissingHeader("Authorization")),
    }
}

/// Optional authentication: the claims where the header is present and passes,
/// nothing otherwise. Claims handed back are those that the bearer token was issued
/// with. Whether a token passes depends on the clock, so when one does is not stated.
pub fn maybe_authenticate(auth_header: Option<&str>, secret: &[u8]) -> (r: Option<String>)
    ensures
        auth_header is None ==> r is None,
        auth_header matches Some(h) ==> !(h@.len() >= 7 && h@.subrange(0, 7) == "Bearer "@)
            ==> r is None,
        r matches Some(p) ==> (auth_header matches Some(h) && h@.len() >= 7 && h@.subrange(0, 7)
            == "Bearer "@ && gives_back_issued_claims(h@.subrange(7, h@.len() as int), secret@, p@)),
{
    match auth_header {
        Some(h) => match auth_required(h, secret) {
            Ok(p) => Some(p),
            Err(_) => None,
        },
        None => None,
    }
}

/// A fresh refresh token: 32 random bytes in URL-safe base64 without padding.
pub fn generate_refresh_token() -> (t: String)
    ensures
        exists|bytes: Seq<u8>| bytes.len() == 32 && t@ == #[trigger] base64_url_nopad(bytes),
{
    let bytes: [u8; 32] = os_random_bytes::<32>();
    let t = base64_url_encode(&bytes);
    assert(bytes@.len() == 32);
    t
}

/// The text under which a refresh token is stored: the lowercase hex of the SHA-256
/// digest of its UTF-8 bytes.
pub open spec fn refresh_token_digest(token: Seq<char>) -> Seq<char> {
    hex_lower(sha256_of(vstd::utf8::encode_utf8(token)))
}

/// Hashes a refresh token for storage: 64 lowercase hex digits.
pub fn hash_refresh_token(token: &str) -> (h: String)
    ensures
        h@ == refresh_token_digest(token@),
        h@.len() == 64,
        forall|i: int| 0 <= i < h@.len() ==> ('0' <= #[trigger] h@[i] <= '9') || ('a' <= h@[i] <= 'f'),
{
    let mut hasher = sha256_new();
    sha256_update(&mut hasher, token.as_bytes());
    assert(sha256_absorbed(hasher) =~= vstd::utf8::encode_utf8(token@));
    let digest = sha256_finalize(hasher);
    proof {
        lemma_hex_lower_len(digest@);
        lemma_hex_lower_digits(digest@);
    }
    hex_encode(digest.as_slice())
}

/// A token issued by `generate_access_token` and accepted by `verify_token` under the
/// same secret yields the claims of the user it was issued for: some issue time, the
/// expiry ten minutes after it, issuer `my-api`, audience `my-app` and some token id.
pub proof fn lemma_issued_token_names_its_user(
    token: Seq<char>,
    user_id: u128,
    secret: Seq<u8>,
    payload: Seq<char>,
)
    requires
        is_access_token(token, user_id, secret),
        gives_back_issued_claims(token, secret, payload),
    ensures
        exists|iat: int, jti: u128| payload == #[trigger] access_claims_text(user_id, iat, jti),
{
    let (iat, jti) = choose|iat: int, jti: u128|
        #[trigger] jwt_hs256(access_claims_text(user_id, iat, jti), secret) == Some(token);
    assert(payload == access_claims_text(user_id, iat, jti));
}

} // verus!
