//! Token service: issues signed, time-bound identity tokens (HS256 compact
//! tokens whose claims are `user_id`, `email` and `exp`) and validates them.

use vstd::prelude::*;
use jsonwebtoken::{Algorithm, DecodingKey, EncodingKey, Header, Validation};
use jsonwebtoken::errors::ErrorKind;
use serde_json::Value;

verus! {

/// Seconds in one day.
pub const SECONDS_PER_DAY: i64 = 86400;

#[verifier::external_type_specification]
#[verifier::external_body]
pub struct ExJwtError(jsonwebtoken::errors::Error);

/// The compact token that `jsonwebtoken::encode` produces for the claims
/// `{user_id, email, exp}` under an HS256 key made from `secret`.
pub uninterp spec fn jwt_of(user_id: i32, email: Seq<char>, exp: i64, secret: Seq<char>) -> Seq<char>;

/// The claims read back from a token whose signature checked out; a field is
/// `None` when it is absent or not of the expected JSON type.
pub struct TokenFields {
    pub user_id: Option<i64>,
    pub email: Option<String>,
    pub exp: Option<i64>,
}

/// Why a token was refused before its claims were read.
#[derive(PartialEq, Eq, Structural, Clone, Copy, Debug)]
pub enum DecodeFailure {
    /// The signature does not match the header and claims.
    InvalidSignature,
    /// Anything else: not three segments, bad encoding, wrong algorithm,
    /// unreadable or missing claims.
    Rejected,
}

/// Why a token does not identify anybody.
#[derive(PartialEq, Eq, Structural, Clone, Copy, Debug)]
pub enum TokenError {
    Malformed,
    SignatureInvalid,
    Expired,
}

/// The identity a valid token carries.
#[derive(Debug)]
pub struct Claims {
    pub user_id: i32,
    pub email: String,
    pub exp: i64,
}

/// The instant at which a token issued at `now` for `days` days expires.
pub open spec fn expiry(now: i64, days: i64) -> int {
    now + days * SECONDS_PER_DAY
}

/// Whether an expiry instant can be written into a token.
pub open spec fn expiry_fits(exp: int) -> bool {
    0 <= exp <= i64::MAX
}

/// What `jsonwebtoken::decode` (HS256, expiry check off) reads from a token
/// under a key made from `secret`: the `user_id`, `email` and `exp` claims,
/// or why the token was refused.
pub uninterp spec fn decoded_of(token: Seq<char>, secret: Seq<char>) -> Result<(Option<i64>, Option<Seq<char>>, Option<i64>), DecodeFailure>;

/// Decoded token fields as plain values.
pub open spec fn fields_view(r: Result<TokenFields, DecodeFailure>) -> Result<(Option<i64>, Option<Seq<char>>, Option<i64>), DecodeFailure> {
    match r {
        Ok(f) => Ok((f.user_id, match f.email {
            Some(e) => Some(e@),
            None => None,
        }, f.exp)),
        Err(e) => Err(e),
    }
}

/// Whether `s` holds no space.
pub open spec fn no_space(s: Seq<char>) -> bool {
    forall|k: int| 0 <= k < s.len() ==> #[trigger] s[k] != ' '
}

/// Whether `s` holds at least two dots, as a token of three segments does.
pub open spec fn has_two_dots(s: Seq<char>) -> bool {
    exists|i: int, j: int| 0 <= i < j < s.len() && #[trigger] s[i] == '.' && #[trigger] s[j] == '.'
}

/// Position `i` of token `t` lies in its last (signature) segment.
pub open spec fn in_last_segment(t: Seq<char>, i: int) -> bool {
    &&& 0 <= i < t.len()
    &&& exists|k: int| 0 <= k < i && #[trigger] t[k] == '.'
    &&& forall|k: int| i <= k < t.len() ==> #[trigger] t[k] != '.'
}

/// `token` is `t` with the character at `i` replaced by another one that is
/// not a dot.
pub open spec fn altered_at(t: Seq<char>, token: Seq<char>, i: int) -> bool {
    &&& token.len() == t.len()
    &&& 0 <= i < t.len()
    &&& token[i] != t[i]
    &&& token[i] != '.'
    &&& forall|k: int| 0 <= k < t.len() && k != i ==> #[trigger] token[k] == t[k]
}

/// Relies on `jsonwebtoken::encode` with an HS256 header and a key made from
/// `secret`. With an HMAC key and a string-keyed map of claims it does not
/// fail; the token is determined by the claims and the secret, and is made
/// of base64url segments joined by dots, so it holds no space.
#[verifier::external_body]
fn jwt_encode(user_id: i32, email: &str, exp: i64, secret: &str) -> (r: Result<String, jsonwebtoken::errors::Error>)
    ensures
        r is Ok,
        r is Ok ==> r->Ok_0@ == jwt_of(user_id, email@, exp, secret@),
        r is Ok ==> no_space(r->Ok_0@),
{
    let mut claims = serde_json::Map::new();
    claims.insert("user_id".to_string(), Value::from(user_id));
    claims.insert("email".to_string(), Value::from(email));
    claims.insert("exp".to_string(), Value::from(exp));
    jsonwebtoken::encode(&Header::new(Algorithm::HS256), &claims, &EncodingKey::from_secret(secret.as_bytes()))
}

/// Relies on `jsonwebtoken::decode` with HS256 and its expiry check turned
/// off, so that the outcome depends on the token and the secret alone. It
/// refuses a token of fewer than three segments; it checks the algorithm
/// and then the signature, which for HMAC it compares as text with the one
/// it computes, so a token issued under `secret` whose signature segment
/// was altered gives `ErrorKind::InvalidSignature`; it requires a
/// non-negative integer `exp`, and hands back the claims that `encode` put
/// in.
#[verifier::external_body]
fn jwt_decode(token: &str, secret: &str) -> (r: Result<TokenFields, DecodeFailure>)
    ensures
        fields_view(r) == decoded_of(token@, secret@),
        !has_two_dots(token@) ==> r is Err && r->Err_0 == DecodeFailure::Rejected,
        forall|u: i32, e: Seq<char>, x: i64, i: int|
            in_last_segment(jwt_of(u, e, x, secret@), i) && #[trigger] altered_at(jwt_of(u, e, x, secret@), token@, i)
                ==> r is Err && r->Err_0 == DecodeFailure::InvalidSignature,
        forall|u: i32, e: Seq<char>, x: i64|
            0 <= x && #[trigger] jwt_of(u, e, x, secret@) == token@ ==> {
                &&& r is Ok
                &&& r->Ok_0.user_id == Some(u as i64)
                &&& r->Ok_0.exp == Some(x)
                &&& r->Ok_0.email is Some
                &&& r->Ok_0.email->0@ == e
            },
{
    let mut validation = Validation::new(Algorithm::HS256);
    validation.validate_exp = false;
    let key = DecodingKey::from_secret(secret.as_bytes());
    match jsonwebtoken::decode::<serde_json::Map<String, Value>>(token, &key, &validation) {
        Ok(data) => Ok(TokenFields {
            user_id: data.claims.get("user_id").and_then(Value::as_i64),
            email: data.claims.get("email").and_then(Value::as_str).map(String::from),
            exp: data.claims.get("exp").and_then(Value::as_i64),
        }),
        Err(e) => match e.kind() {
            ErrorKind::InvalidSignature => Err(DecodeFailure::InvalidSignature),
            _ => Err(DecodeFailure::Rejected),
        },
    }
}

/// The verdict on decoded token fields at time `now`, as a spec.
pub open spec fn judged(decoded: Result<(Option<i64>, Option<Seq<char>>, Option<i64>), DecodeFailure>, now: i64) -> Result<(i32, Seq<char>, i64), TokenError> {
    match decoded {
        Err(DecodeFailure::InvalidSignature) => Err(TokenError::SignatureInvalid),
        Err(DecodeFailure::Rejected) => Err(TokenError::Malformed),
        Ok((user_id, email, exp)) => match (user_id, email, exp) {
            (Some(u), Some(e), Some(x)) => if i32::MIN <= u <= i32::MAX {
                if now < x {
                    Ok((u as i32, e, x))
                } else {
                    Err(TokenError::Expired)
                }
            } else {
                Err(TokenError::Malformed)
            },
            _ => Err(TokenError::Malformed),
        },
    }
}

/// Whether a validation result is the given spec verdict.
pub open spec fn claims_match(r: Result<Claims, TokenError>, s: Result<(i32, Seq<char>, i64), TokenError>) -> bool {
    match (r, s) {
        (Ok(c), Ok((u, e, x))) => c.user_id == u && c.email@ == e && c.exp == x,
        (Err(a), Err(b)) => a == b,
        _ => false,
    }
}

/// Decides what decoded token fields amount to at time `now`: a signature
/// failure, unreadable claims, an expired token, or the claims themselves.
pub fn judge(decoded: Result<TokenFields, DecodeFailure>, now: i64) -> (r: Result<Claims, TokenError>)
    ensures
        claims_match(r, judged(fields_view(decoded), now)),
{
    match decoded {
        Err(DecodeFailure::InvalidSignature) => Err(TokenError::SignatureInvalid),
        Err(DecodeFailure::Rejected) => Err(TokenError::Malformed),
        Ok(f) => match (f.user_id, f.email, f.exp) {
            (Some(u), Some(e), Some(x)) => {
                if u < i32::MIN as i64 || u > i32::MAX as i64 {
                    Err(TokenError::Malformed)
                } else if now < x {
                    Ok(Claims { user_id: u as i32, email: e, exp: x })
                } else {
                    Err(TokenError::Expired)
                }
            },
            _ => Err(TokenError::Malformed),
        },
    }
}

/// Issues and validates tokens under one process-wide signing secret.
pub struct TokenService {
    secret: String,
}

impl TokenService {
    /// The signing secret.
    pub closed spec fn secret(&self) -> Seq<char> {
        self.secret@
    }

    /// Builds the service from its configured secret. A missing (empty)
    /// secret is a configuration error: no service is built, and no default
    /// secret is ever used.
    pub fn new(secret: &str) -> (r: Option<TokenService>)
        ensures
            r is None <==> secret@.len() == 0,
            r is Some ==> r->0.secret() == secret@,
    {
        if secret.unicode_len() == 0 {
            None
        } else {
            Some(TokenService { secret: secret.to_string() })
        }
    }

    /// Issues a token for `user_id` and `email`, issued at `now` and valid for
    /// `days` days. No token is issued when the expiry instant is negative or
    /// does not fit in an `i64`; otherwise the token is the one that signs
    /// exactly these claims. A token holds no space.
    pub fn issue_at(&self, user_id: i32, email: &str, days: i64, now: i64) -> (r: Option<String>)
        ensures
            r is Some <==> expiry_fits(expiry(now, days)),
            r is Some ==> r->0@ == jwt_of(user_id, email@, expiry(now, days) as i64, self.secret()),
            r is Some ==> no_space(r->0@),
    {
        let d: i128 = days as i128;
        assert(-0x8000_0000_0000_0000 * 86400 <= d * 86400 <= 0x7fff_ffff_ffff_ffff * 86400) by (nonlinear_arith)
            requires
                i64::MIN <= d <= i64::MAX,
        ;
        let exp: i128 = now as i128 + d * SECONDS_PER_DAY as i128;
        if exp < 0 || exp > i64::MAX as i128 {
            return None;
        }
        let r = jwt_encode(user_id, email, exp as i64, self.secret.as_str());
        match r {
            Ok(token) => Some(token),
            Err(_) => None,
        }
    }

    /// Validates a token at time `now`: the result is what `judge` makes of
    /// the decoded token. A token issued by this service for
    /// `(user_id, email)` with expiry `exp` gives back exactly those claims
    /// while `now < exp`, and `Expired` from `exp` on. Altering a character
    /// of its signature segment (to anything but a dot) gives
    /// `SignatureInvalid`, expired or not. A token of fewer than three
    /// segments is `Malformed`.
    pub fn validate_at(&self, token: &str, now: i64) -> (r: Result<Claims, TokenError>)
        ensures
            claims_match(r, judged(decoded_of(token@, self.secret()), now)),
            r is Ok ==> now < r->Ok_0.exp,
            !has_two_dots(token@) ==> r == Err::<Claims, TokenError>(TokenError::Malformed),
            forall|u: i32, e: Seq<char>, x: i64, i: int|
                in_last_segment(jwt_of(u, e, x, self.secret()), i) && #[trigger] altered_at(jwt_of(u, e, x, self.secret()), token@, i)
                    ==> r == Err::<Claims, TokenError>(TokenError::SignatureInvalid),
            forall|u: i32, e: Seq<char>, x: i64|
                0 <= x && #[trigger] jwt_of(u, e, x, self.secret()) == token@ ==>
                    claims_match(r, if now < x { Ok((u, e, x)) } else { Err(TokenError::Expired) }),
    {
        let decoded = jwt_decode(token, self.secret.as_str());
        judge(decoded, now)
    }
}

} // verus!
