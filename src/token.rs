use vstd::prelude::*;

use crate::error::AuthError;
use crate::model::EntityId;

use jsonwebtoken::{Algorithm, DecodingKey, EncodingKey, Header, Validation};
use serde_json::Value;

verus! {

/// The issuer written into every access token.
pub const JWT_ISSUER: &'static str = "authentication";

/// Shortest access-token lifetime a signer accepts, in hours.
pub const MIN_EXPIRY_HOURS: i64 = 1;

/// Longest access-token lifetime a signer accepts, in hours.
pub const MAX_EXPIRY_HOURS: i64 = 24;

/// The claims carried by an access token.
#[derive(Debug, Clone)]
pub struct Claims {
    /// Issuer.
    pub iss: String,
    /// Subject: the account id in decimal.
    pub sub: String,
    /// Issue time, in seconds since the Unix epoch.
    pub iat: i64,
    /// Expiry time, in seconds since the Unix epoch.
    pub exp: i64,
    /// The account's email.
    pub email: String,
}

/// The mathematical value of a set of claims.
pub struct ClaimsView {
    pub iss: Seq<char>,
    pub sub: Seq<char>,
    pub iat: i64,
    pub exp: i64,
    pub email: Seq<char>,
}

impl View for Claims {
    type V = ClaimsView;

    open spec fn view(&self) -> ClaimsView {
        ClaimsView { iss: self.iss@, sub: self.sub@, iat: self.iat, exp: self.exp, email: self.email@ }
    }
}

pub open spec fn claims_option_view(c: Option<Claims>) -> Option<ClaimsView> {
    match c {
        Some(c) => Some(c@),
        None => None,
    }
}

/// The decimal digits of a natural number.
pub open spec fn decimal_digits(n: nat) -> Seq<char>
    decreases n,
{
    let d = seq!['0', '1', '2', '3', '4', '5', '6', '7', '8', '9'][(n % 10) as int];
    if n < 10 {
        seq![d]
    } else {
        decimal_digits(n / 10).push(d)
    }
}

/// The decimal notation of an integer, with a leading `-` when negative.
pub open spec fn decimal(n: int) -> Seq<char> {
    if n < 0 {
        seq!['-'] + decimal_digits((-n) as nat)
    } else {
        decimal_digits(n as nat)
    }
}

/// The claims of a token for `account_id` and `email`, issued at `iat` and
/// valid for `ttl` seconds.
pub open spec fn claims_for(account_id: EntityId, email: Seq<char>, iat: i64, ttl: i64) -> ClaimsView {
    ClaimsView { iss: JWT_ISSUER@, sub: decimal(account_id as int), iat, exp: (iat + ttl) as i64, email }
}

/// The token that HS256 signing of `claims` with `secret` produces.
pub uninterp spec fn signed_jwt(claims: ClaimsView, secret: Seq<u8>) -> Seq<char>;

/// The claims that a token yields once its HS256 signature under `secret` has been
/// checked; `None` when the signature or the structure is wrong.
pub uninterp spec fn decoded_jwt(token: Seq<char>, secret: Seq<u8>) -> Option<ClaimsView>;

/// Whether `token` is accepted at time `now` by a signer holding `secret`: its
/// signature holds and it has not expired.
pub open spec fn token_accepted(secret: Seq<u8>, token: Seq<char>, now: i64) -> bool {
    match decoded_jwt(token, secret) {
        Some(c) => now < c.exp,
        None => false,
    }
}

#[verifier::external_type_specification]
#[verifier::external_body]
pub struct ExJwtError(jsonwebtoken::errors::Error);

/// Relies on `jsonwebtoken::encode` with an HS256 header and an HMAC key made from
/// `secret`: the five claims become the JSON payload, the result is a function of
/// the claims and the secret, and `jsonwebtoken::decode` with the same secret gives
/// the same claims back. With an HMAC key and a header naming HS256 the call cannot
/// fail: the key family matches, a map of strings and integers always serialises,
/// and HMAC signing always succeeds.
#[verifier::external_body]
fn encode_claims(claims: &Claims, secret: &[u8]) -> (r: Result<String, jsonwebtoken::errors::Error>)
    ensures
        r is Ok,
        r is Ok ==> r->Ok_0@ == signed_jwt(claims@, secret@),
        r is Ok ==> decoded_jwt(r->Ok_0@, secret@) == Some(claims@),
{
    let mut m = serde_json::Map::new();
    m.insert("iss".to_string(), Value::from(claims.iss.clone()));
    m.insert("sub".to_string(), Value::from(claims.sub.clone()));
    m.insert("iat".to_string(), Value::from(claims.iat));
    m.insert("exp".to_string(), Value::from(claims.exp));
    m.insert("email".to_string(), Value::from(claims.email.clone()));
    jsonwebtoken::encode(&Header::new(Algorithm::HS256), &m, &EncodingKey::from_secret(secret))
}

/// Relies on `jsonwebtoken::decode` for HS256 with an HMAC key made from `secret`,
/// with its own expiry check switched off: the claims when the signature holds and
/// the payload carries the five claims, `None` otherwise.
#[verifier::external_body]
fn decode_claims(token: &str, secret: &[u8]) -> (r: Option<Claims>)
    ensures
        claims_option_view(r) == decoded_jwt(token@, secret@),
{
    let v = Validation { validate_exp: false, ..Validation::new(Algorithm::HS256) };
    let key = DecodingKey::from_secret(secret);
    let m = jsonwebtoken::decode::<serde_json::Map<String, Value>>(token, &key, &v).ok()?.claims;
    Some(Claims {
        iss: m.get("iss")?.as_str()?.to_string(),
        sub: m.get("sub")?.as_str()?.to_string(),
        iat: m.get("iat")?.as_i64()?,
        exp: m.get("exp")?.as_i64()?,
        email: m.get("email")?.as_str()?.to_string(),
    })
}

/// Relies on `chrono::Utc::now`: the current time in seconds since the Unix epoch.
#[verifier::external_body]
pub(crate) fn now_timestamp() -> i64 {
    chrono::Utc::now().timestamp()
}

/// The character of a decimal digit.
fn digit_string(d: u32) -> (r: String)
    requires
        d < 10,
    ensures
        r@ == seq![seq!['0', '1', '2', '3', '4', '5', '6', '7', '8', '9'][d as int]],
{
    proof {
        reveal_strlit("0");
        reveal_strlit("1");
        reveal_strlit("2");
        reveal_strlit("3");
        reveal_strlit("4");
        reveal_strlit("5");
        reveal_strlit("6");
        reveal_strlit("7");
        reveal_strlit("8");
        reveal_strlit("9");
    }
    let text = match d {
        0 => "0",
        1 => "1",
        2 => "2",
        3 => "3",
        4 => "4",
        5 => "5",
        6 => "6",
        7 => "7",
        8 => "8",
        _ => "9",
    };
    String::from_str(text)
}

/// The decimal digits of `n`, most significant first.
fn digits_string(n: u32) -> (r: String)
    ensures
        r@ == decimal_digits(n as nat),
    decreases n,
{
    if n < 10 {
        digit_string(n)
    } else {
        let head = digits_string(n / 10);
        let last = digit_string(n % 10);
        let r = head.concat(last.as_str());
        assert(r@ =~= decimal_digits((n / 10) as nat).push(seq!['0', '1', '2', '3', '4', '5', '6', '7', '8', '9'][(n % 10) as int]));
        r
    }
}

/// The decimal notation of an account id, with a leading `-` when negative.
pub fn id_to_string(n: i32) -> (r: String)
    ensures
        r@ == decimal(n as int),
{
    if n < 0 {
        let magnitude: u32 = (-(n as i64)) as u32;
        let digits = digits_string(magnitude);
        proof {
            reveal_strlit("-");
        }
        String::from_str("-").concat(digits.as_str())
    } else {
        digits_string(n as u32)
    }
}

impl Claims {
    /// The claims of a token for `account_id` and `email`, issued at `now` and
    /// valid for `ttl` seconds.
    pub fn new(account_id: EntityId, email: &String, now: i64, ttl: i64) -> (r: Claims)
        requires
            0 <= ttl,
            now <= i64::MAX - ttl,
        ensures
            r@ == claims_for(account_id, email@, now, ttl),
    {
        let iss = String::from_str(JWT_ISSUER);
        Claims { iss, sub: id_to_string(account_id), iat: now, exp: now + ttl, email: email.clone() }
    }
}

/// The access-token signer: a service-wide HMAC secret and a token lifetime.
#[derive(Debug, Clone)]
pub struct JsonWebToken {
    secret: Vec<u8>,
    expiry_hours: i64,
}

impl JsonWebToken {
    /// The signing secret.
    pub closed spec fn secret(&self) -> Seq<u8> {
        self.secret@
    }

    /// The lifetime of the tokens this signer issues, in seconds.
    pub closed spec fn ttl(&self) -> i64 {
        (self.expiry_hours * 3600) as i64
    }

    pub closed spec fn wf(&self) -> bool {
        MIN_EXPIRY_HOURS <= self.expiry_hours <= MAX_EXPIRY_HOURS
    }

    /// A signer for `secret` whose tokens live `expiry_hours` hours; `None` when the
    /// lifetime is outside one to twenty-four hours.
    pub fn new(secret: Vec<u8>, expiry_hours: i64) -> (r: Option<JsonWebToken>)
        ensures
            r is Some <==> MIN_EXPIRY_HOURS <= expiry_hours <= MAX_EXPIRY_HOURS,
            r matches Some(s) ==> s.wf() && s.secret() == secret@ && s.ttl() == expiry_hours * 3600,
    {
        if MIN_EXPIRY_HOURS <= expiry_hours && expiry_hours <= MAX_EXPIRY_HOURS {
            Some(JsonWebToken { secret, expiry_hours })
        } else {
            None
        }
    }

    /// The lifetime of the tokens this signer issues, in seconds.
    pub fn expiry_seconds(&self) -> (r: i64)
        requires
            self.wf(),
        ensures
            r == self.ttl(),
            3600 <= r <= 86400,
    {
        self.expiry_hours * 3600
    }

    /// Signs a token for `account_id` and `email` issued at `now`: the HS256 token
    /// carrying exactly the claims for this account, issue time and lifetime.
    pub fn create_token_at(&self, account_id: EntityId, email: &String, now: i64) -> (r: Result<String, AuthError>)
        requires
            self.wf(),
            now <= i64::MAX - self.ttl(),
        ensures
            r is Ok,
            r matches Ok(t) ==> t@ == signed_jwt(claims_for(account_id, email@, now, self.ttl()), self.secret()),
            r matches Ok(t) ==> decoded_jwt(t@, self.secret()) == Some(claims_for(account_id, email@, now, self.ttl())),
            r matches Err(e) ==> e == AuthError::InvalidToken,
    {
        let claims = Claims::new(account_id, email, now, self.expiry_seconds());
        match encode_claims(&claims, self.secret.as_slice()) {
            Ok(t) => Ok(t),
            Err(_) => Err(AuthError::InvalidToken),
        }
    }

    /// Signs a token for `account_id` and `email`, issued now. It fails, with
    /// `InvalidToken`, only when the clock is so far ahead that the expiry would not
    /// fit in an `i64`.
    pub fn create_token(&self, account_id: EntityId, email: &String) -> (r: Result<String, AuthError>)
        requires
            self.wf(),
        ensures
            r matches Ok(t) ==> exists|now: i64|
                now <= i64::MAX - self.ttl()
                && #[trigger] decoded_jwt(t@, self.secret()) == Some(claims_for(account_id, email@, now, self.ttl())),
            r matches Err(e) ==> e == AuthError::InvalidToken,
    {
        let now = now_timestamp();
        if now > i64::MAX - self.expiry_seconds() {
            return Err(AuthError::InvalidToken);
        }
        self.create_token_at(account_id, email, now)
    }

    /// Checks `token` at time `now`: its claims when the signature under this
    /// signer's secret holds and `now` is before its expiry.
    pub fn validate_token_at(&self, token: &str, now: i64) -> (r: Result<Claims, AuthError>)
        ensures
            r is Ok <==> token_accepted(self.secret(), token@, now),
            r matches Ok(c) ==> decoded_jwt(token@, self.secret()) == Some(c@),
            r matches Err(e) ==> e == AuthError::InvalidToken,
    {
        match decode_claims(token, self.secret.as_slice()) {
            Some(c) => {
                if now < c.exp {
                    Ok(c)
                } else {
                    Err(AuthError::InvalidToken)
                }
            },
            None => Err(AuthError::InvalidToken),
        }
    }

    /// Checks `token` now: its claims when the signature holds and it has not expired.
    pub fn validate_token(&self, token: &str) -> (r: Result<Claims, AuthError>)
        ensures
            r matches Ok(c) ==> decoded_jwt(token@, self.secret()) == Some(c@),
            decoded_jwt(token@, self.secret()) is None ==> r is Err,
            r matches Err(e) ==> e == AuthError::InvalidToken,
    {
        let now = now_timestamp();
        self.validate_token_at(token, now)
    }
}

/// A token issued at `iat` is accepted exactly until its expiry `iat + ttl`:
/// validation succeeds at every `now` before it and fails at every `now` from it on.
pub proof fn lemma_issued_token_valid_until_expiry(signer: JsonWebToken, account_id: EntityId, email: Seq<char>, iat: i64, token: Seq<char>, now: i64)
    requires
        signer.wf(),
        iat <= i64::MAX - signer.ttl(),
        decoded_jwt(token, signer.secret()) == Some(claims_for(account_id, email, iat, signer.ttl())),
    ensures
        token_accepted(signer.secret(), token, now) <==> now < iat + signer.ttl(),
{
}

} // verus!
