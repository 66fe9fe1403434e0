use vstd::prelude::*;

use rand::distributions::Alphanumeric;
use rand::{thread_rng, Rng};

verus! {

/// Identifier of a stored entity (account, identity or refresh token).
pub type EntityId = i32;

/// An account as stored: the person behind one unique email.
#[derive(Debug, Clone)]
pub struct Account {
    pub id: EntityId,
    /// Random identifier, independent of `id`.
    pub uuid: u128,
    pub given_name: String,
    pub family_name: String,
    pub email: String,
    pub avatar_url: Option<String>,
    /// Creation time, in seconds since the Unix epoch.
    pub created_at: i64,
}

/// The account details that are handed back to callers.
#[derive(Debug, Clone)]
pub struct AccountEntity {
    pub id: EntityId,
    pub email: String,
    pub given_name: String,
    pub family_name: String,
    pub avatar_url: Option<String>,
}

/// The data required to create a new account.
#[derive(Debug, Clone)]
pub struct AccountRegister {
    pub given_name: String,
    pub email: String,
    pub password: Option<String>,
}

/// The data required to authenticate an existing account.
#[derive(Debug, Clone)]
pub struct AccountAuthenticate {
    pub email: String,
    pub password: String,
}

/// The supported authentication methods.
#[derive(Debug, Clone, Copy, PartialEq, Eq, Structural)]
pub enum IdentitySource {
    Password,
    Google,
}

/// The name the repository layer uses for an authentication method.
pub type IdentityProvider = IdentitySource;

/// An identity as stored: one authentication method bound to one account.
///
/// `identity_token` is the credential material: an Argon2id hash for a password
/// identity, the provider's opaque token otherwise.
#[derive(Debug, Clone)]
pub struct IdentityEntity {
    pub id: EntityId,
    pub account_id: EntityId,
    pub provider: IdentityProvider,
    pub identity_token: String,
}

/// An identity as shown to callers: the credential material is left out.
#[derive(Debug, Clone, Copy, PartialEq, Eq, Structural)]
pub struct Identity {
    pub id: EntityId,
    pub account_id: EntityId,
    pub source: IdentitySource,
}

/// A request to bind a further authentication method to an existing account.
#[derive(Debug, Clone)]
pub struct IdentityCreate {
    pub account_id: EntityId,
    pub source: IdentitySource,
    /// Credential material as it is to be stored (already hashed for a password).
    pub credential: String,
}

/// A refresh token as stored.
#[derive(Debug, Clone)]
pub struct RefreshToken {
    pub id: EntityId,
    pub account_id: EntityId,
    /// Issue time, in seconds since the Unix epoch.
    pub issued_at: i64,
    /// Expiry time, in seconds since the Unix epoch.
    pub expires: i64,
    pub revoked: bool,
    pub revocation_time: Option<i64>,
    pub token: String,
}

/// Number of characters in a refresh token.
pub const TOKEN_LENGTH: usize = 256;

/// Lifetime of a refresh token, in seconds (seven days).
pub const TOKEN_EXPIRY_SECONDS: i64 = 604800;

/// A refresh token about to be stored.
#[derive(Debug, Clone)]
pub struct RefreshTokenCreate {
    pub account_id: EntityId,
    pub issued_at: i64,
    pub expires: i64,
    pub token: String,
}

/// Whether a character belongs to the refresh-token alphabet `[A-Za-z0-9]`.
pub open spec fn is_alphanumeric(c: char) -> bool {
    ('a' <= c && c <= 'z') || ('A' <= c && c <= 'Z') || ('0' <= c && c <= '9')
}

/// Whether `s` is a well-formed refresh token value.
pub open spec fn is_token_text(s: Seq<char>) -> bool {
    &&& s.len() == TOKEN_LENGTH
    &&& forall|i: int| 0 <= i < s.len() ==> is_alphanumeric(#[trigger] s[i])
}

impl RefreshTokenCreate {
    /// A refresh token for `account_id` issued at `now`, valid for seven days.
    pub fn new(account_id: EntityId, now: i64, token: String) -> (r: RefreshTokenCreate)
        requires
            now <= i64::MAX - TOKEN_EXPIRY_SECONDS,
        ensures
            r.account_id == account_id,
            r.issued_at == now,
            r.expires == now + TOKEN_EXPIRY_SECONDS,
            r.token == token,
    {
        RefreshTokenCreate { account_id, issued_at: now, expires: now + TOKEN_EXPIRY_SECONDS, token }
    }
}

impl RefreshToken {
    /// A copy of this refresh token.
    pub fn clone_token(&self) -> (r: RefreshToken)
        ensures
            r == *self,
    {
        RefreshToken {
            id: self.id,
            account_id: self.account_id,
            issued_at: self.issued_at,
            expires: self.expires,
            revoked: self.revoked,
            revocation_time: self.revocation_time,
            token: self.token.clone(),
        }
    }

    /// A fresh refresh-token value: 256 characters drawn from `[A-Za-z0-9]`.
    ///
    /// Relies on `rand::thread_rng` sampling `rand::distributions::Alphanumeric`,
    /// which yields one ASCII letter or digit per draw.
    #[verifier::external_body]
    pub fn generate() -> (r: String)
        ensures
            is_token_text(r@),
    {
        thread_rng().sample_iter(&Alphanumeric).take(TOKEN_LENGTH).collect()
    }
}

/// The tokens handed out on a successful registration or authentication.
#[derive(Debug, Clone)]
pub struct AuthTokens {
    pub jwt: String,
    pub refresh_token: RefreshToken,
}

/// The outcome of a successful registration or authentication.
#[derive(Debug, Clone)]
pub struct AuthenticatedUser {
    pub account: AccountEntity,
    pub tokens: AuthTokens,
}

impl Account {
    /// A copy of this account.
    pub fn clone_account(&self) -> (r: Account)
        ensures
            r == *self,
    {
        Account {
            id: self.id,
            uuid: self.uuid,
            given_name: self.given_name.clone(),
            family_name: self.family_name.clone(),
            email: self.email.clone(),
            avatar_url: self.avatar_url.clone(),
            created_at: self.created_at,
        }
    }

    /// The caller-facing details of this account.
    pub fn entity(&self) -> (r: AccountEntity)
        ensures
            r.id == self.id,
            r.email == self.email,
            r.given_name == self.given_name,
            r.family_name == self.family_name,
            r.avatar_url == self.avatar_url,
    {
        AccountEntity {
            id: self.id,
            email: self.email.clone(),
            given_name: self.given_name.clone(),
            family_name: self.family_name.clone(),
            avatar_url: self.avatar_url.clone(),
        }
    }
}

impl IdentityEntity {
    /// This identity without its credential material.
    pub fn identity(&self) -> (r: Identity)
        ensures
            r.id == self.id,
            r.account_id == self.account_id,
            r.source == self.provider,
    {
        Identity { id: self.id, account_id: self.account_id, source: self.provider }
    }
}

} // verus!
