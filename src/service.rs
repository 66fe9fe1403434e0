use vstd::prelude::*;

use crate::error::AuthError;
use crate::model::{
    AccountAuthenticate, AccountEntity, AccountRegister, AuthTokens, AuthenticatedUser, EntityId,
    Identity, IdentityCreate, IdentityProvider, IdentitySource, TOKEN_EXPIRY_SECONDS, is_token_text,
};
use crate::repository::AuthRepository;
use crate::store::{
    StoreView, add_identity_outcome, authenticate_outcome, entity_of, has_account, register_outcome,
    revoked_all,
};
use crate::token::{Claims, JsonWebToken, claims_for, decoded_jwt};

verus! {

/// Relies on `uuid::Uuid::new_v4`: a random identifier, as its 128-bit value.
#[verifier::external_body]
fn new_uuid() -> u128 {
    uuid::Uuid::new_v4().as_u128()
}

/// What a successful registration or authentication of `account` hands out, and how
/// it changes the refresh tokens: an access token carrying the claims for the account
/// issued at some time, and one new unrevoked refresh token of the account, stored
/// after all earlier ones.
pub open spec fn tokens_issued(
    signer: JsonWebToken,
    before: StoreView,
    after: StoreView,
    account: AccountEntity,
    tokens: AuthTokens,
) -> bool {
    &&& exists|iat: i64|
        iat <= i64::MAX - signer.ttl()
        && #[trigger] decoded_jwt(tokens.jwt@, signer.secret()) == Some(claims_for(account.id, account.email@, iat, signer.ttl()))
    &&& tokens.refresh_token.account_id == account.id
    &&& tokens.refresh_token.id == before.refresh_tokens.len() + 1
    &&& !tokens.refresh_token.revoked
    &&& tokens.refresh_token.expires == tokens.refresh_token.issued_at + TOKEN_EXPIRY_SECONDS
    &&& is_token_text(tokens.refresh_token.token@)
    &&& after.refresh_tokens == before.refresh_tokens.push(tokens.refresh_token)
    &&& after.accounts == before.accounts
    &&& after.identities == before.identities
}

/// The credential lifecycle engine: registration and authentication over an account
/// store, each handing out an access token and a refresh token.
///
/// Password hashing and checking are done by the caller, who hands in their
/// outcome; everything else is decided here.
pub struct AuthService<R: AuthRepository> {
    store: R,
    signer: JsonWebToken,
}

impl<R: AuthRepository> AuthService<R> {
    /// The account store.
    pub closed spec fn store_view(&self) -> StoreView {
        self.store.store_view()
    }

    /// The access-token signer.
    pub closed spec fn signer(&self) -> JsonWebToken {
        self.signer
    }

    pub closed spec fn wf(&self) -> bool {
        self.store.inv() && self.signer.wf()
    }

    /// A service over `store` that signs access tokens with `signer`.
    pub fn new(store: R, signer: JsonWebToken) -> (r: AuthService<R>)
        requires
            store.inv(),
            signer.wf(),
        ensures
            r.wf(),
            r.signer() == signer,
            r.store_view() == store.store_view(),
    {
        AuthService { store, signer }
    }

    /// The account store, for reading.
    pub fn store(&self) -> (r: &R)
        ensures
            r.store_view() == self.store_view(),
            self.wf() ==> r.inv(),
    {
        &self.store
    }

    /// Issues, at time `now`, an access token and a refresh token for a stored
    /// account. Both are issued exactly when their expiries fit in an `i64` and the
    /// refresh-token table has room: an access-token expiry that does not fit is
    /// `InvalidToken`, any other failure `DatabaseError`, and a failure stores nothing.
    pub fn issue_tokens_at(&mut self, account: &AccountEntity, now: i64) -> (r: Result<AuthTokens, AuthError>)
        requires
            old(self).wf(),
            has_account(old(self).store_view(), account.id),
        ensures
            final(self).wf(),
            final(self).signer() == old(self).signer(),
            r is Ok <==> {
                &&& now <= i64::MAX - old(self).signer().ttl()
                &&& now <= i64::MAX - TOKEN_EXPIRY_SECONDS
                &&& old(self).store_view().refresh_tokens.len() < i32::MAX
            },
            now > i64::MAX - old(self).signer().ttl() ==> r == Err::<AuthTokens, AuthError>(AuthError::InvalidToken),
            r matches Err(e) ==> (e == AuthError::InvalidToken || e == AuthError::DatabaseError)
                && final(self).store_view() == old(self).store_view(),
            r matches Ok(t) ==> {
                &&& tokens_issued(old(self).signer(), old(self).store_view(), final(self).store_view(), *account, t)
                &&& decoded_jwt(t.jwt@, old(self).signer().secret())
                    == Some(claims_for(account.id, account.email@, now, old(self).signer().ttl()))
                &&& t.refresh_token.issued_at == now
            },
    {
        if now > i64::MAX - self.signer.expiry_seconds() {
            return Err(AuthError::InvalidToken);
        }
        let jwt = match self.signer.create_token_at(account.id, &account.email, now) {
            Ok(t) => t,
            Err(e) => {
                return Err(e);
            },
        };
        match self.store.issue_refresh_token_at(account.id, now) {
            Ok(refresh_token) => Ok(AuthTokens { jwt, refresh_token }),
            Err(e) => Err(e),
        }
    }

    /// Registers a new account and signs it in.
    ///
    /// `password_hash` is the outcome of hashing `reg.password` (looked at only when
    /// a password is given). The store changes as `AuthStore::register_new_account`
    /// says; on success the new account also gets an access token and a refresh
    /// token. Should issuing those fail, the account stays registered.
    pub fn register_user(&mut self, reg: &AccountRegister, password_hash: Result<String, AuthError>) -> (r: Result<AuthenticatedUser, AuthError>)
        requires
            old(self).wf(),
        ensures
            final(self).wf(),
            final(self).signer() == old(self).signer(),
            crate::store::has_email(old(self).store_view(), reg.email@)
                ==> r == Err::<AuthenticatedUser, AuthError>(AuthError::UserAlreadyExists(reg.email)),
            !crate::store::has_email(old(self).store_view(), reg.email@) && reg.password is Some && password_hash is Err
                ==> r == Err::<AuthenticatedUser, AuthError>(AuthError::HashingError),
            r is Ok ==> !crate::store::has_email(old(self).store_view(), reg.email@)
                && (reg.password is Some ==> password_hash is Ok),
            r matches Err(AuthError::UserAlreadyExists(_)) ==> crate::store::has_email(old(self).store_view(), reg.email@),
            r == Err::<AuthenticatedUser, AuthError>(AuthError::HashingError)
                ==> !crate::store::has_email(old(self).store_view(), reg.email@) && reg.password is Some && password_hash is Err,
            !crate::store::has_email(old(self).store_view(), reg.email@) && (reg.password is Some ==> password_hash is Ok)
                && !(old(self).store_view().accounts.len() < i32::MAX && old(self).store_view().identities.len() < i32::MAX)
                ==> r == Err::<AuthenticatedUser, AuthError>(AuthError::DatabaseError)
                && final(self).store_view() == old(self).store_view(),
            !crate::store::has_email(old(self).store_view(), reg.email@) && (reg.password is Some ==> password_hash is Ok)
                && old(self).store_view().accounts.len() < i32::MAX && old(self).store_view().identities.len() < i32::MAX
                ==> final(self).store_view().accounts.len() == old(self).store_view().accounts.len() + 1
                && crate::store::has_email(final(self).store_view(), reg.email@)
                && (r is Ok || r == Err::<AuthenticatedUser, AuthError>(AuthError::InvalidToken)
                    || r == Err::<AuthenticatedUser, AuthError>(AuthError::DatabaseError)),
            r matches Ok(u) ==> exists|mid: StoreView, uuid: u128, now: i64, a: crate::model::Account|
                #[trigger] register_outcome(old(self).store_view(), mid, *reg, password_hash, uuid, now, Ok(a))
                && u.account == entity_of(a)
                && tokens_issued(old(self).signer(), mid, final(self).store_view(), u.account, u.tokens),
            r is Err ==> final(self).store_view() == old(self).store_view()
                || exists|uuid: u128, now: i64, a: crate::model::Account|
                    #[trigger] register_outcome(old(self).store_view(), final(self).store_view(), *reg, password_hash, uuid, now, Ok(a)),
    {
        let uuid = new_uuid();
        let now = crate::token::now_timestamp();
        let account = match self.store.register_new_account(reg, password_hash, uuid, now) {
            Ok(a) => a,
            Err(e) => {
                return Err(e);
            },
        };
        let ghost mid = self.store.store_view();
        assert(register_outcome(old(self).store_view(), mid, *reg, password_hash, uuid, now, Ok(account)));
        assert(crate::store::account_at(mid, reg.email@, account.id - 1));
        let entity = account.entity();
        assert(entity == entity_of(account));
        let result = match self.issue_tokens_at(&entity, now) {
            Ok(tokens) => Ok(AuthenticatedUser { account: entity, tokens }),
            Err(e) => Err(e),
        };
        assert(self.store_view().accounts == mid.accounts);
        assert(crate::store::account_at(self.store_view(), reg.email@, account.id - 1));
        result
    }

    /// The stored password hash for `email`, which the caller checks the presented
    /// password against before calling `authenticate_user`.
    pub fn password_hash_for(&self, email: &String) -> (r: Option<String>)
        requires
            self.wf(),
        ensures
            r is Some <==> crate::store::has_password(self.store_view(), email@),
            r matches Some(h) ==> crate::store::password_hash_of(self.store_view(), email@, h),
    {
        self.store.password_hash_for(email)
    }

    /// Authenticates an account and signs it in.
    ///
    /// `verified` is the outcome of checking `auth.password` against the hash that
    /// `password_hash_for` gives for `auth.email`. Which account, if any, is signed
    /// in is decided as `AuthStore::authenticate_account` says; the store changes
    /// only by the refresh token issued.
    pub fn authenticate_user(&mut self, auth: &AccountAuthenticate, verified: Result<bool, AuthError>) -> (r: Result<AuthenticatedUser, AuthError>)
        requires
            old(self).wf(),
        ensures
            final(self).wf(),
            final(self).signer() == old(self).signer(),
            r is Ok ==> crate::store::has_password(old(self).store_view(), auth.email@)
                && verified == Ok::<bool, AuthError>(true),
            !(crate::store::has_password(old(self).store_view(), auth.email@) && verified == Ok::<bool, AuthError>(true))
                ==> r == Err::<AuthenticatedUser, AuthError>(AuthError::InvalidUsernameOrPassword),
            r == Err::<AuthenticatedUser, AuthError>(AuthError::InvalidUsernameOrPassword)
                ==> !(crate::store::has_password(old(self).store_view(), auth.email@) && verified == Ok::<bool, AuthError>(true)),
            crate::store::has_password(old(self).store_view(), auth.email@) && verified == Ok::<bool, AuthError>(true)
                ==> r is Ok || r == Err::<AuthenticatedUser, AuthError>(AuthError::InvalidToken)
                || r == Err::<AuthenticatedUser, AuthError>(AuthError::DatabaseError),
            r matches Ok(u) ==> tokens_issued(old(self).signer(), old(self).store_view(), final(self).store_view(), u.account, u.tokens),
            r matches Ok(u) ==> exists|i: int|
                crate::store::account_at(old(self).store_view(), auth.email@, i)
                && u.account == entity_of(#[trigger] old(self).store_view().accounts[i]),
            r is Err ==> final(self).store_view() == old(self).store_view(),
    {
        let account = self.store.authenticate_account(auth, verified);
        match account {
            Ok(a) => {
                let now = crate::token::now_timestamp();
                match self.issue_tokens_at(&a, now) {
                    Ok(tokens) => Ok(AuthenticatedUser { account: a, tokens }),
                    Err(e) => Err(e),
                }
            },
            Err(e) => Err(e),
        }
    }

    /// Validates an access token now: its claims when the signature holds and it has
    /// not expired. No store lookup is made.
    pub fn validate_token(&self, token: &str) -> (r: Result<Claims, AuthError>)
        ensures
            r matches Ok(c) ==> decoded_jwt(token@, self.signer().secret()) == Some(c@),
            decoded_jwt(token@, self.signer().secret()) is None ==> r is Err,
            r matches Err(e) ==> e == AuthError::InvalidToken,
    {
        self.signer.validate_token(token)
    }

    /// Binds a further authentication method to an existing account, as
    /// `AuthStore::add_identity_provider` says.
    pub fn add_identity_provider(
        &mut self,
        account_id: EntityId,
        provider: IdentityProvider,
        token: &String,
        password_hash: Result<String, AuthError>,
    ) -> (r: Result<Identity, AuthError>)
        requires
            old(self).wf(),
        ensures
            final(self).wf(),
            final(self).signer() == old(self).signer(),
            provider == IdentitySource::Password && password_hash is Err
                ==> r == Err::<Identity, AuthError>(AuthError::HashingError) && final(self).store_view() == old(self).store_view(),
            provider == IdentitySource::Password && password_hash is Ok ==> add_identity_outcome(
                old(self).store_view(),
                final(self).store_view(),
                IdentityCreate { account_id, source: provider, credential: password_hash->Ok_0 },
                r,
            ),
            provider != IdentitySource::Password ==> add_identity_outcome(
                old(self).store_view(),
                final(self).store_view(),
                IdentityCreate { account_id, source: provider, credential: *token },
                r,
            ),
    {
        self.store.add_identity_provider(account_id, provider, token, password_hash)
    }

    /// Revokes now every refresh token of `account_id` that is not revoked yet.
    pub fn revoke_all(&mut self, account_id: EntityId)
        requires
            old(self).wf(),
        ensures
            final(self).wf(),
            final(self).signer() == old(self).signer(),
            final(self).store_view().accounts == old(self).store_view().accounts,
            final(self).store_view().identities == old(self).store_view().identities,
            exists|now: i64| revoked_all(old(self).store_view().refresh_tokens, final(self).store_view().refresh_tokens, account_id, now),
    {
        self.store.revoke_all_tokens_for_account(account_id);
    }
}

} // verus!
