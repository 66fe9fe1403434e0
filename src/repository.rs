use vstd::prelude::*;

use crate::error::AuthError;
use crate::model::{
    Account, AccountAuthenticate, AccountEntity, AccountRegister, EntityId, Identity,
    IdentityCreate, IdentityProvider, IdentitySource, RefreshToken,
};
use crate::store::{
    AuthStore, StoreView, add_identity_outcome, authenticate_outcome, has_account, has_password,
    password_hash_of, refresh_accepts, register_outcome, revoked_all,
};

verus! {

/// The persistence capability the credential lifecycle engine runs on.
///
/// Each operation is one atomic step on the store: it either completes or leaves
/// the store as it was. `store_view` is the store's contents, `inv` its invariant.
pub trait AuthRepository: Sized {
    spec fn store_view(&self) -> StoreView;

    spec fn inv(&self) -> bool;

    /// Registers a new account, with its password identity when a password is
    /// given, in one atomic step.
    fn register_new_account(
        &mut self,
        reg: &AccountRegister,
        password_hash: Result<String, AuthError>,
        uuid: u128,
        now: i64,
    ) -> (r: Result<Account, AuthError>)
        requires
            old(self).inv(),
        ensures
            final(self).inv(),
            register_outcome(old(self).store_view(), final(self).store_view(), *reg, password_hash, uuid, now, r),
    ;

    /// The stored password hash of the account registered under `email`.
    fn password_hash_for(&self, email: &String) -> (r: Option<String>)
        requires
            self.inv(),
        ensures
            r is Some <==> has_password(self.store_view(), email@),
            r matches Some(h) ==> password_hash_of(self.store_view(), email@, h),
    ;

    /// Decides an authentication attempt from the outcome of the password check.
    fn authenticate_account(&self, auth: &AccountAuthenticate, verified: Result<bool, AuthError>) -> (r: Result<AccountEntity, AuthError>)
        requires
            self.inv(),
        ensures
            authenticate_outcome(self.store_view(), *auth, verified, r),
            r matches Ok(a) ==> has_account(self.store_view(), a.id),
    ;

    /// Binds a further authentication method to an existing account.
    fn add_identity_provider(
        &mut self,
        account_id: EntityId,
        provider: IdentityProvider,
        token: &String,
        password_hash: Result<String, AuthError>,
    ) -> (r: Result<Identity, AuthError>)
        requires
            old(self).inv(),
        ensures
            final(self).inv(),
            provider == IdentitySource::Password && password_hash is Err
                ==> r == Err::<Identity, AuthError>(AuthError::HashingError) && final(self).store_view() == old(self).store_view(),
            provider == IdentitySource::Password && password_hash is Ok ==> add_identity_outcome(
                old(self).store_view(),
                final(self).store_view(),
                IdentityCreate { account_id, source: provider, credential: password_hash->Ok_0 },
                r,
            ),
            provider != IdentitySource::Password ==> add_identity_outcome(
                old(self).store_view(),
                final(self).store_view(),
                IdentityCreate { account_id, source: provider, credential: *token },
                r,
            ),
    ;

    /// Issues and stores a new refresh token for `account_id` at time `now`.
    fn issue_refresh_token_at(&mut self, account_id: EntityId, now: i64) -> (r: Result<RefreshToken, AuthError>)
        requires
            old(self).inv(),
        ensures
            final(self).inv(),
            r is Ok <==> {
                &&& has_account(old(self).store_view(), account_id)
                &&& old(self).store_view().refresh_tokens.len() < i32::MAX
                &&& now <= i64::MAX - crate::model::TOKEN_EXPIRY_SECONDS
            },
            r matches Err(e) ==> e == AuthError::DatabaseError && final(self).store_view() == old(self).store_view(),
            r matches Ok(t) ==> {
                &&& t.id == old(self).store_view().refresh_tokens.len() + 1
                &&& t.account_id == account_id
                &&& t.issued_at == now
                &&& t.expires == now + crate::model::TOKEN_EXPIRY_SECONDS
                &&& !t.revoked && t.revocation_time is None
                &&& crate::model::is_token_text(t.token@)
                &&& final(self).store_view().refresh_tokens == old(self).store_view().refresh_tokens.push(t)
                &&& final(self).store_view().accounts == old(self).store_view().accounts
                &&& final(self).store_view().identities == old(self).store_view().identities
            },
    ;

    /// Revokes now every refresh token of `account_id` that is not revoked yet.
    fn revoke_all_tokens_for_account(&mut self, account_id: EntityId)
        requires
            old(self).inv(),
        ensures
            final(self).inv(),
            final(self).store_view().accounts == old(self).store_view().accounts,
            final(self).store_view().identities == old(self).store_view().identities,
            exists|now: i64| revoked_all(old(self).store_view().refresh_tokens, final(self).store_view().refresh_tokens, account_id, now),
    ;

    /// Looks up a presented refresh token now.
    fn validate_refresh_token(&self, token: &String) -> (r: Result<RefreshToken, AuthError>)
        ensures
            (forall|now: i64, i: int| !refresh_accepts(self.store_view(), token@, now, i)) ==> r is Err,
            r matches Ok(t) ==> exists|now: i64, i: int|
                #[trigger] refresh_accepts(self.store_view(), token@, now, i) && t == self.store_view().refresh_tokens[i],
            r matches Err(e) ==> e == AuthError::InvalidToken,
    ;
}

impl AuthRepository for AuthStore {
    open spec fn store_view(&self) -> StoreView {
        self@
    }

    open spec fn inv(&self) -> bool {
        self.wf()
    }

    fn register_new_account(
        &mut self,
        reg: &AccountRegister,
        password_hash: Result<String, AuthError>,
        uuid: u128,
        now: i64,
    ) -> (r: Result<Account, AuthError>) {
        AuthStore::register_new_account(self, reg, password_hash, uuid, now)
    }

    fn password_hash_for(&self, email: &String) -> (r: Option<String>) {
        AuthStore::password_hash_for(self, email)
    }

    fn authenticate_account(&self, auth: &AccountAuthenticate, verified: Result<bool, AuthError>) -> (r: Result<AccountEntity, AuthError>) {
        AuthStore::authenticate_account(self, auth, verified)
    }

    fn add_identity_provider(
        &mut self,
        account_id: EntityId,
        provider: IdentityProvider,
        token: &String,
        password_hash: Result<String, AuthError>,
    ) -> (r: Result<Identity, AuthError>) {
        AuthStore::add_identity_provider(self, account_id, provider, token, password_hash)
    }

    fn issue_refresh_token_at(&mut self, account_id: EntityId, now: i64) -> (r: Result<RefreshToken, AuthError>) {
        AuthStore::issue_refresh_token_at(self, account_id, now)
    }

    fn revoke_all_tokens_for_account(&mut self, account_id: EntityId) {
        AuthStore::revoke_all_tokens_for_account(self, account_id)
    }

    fn validate_refresh_token(&self, token: &String) -> (r: Result<RefreshToken, AuthError>) {
        let r = AuthStore::validate_refresh_token(self, token);
        proof {
            if r is Ok {
                let (now, i) = choose|now: i64, i: int|
                    #[trigger] refresh_accepts(self@, token@, now, i) && r->Ok_0 == self@.refresh_tokens[i];
                assert(refresh_accepts(self.store_view(), token@, now, i));
            }
        }
        r
    }
}

} // verus!
