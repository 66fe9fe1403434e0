use vstd::prelude::*;

use crate::error::AuthError;
use crate::model::{
    Account, AccountAuthenticate, AccountEntity, AccountRegister, EntityId, Identity,
    IdentityCreate, IdentityEntity, IdentityProvider, IdentitySource, RefreshToken, RefreshTokenCreate,
};

verus! {

/// The mathematical value of a store: its three tables, in insertion order.
pub struct StoreView {
    pub accounts: Seq<Account>,
    pub identities: Seq<IdentityEntity>,
    pub refresh_tokens: Seq<RefreshToken>,
}

/// In-memory account store: accounts, their identities and their refresh tokens.
///
/// Ids are assigned by the store, counting from one in each table. Every write
/// checks everything it needs before changing anything, so an operation that fails
/// leaves the store as it was.
#[derive(Debug, Clone)]
pub struct AuthStore {
    accounts: Vec<Account>,
    identities: Vec<IdentityEntity>,
    refresh_tokens: Vec<RefreshToken>,
}

impl View for AuthStore {
    type V = StoreView;

    closed spec fn view(&self) -> StoreView {
        StoreView { accounts: self.accounts@, identities: self.identities@, refresh_tokens: self.refresh_tokens@ }
    }
}

/// Whether `i` is the position of the account registered under `email`.
pub open spec fn account_at(v: StoreView, email: Seq<char>, i: int) -> bool {
    0 <= i < v.accounts.len() && v.accounts[i].email@ == email
}

/// Whether some account is registered under `email`.
pub open spec fn has_email(v: StoreView, email: Seq<char>) -> bool {
    exists|i: int| account_at(v, email, i)
}

/// Whether `account_id` names a stored account.
pub open spec fn has_account(v: StoreView, account_id: EntityId) -> bool {
    1 <= account_id <= v.accounts.len()
}

/// Whether `k` is the position of an identity of `account_id` with `source`.
pub open spec fn identity_at(v: StoreView, account_id: EntityId, source: IdentitySource, k: int) -> bool {
    0 <= k < v.identities.len() && v.identities[k].account_id == account_id && v.identities[k].provider == source
}

/// Whether the account registered under `email` has a password identity whose
/// stored hash is `hash`.
pub open spec fn password_hash_of(v: StoreView, email: Seq<char>, hash: String) -> bool {
    exists|i: int, k: int|
        #![trigger v.accounts[i], v.identities[k]]
        account_at(v, email, i) && identity_at(v, v.accounts[i].id, IdentitySource::Password, k)
            && v.identities[k].identity_token == hash
}

/// Whether the account registered under `email` has a password identity.
pub open spec fn has_password(v: StoreView, email: Seq<char>) -> bool {
    exists|i: int, k: int|
        #![trigger v.accounts[i], v.identities[k]]
        account_at(v, email, i) && identity_at(v, v.accounts[i].id, IdentitySource::Password, k)
}

/// The caller-facing form of a stored identity.
pub open spec fn identity_of(e: IdentityEntity) -> Identity {
    Identity { id: e.id, account_id: e.account_id, source: e.provider }
}

/// The caller-facing form of a stored account.
pub open spec fn entity_of(a: Account) -> AccountEntity {
    AccountEntity { id: a.id, email: a.email, given_name: a.given_name, family_name: a.family_name, avatar_url: a.avatar_url }
}

/// Whether a stored refresh token is accepted at time `now`: not revoked, not expired.
pub open spec fn refresh_active(t: RefreshToken, now: i64) -> bool {
    !t.revoked && now < t.expires
}

/// Whether the refresh token at position `i` carries `token` and is accepted at `now`.
pub open spec fn refresh_accepts(v: StoreView, token: Seq<char>, now: i64, i: int) -> bool {
    0 <= i < v.refresh_tokens.len() && v.refresh_tokens[i].token@ == token && refresh_active(v.refresh_tokens[i], now)
}

/// How `revoke_all` changes the refresh tokens: every token of `account_id` not yet
/// revoked becomes revoked at `now`; every other token stays as it was.
pub open spec fn revoked_all(before: Seq<RefreshToken>, after: Seq<RefreshToken>, account_id: EntityId, now: i64) -> bool {
    &&& after.len() == before.len()
    &&& forall|i: int| 0 <= i < before.len() ==> {
        let (b, a) = (#[trigger] before[i], after[i]);
        if b.account_id == account_id && !b.revoked {
            a == (RefreshToken { revoked: true, revocation_time: Some(now), ..b })
        } else {
            a == b
        }
    }
}

/// What registering `reg` does to a store: the error each failing case gets, and on
/// success the one account (and, with a password, the one password identity) added.
pub open spec fn register_outcome(
    before: StoreView,
    after: StoreView,
    reg: AccountRegister,
    password_hash: Result<String, AuthError>,
    uuid: u128,
    now: i64,
    r: Result<Account, AuthError>,
) -> bool {
    &&& has_email(before, reg.email@) ==> r == Err::<Account, AuthError>(AuthError::UserAlreadyExists(reg.email))
    &&& !has_email(before, reg.email@) && reg.password is Some && password_hash is Err
        ==> r == Err::<Account, AuthError>(AuthError::HashingError)
    &&& !has_email(before, reg.email@) && (reg.password is Some ==> password_hash is Ok)
        && !(before.accounts.len() < i32::MAX && before.identities.len() < i32::MAX)
        ==> r == Err::<Account, AuthError>(AuthError::DatabaseError)
    &&& r is Ok <==> {
        &&& !has_email(before, reg.email@)
        &&& (reg.password is Some ==> password_hash is Ok)
        &&& before.accounts.len() < i32::MAX
        &&& before.identities.len() < i32::MAX
    }
    &&& r is Err ==> after == before
    &&& r matches Ok(a) ==> {
        &&& a.id == before.accounts.len() + 1
        &&& a.uuid == uuid
        &&& a.given_name == reg.given_name
        &&& a.family_name@ == Seq::<char>::empty()
        &&& a.email == reg.email
        &&& a.avatar_url is None
        &&& a.created_at == now
        &&& after.accounts == before.accounts.push(a)
        &&& after.identities == if reg.password is Some {
            before.identities.push(IdentityEntity {
                id: (before.identities.len() + 1) as i32,
                account_id: a.id,
                provider: IdentitySource::Password,
                identity_token: password_hash->Ok_0,
            })
        } else {
            before.identities
        }
        &&& after.refresh_tokens == before.refresh_tokens
    }
}

/// What authenticating with `auth` gives, `verified` being the outcome of checking
/// the password against the stored hash: the account exactly when it exists, has a
/// password identity and the check said `Ok(true)`; `InvalidUsernameOrPassword` in
/// every other case.
pub open spec fn authenticate_outcome(
    v: StoreView,
    auth: AccountAuthenticate,
    verified: Result<bool, AuthError>,
    r: Result<AccountEntity, AuthError>,
) -> bool {
    &&& r is Ok <==> has_password(v, auth.email@) && verified == Ok::<bool, AuthError>(true)
    &&& r matches Ok(a) ==> exists|i: int| account_at(v, auth.email@, i) && a == entity_of(#[trigger] v.accounts[i])
    &&& r matches Err(e) ==> e == AuthError::InvalidUsernameOrPassword
}

/// What adding the identity `create` does to a store: the error each failing case
/// gets, and on success the one identity appended.
pub open spec fn add_identity_outcome(before: StoreView, after: StoreView, create: IdentityCreate, r: Result<Identity, AuthError>) -> bool {
    &&& !has_account(before, create.account_id) ==> (r matches Err(AuthError::InvalidRequest(_)))
    &&& has_account(before, create.account_id) && (exists|k: int| identity_at(before, create.account_id, create.source, k))
        ==> r == Err::<Identity, AuthError>(AuthError::IdentityConflict)
    &&& r is Ok <==> {
        &&& has_account(before, create.account_id)
        &&& forall|k: int| !identity_at(before, create.account_id, create.source, k)
        &&& before.identities.len() < i32::MAX
    }
    &&& r is Err ==> after == before
    &&& r matches Ok(i) ==> {
        let e = IdentityEntity {
            id: (before.identities.len() + 1) as i32,
            account_id: create.account_id,
            provider: create.source,
            identity_token: create.credential,
        };
        &&& i == identity_of(e)
        &&& after.identities == before.identities.push(e)
        &&& after.accounts == before.accounts
        &&& after.refresh_tokens == before.refresh_tokens
    }
}

/// The identities of `account_id` among `s`, in order, as shown to callers.
pub open spec fn identities_of(s: Seq<IdentityEntity>, account_id: EntityId) -> Seq<Identity> {
    s.filter(|e: IdentityEntity| e.account_id == account_id).map_values(|e: IdentityEntity| identity_of(e))
}

proof fn lemma_identities_of_push(s: Seq<IdentityEntity>, e: IdentityEntity, account_id: EntityId)
    ensures
        identities_of(s.push(e), account_id) == if e.account_id == account_id {
            identities_of(s, account_id).push(identity_of(e))
        } else {
            identities_of(s, account_id)
        },
{
    reveal(Seq::filter);
    assert(s.push(e).drop_last() =~= s);
    assert(identities_of(s.push(e), account_id) =~= if e.account_id == account_id {
        identities_of(s, account_id).push(identity_of(e))
    } else {
        identities_of(s, account_id)
    });
}

impl AuthStore {
    /// The store's invariant: ids count from one, emails are unique, every identity
    /// and refresh token belongs to a stored account, an account has at most one
    /// identity per provider, and a refresh token carries a revocation time exactly
    /// when it is revoked.
    pub open spec fn wf(&self) -> bool {
        let v = self@;
        &&& v.accounts.len() <= i32::MAX
        &&& v.identities.len() <= i32::MAX
        &&& v.refresh_tokens.len() <= i32::MAX
        &&& forall|i: int| 0 <= i < v.accounts.len() ==> (#[trigger] v.accounts[i]).id == i + 1
        &&& forall|i: int, j: int|
            0 <= i < v.accounts.len() && 0 <= j < v.accounts.len() && i != j
                ==> (#[trigger] v.accounts[i]).email@ != (#[trigger] v.accounts[j]).email@
        &&& forall|k: int| 0 <= k < v.identities.len() ==> {
            &&& (#[trigger] v.identities[k]).id == k + 1
            &&& has_account(v, v.identities[k].account_id)
        }
        &&& forall|k: int, l: int|
            0 <= k < v.identities.len() && 0 <= l < v.identities.len() && k != l
                && (#[trigger] v.identities[k]).account_id == (#[trigger] v.identities[l]).account_id
                ==> v.identities[k].provider != v.identities[l].provider
        &&& forall|t: int| 0 <= t < v.refresh_tokens.len() ==> {
            &&& (#[trigger] v.refresh_tokens[t]).id == t + 1
            &&& has_account(v, v.refresh_tokens[t].account_id)
            &&& v.refresh_tokens[t].revoked <==> v.refresh_tokens[t].revocation_time is Some
        }
    }

    /// An empty store.
    pub fn new() -> (r: AuthStore)
        ensures
            r.wf(),
            r@.accounts.len() == 0,
            r@.identities.len() == 0,
            r@.refresh_tokens.len() == 0,
    {
        AuthStore { accounts: Vec::new(), identities: Vec::new(), refresh_tokens: Vec::new() }
    }

    /// Number of stored accounts.
    pub fn account_count(&self) -> (r: usize)
        ensures
            r == self@.accounts.len(),
    {
        self.accounts.len()
    }

    /// Number of stored identities.
    pub fn identity_count(&self) -> (r: usize)
        ensures
            r == self@.identities.len(),
    {
        self.identities.len()
    }

    /// Number of stored refresh tokens, revoked ones included.
    pub fn refresh_token_count(&self) -> (r: usize)
        ensures
            r == self@.refresh_tokens.len(),
    {
        self.refresh_tokens.len()
    }

    /// The position of the account registered under `email`, if any.
    pub fn find_account_by_email(&self, email: &String) -> (r: Option<usize>)
        ensures
            r matches Some(i) ==> account_at(self@, email@, i as int),
            r is None <==> !has_email(self@, email@),
    {
        let mut i: usize = 0;
        while i < self.accounts.len()
            invariant
                i <= self.accounts@.len(),
                forall|j: int| 0 <= j < i ==> !account_at(self@, email@, j),
            decreases self.accounts@.len() - i,
        {
            if self.accounts[i].email == *email {
                assert(account_at(self@, email@, i as int));
                return Some(i);
            }
            i = i + 1;
        }
        None
    }

    /// The stored account at position `i`, as shown to callers.
    pub fn account(&self, i: usize) -> (r: AccountEntity)
        requires
            i < self@.accounts.len(),
        ensures
            r == entity_of(self@.accounts[i as int]),
    {
        self.accounts[i].entity()
    }

    /// Registers a new account, and with a password its password identity, in one
    /// step: either both are stored or neither.
    ///
    /// `password_hash` is the outcome of hashing `reg.password`; it is looked at only
    /// when a password was given. The account gets the next account id, the given
    /// name and email of `reg`, an empty family name and no avatar.
    pub fn register_new_account(
        &mut self,
        reg: &AccountRegister,
        password_hash: Result<String, AuthError>,
        uuid: u128,
        now: i64,
    ) -> (r: Result<Account, AuthError>)
        requires
            old(self).wf(),
        ensures
            final(self).wf(),
            register_outcome(old(self)@, final(self)@, *reg, password_hash, uuid, now, r),
    {
        if let Some(_) = self.find_account_by_email(&reg.email) {
            return Err(AuthError::UserAlreadyExists(reg.email.clone()));
        }
        let hash: Option<String> = match (&reg.password, password_hash) {
            (Some(_), Ok(h)) => Some(h),
            (Some(_), Err(_)) => {
                return Err(AuthError::HashingError);
            },
            (None, _) => None,
        };
        if self.accounts.len() >= i32::MAX as usize || self.identities.len() >= i32::MAX as usize {
            return Err(AuthError::DatabaseError);
        }
        let id = (self.accounts.len() + 1) as i32;
        let account = Account {
            id,
            uuid,
            given_name: reg.given_name.clone(),
            family_name: String::new(),
            email: reg.email.clone(),
            avatar_url: None,
            created_at: now,
        };
        let ghost old_view = self@;
        self.accounts.push(account.clone_account());
        if let Some(h) = hash {
            let identity = IdentityEntity {
                id: (self.identities.len() + 1) as i32,
                account_id: id,
                provider: IdentitySource::Password,
                identity_token: h,
            };
            self.identities.push(identity);
        }
        proof {
            let v = self@;
            assert forall|i: int, j: int|
                0 <= i < v.accounts.len() && 0 <= j < v.accounts.len() && i != j
                    implies (#[trigger] v.accounts[i]).email@ != (#[trigger] v.accounts[j]).email@ by {
                if i == old_view.accounts.len() {
                    assert(!account_at(old_view, reg.email@, j));
                } else if j == old_view.accounts.len() {
                    assert(!account_at(old_view, reg.email@, i));
                }
            }
        }
        Ok(account)
    }

    /// The position of the identity of `account_id` with `source`, if any.
    pub fn find_identity(&self, account_id: EntityId, source: IdentitySource) -> (r: Option<usize>)
        ensures
            r matches Some(k) ==> identity_at(self@, account_id, source, k as int),
            r is None ==> forall|k: int| !identity_at(self@, account_id, source, k),
    {
        let mut k: usize = 0;
        while k < self.identities.len()
            invariant
                k <= self.identities@.len(),
                forall|l: int| 0 <= l < k ==> !identity_at(self@, account_id, source, l),
            decreases self.identities@.len() - k,
        {
            if self.identities[k].account_id == account_id && self.identities[k].provider == source {
                return Some(k);
            }
            k = k + 1;
        }
        None
    }

    /// The stored password hash of the account registered under `email`; `None` when
    /// there is no such account or it has no password identity.
    pub fn password_hash_for(&self, email: &String) -> (r: Option<String>)
        requires
            self.wf(),
        ensures
            r is Some <==> has_password(self@, email@),
            r matches Some(h) ==> password_hash_of(self@, email@, h),
    {
        match self.find_account_by_email(email) {
            None => None,
            Some(i) => {
                match self.find_identity(self.accounts[i].id, IdentitySource::Password) {
                    None => {
                        proof {
                            assert forall|a: int, k: int|
                                #![trigger self@.accounts[a], self@.identities[k]]
                                !(account_at(self@, email@, a)
                                    && identity_at(self@, self@.accounts[a].id, IdentitySource::Password, k)) by {
                                if account_at(self@, email@, a) && a != i {
                                    assert(self@.accounts[a].email@ != self@.accounts[i as int].email@);
                                }
                            }
                        }
                        None
                    },
                    Some(k) => {
                        let h = self.identities[k].identity_token.clone();
                        assert(password_hash_of(self@, email@, h));
                        Some(h)
                    },
                }
            },
        }
    }

    /// Authenticates the account registered under `auth.email`.
    ///
    /// `verified` is the outcome of checking `auth.password` against the hash that
    /// `password_hash_for` gives for that email. The account comes back exactly when
    /// it exists, has a password identity, and the check said `Ok(true)`; every other
    /// case is `InvalidUsernameOrPassword`, whatever its cause.
    pub fn authenticate_account(&self, auth: &AccountAuthenticate, verified: Result<bool, AuthError>) -> (r: Result<AccountEntity, AuthError>)
        requires
            self.wf(),
        ensures
            authenticate_outcome(self@, *auth, verified, r),
            r matches Ok(a) ==> has_account(self@, a.id),
    {
        let hash = self.password_hash_for(&auth.email);
        if hash.is_none() {
            return Err(AuthError::InvalidUsernameOrPassword);
        }
        match verified {
            Ok(true) => {
                match self.find_account_by_email(&auth.email) {
                    Some(i) => Ok(self.account(i)),
                    None => Err(AuthError::InvalidUsernameOrPassword),
                }
            },
            _ => Err(AuthError::InvalidUsernameOrPassword),
        }
    }

    /// Binds a further authentication method to an existing account.
    ///
    /// Fails with `InvalidRequest` when the account does not exist, with
    /// `IdentityConflict` when it already has an identity with this source, and with
    /// `DatabaseError` when the identity table is full.
    pub fn add_identity(&mut self, create: &IdentityCreate) -> (r: Result<Identity, AuthError>)
        requires
            old(self).wf(),
        ensures
            final(self).wf(),
            add_identity_outcome(old(self)@, final(self)@, *create, r),
    {
        if create.account_id < 1 || create.account_id as usize > self.accounts.len() {
            return Err(AuthError::InvalidRequest(String::from_str("unknown account")));
        }
        if let Some(_) = self.find_identity(create.account_id, create.source) {
            return Err(AuthError::IdentityConflict);
        }
        if self.identities.len() >= i32::MAX as usize {
            return Err(AuthError::DatabaseError);
        }
        let e = IdentityEntity {
            id: (self.identities.len() + 1) as i32,
            account_id: create.account_id,
            provider: create.source,
            identity_token: create.credential.clone(),
        };
        let identity = e.identity();
        let ghost old_view = self@;
        self.identities.push(e);
        proof {
            let v = self@;
            assert forall|k: int, l: int|
                0 <= k < v.identities.len() && 0 <= l < v.identities.len() && k != l
                    && (#[trigger] v.identities[k]).account_id == (#[trigger] v.identities[l]).account_id
                    implies v.identities[k].provider != v.identities[l].provider by {
                if k == old_view.identities.len() {
                    assert(!identity_at(old_view, create.account_id, create.source, l));
                } else if l == old_view.identities.len() {
                    assert(!identity_at(old_view, create.account_id, create.source, k));
                }
            }
        }
        Ok(identity)
    }

    /// Binds a further authentication method to an existing account, preparing its
    /// credential material first: for a password, the outcome of hashing it
    /// (`password_hash`, a failure of which is `HashingError` and stores nothing);
    /// for another provider, its token as given.
    pub fn add_identity_provider(
        &mut self,
        account_id: EntityId,
        provider: IdentityProvider,
        token: &String,
        password_hash: Result<String, AuthError>,
    ) -> (r: Result<Identity, AuthError>)
        requires
            old(self).wf(),
        ensures
            final(self).wf(),
            provider == IdentitySource::Password && password_hash is Err
                ==> r == Err::<Identity, AuthError>(AuthError::HashingError) && final(self)@ == old(self)@,
            provider == IdentitySource::Password && password_hash is Ok ==> add_identity_outcome(
                old(self)@,
                final(self)@,
                IdentityCreate { account_id, source: provider, credential: password_hash->Ok_0 },
                r,
            ),
            provider != IdentitySource::Password ==> add_identity_outcome(
                old(self)@,
                final(self)@,
                IdentityCreate { account_id, source: provider, credential: *token },
                r,
            ),
    {
        let credential = match provider {
            IdentitySource::Password => match password_hash {
                Ok(h) => h,
                Err(_) => {
                    return Err(AuthError::HashingError);
                },
            },
            _ => token.clone(),
        };
        self.add_identity(&IdentityCreate { account_id, source: provider, credential })
    }

    /// Every identity of `account_id`, in the order they were added, without their
    /// credential material.
    pub fn get_identities_for_account(&self, account_id: EntityId) -> (r: Vec<Identity>)
        ensures
            r@ == identities_of(self@.identities, account_id),
    {
        let mut r: Vec<Identity> = Vec::new();
        let mut k: usize = 0;
        while k < self.identities.len()
            invariant
                k <= self.identities@.len(),
                r@ == identities_of(self.identities@.subrange(0, k as int), account_id),
            decreases self.identities@.len() - k,
        {
            let ghost before = self.identities@.subrange(0, k as int);
            if self.identities[k].account_id == account_id {
                r.push(self.identities[k].identity());
            }
            proof {
                let next = self.identities@.subrange(0, k + 1);
                assert(next =~= before.push(self.identities@[k as int]));
                lemma_identities_of_push(before, self.identities@[k as int], account_id);
            }
            k = k + 1;
        }
        assert(self.identities@.subrange(0, k as int) =~= self.identities@);
        r
    }

    /// Stores a new, unrevoked refresh token.
    ///
    /// Fails with `DatabaseError`, storing nothing, when the owning account does not
    /// exist or the refresh-token table is full.
    pub fn insert_refresh_token(&mut self, create: RefreshTokenCreate) -> (r: Result<RefreshToken, AuthError>)
        requires
            old(self).wf(),
        ensures
            final(self).wf(),
            r is Ok <==> has_account(old(self)@, create.account_id) && old(self)@.refresh_tokens.len() < i32::MAX,
            r matches Err(e) ==> e == AuthError::DatabaseError && final(self)@ == old(self)@,
            r matches Ok(t) ==> {
                &&& t == (RefreshToken {
                    id: (old(self)@.refresh_tokens.len() + 1) as i32,
                    account_id: create.account_id,
                    issued_at: create.issued_at,
                    expires: create.expires,
                    revoked: false,
                    revocation_time: None,
                    token: create.token,
                })
                &&& final(self)@.refresh_tokens == old(self)@.refresh_tokens.push(t)
                &&& final(self)@.accounts == old(self)@.accounts
                &&& final(self)@.identities == old(self)@.identities
            },
    {
        if create.account_id < 1 || create.account_id as usize > self.accounts.len()
            || self.refresh_tokens.len() >= i32::MAX as usize {
            return Err(AuthError::DatabaseError);
        }
        let t = RefreshToken {
            id: (self.refresh_tokens.len() + 1) as i32,
            account_id: create.account_id,
            issued_at: create.issued_at,
            expires: create.expires,
            revoked: false,
            revocation_time: None,
            token: create.token,
        };
        self.refresh_tokens.push(t.clone_token());
        Ok(t)
    }

    /// Issues a new refresh token for `account_id` at time `now`: a fresh random
    /// value, valid for seven days. It is stored exactly when the account exists, the
    /// table has room and the expiry fits in an `i64`; otherwise `DatabaseError`,
    /// storing nothing.
    pub fn issue_refresh_token_at(&mut self, account_id: EntityId, now: i64) -> (r: Result<RefreshToken, AuthError>)
        requires
            old(self).wf(),
        ensures
            final(self).wf(),
            r is Ok <==> {
                &&& has_account(old(self)@, account_id)
                &&& old(self)@.refresh_tokens.len() < i32::MAX
                &&& now <= i64::MAX - crate::model::TOKEN_EXPIRY_SECONDS
            },
            r matches Err(e) ==> e == AuthError::DatabaseError && final(self)@ == old(self)@,
            r matches Ok(t) ==> {
                &&& t.id == old(self)@.refresh_tokens.len() + 1
                &&& t.account_id == account_id
                &&& t.issued_at == now
                &&& t.expires == now + crate::model::TOKEN_EXPIRY_SECONDS
                &&& !t.revoked && t.revocation_time is None
                &&& crate::model::is_token_text(t.token@)
                &&& final(self)@.refresh_tokens == old(self)@.refresh_tokens.push(t)
                &&& final(self)@.accounts == old(self)@.accounts
                &&& final(self)@.identities == old(self)@.identities
            },
    {
        if now > i64::MAX - crate::model::TOKEN_EXPIRY_SECONDS {
            return Err(AuthError::DatabaseError);
        }
        let token = RefreshToken::generate();
        self.insert_refresh_token(RefreshTokenCreate::new(account_id, now, token))
    }

    /// Issues a new refresh token for `account_id`: a fresh random value, issued now
    /// and valid for seven days.
    pub fn issue_refresh_token(&mut self, account_id: EntityId) -> (r: Result<RefreshToken, AuthError>)
        requires
            old(self).wf(),
        ensures
            final(self).wf(),
            !has_account(old(self)@, account_id) ==> r is Err,
            r matches Err(e) ==> e == AuthError::DatabaseError && final(self)@ == old(self)@,
            r matches Ok(t) ==> {
                &&& t.id == old(self)@.refresh_tokens.len() + 1
                &&& t.account_id == account_id
                &&& t.expires == t.issued_at + crate::model::TOKEN_EXPIRY_SECONDS
                &&& !t.revoked && t.revocation_time is None
                &&& crate::model::is_token_text(t.token@)
                &&& final(self)@.refresh_tokens == old(self)@.refresh_tokens.push(t)
                &&& final(self)@.accounts == old(self)@.accounts
                &&& final(self)@.identities == old(self)@.identities
            },
    {
        let now = crate::token::now_timestamp();
        self.issue_refresh_token_at(account_id, now)
    }

    /// Revokes, at time `now`, every refresh token of `account_id` that is not revoked
    /// yet. Tokens already revoked keep their revocation time, so a second call
    /// changes nothing.
    pub fn revoke_all_tokens_for_account_at(&mut self, account_id: EntityId, now: i64)
        requires
            old(self).wf(),
        ensures
            final(self).wf(),
            final(self)@.accounts == old(self)@.accounts,
            final(self)@.identities == old(self)@.identities,
            revoked_all(old(self)@.refresh_tokens, final(self)@.refresh_tokens, account_id, now),
    {
        let ghost before = self.refresh_tokens@;
        let mut i: usize = 0;
        while i < self.refresh_tokens.len()
            invariant
                self.wf(),
                i <= self.refresh_tokens@.len(),
                self.refresh_tokens@.len() == before.len(),
                self.accounts@ == old(self).accounts@,
                self.identities@ == old(self).identities@,
                forall|j: int| i <= j < before.len() ==> self.refresh_tokens@[j] == before[j],
                forall|j: int| 0 <= j < i ==> {
                    let (b, a) = (#[trigger] before[j], self.refresh_tokens@[j]);
                    if b.account_id == account_id && !b.revoked {
                        a == (RefreshToken { revoked: true, revocation_time: Some(now), ..b })
                    } else {
                        a == b
                    }
                },
            decreases before.len() - i,
        {
            if self.refresh_tokens[i].account_id == account_id && !self.refresh_tokens[i].revoked {
                let mut t = self.refresh_tokens[i].clone_token();
                t.revoked = true;
                t.revocation_time = Some(now);
                self.refresh_tokens.set(i, t);
            }
            i = i + 1;
        }
    }

    /// Revokes now every refresh token of `account_id` that is not revoked yet.
    pub fn revoke_all_tokens_for_account(&mut self, account_id: EntityId)
        requires
            old(self).wf(),
        ensures
            final(self).wf(),
            final(self)@.accounts == old(self)@.accounts,
            final(self)@.identities == old(self)@.identities,
            exists|now: i64| revoked_all(old(self)@.refresh_tokens, final(self)@.refresh_tokens, account_id, now),
    {
        let now = crate::token::now_timestamp();
        self.revoke_all_tokens_for_account_at(account_id, now);
    }

    /// Looks up a presented refresh token at time `now`: the first stored record that
    /// carries this value and is neither revoked nor expired.
    pub fn validate_refresh_token_at(&self, token: &String, now: i64) -> (r: Result<RefreshToken, AuthError>)
        ensures
            r is Ok <==> exists|i: int| refresh_accepts(self@, token@, now, i),
            r matches Ok(t) ==> exists|i: int| refresh_accepts(self@, token@, now, i) && t == #[trigger] self@.refresh_tokens[i],
            r matches Err(e) ==> e == AuthError::InvalidToken,
    {
        let mut i: usize = 0;
        while i < self.refresh_tokens.len()
            invariant
                i <= self.refresh_tokens@.len(),
                forall|j: int| 0 <= j < i ==> !refresh_accepts(self@, token@, now, j),
            decreases self.refresh_tokens@.len() - i,
        {
            let t = &self.refresh_tokens[i];
            if t.token == *token && !t.revoked && now < t.expires {
                assert(refresh_accepts(self@, token@, now, i as int));
                return Ok(t.clone_token());
            }
            i = i + 1;
        }
        Err(AuthError::InvalidToken)
    }

    /// Looks up a presented refresh token now.
    pub fn validate_refresh_token(&self, token: &String) -> (r: Result<RefreshToken, AuthError>)
        ensures
            (forall|now: i64, i: int| !refresh_accepts(self@, token@, now, i)) ==> r is Err,
            r matches Ok(t) ==> exists|now: i64, i: int|
                #[trigger] refresh_accepts(self@, token@, now, i) && t == self@.refresh_tokens[i],
            r matches Err(e) ==> e == AuthError::InvalidToken,
    {
        let now = crate::token::now_timestamp();
        self.validate_refresh_token_at(token, now)
    }
}

/// Registering an email a second time fails with `UserAlreadyExists` and leaves the
/// store as the first registration left it: one account more than before the
/// first call, the only one under that email, and one identity more when a
/// password was given.
pub proof fn lemma_duplicate_registration_rejected(
    s0: AuthStore,
    s1: StoreView,
    s2: StoreView,
    first: AccountRegister,
    hash1: Result<String, AuthError>,
    uuid1: u128,
    now1: i64,
    a: Account,
    second: AccountRegister,
    hash2: Result<String, AuthError>,
    uuid2: u128,
    now2: i64,
    r2: Result<Account, AuthError>,
)
    requires
        s0.wf(),
        register_outcome(s0@, s1, first, hash1, uuid1, now1, Ok(a)),
        second.email@ == first.email@,
        register_outcome(s1, s2, second, hash2, uuid2, now2, r2),
    ensures
        r2 == Err::<Account, AuthError>(AuthError::UserAlreadyExists(second.email)),
        s2 == s1,
        s2.accounts.len() == s0@.accounts.len() + 1,
        s2.identities.len() == s0@.identities.len() + if first.password is Some { 1int } else { 0 },
        forall|i: int| account_at(s2, first.email@, i) <==> i == s0@.accounts.len(),
{
    assert(account_at(s1, first.email@, s0@.accounts.len() as int));
    assert forall|i: int| account_at(s2, first.email@, i) implies i == s0@.accounts.len() by {
        if i < s0@.accounts.len() {
            assert(!account_at(s0@, first.email@, i));
            assert(s0@.accounts[i] == s2.accounts[i]);
        }
    }
}

/// A wrong password for a registered email and any password for an unregistered
/// email give the same error.
pub proof fn lemma_failed_logins_indistinguishable(
    s: StoreView,
    known: AccountAuthenticate,
    r1: Result<AccountEntity, AuthError>,
    unknown: AccountAuthenticate,
    verified2: Result<bool, AuthError>,
    r2: Result<AccountEntity, AuthError>,
)
    requires
        has_email(s, known.email@),
        authenticate_outcome(s, known, Ok(false), r1),
        !has_email(s, unknown.email@),
        authenticate_outcome(s, unknown, verified2, r2),
    ensures
        r1 == Err::<AccountEntity, AuthError>(AuthError::InvalidUsernameOrPassword),
        r2 == r1,
{
}

/// After `revoke_all` for an account, no token that account held before is
/// accepted at any time, whatever its expiry; the tokens of other accounts are
/// unchanged.
pub proof fn lemma_revoked_tokens_rejected(
    before: StoreView,
    after: StoreView,
    account_id: EntityId,
    when: i64,
    token: Seq<char>,
    now: i64,
)
    requires
        revoked_all(before.refresh_tokens, after.refresh_tokens, account_id, when),
    ensures
        forall|i: int|
            0 <= i < before.refresh_tokens.len() && (#[trigger] before.refresh_tokens[i]).account_id == account_id
                ==> !refresh_accepts(after, token, now, i),
        forall|i: int|
            0 <= i < before.refresh_tokens.len() && (#[trigger] before.refresh_tokens[i]).account_id != account_id
                ==> after.refresh_tokens[i] == before.refresh_tokens[i],
        forall|i: int| refresh_accepts(after, token, now, i) ==> (#[trigger] after.refresh_tokens[i]).account_id != account_id,
{
    assert forall|i: int| refresh_accepts(after, token, now, i) implies (#[trigger] after.refresh_tokens[i]).account_id != account_id by {
        let b = before.refresh_tokens[i];
        if b.account_id == account_id && !b.revoked {
        }
    }
}

/// Revoking twice is the same as revoking once: the second call changes nothing.
pub proof fn lemma_revoke_all_idempotent(
    s0: Seq<RefreshToken>,
    s1: Seq<RefreshToken>,
    s2: Seq<RefreshToken>,
    account_id: EntityId,
    first: i64,
    second: i64,
)
    requires
        revoked_all(s0, s1, account_id, first),
        revoked_all(s1, s2, account_id, second),
    ensures
        s2 == s1,
{
    assert forall|i: int| 0 <= i < s1.len() implies s2[i] == s1[i] by {
        let (b, m) = (s0[i], s1[i]);
        if b.account_id == account_id && !b.revoked {
            assert(m.revoked);
        }
    }
    assert(s2 =~= s1);
}

} // verus!
