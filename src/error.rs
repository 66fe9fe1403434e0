use vstd::prelude::*;

verus! {

/// The ways an authentication operation can fail.
///
/// Callers see one kind per failure class: every reason an authentication attempt
/// can fail is folded into `InvalidUsernameOrPassword`, and every reason an access
/// token is refused into `InvalidToken`.
#[derive(Debug, Clone)]
#[non_exhaustive]
pub enum AuthError {
    /// The request was invalid or malformed.
    InvalidRequest(String),
    /// The email and password did not match an account (or the account is unknown).
    InvalidUsernameOrPassword,
    /// A registration used an email that is already bound to an account.
    UserAlreadyExists(String),
    /// The store could not complete the operation; nothing was written.
    DatabaseError,
    /// An access token could not be produced, or was refused on validation.
    InvalidToken,
    /// The password hashing primitive could not complete.
    HashingError,
    /// An identity for the same account and provider already exists.
    IdentityConflict,
}

/// The description of each error kind.
pub open spec fn message_of(e: AuthError) -> Seq<char> {
    match e {
        AuthError::InvalidRequest(_) => "the request was invalid"@,
        AuthError::InvalidUsernameOrPassword => "invalid username or password"@,
        AuthError::UserAlreadyExists(_) => "a user with this email already exists"@,
        AuthError::DatabaseError => "database error"@,
        AuthError::InvalidToken => "invalid token"@,
        AuthError::HashingError => "hashing error"@,
        AuthError::IdentityConflict => "identity already exists"@,
    }
}

impl AuthError {
    /// A short human readable description of the error.
    pub fn message(&self) -> (r: String)
        ensures
            r@ == message_of(*self),
    {
        let text = match self {
            AuthError::InvalidRequest(_) => "the request was invalid",
            AuthError::InvalidUsernameOrPassword => "invalid username or password",
            AuthError::UserAlreadyExists(_) => "a user with this email already exists",
            AuthError::DatabaseError => "database error",
            AuthError::InvalidToken => "invalid token",
            AuthError::HashingError => "hashing error",
            AuthError::IdentityConflict => "identity already exists",
        };
        String::from_str(text)
    }
}

} // verus!
