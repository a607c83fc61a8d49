//! The user record and its closed set of roles.
use vstd::prelude::*;

verus! {

/// A user's role: a closed set, checked exhaustively.
#[derive(Debug, Clone, Copy, PartialEq, Eq, Structural)]
pub enum UserRole {
    Admin,
    User,
}

impl UserRole {
    pub open spec fn name(self) -> Seq<char> {
        match self {
            UserRole::Admin => "admin"@,
            UserRole::User => "user"@,
        }
    }

    /// The role's name as stored and shown.
    pub fn to_str(&self) -> (r: &'static str)
        ensures
            r@ == self.name(),
    {
        match self {
            UserRole::Admin => "admin",
            UserRole::User => "user",
        }
    }
}

/// A stored user. Times are Unix seconds; `password` is the digest that the
/// credential module produced, never the plaintext.
#[derive(Debug, Clone)]
pub struct User {
    pub id: u128,
    pub name: String,
    pub email: String,
    pub password: String,
    pub role: UserRole,
    pub verified: bool,
    pub verification_token: Option<String>,
    pub token_expires_at: Option<u64>,
    pub created_at: u64,
    pub updated_at: u64,
}

impl User {
    /// A field-by-field copy.
    pub fn duplicate(&self) -> (r: User)
        ensures
            r == *self,
    {
        User {
            id: self.id,
            name: self.name.clone(),
            email: self.email.clone(),
            password: self.password.clone(),
            role: self.role,
            verified: self.verified,
            verification_token: match &self.verification_token {
                Some(t) => Some(t.clone()),
                None => None,
            },
            token_expires_at: self.token_expires_at,
            created_at: self.created_at,
            updated_at: self.updated_at,
        }
    }
}

/// Whether `u`'s active one-time token is `t`.
pub open spec fn holds_token(u: User, t: Seq<char>) -> bool {
    match u.verification_token {
        Some(x) => x@ == t,
        None => false,
    }
}

/// Whether `u` holds `t` and it has not expired at `now`.
pub open spec fn holds_live_token(u: User, t: Seq<char>, now: u64) -> bool {
    holds_token(u, t) && match u.token_expires_at {
        Some(e) => now <= e,
        None => false,
    }
}

} // verus!
