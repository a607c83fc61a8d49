//! Request authentication, role checks, and the log level of a finished request.
use vstd::prelude::*;
use crate::error::{ErrorMessage, HttpError};
use crate::handlers::{secret_bytes, AppState};
use crate::session::{validate, validate_spec};
use crate::store::index_of_id;
use crate::user::{User, UserRole};

verus! {

/// The identity that authentication attaches to a request.
#[derive(Debug)]
pub struct JWTAuthMiddeware {
    pub user: User,
}

/// Why a request could not be authenticated; each is reported as 401.
#[derive(Debug, Clone, Copy, PartialEq, Eq, Structural)]
pub enum AuthFailure {
    TokenNotProvided,
    InvalidToken,
    UserNoLongerExist,
}

impl AuthFailure {
    /// The message reported for this failure.
    pub open spec fn message(self) -> ErrorMessage {
        match self {
            AuthFailure::TokenNotProvided => ErrorMessage::TokenNotProvided,
            AuthFailure::InvalidToken => ErrorMessage::InvalidToken,
            AuthFailure::UserNoLongerExist => ErrorMessage::UserNoLongerExist,
        }
    }

    pub fn into_http_error(self) -> (r: HttpError)
        ensures
            r.status == 401,
            r.message@ == self.message().text(),
    {
        let m = match self {
            AuthFailure::TokenNotProvided => ErrorMessage::TokenNotProvided,
            AuthFailure::InvalidToken => ErrorMessage::InvalidToken,
            AuthFailure::UserNoLongerExist => ErrorMessage::UserNoLongerExist,
        };
        HttpError::unauthorized(m.to_string())
    }
}

/// `Bearer ` in ASCII.
pub open spec fn bearer_prefix() -> Seq<u8> {
    seq![66u8, 101u8, 97u8, 114u8, 101u8, 114u8, 32u8]
}

pub open spec fn opt_bytes(o: Option<&[u8]>) -> Option<Seq<u8>> {
    match o {
        Some(b) => Some(b@),
        None => None,
    }
}

/// The presented token: the `token` cookie if there is one, else what follows
/// `Bearer ` in the `Authorization` header.
pub open spec fn extract_token_spec(cookie: Option<Seq<u8>>, authorization: Option<Seq<u8>>) -> Option<
    Seq<u8>,
> {
    match cookie {
        Some(c) => Some(c),
        None => match authorization {
            Some(h) => if h.len() >= 7 && h.subrange(0, 7) == bearer_prefix() {
                Some(h.subrange(7, h.len() as int))
            } else {
                None
            },
            None => None,
        },
    }
}

fn copy_from(s: &[u8], start: usize) -> (r: Vec<u8>)
    requires
        start <= s@.len(),
    ensures
        r@ == s@.subrange(start as int, s@.len() as int),
{
    let mut out: Vec<u8> = Vec::new();
    let mut i: usize = start;
    while i < s.len()
        invariant
            start <= i <= s@.len(),
            out@ == s@.subrange(start as int, i as int),
        decreases s@.len() - i,
    {
        out.push(s[i]);
        i = i + 1;
        assert(out@ =~= s@.subrange(start as int, i as int));
    }
    out
}

pub fn extract_token(cookie: Option<&[u8]>, authorization: Option<&[u8]>) -> (r: Option<Vec<u8>>)
    ensures
        match r {
            Some(v) => extract_token_spec(opt_bytes(cookie), opt_bytes(authorization)) == Some(v@),
            None => extract_token_spec(opt_bytes(cookie), opt_bytes(authorization)) is None,
        },
{
    match cookie {
        Some(c) => {
            let v = copy_from(c, 0);
            assert(c@.subrange(0, c@.len() as int) =~= c@);
            Some(v)
        },
        None => match authorization {
            Some(h) => {
                if h.len() >= 7 && h[0] == 66 && h[1] == 101 && h[2] == 97 && h[3] == 114 && h[4]
                    == 101 && h[5] == 114 && h[6] == 32 {
                    assert(h@.subrange(0, 7) =~= bearer_prefix());
                    Some(copy_from(h, 7))
                } else {
                    proof {
                        if h@.len() >= 7 && h@.subrange(0, 7) == bearer_prefix() {
                            assert(h@[0] == h@.subrange(0, 7)[0]);
                            assert(h@[1] == h@.subrange(0, 7)[1]);
                            assert(h@[2] == h@.subrange(0, 7)[2]);
                            assert(h@[3] == h@.subrange(0, 7)[3]);
                            assert(h@[4] == h@.subrange(0, 7)[4]);
                            assert(h@[5] == h@.subrange(0, 7)[5]);
                            assert(h@[6] == h@.subrange(0, 7)[6]);
                        }
                    }
                    None
                }
            },
            None => None,
        },
    }
}

/// Resolves the request's token to a user: token extracted, signature and
/// expiry checked at `now`, user still present.
pub fn authenticate(
    state: &AppState,
    cookie: Option<&[u8]>,
    authorization: Option<&[u8]>,
    now: u64,
) -> (r: Result<JWTAuthMiddeware, AuthFailure>)
    requires
        state.db_client.wf(),
    ensures
        match extract_token_spec(opt_bytes(cookie), opt_bytes(authorization)) {
            None => r == Err::<JWTAuthMiddeware, AuthFailure>(AuthFailure::TokenNotProvided),
            Some(t) => match validate_spec(t, secret_bytes(state.env), now) {
                Err(_) => r == Err::<JWTAuthMiddeware, AuthFailure>(AuthFailure::InvalidToken),
                Ok(id) => match index_of_id(state.db_client@, id) {
                    None => r == Err::<JWTAuthMiddeware, AuthFailure>(
                        AuthFailure::UserNoLongerExist,
                    ),
                    Some(i) => r matches Ok(a) && a.user == state.db_client@[i],
                },
            },
        },
{
    let token = match extract_token(cookie, authorization) {
        Some(t) => t,
        None => {
            return Err(AuthFailure::TokenNotProvided);
        },
    };
    let id = match validate(token.as_slice(), state.env.jwt_secret.as_str().as_bytes(), now) {
        Ok(id) => id,
        Err(_) => {
            return Err(AuthFailure::InvalidToken);
        },
    };
    match state.db_client.find_by_id(id) {
        Some(u) => Ok(JWTAuthMiddeware { user: u.duplicate() }),
        None => Err(AuthFailure::UserNoLongerExist),
    }
}

/// Allows the request only if the authenticated user's role is one of
/// `required_roles`; otherwise 403.
pub fn role_check(required_roles: &Vec<UserRole>, identity: &JWTAuthMiddeware) -> (r: Result<
    (),
    HttpError,
>)
    ensures
        r is Ok <==> required_roles@.contains(identity.user.role),
        r matches Err(e) ==> e.status == 403 && e.message@ == ErrorMessage::PermissionDenied.text(),
{
    let mut i: usize = 0;
    while i < required_roles.len()
        invariant
            i <= required_roles@.len(),
            forall|k: int| 0 <= k < i ==> required_roles@[k] != identity.user.role,
        decreases required_roles@.len() - i,
    {
        if required_roles[i] == identity.user.role {
            return Ok(());
        }
        i = i + 1;
    }
    Err(HttpError::forbidden(ErrorMessage::PermissionDenied.to_string()))
}

/// How a finished request is logged.
#[derive(Debug, Clone, Copy, PartialEq, Eq, Structural)]
pub enum LogLevel {
    Info,
    Warn,
    Error,
}

/// Success statuses log as info, client errors as warnings, the rest as errors.
pub fn log_level(status: u16) -> (r: LogLevel)
    ensures
        r == (if 200 <= status <= 299 {
            LogLevel::Info
        } else if 400 <= status <= 499 {
            LogLevel::Warn
        } else {
            LogLevel::Error
        }),
{
    if 200 <= status && status <= 299 {
        LogLevel::Info
    } else if 400 <= status && status <= 499 {
        LogLevel::Warn
    } else {
        LogLevel::Error
    }
}

} // verus!
