//! What each endpoint decides: registration, login, email verification,
//! resending the verification email, and password reset.
//!
//! The caller supplies the current time (Unix seconds) and performs the
//! effects that the results describe (mail, cookies, redirects).
use vstd::prelude::*;
use vstd::string::StringExecFns;
use crate::config::Config;
use crate::credential::{compare, compare_spec, hash};
use crate::hex::{hex_width, lemma_hex_round_trip, lemma_pow16_values};
use crate::dtos::{
    required_email_check, FieldRule, valid_email, ForgotPasswordRequestDto, LoginUserDto, RegisterUserDto,
    ResendVerificationDto, ResetPasswordRequestDto, VerifyEmailQueryDto,
};
use crate::error::{fails_with_message, ErrorMessage, HttpError};
use crate::session::{issue, lemma_issue_then_validate, session_token, validate_spec};
use crate::store::{
    consume_spec, index_of_email, index_of_id, index_of_token, lower_of, validate_token_spec, StoreError, TokenAction,
    TokenLookupError, UserStore,
};
use crate::user::{User, UserRole};

verus! {

/// Relies on `uuid::Uuid::new_v4`: 128 bits from the operating system's
/// random source, about which nothing is known.
#[verifier::external_body]
fn random_uuid() -> u128 {
    uuid::Uuid::new_v4().as_u128()
}

/// The 32 lower-case hex digits of `n`, most significant first, as characters.
pub open spec fn hex_text(n: u128) -> Seq<char> {
    hex_width(n as nat, 32).map_values(|b: u8| b as char)
}

/// The hyphenated text form of a UUID: its hex digits in groups of 8, 4, 4, 4
/// and 12, joined by `-`.
pub open spec fn uuid_text_of(n: u128) -> Seq<char> {
    let h = hex_text(n);
    h.subrange(0, 8) + seq!['-'] + h.subrange(8, 12) + seq!['-'] + h.subrange(12, 16) + seq!['-']
        + h.subrange(16, 20) + seq!['-'] + h.subrange(20, 32)
}

proof fn lemma_uuid_text_len(n: u128)
    ensures
        uuid_text_of(n).len() == 36,
{
    lemma_pow16_values();
    lemma_hex_round_trip(n as nat, 32);
}

/// Relies on `uuid::Uuid::from_u128` (big-endian) and the `Display` of
/// `Hyphenated`, which writes lower-case hex digits in groups of 8-4-4-4-12.
#[verifier::external_body]
fn uuid_text(n: u128) -> (r: String)
    ensures
        r@ == uuid_text_of(n),
{
    uuid::Uuid::from_u128(n).hyphenated().to_string()
}

/// How long a verification or reset token lives: 30 minutes.
pub const VERIFICATION_TTL_SECONDS: u64 = 1800;

/// The configuration and the user repository that the handlers share.
pub struct AppState {
    pub env: Config,
    pub db_client: UserStore,
}

pub open spec fn secret_bytes(env: Config) -> Seq<u8> {
    vstd::utf8::encode_utf8(env.jwt_secret@)
}

/// Whether a session issued at `now` can have its expiry written.
pub open spec fn session_ttl_ok(env: Config, now: u64) -> bool {
    0 <= env.jwt_maxage && now + env.jwt_maxage * 60 <= u64::MAX
}

pub open spec fn session_expiry(env: Config, now: u64) -> u64 {
    (now + env.jwt_maxage * 60) as u64
}

fn message(m: ErrorMessage) -> (r: String)
    ensures
        r@ == m.text(),
{
    m.to_string()
}

/// The session token for `subject` issued at `now`.
fn session_for(env: &Config, subject: u128, now: u64) -> (r: Result<Vec<u8>, HttpError>)
    ensures
        r is Ok <==> session_ttl_ok(*env, now),
        r matches Ok(t) ==> t@ == session_token(
            subject,
            secret_bytes(*env),
            now,
            session_expiry(*env, now),
        ),
        r is Err ==> fails_with_message(r, 500, ErrorMessage::ServerError.text()),
{
    if env.jwt_maxage < 0 || (env.jwt_maxage as u64) > (u64::MAX - now) / 60 {
        proof {
            if env.jwt_maxage >= 0 {
                let m = env.jwt_maxage as int;
                assert(now + m * 60 > u64::MAX) by (nonlinear_arith)
                    requires
                        m > (u64::MAX - now) / 60,
                        0 <= now <= u64::MAX,
                ;
            }
        }
        return Err(HttpError::server_error(message(ErrorMessage::ServerError)));
    }
    let ttl = env.jwt_maxage as u64;
    assert(now + ttl * 60 <= u64::MAX) by (nonlinear_arith)
        requires
            ttl <= (u64::MAX - now) / 60,
            0 <= now <= u64::MAX,
    ;
    Ok(issue(subject, env.jwt_secret.as_str().as_bytes(), now, ttl))
}

/// What a successful registration hands back for the verification email.
#[derive(Debug)]
pub struct Registration {
    pub user_id: u128,
    pub token: String,
    pub expires_at: u64,
}

/// `after` is `before` with one new, unverified user registered from `body`
/// at `now`, as `reg` reports it.
pub open spec fn registered(
    before: Seq<User>,
    after: Seq<User>,
    body: RegisterUserDto,
    now: u64,
    reg: Registration,
) -> bool {
    let u = after.last();
    &&& after.len() == before.len() + 1
    &&& after.drop_last() == before
    &&& u.id == reg.user_id
    &&& u.name == body.name
    &&& u.email == body.email
    &&& compare_spec(body.password@, u.password@) == Ok::<bool, crate::credential::CredentialError>(true)
    &&& u.role == UserRole::User
    &&& !u.verified
    &&& u.verification_token == Some(reg.token)
    &&& u.token_expires_at == Some(reg.expires_at)
    &&& reg.expires_at == now + VERIFICATION_TTL_SECONDS
    &&& u.created_at == now
    &&& u.updated_at == now
    &&& reg.token@.len() == 36
}

/// Whether nothing of the library decides against registering `body` at `now`.
pub open spec fn registration_owed(us: Seq<User>, body: RegisterUserDto, now: u64) -> bool {
    &&& body.check() is Ok
    &&& index_of_email(us, lower_of(body.email@)) is None
    &&& now <= u64::MAX - VERIFICATION_TTL_SECONDS
    &&& vstd::utf8::encode_utf8(body.password@).len() <= 0xFFFF_FFFF
}

/// Registers a new, unverified user with the id `id` and the verification
/// token written from `token_number`. No session is issued. It succeeds
/// whenever the body is valid, the email is free, the time and password fit,
/// and no user has this id or token.
pub fn register_with(
    state: &mut AppState,
    body: &RegisterUserDto,
    now: u64,
    id: u128,
    token_number: u128,
) -> (r: Result<Registration, HttpError>)
    requires
        old(state).db_client.wf(),
    ensures
        final(state).db_client.wf(),
        final(state).env == old(state).env,
        r is Err ==> final(state).db_client@ == old(state).db_client@,
        body.check() matches Err(rule) ==> fails_with_message(r, 400, rule.text()),
        body.check() is Ok && index_of_email(old(state).db_client@, lower_of(body.email@)) is Some
            ==> fails_with_message(r, 409, ErrorMessage::EmailExist.text()),
        body.check() is Ok && index_of_email(old(state).db_client@, lower_of(body.email@)) is None
            ==> (r is Ok || fails_with_message(r, 500, ErrorMessage::ServerError.text())),
        body.check() is Ok && index_of_email(old(state).db_client@, lower_of(body.email@)) is None
            && now > u64::MAX - VERIFICATION_TTL_SECONDS ==> fails_with_message(
            r,
            500,
            ErrorMessage::ServerError.text(),
        ),
        r matches Ok(reg) ==> registered(
            old(state).db_client@,
            final(state).db_client@,
            *body,
            now,
            reg,
        ) && reg.user_id == id && reg.token@ == uuid_text_of(token_number),
        registration_owed(old(state).db_client@, *body, now) && index_of_id(
            old(state).db_client@,
            id,
        ) is None && index_of_token(old(state).db_client@, uuid_text_of(token_number)) is None
            ==> r is Ok,
{
    match body.validate() {
        Err(rule) => {
            return Err(HttpError::bad_request(String::from_str(rule.message())));
        },
        Ok(()) => {},
    }
    if state.db_client.find_by_email(body.email.as_str()).is_some() {
        return Err(HttpError::unique_constraint_violation(message(ErrorMessage::EmailExist)));
    }
    if now > u64::MAX - VERIFICATION_TTL_SECONDS {
        return Err(HttpError::server_error(message(ErrorMessage::ServerError)));
    }
    let expires_at = now + VERIFICATION_TTL_SECONDS;
    let digest = match hash(body.password.as_str()) {
        Ok(d) => d,
        Err(_) => {
            return Err(HttpError::server_error(message(ErrorMessage::ServerError)));
        },
    };
    let token = uuid_text(token_number);
    proof {
        lemma_uuid_text_len(token_number);
    }
    let kept = token.clone();
    let ghost before = state.db_client@;
    match state.db_client.create_user(
        id,
        body.name.clone(),
        body.email.clone(),
        digest,
        token,
        expires_at,
        now,
    ) {
        Ok(()) => {
            assert(state.db_client@.drop_last() =~= before);
            Ok(Registration { user_id: id, token: kept, expires_at })
        },
        Err(StoreError::EmailTaken) => Err(
            HttpError::unique_constraint_violation(message(ErrorMessage::EmailExist)),
        ),
        Err(_) => Err(HttpError::server_error(message(ErrorMessage::ServerError))),
    }
}

/// Registers a new, unverified user holding a fresh verification token, with
/// a random id and token. No session is issued. Only a clash of the random
/// values with existing users can make a registration that is owed fail, so
/// on an empty repository it always succeeds.
pub fn register(state: &mut AppState, body: &RegisterUserDto, now: u64) -> (r: Result<
    Registration,
    HttpError,
>)
    requires
        old(state).db_client.wf(),
    ensures
        final(state).db_client.wf(),
        final(state).env == old(state).env,
        r is Err ==> final(state).db_client@ == old(state).db_client@,
        body.check() matches Err(rule) ==> fails_with_message(r, 400, rule.text()),
        body.check() is Ok && index_of_email(old(state).db_client@, lower_of(body.email@)) is Some
            ==> fails_with_message(r, 409, ErrorMessage::EmailExist.text()),
        body.check() is Ok && index_of_email(old(state).db_client@, lower_of(body.email@)) is None
            ==> (r is Ok || fails_with_message(r, 500, ErrorMessage::ServerError.text())),
        body.check() is Ok && index_of_email(old(state).db_client@, lower_of(body.email@)) is None
            && now > u64::MAX - VERIFICATION_TTL_SECONDS ==> fails_with_message(
            r,
            500,
            ErrorMessage::ServerError.text(),
        ),
        r matches Ok(reg) ==> registered(
            old(state).db_client@,
            final(state).db_client@,
            *body,
            now,
            reg,
        ),
        registration_owed(old(state).db_client@, *body, now) && old(state).db_client@.len() == 0
            ==> r is Ok,
{
    let id = random_uuid();
    let token_number = random_uuid();
    register_with(state, body, now, id, token_number)
}

/// Whether the login body names a user whose password it gives.
pub open spec fn login_credentials_ok(us: Seq<User>, body: LoginUserDto) -> bool {
    &&& body.check() is Ok
    &&& index_of_email(us, lower_of(body.email@)) matches Some(i) && compare_spec(
        body.password@,
        us[i].password@,
    ) == Ok::<bool, crate::credential::CredentialError>(true)
}

/// A session that a login or a verification opened.
#[derive(Debug)]
pub struct LoginSession {
    pub user_id: u128,
    pub token: Vec<u8>,
}

/// Checks the credentials and issues a session token for the user. A wrong
/// email, a wrong password and an unreadable stored digest all report the
/// same 400.
pub fn login(state: &AppState, body: &LoginUserDto, now: u64) -> (r: Result<LoginSession, HttpError>)
    requires
        state.db_client.wf(),
    ensures
        r is Ok <==> login_credentials_ok(state.db_client@, *body) && session_ttl_ok(state.env, now),
        body.check() matches Err(rule) ==> fails_with_message(r, 400, rule.text()),
        body.check() is Ok && !login_credentials_ok(state.db_client@, *body) ==> fails_with_message(
            r,
            400,
            ErrorMessage::WrongCredentials.text(),
        ),
        login_credentials_ok(state.db_client@, *body) && !session_ttl_ok(state.env, now)
            ==> fails_with_message(r, 500, ErrorMessage::ServerError.text()),
        r matches Ok(s) ==> index_of_email(state.db_client@, lower_of(body.email@)) matches Some(i)
            && s.user_id == state.db_client@[i].id && s.token@ == session_token(
            s.user_id,
            secret_bytes(state.env),
            now,
            session_expiry(state.env, now),
        ) && validate_spec(s.token@, secret_bytes(state.env), now) == Ok::<
            u128,
            crate::session::TokenError,
        >(s.user_id),
{
    match body.validate() {
        Err(rule) => {
            return Err(HttpError::bad_request(String::from_str(rule.message())));
        },
        Ok(()) => {},
    }
    let user = match state.db_client.find_by_email(body.email.as_str()) {
        Some(u) => u,
        None => {
            return Err(HttpError::bad_request(message(ErrorMessage::WrongCredentials)));
        },
    };
    match compare(body.password.as_str(), user.password.as_str()) {
        Ok(true) => {},
        _ => {
            return Err(HttpError::bad_request(message(ErrorMessage::WrongCredentials)));
        },
    }
    let token = session_for(&state.env, user.id, now)?;
    proof {
        lemma_issue_then_validate(user.id, secret_bytes(state.env), now, session_expiry(state.env, now), now);
    }
    Ok(LoginSession { user_id: user.id, token })
}

/// What a successful email verification hands back: who, and their new session.
#[derive(Debug)]
pub struct EmailVerified {
    pub user_id: u128,
    pub name: String,
    pub email: String,
    pub session: Vec<u8>,
}

/// Confirms an email with its one-time token: marks the user verified, clears
/// the token in the same step, and opens a session.
pub fn verify_email(state: &mut AppState, query: &VerifyEmailQueryDto, now: u64) -> (r: Result<
    EmailVerified,
    HttpError,
>)
    requires
        old(state).db_client.wf(),
    ensures
        final(state).db_client.wf(),
        final(state).env == old(state).env,
        r is Err ==> final(state).db_client@ == old(state).db_client@,
        query.token@.len() == 0 ==> fails_with_message(r, 400, FieldRule::TokenRequired.text()),
        query.token@.len() > 0 ==> match validate_token_spec(
            old(state).db_client@,
            query.token@,
            now,
        ) {
            Err(TokenLookupError::NotFound) => fails_with_message(
                r,
                401,
                ErrorMessage::InvalidToken.text(),
            ),
            Err(TokenLookupError::Expired) => fails_with_message(
                r,
                400,
                ErrorMessage::VerificationLinkExpired.text(),
            ),
            Ok(i) => if session_ttl_ok(old(state).env, now) {
                let u = old(state).db_client@[i];
                &&& r matches Ok(v) && v.user_id == u.id && v.name == u.name && v.email == u.email
                    && v.session@ == session_token(
                    u.id,
                    secret_bytes(old(state).env),
                    now,
                    session_expiry(old(state).env, now),
                )
                &&& final(state).db_client@ == consume_spec(
                    old(state).db_client@,
                    query.token@,
                    TokenAction::Verify,
                    now,
                ).0
            } else {
                fails_with_message(r, 500, ErrorMessage::ServerError.text())
            },
        },
{
    match query.validate() {
        Err(rule) => {
            return Err(HttpError::bad_request(String::from_str(rule.message())));
        },
        Ok(()) => {},
    }
    let (user_id, name, email) = match state.db_client.validate_token(&query.token, now) {
        Ok(u) => (u.id, u.name.clone(), u.email.clone()),
        Err(TokenLookupError::NotFound) => {
            return Err(HttpError::unauthorized(message(ErrorMessage::InvalidToken)));
        },
        Err(TokenLookupError::Expired) => {
            return Err(HttpError::bad_request(message(ErrorMessage::VerificationLinkExpired)));
        },
    };
    let session = session_for(&state.env, user_id, now)?;
    match state.db_client.consume_token(&query.token, TokenAction::Verify, now) {
        Ok(_) => Ok(EmailVerified { user_id, name, email, session }),
        Err(_) => Err(HttpError::unauthorized(message(ErrorMessage::InvalidToken))),
    }
}

/// A fresh one-time token, and where to mail it.
#[derive(Debug)]
pub struct TokenIssued {
    pub email: String,
    pub name: String,
    pub token: String,
    pub expires_at: u64,
}

/// Whether no user holds a one-time token.
pub open spec fn no_live_tokens(us: Seq<User>) -> bool {
    forall|k: int| 0 <= k < us.len() ==> (#[trigger] us[k]).verification_token is None
}

/// User `i` of `before` got the fresh token `t` at `now`, giving `after`: no
/// user held `t` before, and the token that user `i` held is no one's now.
pub open spec fn token_reissued(
    before: Seq<User>,
    after: Seq<User>,
    i: int,
    t: TokenIssued,
    now: u64,
) -> bool {
    &&& t.expires_at == now + VERIFICATION_TTL_SECONDS
    &&& t.email == before[i].email
    &&& t.name == before[i].name
    &&& index_of_token(before, t.token@) is None
    &&& (before[i].verification_token matches Some(o) ==> index_of_token(after, o@) is None)
    &&& after == before.update(
        i,
        User {
            verification_token: Some(t.token),
            token_expires_at: Some(t.expires_at),
            updated_at: now,
            ..before[i]
        },
    )
}

/// Gives user `i` a fresh token, replacing the one it held.
fn reissue_for(state: &mut AppState, i: usize, now: u64, token_number: u128) -> (r: Result<
    TokenIssued,
    HttpError,
>)
    requires
        old(state).db_client.wf(),
        i < old(state).db_client@.len(),
    ensures
        final(state).db_client.wf(),
        final(state).env == old(state).env,
        r is Err ==> fails_with_message(r, 500, ErrorMessage::ServerError.text())
            && final(state).db_client@ == old(state).db_client@,
        now > u64::MAX - VERIFICATION_TTL_SECONDS ==> r is Err,
        now <= u64::MAX - VERIFICATION_TTL_SECONDS && index_of_token(
            old(state).db_client@,
            uuid_text_of(token_number),
        ) is None ==> r is Ok,
        r matches Ok(t) ==> token_reissued(
            old(state).db_client@,
            final(state).db_client@,
            i as int,
            t,
            now,
        ) && t.token@ == uuid_text_of(token_number),
{
    if now > u64::MAX - VERIFICATION_TTL_SECONDS {
        return Err(HttpError::server_error(message(ErrorMessage::ServerError)));
    }
    let expires_at = now + VERIFICATION_TTL_SECONDS;
    let user = state.db_client.get(i);
    let id = user.id;
    let email = user.email.clone();
    let name = user.name.clone();
    proof {
        crate::store::lemma_id_index(state.db_client@, i as int);
    }
    let token = uuid_text(token_number);
    let kept = token.clone();
    match state.db_client.reissue_token(id, token, expires_at, now) {
        Ok(()) => Ok(TokenIssued { email, name, token: kept, expires_at }),
        Err(_) => Err(HttpError::server_error(message(ErrorMessage::ServerError))),
    }
}

/// Sends a new verification token to a registered, unverified user.
pub fn resend_verification_email(
    state: &mut AppState,
    body: &ResendVerificationDto,
    now: u64,
) -> (r: Result<TokenIssued, HttpError>)
    requires
        old(state).db_client.wf(),
    ensures
        final(state).db_client.wf(),
        final(state).env == old(state).env,
        r is Err ==> final(state).db_client@ == old(state).db_client@,
        !valid_email(body.email@) ==> fails_with_message(r, 400, FieldRule::EmailAddressInvalid.text()),
        valid_email(body.email@) ==> match index_of_email(
            old(state).db_client@,
            lower_of(body.email@),
        ) {
            None => fails_with_message(r, 400, ErrorMessage::EmailNotRegistered.text()),
            Some(i) => if old(state).db_client@[i].verified {
                fails_with_message(r, 400, ErrorMessage::EmailAlreadyVerified.text())
            } else {
                &&& r is Ok || fails_with_message(r, 500, ErrorMessage::ServerError.text())
                &&& now > u64::MAX - VERIFICATION_TTL_SECONDS ==> r is Err
                &&& now <= u64::MAX - VERIFICATION_TTL_SECONDS && no_live_tokens(
                    old(state).db_client@,
                ) ==> r is Ok
                &&& r matches Ok(t) ==> token_reissued(
                    old(state).db_client@,
                    final(state).db_client@,
                    i,
                    t,
                    now,
                )
            },
        },
{
    match body.validate() {
        Err(rule) => {
            return Err(HttpError::bad_request(String::from_str(rule.message())));
        },
        Ok(()) => {},
    }
    let i = match state.db_client.find_email_index(body.email.as_str()) {
        Some(i) => i,
        None => {
            return Err(HttpError::bad_request(message(ErrorMessage::EmailNotRegistered)));
        },
    };
    if state.db_client.get(i).verified {
        return Err(HttpError::bad_request(message(ErrorMessage::EmailAlreadyVerified)));
    }
    reissue_for(state, i, now, random_uuid())
}

/// Sends a password-reset token to a registered user. An unknown email is
/// reported as such, which lets a caller learn which emails are registered.
pub fn forgot_password(state: &mut AppState, body: &ForgotPasswordRequestDto, now: u64) -> (r:
    Result<TokenIssued, HttpError>)
    requires
        old(state).db_client.wf(),
    ensures
        final(state).db_client.wf(),
        final(state).env == old(state).env,
        r is Err ==> final(state).db_client@ == old(state).db_client@,
        required_email_check(body.email@) matches Err(rule) ==> fails_with_message(
            r,
            400,
            rule.text(),
        ),
        required_email_check(body.email@) is Ok ==> match index_of_email(
            old(state).db_client@,
            lower_of(body.email@),
        ) {
            None => fails_with_message(r, 400, ErrorMessage::EmailNotFound.text()),
            Some(i) => {
                &&& r is Ok || fails_with_message(r, 500, ErrorMessage::ServerError.text())
                &&& now > u64::MAX - VERIFICATION_TTL_SECONDS ==> r is Err
                &&& now <= u64::MAX - VERIFICATION_TTL_SECONDS && no_live_tokens(
                    old(state).db_client@,
                ) ==> r is Ok
                &&& r matches Ok(t) ==> token_reissued(
                    old(state).db_client@,
                    final(state).db_client@,
                    i,
                    t,
                    now,
                )
            },
        },
{
    match body.validate() {
        Err(rule) => {
            return Err(HttpError::bad_request(String::from_str(rule.message())));
        },
        Ok(()) => {},
    }
    let i = match state.db_client.find_email_index(body.email.as_str()) {
        Some(i) => i,
        None => {
            return Err(HttpError::bad_request(message(ErrorMessage::EmailNotFound)));
        },
    };
    reissue_for(state, i, now, random_uuid())
}

/// Replaces a password with a reset token: the new digest is stored and the
/// token cleared in one step.
pub fn reset_password(state: &mut AppState, body: &ResetPasswordRequestDto, now: u64) -> (r:
    Result<(), HttpError>)
    requires
        old(state).db_client.wf(),
    ensures
        final(state).db_client.wf(),
        final(state).env == old(state).env,
        r is Err ==> final(state).db_client@ == old(state).db_client@,
        body.check() matches Err(rule) ==> fails_with_message(r, 400, rule.text()),
        body.check() is Ok ==> match validate_token_spec(
            old(state).db_client@,
            body.token@,
            now,
        ) {
            Err(TokenLookupError::NotFound) => fails_with_message(
                r,
                400,
                ErrorMessage::ResetTokenInvalid.text(),
            ),
            Err(TokenLookupError::Expired) => fails_with_message(
                r,
                400,
                ErrorMessage::TokenExpired.text(),
            ),
            Ok(_) => r is Ok || fails_with_message(r, 500, ErrorMessage::ServerError.text()),
        },
        body.check() is Ok && validate_token_spec(old(state).db_client@, body.token@, now) is Ok
            && vstd::utf8::encode_utf8(body.new_password@).len() <= 0xFFFF_FFFF ==> r is Ok,
        r is Ok ==> exists|h: String|
            #![trigger compare_spec(body.new_password@, h@)]
            compare_spec(body.new_password@, h@) == Ok::<bool, crate::credential::CredentialError>(
                true,
            ) && final(state).db_client@ == consume_spec(
                old(state).db_client@,
                body.token@,
                TokenAction::ResetPassword(h),
                now,
            ).0,
{
    match body.validate() {
        Err(rule) => {
            return Err(HttpError::bad_request(String::from_str(rule.message())));
        },
        Ok(()) => {},
    }
    match state.db_client.validate_token(&body.token, now) {
        Ok(_) => {},
        Err(TokenLookupError::NotFound) => {
            return Err(HttpError::bad_request(message(ErrorMessage::ResetTokenInvalid)));
        },
        Err(TokenLookupError::Expired) => {
            return Err(HttpError::bad_request(message(ErrorMessage::TokenExpired)));
        },
    }
    let digest = match hash(body.new_password.as_str()) {
        Ok(d) => d,
        Err(_) => {
            return Err(HttpError::server_error(message(ErrorMessage::ServerError)));
        },
    };
    let ghost h = digest;
    match state.db_client.consume_token(&body.token, TokenAction::ResetPassword(digest), now) {
        Ok(_) => {
            assert(compare_spec(body.new_password@, h@) == Ok::<bool, crate::credential::CredentialError>(true));
            Ok(())
        },
        Err(_) => Err(HttpError::bad_request(message(ErrorMessage::ResetTokenInvalid))),
    }
}

} // verus!
