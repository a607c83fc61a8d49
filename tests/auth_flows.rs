use auth_core::config::Config;
use auth_core::credential::{compare, hash, CredentialError};
use auth_core::error::ErrorMessage;
use auth_core::dtos::{
    FieldRule, ForgotPasswordRequestDto, LoginUserDto, RegisterUserDto, RequestQueryDto,
    ResendVerificationDto, ResetPasswordRequestDto, VerifyEmailQueryDto,
};
use auth_core::handlers::{
    forgot_password, login, register, register_with, resend_verification_email, reset_password, verify_email,
    AppState, VERIFICATION_TTL_SECONDS,
};
use auth_core::hex::push_hex;
use auth_core::middleware::{
    authenticate, extract_token, log_level, role_check, AuthFailure, JWTAuthMiddeware, LogLevel,
};
use auth_core::session::{issue, validate, TokenError, SESSION_TOKEN_LEN};
use auth_core::store::{StoreError, TokenAction, TokenLookupError, UserStore};
use auth_core::user::{User, UserRole};

const NOW: u64 = 1_700_000_000;

fn state() -> AppState {
    AppState {
        env: Config {
            database_url: "postgres://localhost/app".to_string(),
            server_port: 3000,
            jwt_secret: "top-secret-key".to_string(),
            jwt_maxage: 60,
        },
        db_client: UserStore::new(),
    }
}

fn register_body(email: &str) -> RegisterUserDto {
    RegisterUserDto {
        name: "Alice".to_string(),
        email: email.to_string(),
        password: "password123".to_string(),
        password_confirm: "password123".to_string(),
    }
}

fn plain_user(id: u128, email: &str, role: UserRole) -> User {
    User {
        id,
        name: "Bob".to_string(),
        email: email.to_string(),
        password: "digest".to_string(),
        role,
        verified: true,
        verification_token: None,
        token_expires_at: None,
        created_at: NOW,
        updated_at: NOW,
    }
}

fn store_with_token(token: &str, expires_at: u64) -> UserStore {
    let mut s = UserStore::new();
    s.create_user(7, "Bob".to_string(), "bob@x.com".to_string(), "digest".to_string(),
        token.to_string(), expires_at, NOW).unwrap();
    s
}

#[test]
fn hash_then_compare_accepts_password_and_refuses_other() {
    let digest = hash("hunter22").unwrap();
    assert_ne!(digest, "hunter22");
    assert!(digest.starts_with("$argon2"));
    assert_eq!(compare("hunter22", &digest), Ok(true));
    assert_eq!(compare("hunter22x", &digest), Ok(false));
}

#[test]
fn compare_with_malformed_digest_is_an_error() {
    assert_eq!(compare("hunter22", "not-a-digest"), Err(CredentialError::MalformedDigest));
    assert_eq!(compare("hunter22", ""), Err(CredentialError::MalformedDigest));
}

#[test]
fn hex_digits_are_fixed_width_lower_case() {
    let mut out = Vec::new();
    push_hex(&mut out, 255, 4);
    assert_eq!(out, b"00ff".to_vec());
    push_hex(&mut out, 0xabc, 3);
    assert_eq!(out, b"00ffabc".to_vec());
}

#[test]
fn session_token_round_trip() {
    let t = issue(42, b"secret", NOW, 60);
    assert_eq!(t.len(), SESSION_TOKEN_LEN);
    assert_eq!(&t[0..16], b"000000006553f100");
    assert_eq!(&t[16..32], b"000000006553ff10");
    assert_eq!(t[64], b'.');
    assert_eq!(validate(&t, b"secret", NOW), Ok(42));
    assert_eq!(validate(&t, b"secret", NOW + 3600), Ok(42));
}

#[test]
fn session_token_expires_strictly_after_ttl() {
    let t = issue(42, b"secret", NOW, 60);
    assert_eq!(validate(&t, b"secret", NOW + 3601), Err(TokenError::Expired));
}

#[test]
fn session_token_other_secret_is_bad_signature() {
    let t = issue(42, b"secret", NOW, 60);
    assert_eq!(validate(&t, b"other", NOW), Err(TokenError::BadSignature));
    assert_eq!(validate(&t, b"other", NOW + 100_000), Err(TokenError::BadSignature));
}

#[test]
fn session_token_tampering_is_detected() {
    let t = issue(42, b"secret", NOW, 60);
    let mut longer = t.clone();
    longer[31] = b'f';
    assert_eq!(validate(&longer, b"secret", NOW), Err(TokenError::BadSignature));
    let mut sig = t.clone();
    sig[100] = if sig[100] == b'0' { b'1' } else { b'0' };
    assert_eq!(validate(&sig, b"secret", NOW), Err(TokenError::BadSignature));
    let other = issue(43, b"secret", NOW, 60);
    assert_ne!(t[65..], other[65..]);
}

#[test]
fn session_token_malformed_inputs() {
    assert_eq!(validate(b"", b"secret", NOW), Err(TokenError::Malformed));
    assert_eq!(validate(b"abc.def", b"secret", NOW), Err(TokenError::Malformed));
    let mut t = issue(42, b"secret", NOW, 60);
    t[64] = b'x';
    assert_eq!(validate(&t, b"secret", NOW), Err(TokenError::Malformed));
    let mut u = issue(42, b"secret", NOW, 60);
    u[3] = b'G';
    assert_eq!(validate(&u, b"secret", NOW), Err(TokenError::Malformed));
}

#[test]
fn verification_token_consumed_exactly_once() {
    let tok = "tok-1".to_string();
    let mut s = store_with_token(&tok, NOW + 1800);
    assert_eq!(s.validate_token(&tok, NOW).unwrap().id, 7);
    assert_eq!(s.consume_token(&tok, TokenAction::Verify, NOW), Ok(7));
    assert_eq!(s.consume_token(&tok, TokenAction::Verify, NOW), Err(StoreError::NotFound));
    let u = s.find_by_id(7).unwrap();
    assert!(u.verified);
    assert_eq!(u.verification_token, None);
    assert_eq!(u.token_expires_at, None);
}

#[test]
fn many_consumers_exactly_one_wins() {
    let tok = "tok-race".to_string();
    let mut s = store_with_token(&tok, NOW + 1800);
    let mut wins = 0;
    let mut misses = 0;
    for k in 0..10u64 {
        match s.consume_token(&tok, TokenAction::Verify, NOW + k) {
            Ok(_) => wins += 1,
            Err(StoreError::NotFound) => misses += 1,
            Err(e) => panic!("unexpected {:?}", e),
        }
    }
    assert_eq!(wins, 1);
    assert_eq!(misses, 9);
}

#[test]
fn expired_token_is_never_consumed() {
    let tok = "tok-old".to_string();
    let mut s = store_with_token(&tok, NOW);
    assert_eq!(s.validate_token(&tok, NOW + 1).err(), Some(TokenLookupError::Expired));
    assert_eq!(s.consume_token(&tok, TokenAction::Verify, NOW + 1), Err(StoreError::NotFound));
    assert_eq!(s.consume_token(&tok, TokenAction::Verify, NOW + 10), Err(StoreError::NotFound));
    assert_eq!(s.validate_token(&tok, NOW + 10).err(), Some(TokenLookupError::Expired));
    assert!(s.find_by_id(7).unwrap().verification_token.is_some());
}

#[test]
fn reissue_overwrites_previous_token() {
    let mut s = store_with_token("first", NOW + 1800);
    assert_eq!(s.reissue_token(7, "second".to_string(), NOW + 3600, NOW), Ok(()));
    assert_eq!(s.validate_token(&"first".to_string(), NOW).err(), Some(TokenLookupError::NotFound));
    assert_eq!(s.validate_token(&"second".to_string(), NOW).unwrap().id, 7);
    assert_eq!(s.reissue_token(8, "third".to_string(), NOW, NOW), Err(StoreError::NotFound));
    assert_eq!(s.reissue_token(7, "second".to_string(), NOW + 60, NOW), Err(StoreError::TokenInUse));
}

#[test]
fn store_rejects_duplicates() {
    let mut s = store_with_token("t1", NOW + 10);
    let dup_email = s.create_user(8, "X".to_string(), "BOB@X.COM".to_string(), "d".to_string(),
        "t2".to_string(), NOW, NOW);
    assert_eq!(dup_email, Err(StoreError::EmailTaken));
    let dup_id = s.create_user(7, "X".to_string(), "x@x.com".to_string(), "d".to_string(),
        "t2".to_string(), NOW, NOW);
    assert_eq!(dup_id, Err(StoreError::IdTaken));
    let dup_token = s.create_user(8, "X".to_string(), "x@x.com".to_string(), "d".to_string(),
        "t1".to_string(), NOW, NOW);
    assert_eq!(dup_token, Err(StoreError::TokenInUse));
    assert_eq!(s.len(), 1);
    assert_eq!(s.find_by_email("Bob@X.com").unwrap().id, 7);
}

#[test]
fn role_guard_denies_user_and_allows_admin() {
    let admin_only = vec![UserRole::Admin];
    let user = JWTAuthMiddeware { user: plain_user(1, "u@x.com", UserRole::User) };
    let admin = JWTAuthMiddeware { user: plain_user(2, "a@x.com", UserRole::Admin) };
    assert_eq!(role_check(&admin_only, &user).unwrap_err().status, 403);
    assert!(role_check(&admin_only, &admin).is_ok());
    assert!(role_check(&vec![UserRole::Admin, UserRole::User], &user).is_ok());
    assert_eq!(UserRole::Admin.to_str(), "admin");
}

#[test]
fn register_verify_and_reuse_end_to_end() {
    let mut st = state();
    let reg = register(&mut st, &register_body("a@x.com"), NOW).unwrap();
    assert_eq!(reg.expires_at, NOW + VERIFICATION_TTL_SECONDS);
    assert_eq!(reg.token.len(), 36);
    {
        let u = st.db_client.find_by_email("a@x.com").unwrap();
        assert!(!u.verified);
        assert_eq!(u.role, UserRole::User);
        assert_eq!(u.verification_token.as_deref(), Some(reg.token.as_str()));
        assert_eq!(compare("password123", &u.password), Ok(true));
    }
    let q = VerifyEmailQueryDto { token: reg.token.clone() };
    let v = verify_email(&mut st, &q, NOW + 60).unwrap();
    assert_eq!(v.user_id, reg.user_id);
    assert_eq!(v.email, "a@x.com");
    assert_eq!(validate(&v.session, b"top-secret-key", NOW + 60), Ok(reg.user_id));
    {
        let u = st.db_client.find_by_id(reg.user_id).unwrap();
        assert!(u.verified);
        assert_eq!(u.verification_token, None);
    }
    let again = verify_email(&mut st, &q, NOW + 61);
    assert_eq!(again.err().unwrap().status, 401);
}

#[test]
fn register_rejects_bad_body_and_duplicate_email() {
    let mut st = state();
    let mut bad = register_body("a@x.com");
    bad.password_confirm = "different1".to_string();
    assert_eq!(register(&mut st, &bad, NOW).err().unwrap().status, 400);
    register(&mut st, &register_body("a@x.com"), NOW).unwrap();
    let dup = register(&mut st, &register_body("A@X.com"), NOW);
    assert_eq!(dup.err().unwrap().status, 409);
    assert_eq!(st.db_client.len(), 1);
}

#[test]
fn verify_with_expired_or_unknown_token_fails() {
    let mut st = state();
    let reg = register(&mut st, &register_body("a@x.com"), NOW).unwrap();
    let q = VerifyEmailQueryDto { token: reg.token.clone() };
    let late = verify_email(&mut st, &q, NOW + VERIFICATION_TTL_SECONDS + 1);
    assert_eq!(late.err().unwrap().status, 400);
    let unknown = VerifyEmailQueryDto { token: "nope".to_string() };
    assert_eq!(verify_email(&mut st, &unknown, NOW).err().unwrap().status, 401);
    let empty = VerifyEmailQueryDto { token: String::new() };
    assert_eq!(verify_email(&mut st, &empty, NOW).err().unwrap().status, 400);
    assert!(!st.db_client.find_by_id(reg.user_id).unwrap().verified);
}

#[test]
fn login_session_carries_user_id() {
    let mut st = state();
    let reg = register(&mut st, &register_body("a@x.com"), NOW).unwrap();
    let body = LoginUserDto { email: "a@x.com".to_string(), password: "password123".to_string() };
    let s = login(&st, &body, NOW).unwrap();
    assert_eq!(s.user_id, reg.user_id);
    assert_eq!(validate(&s.token, b"top-secret-key", NOW), Ok(reg.user_id));
    assert_eq!(validate(&s.token, b"top-secret-key", NOW + 3601), Err(TokenError::Expired));
    let wrong = LoginUserDto { email: "a@x.com".to_string(), password: "password124".to_string() };
    assert_eq!(login(&st, &wrong, NOW).err().unwrap().status, 400);
    let nobody = LoginUserDto { email: "z@x.com".to_string(), password: "password123".to_string() };
    assert_eq!(login(&st, &nobody, NOW).err().unwrap().status, 400);
}

#[test]
fn login_with_negative_session_ttl_is_server_error() {
    let mut st = state();
    register(&mut st, &register_body("a@x.com"), NOW).unwrap();
    st.env.jwt_maxage = -1;
    let body = LoginUserDto { email: "a@x.com".to_string(), password: "password123".to_string() };
    assert_eq!(login(&st, &body, NOW).err().unwrap().status, 500);
}

#[test]
fn resend_and_forgot_issue_fresh_tokens() {
    let mut st = state();
    let reg = register(&mut st, &register_body("a@x.com"), NOW).unwrap();
    let r = resend_verification_email(&mut st, &ResendVerificationDto { email: "a@x.com".to_string() }, NOW + 5).unwrap();
    assert_ne!(r.token, reg.token);
    assert_eq!(r.expires_at, NOW + 5 + VERIFICATION_TTL_SECONDS);
    let q = VerifyEmailQueryDto { token: reg.token.clone() };
    assert_eq!(verify_email(&mut st, &q, NOW + 6).err().unwrap().status, 401);
    let missing = resend_verification_email(&mut st, &ResendVerificationDto { email: "b@x.com".to_string() }, NOW);
    assert_eq!(missing.err().unwrap().status, 400);
    verify_email(&mut st, &VerifyEmailQueryDto { token: r.token.clone() }, NOW + 7).unwrap();
    let done = resend_verification_email(&mut st, &ResendVerificationDto { email: "a@x.com".to_string() }, NOW);
    assert_eq!(done.err().unwrap().status, 400);
    let f = forgot_password(&mut st, &ForgotPasswordRequestDto { email: "a@x.com".to_string() }, NOW).unwrap();
    assert_eq!(f.email, "a@x.com");
    let unknown = forgot_password(&mut st, &ForgotPasswordRequestDto { email: "q@x.com".to_string() }, NOW);
    assert_eq!(unknown.err().unwrap().status, 400);
}

#[test]
fn reset_password_replaces_digest_once() {
    let mut st = state();
    let reg = register(&mut st, &register_body("a@x.com"), NOW).unwrap();
    let f = forgot_password(&mut st, &ForgotPasswordRequestDto { email: "a@x.com".to_string() }, NOW).unwrap();
    let body = ResetPasswordRequestDto {
        token: f.token.clone(),
        new_password: "newpass99".to_string(),
        new_password_confirm: "newpass99".to_string(),
    };
    reset_password(&mut st, &body, NOW + 1).unwrap();
    let u = st.db_client.find_by_id(reg.user_id).unwrap();
    assert_eq!(compare("newpass99", &u.password), Ok(true));
    assert_eq!(u.verification_token, None);
    assert_eq!(reset_password(&mut st, &body, NOW + 2).err().unwrap().status, 400);
}

#[test]
fn authenticate_prefers_cookie_then_bearer() {
    let mut st = state();
    st.db_client.create_user(5, "C".to_string(), "c@x.com".to_string(), "d".to_string(),
        "tk".to_string(), NOW, NOW).unwrap();
    let t = issue(5, b"top-secret-key", NOW, 60);
    let mut header = b"Bearer ".to_vec();
    header.extend_from_slice(&t);
    assert_eq!(authenticate(&st, Some(&t), None, NOW).unwrap().user.id, 5);
    assert_eq!(authenticate(&st, None, Some(&header), NOW).unwrap().user.id, 5);
    assert_eq!(authenticate(&st, Some(b"junk"), Some(&header), NOW).err(), Some(AuthFailure::InvalidToken));
    assert_eq!(authenticate(&st, None, Some(&t), NOW).err(), Some(AuthFailure::TokenNotProvided));
    assert_eq!(authenticate(&st, None, None, NOW).err(), Some(AuthFailure::TokenNotProvided));
    let gone = issue(6, b"top-secret-key", NOW, 60);
    assert_eq!(authenticate(&st, Some(&gone), None, NOW).err(), Some(AuthFailure::UserNoLongerExist));
    assert_eq!(authenticate(&st, Some(&t), None, NOW + 3601).err(), Some(AuthFailure::InvalidToken));
    assert_eq!(AuthFailure::InvalidToken.into_http_error().status, 401);
}

#[test]
fn extract_token_strips_bearer_prefix() {
    assert_eq!(extract_token(None, Some(b"Bearer abc")), Some(b"abc".to_vec()));
    assert_eq!(extract_token(Some(b"ck"), Some(b"Bearer abc")), Some(b"ck".to_vec()));
    assert_eq!(extract_token(None, Some(b"Basic abc")), None);
    assert_eq!(extract_token(None, Some(b"Bearer")), None);
}

#[test]
fn field_rules_of_requests() {
    let mut b = register_body("a@x.com");
    assert_eq!(b.validate(), Ok(()));
    b.name = String::new();
    assert_eq!(b.validate(), Err(FieldRule::NameRequired));
    let mut b = register_body("");
    assert_eq!(b.validate(), Err(FieldRule::EmailRequired));
    b.email = "not-an-email".to_string();
    assert_eq!(b.validate(), Err(FieldRule::EmailInvalid));
    let mut b = register_body("a@x.com");
    b.password = "12345".to_string();
    assert_eq!(b.validate(), Err(FieldRule::PasswordTooShort));
    let mut b = register_body("a@x.com");
    b.password_confirm = "123".to_string();
    assert_eq!(b.validate(), Err(FieldRule::PasswordConfirmTooShort));
    let mut b = register_body("a@x.com");
    b.password = "ééééé1".to_string();
    b.password_confirm = "ééééé1".to_string();
    assert_eq!(b.validate(), Ok(()));
    assert_eq!(FieldRule::PasswordsDiffer.message(), "passwords do not match");
    let q = RequestQueryDto { page: Some(0), limit: None };
    assert_eq!(q.validate(), Err(FieldRule::PageOutOfRange));
    let q = RequestQueryDto { page: Some(1), limit: Some(51) };
    assert_eq!(q.validate(), Err(FieldRule::LimitOutOfRange));
    let q = RequestQueryDto { page: None, limit: Some(50) };
    assert_eq!(q.validate(), Ok(()));
    assert_eq!(ResendVerificationDto { email: "bad".to_string() }.validate(), Err(FieldRule::EmailAddressInvalid));
    assert_eq!(FieldRule::EmailAddressInvalid.message(), "Invalid email address");
}

#[test]
fn log_levels_by_status() {
    assert_eq!(log_level(200), LogLevel::Info);
    assert_eq!(log_level(299), LogLevel::Info);
    assert_eq!(log_level(302), LogLevel::Error);
    assert_eq!(log_level(404), LogLevel::Warn);
    assert_eq!(log_level(500), LogLevel::Error);
}

#[test]
fn login_failures_share_one_message() {
    let mut st = state();
    register(&mut st, &register_body("a@x.com"), NOW).unwrap();
    let unknown = LoginUserDto { email: "z@x.com".to_string(), password: "password123".to_string() };
    let wrong = LoginUserDto { email: "a@x.com".to_string(), password: "password123x".to_string() };
    let e1 = login(&st, &unknown, NOW).err().unwrap();
    let e2 = login(&st, &wrong, NOW).err().unwrap();
    assert_eq!(e1.status, 400);
    assert_eq!(e1.message, ErrorMessage::WrongCredentials.to_str());
    assert_eq!(e2.message, e1.message);
    let short = LoginUserDto { email: "a@x.com".to_string(), password: "123".to_string() };
    assert_eq!(login(&st, &short, NOW).err().unwrap().message, FieldRule::PasswordTooShort.message());
}

#[test]
fn role_guard_denial_message() {
    let user = JWTAuthMiddeware { user: plain_user(1, "u@x.com", UserRole::User) };
    let e = role_check(&vec![UserRole::Admin], &user).unwrap_err();
    assert_eq!(e.message, ErrorMessage::PermissionDenied.to_str());
    assert_eq!(AuthFailure::UserNoLongerExist.into_http_error().message, ErrorMessage::UserNoLongerExist.to_str());
}

#[test]
fn forgot_password_replaces_old_token() {
    let mut st = state();
    let reg = register(&mut st, &register_body("a@x.com"), NOW).unwrap();
    let f = forgot_password(&mut st, &ForgotPasswordRequestDto { email: "a@x.com".to_string() }, NOW + 1).unwrap();
    assert_ne!(f.token, reg.token);
    assert_eq!(f.expires_at, NOW + 1 + VERIFICATION_TTL_SECONDS);
    assert_eq!(st.db_client.validate_token(&reg.token, NOW + 2).err(), Some(TokenLookupError::NotFound));
    let u = st.db_client.find_by_id(reg.user_id).unwrap();
    assert_eq!(u.verification_token.as_deref(), Some(f.token.as_str()));
    assert!(!u.verified);
}

#[test]
fn registered_token_is_hyphenated_uuid_text() {
    let mut st = state();
    let reg = register(&mut st, &register_body("a@x.com"), NOW).unwrap();
    let groups: Vec<usize> = reg.token.split('-').map(|g| g.len()).collect();
    assert_eq!(groups, vec![8, 4, 4, 4, 12]);
    assert!(reg.token.chars().all(|c| c == '-' || c.is_ascii_digit() || ('a'..='f').contains(&c)));
}

#[test]
fn reset_password_errors_carry_messages() {
    let mut st = state();
    let reg = register(&mut st, &register_body("a@x.com"), NOW).unwrap();
    let body = ResetPasswordRequestDto {
        token: reg.token.clone(),
        new_password: "newpass99".to_string(),
        new_password_confirm: "newpass99".to_string(),
    };
    let late = reset_password(&mut st, &body, NOW + VERIFICATION_TTL_SECONDS + 1).err().unwrap();
    assert_eq!((late.status, late.message.as_str()), (400, ErrorMessage::TokenExpired.to_str()));
    let unknown = ResetPasswordRequestDto { token: "nope".to_string(), ..body };
    let e = reset_password(&mut st, &unknown, NOW).err().unwrap();
    assert_eq!((e.status, e.message.as_str()), (400, ErrorMessage::ResetTokenInvalid.to_str()));
}

#[test]
fn account_messages_follow_each_endpoint() {
    let mut st = state();
    let reg = register(&mut st, &register_body("a@x.com"), NOW).unwrap();
    let unknown = resend_verification_email(&mut st, &ResendVerificationDto { email: "b@x.com".to_string() }, NOW).err().unwrap();
    assert_eq!((unknown.status, unknown.message.as_str()), (400, "邮箱地址未注册"));
    let late = verify_email(&mut st, &VerifyEmailQueryDto { token: reg.token.clone() }, NOW + VERIFICATION_TTL_SECONDS + 1).err().unwrap();
    assert_eq!((late.status, late.message.as_str()), (400, "验证链接已过期，请重新发送验证邮件"));
    verify_email(&mut st, &VerifyEmailQueryDto { token: reg.token.clone() }, NOW + 1).unwrap();
    let done = resend_verification_email(&mut st, &ResendVerificationDto { email: "a@x.com".to_string() }, NOW).err().unwrap();
    assert_eq!((done.status, done.message.as_str()), (400, "邮箱已经验证过了"));
    let missing = forgot_password(&mut st, &ForgotPasswordRequestDto { email: "q@x.com".to_string() }, NOW).err().unwrap();
    assert_eq!((missing.status, missing.message.as_str()), (400, "Email not found!"));
}

#[test]
fn reset_body_uses_new_password_wording() {
    let mut st = state();
    let body = ResetPasswordRequestDto {
        token: "abc".to_string(),
        new_password: "secret1".to_string(),
        new_password_confirm: "secret2".to_string(),
    };
    let e = reset_password(&mut st, &body, NOW).err().unwrap();
    assert_eq!((e.status, e.message.as_str()), (400, "new passwords do not match"));
    let short = ResetPasswordRequestDto { new_password: "abc".to_string(), ..body };
    assert_eq!(short.validate(), Err(FieldRule::NewPasswordTooShort));
    assert_eq!(FieldRule::NewPasswordTooShort.message(), "new password must be at least 6 characters");
}

#[test]
fn reset_twice_with_same_token_is_refused() {
    let mut st = state();
    let reg = register(&mut st, &register_body("a@x.com"), NOW).unwrap();
    let f = forgot_password(&mut st, &ForgotPasswordRequestDto { email: "a@x.com".to_string() }, NOW).unwrap();
    let first = ResetPasswordRequestDto {
        token: f.token.clone(),
        new_password: "firstpw1".to_string(),
        new_password_confirm: "firstpw1".to_string(),
    };
    reset_password(&mut st, &first, NOW + 1).unwrap();
    let second = ResetPasswordRequestDto {
        token: f.token.clone(),
        new_password: "second22".to_string(),
        new_password_confirm: "second22".to_string(),
    };
    let e = reset_password(&mut st, &second, NOW + 2).err().unwrap();
    assert_eq!((e.status, e.message.as_str()), (400, "Invalid or expired token"));
    let u = st.db_client.find_by_id(reg.user_id).unwrap();
    assert_eq!(compare("firstpw1", &u.password), Ok(true));
    assert_eq!(compare("second22", &u.password), Ok(false));
}

#[test]
fn register_with_uses_given_id_and_token() {
    let mut st = state();
    let reg = register_with(&mut st, &register_body("a@x.com"), NOW, 0x1234, 0x00112233_4455_6677_8899_aabbccddeeff).unwrap();
    assert_eq!(reg.user_id, 0x1234);
    assert_eq!(reg.token, "00112233-4455-6677-8899-aabbccddeeff");
    let clash = register_with(&mut st, &register_body("b@x.com"), NOW, 0x1234, 7).err().unwrap();
    assert_eq!(clash.status, 500);
    let invalid = register_with(&mut st, &register_body("no-at-sign"), NOW, 9, 9).err().unwrap();
    assert_eq!((invalid.status, invalid.message.as_str()), (400, "Email is invalid"));
    assert_eq!(st.db_client.len(), 1);
}
