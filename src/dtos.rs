//! Request and response bodies, and the field rules that requests must meet.
use vstd::prelude::*;
use validator::{ValidateEmail, ValidateLength};
use crate::user::UserRole;

verus! {

/// Whether the email validator accepts `s`.
pub uninterp spec fn valid_email(s: Seq<char>) -> bool;

/// Relies on `validator::ValidateEmail::validate_email` (HTML5-style rules):
/// the verdict depends on the text alone; an empty text, or one without `@`,
/// is refused.
#[verifier::external_body]
fn email_is_valid(s: &String) -> (r: bool)
    ensures
        r == valid_email(s@),
        r ==> s@.len() > 0 && s@.contains('@'),
{
    s.validate_email()
}

/// Relies on `validator::ValidateLength::validate_length` with only a minimum:
/// for a `String` it counts characters (`chars().count()`).
#[verifier::external_body]
fn has_min_chars(s: &String, min: u64) -> (r: bool)
    ensures
        r == (s@.len() >= min),
{
    s.validate_length(Some(min), None, None)
}

pub const MIN_PASSWORD_CHARS: u64 = 6;

/// The field rule that a request broke.
#[derive(Debug, Clone, Copy, PartialEq, Eq, Structural)]
pub enum FieldRule {
    NameRequired,
    EmailRequired,
    EmailInvalid,
    PasswordTooShort,
    PasswordConfirmTooShort,
    PasswordsDiffer,
    NewPasswordTooShort,
    NewPasswordConfirmTooShort,
    NewPasswordsDiffer,
    OldPasswordTooShort,
    EmailAddressInvalid,
    TokenRequired,
    PageOutOfRange,
    LimitOutOfRange,
}

impl FieldRule {
    /// The text shown for the broken rule.
    pub open spec fn text(self) -> Seq<char> {
        match self {
            FieldRule::NameRequired => "Name is required"@,
            FieldRule::EmailRequired => "Email is required"@,
            FieldRule::EmailInvalid => "Email is invalid"@,
            FieldRule::PasswordTooShort => "Password must be at least 6 characters"@,
            FieldRule::PasswordConfirmTooShort => "Confirm Password must be at least 6 characters"@,
            FieldRule::PasswordsDiffer => "passwords do not match"@,
            FieldRule::NewPasswordTooShort => "new password must be at least 6 characters"@,
            FieldRule::NewPasswordConfirmTooShort => "new password confirm must be at least 6 characters"@,
            FieldRule::NewPasswordsDiffer => "new passwords do not match"@,
            FieldRule::EmailAddressInvalid => "Invalid email address"@,
            FieldRule::OldPasswordTooShort => "Old password must be at least 6 characters"@,
            FieldRule::TokenRequired => "Token is required."@,
            FieldRule::PageOutOfRange => "page must be at least 1"@,
            FieldRule::LimitOutOfRange => "limit must be between 1 and 50"@,
        }
    }

    /// The message shown for the broken rule.
    pub fn message(&self) -> (r: &'static str)
        ensures
            r@ == self.text(),
    {
        match self {
            FieldRule::NameRequired => "Name is required",
            FieldRule::EmailRequired => "Email is required",
            FieldRule::EmailInvalid => "Email is invalid",
            FieldRule::PasswordTooShort => "Password must be at least 6 characters",
            FieldRule::PasswordConfirmTooShort => "Confirm Password must be at least 6 characters",
            FieldRule::PasswordsDiffer => "passwords do not match",
            FieldRule::NewPasswordTooShort => "new password must be at least 6 characters",
            FieldRule::NewPasswordConfirmTooShort => "new password confirm must be at least 6 characters",
            FieldRule::NewPasswordsDiffer => "new passwords do not match",
            FieldRule::EmailAddressInvalid => "Invalid email address",
            FieldRule::OldPasswordTooShort => "Old password must be at least 6 characters",
            FieldRule::TokenRequired => "Token is required.",
            FieldRule::PageOutOfRange => "page must be at least 1",
            FieldRule::LimitOutOfRange => "limit must be between 1 and 50",
        }
    }
}

/// The rules on a password and its confirmation, in order; `renewal` picks
/// the wording of a request that replaces an existing password.
pub open spec fn password_pair_check(password: Seq<char>, confirm: Seq<char>, renewal: bool) -> Result<
    (),
    FieldRule,
> {
    if password.len() < 6 {
        Err(if renewal {
            FieldRule::NewPasswordTooShort
        } else {
            FieldRule::PasswordTooShort
        })
    } else if confirm.len() < 6 {
        Err(if renewal {
            FieldRule::NewPasswordConfirmTooShort
        } else {
            FieldRule::PasswordConfirmTooShort
        })
    } else if confirm != password {
        Err(if renewal {
            FieldRule::NewPasswordsDiffer
        } else {
            FieldRule::PasswordsDiffer
        })
    } else {
        Ok(())
    }
}

/// The rules on a required email field, in order.
pub open spec fn required_email_check(email: Seq<char>) -> Result<(), FieldRule> {
    if email.len() < 1 {
        Err(FieldRule::EmailRequired)
    } else if !valid_email(email) {
        Err(FieldRule::EmailInvalid)
    } else {
        Ok(())
    }
}

fn check_password_pair(password: &String, confirm: &String, renewal: bool) -> (r: Result<
    (),
    FieldRule,
>)
    ensures
        r == password_pair_check(password@, confirm@, renewal),
{
    if !has_min_chars(password, MIN_PASSWORD_CHARS) {
        Err(
            if renewal {
                FieldRule::NewPasswordTooShort
            } else {
                FieldRule::PasswordTooShort
            },
        )
    } else if !has_min_chars(confirm, MIN_PASSWORD_CHARS) {
        Err(
            if renewal {
                FieldRule::NewPasswordConfirmTooShort
            } else {
                FieldRule::PasswordConfirmTooShort
            },
        )
    } else if !confirm.eq(password) {
        Err(
            if renewal {
                FieldRule::NewPasswordsDiffer
            } else {
                FieldRule::PasswordsDiffer
            },
        )
    } else {
        Ok(())
    }
}

fn check_required_email(email: &String) -> (r: Result<(), FieldRule>)
    ensures
        r == required_email_check(email@),
        email@.len() >= 1 && !email@.contains('@') ==> r == Err::<(), FieldRule>(
            FieldRule::EmailInvalid,
        ),
{
    if !has_min_chars(email, 1) {
        Err(FieldRule::EmailRequired)
    } else if !email_is_valid(email) {
        Err(FieldRule::EmailInvalid)
    } else {
        Ok(())
    }
}

fn check_token(token: &String) -> (r: Result<(), FieldRule>)
    ensures
        r is Ok <==> token@.len() >= 1,
        r is Err ==> r == Err::<(), FieldRule>(FieldRule::TokenRequired),
{
    if has_min_chars(token, 1) {
        Ok(())
    } else {
        Err(FieldRule::TokenRequired)
    }
}

#[derive(Debug)]
pub struct RegisterUserDto {
    pub name: String,
    pub email: String,
    pub password: String,
    pub password_confirm: String,
}

impl RegisterUserDto {
    pub open spec fn check(&self) -> Result<(), FieldRule> {
        if self.name@.len() < 1 {
            Err(FieldRule::NameRequired)
        } else if required_email_check(self.email@) is Err {
            required_email_check(self.email@)
        } else {
            password_pair_check(self.password@, self.password_confirm@, false)
        }
    }

    /// The first rule that the body breaks: name, email, then password fields.
    pub fn validate(&self) -> (r: Result<(), FieldRule>)
        ensures
            r == self.check(),
            self.name@.len() >= 1 && self.email@.len() >= 1 && !self.email@.contains('@') ==> r
                == Err::<(), FieldRule>(FieldRule::EmailInvalid),
    {
        if !has_min_chars(&self.name, 1) {
            return Err(FieldRule::NameRequired);
        }
        match check_required_email(&self.email) {
            Err(e) => Err(e),
            Ok(()) => check_password_pair(&self.password, &self.password_confirm, false),
        }
    }
}

#[derive(Debug)]
pub struct LoginUserDto {
    pub email: String,
    pub password: String,
}

impl LoginUserDto {
    pub open spec fn check(&self) -> Result<(), FieldRule> {
        if required_email_check(self.email@) is Err {
            required_email_check(self.email@)
        } else if self.password@.len() < 6 {
            Err(FieldRule::PasswordTooShort)
        } else {
            Ok(())
        }
    }

    pub fn validate(&self) -> (r: Result<(), FieldRule>)
        ensures
            r == self.check(),
            self.email@.len() >= 1 && !self.email@.contains('@') ==> r == Err::<(), FieldRule>(
                FieldRule::EmailInvalid,
            ),
    {
        match check_required_email(&self.email) {
            Err(e) => Err(e),
            Ok(()) => if has_min_chars(&self.password, MIN_PASSWORD_CHARS) {
                Ok(())
            } else {
                Err(FieldRule::PasswordTooShort)
            },
        }
    }
}

/// Paging of a listing: `page` from 1, `limit` from 1 to 50, both optional.
#[derive(Debug)]
pub struct RequestQueryDto {
    pub page: Option<usize>,
    pub limit: Option<usize>,
}

impl RequestQueryDto {
    pub open spec fn check(&self) -> Result<(), FieldRule> {
        if self.page matches Some(p) && p < 1 {
            Err(FieldRule::PageOutOfRange)
        } else if self.limit matches Some(l) && (l < 1 || l > 50) {
            Err(FieldRule::LimitOutOfRange)
        } else {
            Ok(())
        }
    }

    pub fn validate(&self) -> (r: Result<(), FieldRule>)
        ensures
            r == self.check(),
    {
        match self.page {
            Some(p) => if p < 1 {
                return Err(FieldRule::PageOutOfRange);
            },
            None => {},
        }
        match self.limit {
            Some(l) => if l < 1 || l > 50 {
                return Err(FieldRule::LimitOutOfRange);
            },
            None => {},
        }
        Ok(())
    }
}

#[derive(Debug)]
pub struct UserLoginResponseDto {
    pub status: String,
    pub token: String,
}

#[derive(Debug)]
pub struct Response {
    pub status: &'static str,
    pub message: String,
}

#[derive(Debug)]
pub struct NameUpdateDto {
    pub name: String,
}

impl NameUpdateDto {
    pub fn validate(&self) -> (r: Result<(), FieldRule>)
        ensures
            r is Ok <==> self.name@.len() >= 1,
            r is Err ==> r == Err::<(), FieldRule>(FieldRule::NameRequired),
    {
        if has_min_chars(&self.name, 1) {
            Ok(())
        } else {
            Err(FieldRule::NameRequired)
        }
    }
}

#[derive(Debug)]
pub struct RoleUpdateDto {
    pub role: UserRole,
}

/// Every role of the closed set is valid; other values never become a `UserRole`.
pub fn validate_user_role(role: &UserRole) -> (r: Result<(), FieldRule>)
    ensures
        r is Ok,
{
    match role {
        UserRole::Admin | UserRole::User => Ok(()),
    }
}

impl RoleUpdateDto {
    pub fn validate(&self) -> (r: Result<(), FieldRule>)
        ensures
            r is Ok,
    {
        validate_user_role(&self.role)
    }
}

#[derive(Debug)]
pub struct UserPasswordUpdateDto {
    pub new_password: String,
    pub new_password_confirm: String,
    pub old_password: String,
}

impl UserPasswordUpdateDto {
    pub open spec fn check(&self) -> Result<(), FieldRule> {
        if password_pair_check(self.new_password@, self.new_password_confirm@, true) is Err {
            password_pair_check(self.new_password@, self.new_password_confirm@, true)
        } else if self.old_password@.len() < 6 {
            Err(FieldRule::OldPasswordTooShort)
        } else {
            Ok(())
        }
    }

    pub fn validate(&self) -> (r: Result<(), FieldRule>)
        ensures
            r == self.check(),
    {
        match check_password_pair(&self.new_password, &self.new_password_confirm, true) {
            Err(e) => Err(e),
            Ok(()) => if has_min_chars(&self.old_password, MIN_PASSWORD_CHARS) {
                Ok(())
            } else {
                Err(FieldRule::OldPasswordTooShort)
            },
        }
    }
}

#[derive(Debug)]
pub struct VerifyEmailQueryDto {
    pub token: String,
}

impl VerifyEmailQueryDto {
    pub fn validate(&self) -> (r: Result<(), FieldRule>)
        ensures
            r is Ok <==> self.token@.len() >= 1,
            r is Err ==> r == Err::<(), FieldRule>(FieldRule::TokenRequired),
    {
        check_token(&self.token)
    }
}

#[derive(Debug)]
pub struct ForgotPasswordRequestDto {
    pub email: String,
}

impl ForgotPasswordRequestDto {
    pub fn validate(&self) -> (r: Result<(), FieldRule>)
        ensures
            r == required_email_check(self.email@),
            self.email@.len() >= 1 && !self.email@.contains('@') ==> r == Err::<(), FieldRule>(
                FieldRule::EmailInvalid,
            ),
    {
        check_required_email(&self.email)
    }
}

#[derive(Debug)]
pub struct ResetPasswordRequestDto {
    pub token: String,
    pub new_password: String,
    pub new_password_confirm: String,
}

impl ResetPasswordRequestDto {
    pub open spec fn check(&self) -> Result<(), FieldRule> {
        if self.token@.len() < 1 {
            Err(FieldRule::TokenRequired)
        } else {
            password_pair_check(self.new_password@, self.new_password_confirm@, true)
        }
    }

    pub fn validate(&self) -> (r: Result<(), FieldRule>)
        ensures
            r == self.check(),
    {
        match check_token(&self.token) {
            Err(e) => Err(e),
            Ok(()) => check_password_pair(&self.new_password, &self.new_password_confirm, true),
        }
    }
}

/// A request to send the verification email again: only the email format
/// rule applies.
#[derive(Debug)]
pub struct ResendVerificationDto {
    pub email: String,
}

impl ResendVerificationDto {
    pub fn validate(&self) -> (r: Result<(), FieldRule>)
        ensures
            r is Ok <==> valid_email(self.email@),
            r is Err ==> r == Err::<(), FieldRule>(FieldRule::EmailAddressInvalid),
            !self.email@.contains('@') ==> r is Err,
    {
        if email_is_valid(&self.email) {
            Ok(())
        } else {
            Err(FieldRule::EmailAddressInvalid)
        }
    }
}

} // verus!
