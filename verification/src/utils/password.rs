//! Password strength policy, hashing and verification.

use crate::api_error::{ApiError, ErrorKind};
use crate::text::is_alphanumeric_ascii;
use argon2::{PasswordHasher, PasswordVerifier};
use vstd::prelude::*;
use vstd::string::StringSliceAdditionalSpecFns;
use vstd::utf8::encode_utf8;

verus! {

/// The first rule of the password policy that a password breaks.
#[derive(Clone, Copy, Debug, PartialEq, Eq, Structural)]
pub enum PasswordViolation {
    TooShort,
    NoUppercase,
    NoLowercase,
    NoDigit,
    NoSpecial,
}

/// Whether a character is an upper-case letter of ASCII.
pub open spec fn is_ascii_upper(c: char) -> bool {
    'A' <= c && c <= 'Z'
}

/// Whether a character is a lower-case letter of ASCII.
pub open spec fn is_ascii_lower(c: char) -> bool {
    'a' <= c && c <= 'z'
}

/// Whether a character is a digit of ASCII.
pub open spec fn is_ascii_digit(c: char) -> bool {
    '0' <= c && c <= '9'
}

/// Whether Unicode classes a character as alphabetic or numeric, as
/// `char::is_alphanumeric` reports it.
pub uninterp spec fn unicode_alphanumeric(c: char) -> bool;

/// `char::is_alphanumeric`: the Unicode tables decide, so the result is
/// named. Of the characters of ASCII the letters and the digits are
/// alphanumeric and no others.
#[verifier::external_body]
fn is_alphanumeric(c: char) -> (r: bool)
    ensures
        r == unicode_alphanumeric(c),
        c <= '\u{7f}' ==> r == is_alphanumeric_ascii(c),
{
    c.is_alphanumeric()
}

/// Whether a password holds an upper-case letter.
pub open spec fn has_upper(p: Seq<char>) -> bool {
    exists|i: int| 0 <= i < p.len() && is_ascii_upper(#[trigger] p[i])
}

/// Whether a password holds a lower-case letter.
pub open spec fn has_lower(p: Seq<char>) -> bool {
    exists|i: int| 0 <= i < p.len() && is_ascii_lower(#[trigger] p[i])
}

/// Whether a password holds a digit.
pub open spec fn has_digit(p: Seq<char>) -> bool {
    exists|i: int| 0 <= i < p.len() && is_ascii_digit(#[trigger] p[i])
}

/// Whether a character is alphanumeric: of the characters of ASCII the
/// letters and the digits are; of the others, those that Unicode classes
/// as alphabetic or numeric.
pub open spec fn alphanumeric(c: char) -> bool {
    if c <= '\u{7f}' {
        is_alphanumeric_ascii(c)
    } else {
        unicode_alphanumeric(c)
    }
}

/// Whether a password holds a character that is not alphanumeric.
pub open spec fn has_special(p: Seq<char>) -> bool {
    exists|i: int| 0 <= i < p.len() && !alphanumeric(#[trigger] p[i])
}

/// The policy: at least 8 bytes long, with an upper-case letter, a
/// lower-case letter, a digit and a character that is not alphanumeric.
/// The rules are tried in this order and the first broken one is reported.
pub open spec fn password_violation(p: Seq<char>) -> Option<PasswordViolation> {
    if encode_utf8(p).len() < 8 {
        Some(PasswordViolation::TooShort)
    } else if !has_upper(p) {
        Some(PasswordViolation::NoUppercase)
    } else if !has_lower(p) {
        Some(PasswordViolation::NoLowercase)
    } else if !has_digit(p) {
        Some(PasswordViolation::NoDigit)
    } else if !has_special(p) {
        Some(PasswordViolation::NoSpecial)
    } else {
        None
    }
}

/// The message reported for a violation.
pub open spec fn violation_text(v: PasswordViolation) -> Seq<char> {
    match v {
        PasswordViolation::TooShort => "密码无效：长度不能少于8个字符"@,
        PasswordViolation::NoUppercase => "密码无效：必须包含至少一个大写字母"@,
        PasswordViolation::NoLowercase => "密码无效：必须包含至少一个小写字母"@,
        PasswordViolation::NoDigit => "密码无效：必须包含至少一个数字"@,
        PasswordViolation::NoSpecial => "密码无效：必须包含至少一个特殊字符"@,
    }
}

/// Which character classes occur in a password.
pub struct CharClasses {
    pub upper: bool,
    pub lower: bool,
    pub digit: bool,
    pub special: bool,
}

/// Scans a password once and reports the classes of its characters.
pub fn char_classes(password: &str) -> (r: CharClasses)
    ensures
        r.upper == has_upper(password@),
        r.lower == has_lower(password@),
        r.digit == has_digit(password@),
        r.special == has_special(password@),
{
    let mut r = CharClasses { upper: false, lower: false, digit: false, special: false };
    for c in it: password.chars()
        invariant
            it.seq() == password@,
            r.upper == has_upper(password@.take(it.index() as int)),
            r.lower == has_lower(password@.take(it.index() as int)),
            r.digit == has_digit(password@.take(it.index() as int)),
            r.special == has_special(password@.take(it.index() as int)),
    {
        let ghost k = it.index() as int;
        let ghost before = password@.take(k);
        let ghost after = password@.take(k + 1);
        assert(after[k] == c);
        assert(forall|j: int| 0 <= j < k ==> after[j] == before[j]);
        if c >= 'A' && c <= 'Z' {
            r.upper = true;
        }
        if c >= 'a' && c <= 'z' {
            r.lower = true;
        }
        if c >= '0' && c <= '9' {
            r.digit = true;
        }
        if !is_alphanumeric(c) {
            r.special = true;
        }
        assert(has_upper(after) == (has_upper(before) || is_ascii_upper(c))) by {
            if has_upper(before) {
                let j = choose|j: int| 0 <= j < before.len() && is_ascii_upper(#[trigger] before[j]);
                assert(is_ascii_upper(after[j]));
            }
            if has_upper(after) {
                let j = choose|j: int| 0 <= j < after.len() && is_ascii_upper(#[trigger] after[j]);
                if j < k {
                    assert(is_ascii_upper(before[j]));
                }
            }
        }
        assert(has_lower(after) == (has_lower(before) || is_ascii_lower(c))) by {
            if has_lower(before) {
                let j = choose|j: int| 0 <= j < before.len() && is_ascii_lower(#[trigger] before[j]);
                assert(is_ascii_lower(after[j]));
            }
            if has_lower(after) {
                let j = choose|j: int| 0 <= j < after.len() && is_ascii_lower(#[trigger] after[j]);
                if j < k {
                    assert(is_ascii_lower(before[j]));
                }
            }
        }
        assert(has_digit(after) == (has_digit(before) || is_ascii_digit(c))) by {
            if has_digit(before) {
                let j = choose|j: int| 0 <= j < before.len() && is_ascii_digit(#[trigger] before[j]);
                assert(is_ascii_digit(after[j]));
            }
            if has_digit(after) {
                let j = choose|j: int| 0 <= j < after.len() && is_ascii_digit(#[trigger] after[j]);
                if j < k {
                    assert(is_ascii_digit(before[j]));
                }
            }
        }
        assert(has_special(after) == (has_special(before) || !alphanumeric(c))) by {
            if has_special(before) {
                let j = choose|j: int| 0 <= j < before.len() && !alphanumeric(#[trigger] before[j]);
                assert(!alphanumeric(after[j]));
            }
            if has_special(after) {
                let j = choose|j: int| 0 <= j < after.len() && !alphanumeric(#[trigger] after[j]);
                if j < k {
                    assert(!alphanumeric(before[j]));
                }
            }
        }
    }
    assert(password@.take(password@.len() as int) =~= password@);
    r
}

/// The first rule a password breaks, if any.
pub fn find_violation(password: &str) -> (r: Option<PasswordViolation>)
    ensures
        r == password_violation(password@),
{
    let length: usize = password.as_bytes().len();
    assert(password.spec_bytes() == encode_utf8(password@));
    if length < 8 {
        return Some(PasswordViolation::TooShort);
    }
    let classes = char_classes(password);
    if !classes.upper {
        Some(PasswordViolation::NoUppercase)
    } else if !classes.lower {
        Some(PasswordViolation::NoLowercase)
    } else if !classes.digit {
        Some(PasswordViolation::NoDigit)
    } else if !classes.special {
        Some(PasswordViolation::NoSpecial)
    } else {
        None
    }
}

/// Accepts a password exactly when it breaks no rule of the policy;
/// otherwise reports the first broken rule as a validation error.
pub fn validate_password_strength(password: &str) -> (r: Result<(), ApiError>)
    ensures
        match password_violation(password@) {
            None => r is Ok,
            Some(v) => r matches Err(e) && e.kind == ErrorKind::ValidationError && e.message@
                == violation_text(v),
        },
{
    match find_violation(password) {
        None => Ok(()),
        Some(PasswordViolation::TooShort) => Err(
            ApiError::new(ErrorKind::ValidationError, "密码无效：长度不能少于8个字符"),
        ),
        Some(PasswordViolation::NoUppercase) => Err(
            ApiError::new(ErrorKind::ValidationError, "密码无效：必须包含至少一个大写字母"),
        ),
        Some(PasswordViolation::NoLowercase) => Err(
            ApiError::new(ErrorKind::ValidationError, "密码无效：必须包含至少一个小写字母"),
        ),
        Some(PasswordViolation::NoDigit) => Err(
            ApiError::new(ErrorKind::ValidationError, "密码无效：必须包含至少一个数字"),
        ),
        Some(PasswordViolation::NoSpecial) => Err(
            ApiError::new(ErrorKind::ValidationError, "密码无效：必须包含至少一个特殊字符"),
        ),
    }
}


/// The message for a new password whose confirmation differs.
pub open spec fn new_password_mismatch() -> Seq<char> {
    "新密码与确认密码不匹配"@
}

/// The message for a password whose confirmation differs.
pub open spec fn password_mismatch() -> Seq<char> {
    "密码与确认密码不匹配"@
}

/// Why a new password and its confirmation are turned away, if they
/// are: the message for a confirmation that differs, else the message of
/// the first rule of the policy that the password breaks.
pub open spec fn passwords_refusal(
    new_password: Seq<char>,
    confirm_password: Seq<char>,
    mismatch: Seq<char>,
) -> Option<Seq<char>> {
    if new_password != confirm_password {
        Some(mismatch)
    } else {
        match password_violation(new_password) {
            Some(v) => Some(violation_text(v)),
            None => None,
        }
    }
}

/// Checks a new password and its confirmation: they must agree, and the
/// password must keep the policy.
pub fn check_passwords(new_password: &String, confirm_password: &String, mismatch: &str) -> (r:
    Result<(), ApiError>)
    ensures
        match passwords_refusal(new_password@, confirm_password@, mismatch@) {
            Some(m) => r matches Err(e) && e.kind == ErrorKind::ValidationError && e.message@ == m,
            None => r is Ok,
        },
{
    if *new_password != *confirm_password {
        return Err(ApiError::new(ErrorKind::ValidationError, mismatch));
    }
    validate_password_strength(new_password.as_str())
}

/// What checking a password against a stored hash string gives.
#[derive(Clone, Copy, Debug, PartialEq, Eq, Structural)]
pub enum PasswordCheck {
    /// The hash string parses and was computed from this password.
    Match,
    /// The hash string parses and was computed from another password.
    Mismatch,
    /// The hash string does not parse, or names parameters that cannot be used.
    Malformed,
}

/// What Argon2 verification reports for a stored hash string and a password.
pub uninterp spec fn argon2_check(hash: Seq<char>, password: Seq<char>) -> PasswordCheck;

/// The error type of the `password-hash` crate, carried through unread.
#[verifier::external_type_specification]
#[verifier::external_body]
pub struct ExPasswordHashError(argon2::password_hash::Error);

/// `Argon2::default().hash_password` with a salt from
/// `SaltString::generate(OsRng)`, rendered as a PHC string. The salt is
/// random, so the string itself is not described; what is claimed is that
/// verification of that string against the same password succeeds, since
/// verification recomputes the hash from the salt and parameters that
/// the string records.
#[verifier::external_body]
fn argon2_hash(password: &str) -> (r: Result<String, argon2::password_hash::Error>)
    ensures
        r matches Ok(h) ==> argon2_check(h@, password@) == PasswordCheck::Match,
{
    let salt = argon2::password_hash::SaltString::generate(
        &mut argon2::password_hash::rand_core::OsRng,
    );
    match argon2::Argon2::default().hash_password(password.as_bytes(), &salt) {
        Ok(hash) => Ok(hash.to_string()),
        Err(e) => Err(e),
    }
}

/// `PasswordHash::new` followed by `Argon2::default().verify_password`:
/// the three outcomes are told apart, and the result depends on the two
/// strings alone.
#[verifier::external_body]
fn argon2_verify(hash_str: &str, password: &str) -> (r: PasswordCheck)
    ensures
        r == argon2_check(hash_str@, password@),
{
    match argon2::PasswordHash::new(hash_str) {
        Err(_) => PasswordCheck::Malformed,
        Ok(parsed) => match argon2::Argon2::default().verify_password(password.as_bytes(), &parsed) {
            Ok(()) => PasswordCheck::Match,
            Err(argon2::password_hash::Error::Password) => PasswordCheck::Mismatch,
            Err(_) => PasswordCheck::Malformed,
        },
    }
}

/// Hashes a password with Argon2id under a fresh random salt. A hash that
/// is returned verifies against the same password. A failure of the hasher
/// is an internal error.
pub fn hash_password(password: &str) -> (r: Result<String, ApiError>)
    ensures
        r matches Ok(h) ==> argon2_check(h@, password@) == PasswordCheck::Match,
        r matches Err(e) ==> e.kind == ErrorKind::InternalError,
{
    match argon2_hash(password) {
        Ok(h) => Ok(h),
        Err(_) => Err(ApiError::new(ErrorKind::InternalError, "Argon2 哈希密码失败")),
    }
}

/// What `verify_password` returns for each outcome of the check.
pub open spec fn check_outcome(check: PasswordCheck, r: Result<bool, ApiError>) -> bool {
    match check {
        PasswordCheck::Match => r == Ok::<bool, ApiError>(true),
        PasswordCheck::Mismatch => r == Ok::<bool, ApiError>(false),
        PasswordCheck::Malformed => r matches Err(e) && e.kind == ErrorKind::InternalError,
    }
}

/// Turns the outcome of a check into the verification result: a malformed
/// stored hash is an internal error, never a plain "no".
pub fn password_check_result(check: PasswordCheck) -> (r: Result<bool, ApiError>)
    ensures
        check_outcome(check, r),
{
    match check {
        PasswordCheck::Match => Ok(true),
        PasswordCheck::Mismatch => Ok(false),
        PasswordCheck::Malformed => Err(
            ApiError::new(ErrorKind::InternalError, "解析或验证密码哈希失败"),
        ),
    }
}

/// Checks a password against a stored hash string.
pub fn verify_password(hash_str: &str, password: &str) -> (r: Result<bool, ApiError>)
    ensures
        check_outcome(argon2_check(hash_str@, password@), r),
{
    password_check_result(argon2_verify(hash_str, password))
}

} // verus!
