use blog_backend::api_error::ErrorKind;
use blog_backend::utils::password::{
    check_passwords, find_violation, hash_password, validate_password_strength, verify_password,
    PasswordViolation,
};

#[test]
fn strong_password_is_accepted() {
    assert!(validate_password_strength("Abcd1234!").is_ok());
    assert!(validate_password_strength("StrongPassword123!").is_ok());
    assert_eq!(find_violation("Abcd1234!"), None);
}

#[test]
fn short_password_is_rejected() {
    let err = validate_password_strength("Short1!").unwrap_err();
    assert_eq!(err.kind, ErrorKind::ValidationError);
    assert_eq!(err.message, "密码无效：长度不能少于8个字符");
    assert_eq!(err.status_code(), 400);
}

#[test]
fn each_rule_is_reported_in_order() {
    assert_eq!(find_violation(""), Some(PasswordViolation::TooShort));
    assert_eq!(find_violation("Abc1!"), Some(PasswordViolation::TooShort));
    assert_eq!(find_violation("longpassword1!"), Some(PasswordViolation::NoUppercase));
    assert_eq!(find_violation("LONGPASSWORD1!"), Some(PasswordViolation::NoLowercase));
    assert_eq!(find_violation("LongPassword!"), Some(PasswordViolation::NoDigit));
    assert_eq!(find_violation("LongPassword1"), Some(PasswordViolation::NoSpecial));
    assert_eq!(find_violation("12345678"), Some(PasswordViolation::NoUppercase));
}

#[test]
fn messages_name_the_broken_rule() {
    let err = validate_password_strength("longpassword1!").unwrap_err();
    assert_eq!(err.message, "密码无效：必须包含至少一个大写字母");
    let err = validate_password_strength("LONGPASSWORD1!").unwrap_err();
    assert_eq!(err.message, "密码无效：必须包含至少一个小写字母");
    let err = validate_password_strength("LongPassword!").unwrap_err();
    assert_eq!(err.message, "密码无效：必须包含至少一个数字");
    let err = validate_password_strength("LongPassword1").unwrap_err();
    assert_eq!(err.message, "密码无效：必须包含至少一个特殊字符");
}

#[test]
fn length_is_counted_in_bytes() {
    // Six characters, ten bytes.
    assert_eq!(find_violation("Aa1密码!"), None);
    // Seven characters, seven bytes.
    assert_eq!(find_violation("Aa1!Aa1"), Some(PasswordViolation::TooShort));
}

#[test]
fn letters_of_other_scripts_are_not_special() {
    // 'é' is alphanumeric, so no special character is present.
    assert_eq!(find_violation("Abcd1234é"), Some(PasswordViolation::NoSpecial));
    assert_eq!(find_violation("Abcd1234 "), None);
}

#[test]
fn hash_then_verify_round_trip() {
    let hash = hash_password("Abcd1234!").unwrap();
    assert_ne!(hash, "Abcd1234!");
    assert!(hash.starts_with("$argon2id$"));
    assert!(verify_password(&hash, "Abcd1234!").unwrap());
    assert!(!verify_password(&hash, "Abcd1234?").unwrap());
}

#[test]
fn two_hashes_of_one_password_differ() {
    let first = hash_password("Abcd1234!").unwrap();
    let second = hash_password("Abcd1234!").unwrap();
    assert_ne!(first, second);
    assert!(verify_password(&second, "Abcd1234!").unwrap());
}

#[test]
fn malformed_hash_is_an_internal_error() {
    let err = verify_password("not a hash", "Abcd1234!").unwrap_err();
    assert_eq!(err.kind, ErrorKind::InternalError);
    assert_eq!(err.status_code(), 500);
}

#[test]
fn a_password_and_its_confirmation_are_checked_together() {
    let new = "Abcd1234!".to_string();
    assert!(check_passwords(&new, &"Abcd1234!".to_string(), "不一致").is_ok());
    let err = check_passwords(&new, &"Abcd1234?".to_string(), "不一致").unwrap_err();
    assert_eq!(err.kind, ErrorKind::ValidationError);
    assert_eq!(err.message, "不一致");
    let weak = "abc".to_string();
    let err = check_passwords(&weak, &"abd".to_string(), "不一致").unwrap_err();
    assert_eq!(err.message, "不一致");
    let err = check_passwords(&weak, &"abc".to_string(), "不一致").unwrap_err();
    assert_eq!(err.kind, ErrorKind::ValidationError);
    assert_eq!(err.message, "密码无效：长度不能少于8个字符");
}

#[test]
fn only_letters_and_digits_of_ascii_are_alphanumeric_there() {
    for c in ['!', ' ', '-', '_', '@', '[', '`', '{', '~', '/', ':'] {
        let password = format!("Abcdefg1{}", c);
        assert!(validate_password_strength(&password).is_ok());
    }
    for c in ['a', 'z', 'A', 'Z', '0', '9'] {
        let password = format!("Abcdefg1{}", c);
        let err = validate_password_strength(&password).unwrap_err();
        assert_eq!(err.message, "密码无效：必须包含至少一个特殊字符");
    }
}
