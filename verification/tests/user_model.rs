use karma_core::user::{Password, PasswordError, User, UserError, Username, UsernameError};

#[test]
pub fn test_username_too_short() {
    let user = User::new("vlad", "V1@eflsjdfnsdf");
    match user {
        Err(UserError::UsernameValidation(UsernameError::UsernameSize)) => {
            assert!(true);
        }
        res => {
            let statement = format!("Should have been a Username size error but it is {:?}", res);
            assert!(false, "{}", statement);
        }
    }
}

#[test]
pub fn test_invalid_username() {
    let user = User::new("1vladonzis", "V1@eflsjdfnsdf");
    match user {
        Err(UserError::UsernameValidation(UsernameError::DoesntStartWithLowercaseLetter)) => {
            assert!(true);
        }
        res => {
            let statement = format!(
                "Should have been a UsernameError::DoesntStartWithLowercaseLetter error
                        but it is a {:?}",
                res
            );
            assert!(false, "{}", statement);
        }
    }
}

#[test]
pub fn test_valid_username() {
    let user = User::new("vladonzis", "V1@eflsjdfnsdf").unwrap();
    assert_eq!(user.username.get_username(), "vladonzis".to_string());
    bcrypt::verify("V1@eflsjdfnsdf", &user.hashed_password.get_password()).unwrap();
}

#[test]
fn username_starting_with_uppercase_is_rejected() {
    assert!(matches!(
        Username::new("Vladonzis"),
        Err(UsernameError::DoesntStartWithLowercaseLetter)
    ));
}

#[test]
fn username_of_six_lowercase_led_chars_is_accepted() {
    let u = Username::new("abcde5").unwrap();
    assert_eq!(u.get_username(), "abcde5");
}

#[test]
fn password_too_short_is_rejected() {
    assert!(matches!(Password::new("Ab1!"), Err(PasswordError::PasswordSize)));
}

#[test]
fn password_without_digit_is_rejected() {
    assert!(matches!(Password::new("Abcdefg!"), Err(PasswordError::NoDigit)));
}

#[test]
fn password_without_special_char_is_rejected() {
    assert!(matches!(Password::new("Abcdefg1"), Err(PasswordError::NoSpecialChar)));
}

#[test]
fn password_without_uppercase_is_rejected() {
    assert!(matches!(Password::new("abcdefg1!"), Err(PasswordError::NoUppercaseLetter)));
}

#[test]
fn valid_password_is_hashed_and_verifiable() {
    let p = Password::new("V1@eflsjdfnsdf").unwrap();
    let stored = p.get_password();
    // the stored form is a bcrypt hash, never the plaintext
    assert_ne!(stored, "V1@eflsjdfnsdf");
    assert_eq!(stored.len(), 60);
    assert!(stored.starts_with('$'));
    assert!(bcrypt::verify("V1@eflsjdfnsdf", &stored).unwrap());
}

#[test]
fn the_library_checks_a_plaintext_against_its_own_hash() {
    let p = Password::new("V1@eflsjdfnsdf").unwrap();
    assert_eq!(p.verify("V1@eflsjdfnsdf").unwrap(), true);
    assert_eq!(p.verify("not-the-password").unwrap(), false);
}

#[test]
fn verifying_against_a_non_bcrypt_stored_form_fails() {
    let p = Password::from_hashed("not a bcrypt hash");
    assert!(matches!(p.verify("whatever"), Err(PasswordError::PasswordHash)));
}

#[test]
fn from_hashed_never_rehashes() {
    let p = Password::from_hashed("$2b$12$abcdefghijklmnopqrstuv");
    assert_eq!(p.get_password(), "$2b$12$abcdefghijklmnopqrstuv");
}
