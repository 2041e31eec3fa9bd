use application::storage::Name;
use application::user::entity::{ExternalID, Login, Password};
use application::validation::{decimal_string, ValidationError};

#[test]
fn entity_valid() {
    let result = Name::new("foo");

    assert!(result.is_ok());
    assert_eq!(result.unwrap().as_str(), "foo");
}

#[test]
fn invalid_less_than_min() {
    let result = Name::new("fo");

    assert!(result.is_err());
    let err = result.err().unwrap();
    assert_eq!("length is lower than 3", err.to_string());
}

#[test]
fn invalid_greater_than_max() {
    let result = Name::new(&"1".repeat(256));

    assert!(result.is_err());
    let err = result.err().unwrap();
    assert_eq!("length is greater than 255", err.to_string());
}

#[test]
fn name_boundaries() {
    assert!(Name::new("abc").is_ok());
    assert!(Name::new(&"x".repeat(255)).is_ok());
    assert_eq!(Name::new("ab").err(), Some(ValidationError::TooShort { min: 3 }));
    assert_eq!(
        Name::new(&"x".repeat(256)).err(),
        Some(ValidationError::TooLong { max: 255 })
    );
    assert_ne!(
        Name::new("ab").err().unwrap().to_string(),
        Name::new(&"x".repeat(256)).err().unwrap().to_string()
    );
}

#[test]
fn name_length_counts_characters() {
    assert!(Name::new("äöü").is_ok());
    assert!(Name::new(&"é".repeat(255)).is_ok());
    assert!(Name::new("äö").is_err());
}

#[test]
fn valid() {
    let result = Login::new("user@example.com");

    assert!(result.is_ok());
    assert_eq!(result.unwrap().as_str(), "user@example.com");
}

#[test]
fn invalid_empty() {
    let result = Login::new("");

    assert!(result.is_err());
    let err = result.err().unwrap();
    assert_eq!("not a valid email: value is empty", err.to_string());
}

#[test]
fn invalid_not_a_email() {
    let result = Login::new("foo");

    assert!(result.is_err());
    let err = result.err().unwrap();
    assert_eq!("not a valid email: value is missing `@`", err.to_string());
}

#[test]
fn password_valid() {
    let result = Password::new("Pa$$w0rd");

    assert!(result.is_ok());
    assert_eq!(result.unwrap().as_str(), "Pa$$w0rd");
}

#[test]
fn invalid_non_ascii() {
    let result = Password::new("Pa$$w0rdƱ");

    assert!(result.is_err());
    let err = result.err().unwrap();
    assert_eq!("not ascii", err.to_string());
}

#[test]
fn entity_invalid_less_than_required() {
    let result = Password::new("p1$");

    assert!(result.is_err());
    let err = result.err().unwrap();
    assert_eq!("length is lower than 8", err.to_string());
}

#[test]
fn invalid_did_not_has_a_letter() {
    let result = Password::new("$145");

    assert!(result.is_err());
    let err = result.err().unwrap();
    assert_eq!("didn't contains a letter", err.to_string());
}

#[test]
fn invalid_did_not_has_a_digit() {
    let result = Password::new("pa$$word");

    assert!(result.is_err());
    let err = result.err().unwrap();
    assert_eq!("didn't contains a digit", err.to_string());
}

#[test]
fn invalid_did_not_has_a_special_character() {
    let result = Password::new("passw0rd");

    assert!(result.is_err());
    let err = result.err().unwrap();
    assert_eq!("didn't contains a special character", err.to_string());
}

#[test]
fn external_id_valid() {
    let result = ExternalID::new("1");

    assert!(result.is_ok());
    assert_eq!(result.unwrap().as_str(), "1");
}

#[test]
fn invalid_less_than_required() {
    let result = ExternalID::new("");

    assert!(result.is_err());
    let err = result.err().unwrap();
    assert_eq!("length is lower than 1", err.to_string());
}

#[test]
fn decimal_notation() {
    assert_eq!(decimal_string(0), "0");
    assert_eq!(decimal_string(7), "7");
    assert_eq!(decimal_string(10), "10");
    assert_eq!(decimal_string(255), "255");
    assert_eq!(decimal_string(usize::MAX), usize::MAX.to_string());
}

#[test]
fn unicode_letters_and_digits_count() {
    assert!(Password::new("Ωmega$12").is_err()); // not ascii, but strong
    assert_eq!(
        Password::new("Ωmega$12").err(),
        Some(ValidationError::NotAscii)
    );
    assert_eq!(
        Password::new("12345678").err(),
        Some(ValidationError::NoLetter)
    );
}
