use dino_park_fence::error::{field_error, FenceError, USERNAME_RULES};

#[test]
fn field_error_joins_code_and_cause() {
    let e = field_error("username_exists", "taken");
    assert_eq!(e.message, "username_exists");
    assert_eq!(e.internal_error, Some("username_exists: taken".to_string()));
}

#[test]
fn errors_map_to_field_errors() {
    let e = FenceError::MissingUser.to_field_error();
    assert_eq!(e.message, "no username in query or scope");
    assert_eq!(e.internal_error, Some("no username in query or scope: ?!".to_string()));

    let e = FenceError::UsernameLength.to_field_error();
    assert_eq!(e.message, "username_length");
    assert_eq!(e.internal_error, Some(format!("username_length: {}", USERNAME_RULES)));

    let e = FenceError::UsernameInvalidChars.to_field_error();
    assert_eq!(e.message, "username_invalid_chars");
    assert_eq!(e.internal_error, Some(format!("username_invalid_chars: {}", USERNAME_RULES)));

    let e = FenceError::UsernameExists.to_field_error();
    assert_eq!(e.message, "username_exists");
    assert_eq!(
        e.internal_error,
        Some("username_exists: This username already exitst!".to_string())
    );

    let e = FenceError::UpdateApplyFailed("bad signature".to_string()).to_field_error();
    assert_eq!(e.message, "unable update/sign profle");
    assert_eq!(e.internal_error, Some("unable update/sign profle: bad signature".to_string()));

    let e = FenceError::Store("503 from store".to_string()).to_field_error();
    assert_eq!(e.message, "503 from store");
    assert_eq!(e.internal_error, None);
}
