use dino_park_fence::error::FenceError;
use dino_park_fence::username::{check_username, username_differs};

#[test]
fn username_length_bounds() {
    assert_eq!(check_username("a"), Err(FenceError::UsernameLength));
    assert_eq!(check_username(""), Err(FenceError::UsernameLength));
    assert_eq!(check_username(&"a".repeat(65)), Err(FenceError::UsernameLength));
    assert_eq!(check_username("ab"), Ok(()));
    assert_eq!(check_username(&"z".repeat(64)), Ok(()));
}

#[test]
fn username_characters() {
    assert_eq!(check_username("Ab-9_x"), Ok(()));
    assert_eq!(check_username("a b"), Err(FenceError::UsernameInvalidChars));
    assert_eq!(check_username("a.b"), Err(FenceError::UsernameInvalidChars));
    assert_eq!(check_username("jérôme"), Err(FenceError::UsernameInvalidChars));
    assert_eq!(check_username("a@"), Err(FenceError::UsernameInvalidChars));
}

#[test]
fn username_length_counts_characters_not_bytes() {
    // 32 two-byte characters: 64 bytes but within the length bound.
    assert_eq!(check_username(&"é".repeat(32)), Err(FenceError::UsernameInvalidChars));
    // 65 characters of which one is invalid: the length is reported first.
    assert_eq!(check_username(&"é".repeat(65)), Err(FenceError::UsernameLength));
}

#[test]
fn username_change_detection() {
    let alice = Some("alice".to_string());
    assert!(!username_differs(&alice, &alice));
    assert!(!username_differs(&None, &alice));
    assert!(!username_differs(&None, &None));
    assert!(username_differs(&Some("ab".to_string()), &alice));
    assert!(username_differs(&alice, &None));
}
