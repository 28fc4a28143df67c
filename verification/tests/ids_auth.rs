use geek_storage::auth::is_authorized;
use geek_storage::ids::{generate_id, is_valid_id};

#[test]
fn well_formed_ids_are_accepted() {
    assert!(is_valid_id("aB3x9"));
    assert!(is_valid_id("00000"));
    assert!(is_valid_id("ZZZZZ"));
}

#[test]
fn ill_formed_ids_are_rejected() {
    assert!(!is_valid_id(""));
    assert!(!is_valid_id("abcd"));
    assert!(!is_valid_id("abcdef"));
    assert!(!is_valid_id("abcd!"));
    assert!(!is_valid_id("ab cd"));
    assert!(!is_valid_id("äbcde"));
    assert!(!is_valid_id("../ab"));
}

#[test]
fn generated_ids_are_well_formed() {
    for _ in 0..200 {
        let id = generate_id().expect("the system supplies randomness");
        assert_eq!(id.len(), 5);
        assert!(id.chars().all(|c| c.is_ascii_alphanumeric()));
        assert!(is_valid_id(&id));
    }
}

#[test]
fn no_token_allows_everyone() {
    assert!(is_authorized(None, None));
    assert!(is_authorized(None, Some("Bearer whatever")));
}

#[test]
fn bearer_token_must_match_exactly() {
    assert!(is_authorized(Some("s3cret"), Some("Bearer s3cret")));
    assert!(!is_authorized(Some("s3cret"), None));
    assert!(!is_authorized(Some("s3cret"), Some("s3cret")));
    assert!(!is_authorized(Some("s3cret"), Some("Bearer s3cre")));
    assert!(!is_authorized(Some("s3cret"), Some("Bearer s3cret ")));
    assert!(!is_authorized(Some("s3cret"), Some("bearer s3cret")));
    assert!(!is_authorized(Some("s3cret"), Some("Basic s3cret")));
}

#[test]
fn empty_token_needs_bare_bearer() {
    assert!(is_authorized(Some(""), Some("Bearer ")));
    assert!(!is_authorized(Some(""), Some("Bearer")));
}
