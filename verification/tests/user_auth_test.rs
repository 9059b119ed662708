use dodopayments::error::ApiError;
use dodopayments::routes::auth::{bearer_token, AuthResolver};
use dodopayments::routes::user::error::UserError;
use dodopayments::routes::user::password::{
    check_outcome, generate_password_hash, hash_outcome, is_correct_password,
};
use dodopayments::types::Claims;

#[test]
fn test_generate_password_hash() {
    let password = "Password123!".to_string();
    let hash_result = generate_password_hash(password);
    assert!(hash_result.is_ok());
}

#[test]
fn test_is_correct_password() {
    let password = "Password123!".to_string();
    let hash = generate_password_hash(password.clone()).unwrap();
    let is_correct = is_correct_password(&password, &hash).unwrap();
    assert!(is_correct);

    let is_incorrect = is_correct_password(&"WrongPassword".to_string(), &hash).unwrap();
    assert!(!is_incorrect);
}

#[test]
fn password_hash_is_salted_and_not_the_password() {
    let password = "Password123!".to_string();
    let first = generate_password_hash(password.clone()).unwrap();
    let second = generate_password_hash(password.clone()).unwrap();
    assert_ne!(first, password);
    assert_ne!(first, second);
    assert!(first.starts_with("$argon2"));
    assert!(is_correct_password(&password, &second).unwrap());
}

#[test]
fn unreadable_hash_is_an_internal_error() {
    let candidate = "Password123!".to_string();
    let outcome = is_correct_password(&candidate, &"not a hash".to_string());
    assert_eq!(outcome, Err(UserError::InternalServerError));
    let outcome = is_correct_password(&candidate, &candidate);
    assert_eq!(outcome, Err(UserError::InternalServerError));
}

#[test]
fn outcomes_of_hashing_and_checking_are_handed_on() {
    assert_eq!(hash_outcome(Some("h".to_string())), Ok("h".to_string()));
    assert_eq!(hash_outcome(None), Err(UserError::InternalServerError));
    assert_eq!(check_outcome(Some(true)), Ok(true));
    assert_eq!(check_outcome(Some(false)), Ok(false));
    assert_eq!(check_outcome(None), Err(UserError::InternalServerError));
}

#[test]
fn bearer_token_is_what_follows_the_prefix() {
    assert_eq!(bearer_token(Some("Bearer abc.def.ghi")), Ok("abc.def.ghi".to_string()));
    assert_eq!(bearer_token(Some("Bearer ")), Ok(String::new()));
    assert_eq!(bearer_token(Some("Bearer  x")), Ok(" x".to_string()));
    assert_eq!(bearer_token(Some("Bearer tökén")), Ok("tökén".to_string()));
}

#[test]
fn header_without_bearer_prefix_is_refused() {
    let refused = Err(ApiError::HeadersError("JWT key"));
    assert_eq!(bearer_token(None), refused);
    assert_eq!(bearer_token(Some("")), refused);
    assert_eq!(bearer_token(Some("Bearer")), refused);
    assert_eq!(bearer_token(Some("bearer abc")), refused);
    assert_eq!(bearer_token(Some("Basic abc")), refused);
    assert_eq!(bearer_token(Some(" Bearer abc")), refused);
    assert_eq!(bearer_token(Some("Béarer abc")), refused);
}

#[test]
fn bearer_without_claims_is_unauthenticated() {
    let claims = Claims {
        user_id: "u".to_string(),
        email: "u@example.com".to_string(),
        name: "U".to_string(),
        exp: 7,
    };
    let resolved = AuthResolver::from_decoded(Some(claims)).unwrap();
    assert_eq!(resolved.0.user_id, "u");
    assert_eq!(resolved.0.exp, 7);
    let missing = AuthResolver::from_decoded(None);
    assert_eq!(missing.unwrap_err(), ApiError::UnAuthenticated);
}

#[test]
fn request_without_a_bearer_token_is_unauthenticated() {
    assert_eq!(AuthResolver::token(Some("Bearer abc")), Ok("abc".to_string()));
    for header in [None, Some(""), Some("Bearer"), Some("Basic abc"), Some("bearer abc")] {
        let refused = AuthResolver::token(header).unwrap_err();
        assert_eq!(refused, ApiError::UnAuthenticated);
        assert_eq!(refused.into_response().0, 401);
    }
}
