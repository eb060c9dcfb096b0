use auth_window::auth_middleware::{bearer_token, AuthMiddleware, Rejection};
use auth_window::errors::TokenError;
use auth_window::jwt::{create_token, issue};

#[test]
fn marker_is_taken_off_the_header() {
    assert_eq!(bearer_token("Bearer abc.def.ghi"), "abc.def.ghi");
}

#[test]
fn header_without_marker_is_the_token() {
    assert_eq!(bearer_token("abc.def.ghi"), "abc.def.ghi");
    assert_eq!(bearer_token("Basic dXNlcjpwdw=="), "Basic dXNlcjpwdw==");
}

#[test]
fn marker_is_removed_wherever_it_occurs() {
    assert_eq!(bearer_token("Bearer Bearer abc"), "abc");
    assert_eq!(bearer_token("xBearer y"), "xy");
    assert_eq!(bearer_token("abcBearer "), "abc");
    assert_eq!(bearer_token("Bearer "), "");
    assert_eq!(bearer_token("Bearer Bearer "), "");
}

#[test]
fn removed_text_is_not_scanned_again() {
    assert_eq!(bearer_token("BBearer earer x"), "Bearer x");
    assert_eq!(bearer_token("Bearer Bearer"), "Bearer");
}

#[test]
fn near_markers_are_kept() {
    assert_eq!(bearer_token(""), "");
    assert_eq!(bearer_token("Bearer"), "Bearer");
    assert_eq!(bearer_token("bearer abc"), "bearer abc");
    assert_eq!(bearer_token("Bearer\tabc"), "Bearer\tabc");
    assert_eq!(bearer_token("Beare r abc"), "Beare r abc");
    assert_eq!(bearer_token("Bearer"), "Bearer");
    assert_eq!(bearer_token("Bear"), "Bear");
}

#[test]
fn non_ascii_headers_are_handled() {
    assert_eq!(bearer_token("Bearer t\u{f6}ken"), "t\u{f6}ken");
    assert_eq!(bearer_token("\u{1F600}Bearer \u{e9}Bearer "), "\u{1F600}\u{e9}");
    assert_eq!(bearer_token("B\u{e9}arer x"), "B\u{e9}arer x");
}

#[test]
fn extraction_agrees_with_replacing_the_marker() {
    let samples = [
        "",
        " ",
        "Bearer ",
        "Bearer abc",
        "Bearer  abc",
        " Bearer abc",
        "BeBearer arer abc",
        "Bearer Bearer Bearer x",
        "BearerBearer Bearer",
        "Bearer BBearer earer ",
        "eyJ0eXAi.eyJzdWIi.sig",
        "Bearer eyJ0eXAi.eyJzdWIi.sig",
        "B",
        "Be",
        "Bea",
        "Bear",
        "Beare",
        "Bearer",
        "r Bearer r Bearer r",
        "Bearer \u{e9}Bearer \u{1F600}",
    ];
    for sample in samples {
        assert_eq!(bearer_token(sample), sample.replace("Bearer ", ""), "for {:?}", sample);
    }
}

#[test]
fn long_header_is_handled() {
    let mut header = String::new();
    let mut expected = String::new();
    let mut i: u32 = 0;
    while i < 2000 {
        header.push_str("Bearer ab");
        expected.push_str("ab");
        i += 1;
    }
    assert_eq!(bearer_token(&header), expected);
}

#[test]
fn request_without_header_is_rejected() {
    let guard = AuthMiddleware::new("secret".to_string()).new_transform(());
    assert_eq!(guard.authenticate_at(None, 1000).err(), Some(Rejection::MissingHeader));
    assert_eq!(guard.authenticate(None).err(), Some(Rejection::MissingHeader));
}

#[test]
fn request_with_garbage_token_is_rejected() {
    let guard = AuthMiddleware::new("secret".to_string()).new_transform(());
    assert_eq!(
        guard.authenticate_at(Some("Bearer garbage"), 1000).err(),
        Some(Rejection::InvalidToken(TokenError::Malformed))
    );
    assert_eq!(
        guard.authenticate(Some("Bearer garbage")).err(),
        Some(Rejection::InvalidToken(TokenError::Malformed))
    );
    assert_eq!(
        guard.authenticate_at(Some(""), 1000).err(),
        Some(Rejection::InvalidToken(TokenError::Malformed))
    );
}

#[test]
fn request_with_valid_token_passes_with_its_claims() {
    let guard = AuthMiddleware::new("secret".to_string()).new_transform(());
    let token = issue("user-42", 1000, 60, "secret").unwrap();
    let header = format!("Bearer {}", token);
    let claims = guard.authenticate_at(Some(&header), 1030).unwrap();
    assert_eq!(claims.sub, "user-42");
    assert_eq!(claims.exp, 1060);
}

#[test]
fn bare_token_passes_too() {
    let guard = AuthMiddleware::new("secret".to_string()).new_transform(());
    let token = issue("user-42", 1000, 60, "secret").unwrap();
    let claims = guard.authenticate_at(Some(&token), 1030).unwrap();
    assert_eq!(claims.sub, "user-42");
}

#[test]
fn request_with_expired_token_is_rejected() {
    let guard = AuthMiddleware::new("secret".to_string()).new_transform(());
    let token = issue("user-42", 1000, 60, "secret").unwrap();
    let header = format!("Bearer {}", token);
    assert_eq!(
        guard.authenticate_at(Some(&header), 1060).err(),
        Some(Rejection::InvalidToken(TokenError::Expired))
    );
}

#[test]
fn request_with_token_of_another_secret_is_rejected() {
    let guard = AuthMiddleware::new("secret".to_string()).new_transform(());
    let token = issue("user-42", 1000, 60, "another").unwrap();
    let header = format!("Bearer {}", token);
    assert_eq!(
        guard.authenticate_at(Some(&header), 1030).err(),
        Some(Rejection::InvalidToken(TokenError::SignatureMismatch))
    );
}

#[test]
fn clock_based_guard_passes_a_fresh_token_and_rejects_an_old_one() {
    let guard = AuthMiddleware::new("secret".to_string()).new_transform(());
    let now: u64 = jsonwebtoken::get_current_timestamp();
    let fresh = format!("Bearer {}", issue("user-42", now, 3600, "secret").unwrap());
    assert_eq!(guard.authenticate(Some(&fresh)).unwrap().sub, "user-42");
    let old = format!("Bearer {}", create_token("user-42", "secret", 1000).unwrap());
    assert_eq!(guard.authenticate(Some(&old)).err(), Some(Rejection::InvalidToken(TokenError::Expired)));
}

#[test]
fn every_rejection_is_answered_with_401() {
    assert_eq!(Rejection::MissingHeader.status(), 401);
    assert_eq!(Rejection::InvalidToken(TokenError::Malformed).status(), 401);
    assert_eq!(Rejection::InvalidToken(TokenError::SignatureMismatch).status(), 401);
    assert_eq!(Rejection::InvalidToken(TokenError::Expired).status(), 401);
}

#[test]
fn rejection_messages_tell_missing_from_invalid_only() {
    assert_eq!(Rejection::MissingHeader.message(), "Missing Authorization header");
    assert_eq!(Rejection::InvalidToken(TokenError::Malformed).message(), "Invalid token");
    assert_eq!(Rejection::InvalidToken(TokenError::SignatureMismatch).message(), "Invalid token");
    assert_eq!(Rejection::InvalidToken(TokenError::Expired).message(), "Invalid token");
}

#[test]
fn guard_hands_out_the_service_it_was_put_in_front_of() {
    let guard = AuthMiddleware { jwt_secret: "secret".to_string() }.new_transform(17u32);
    assert_eq!(*guard.service(), 17);
}

#[test]
fn control_characters_are_kept() {
    assert_eq!(bearer_token("\0Bearer \u{7f}"), "\0\u{7f}");
    assert_eq!(bearer_token("Bearer \u{80}"), "\u{80}");
    assert_eq!(bearer_token("\u{7f}\u{80}Bearer \u{ff}"), "\u{7f}\u{80}\u{ff}");
}
