use notes_api::auth::{issue_token, Claims};
use notes_api::error::ApiError;
use notes_api::guard::{authenticate, bearer_token, check_owner, same_text};
use notes_api::models::Note;

const GUARD_SECRET: &[u8] = b"guard-secret";

fn guard_note(owner: &str) -> Note {
    Note {
        id: "n1".to_string(),
        title: "t".to_string(),
        content: "c".to_string(),
        created_at: "2024-01-01T00:00:00+00:00".to_string(),
        user_id: owner.to_string(),
    }
}

#[test]
fn bearer_token_is_what_follows_the_prefix() {
    assert_eq!(bearer_token(Some("Bearer abc.def.ghi")), Ok("abc.def.ghi"));
    assert_eq!(bearer_token(Some("Bearer x")), Ok("x"));
    assert_eq!(bearer_token(Some("Bearer  two")), Ok(" two"));
    assert_eq!(bearer_token(Some("Bearer tökén")), Ok("tökén"));
}

#[test]
fn bearer_token_may_be_empty() {
    assert_eq!(bearer_token(Some("Bearer ")), Ok(""));
}

#[test]
fn missing_header_is_missing_token() {
    assert_eq!(bearer_token(None), Err(ApiError::MissingToken));
}

#[test]
fn header_without_the_prefix_is_missing_token() {
    assert_eq!(bearer_token(Some("")), Err(ApiError::MissingToken));
    assert_eq!(bearer_token(Some("Bearer")), Err(ApiError::MissingToken));
    assert_eq!(bearer_token(Some("bearer abc")), Err(ApiError::MissingToken));
    assert_eq!(bearer_token(Some("BEARER abc")), Err(ApiError::MissingToken));
    assert_eq!(bearer_token(Some("Basic abc")), Err(ApiError::MissingToken));
    assert_eq!(bearer_token(Some(" Bearer abc")), Err(ApiError::MissingToken));
    assert_eq!(bearer_token(Some("Bearerabc")), Err(ApiError::MissingToken));
    assert_eq!(bearer_token(Some("abc")), Err(ApiError::MissingToken));
    assert_eq!(bearer_token(Some("ßearer abc")), Err(ApiError::MissingToken));
}

#[test]
fn authenticate_accepts_a_live_token() {
    let token = issue_token("user-1", GUARD_SECRET, 100, 900).unwrap();
    let header = format!("Bearer {}", token);
    assert_eq!(
        authenticate(Some(&header), GUARD_SECRET, 100),
        Ok(Claims { sub: "user-1".to_string(), exp: 1_000 })
    );
    assert!(authenticate(Some(&header), GUARD_SECRET, 999).is_ok());
}

#[test]
fn authenticate_tells_missing_from_invalid() {
    let token = issue_token("user-1", GUARD_SECRET, 100, 900).unwrap();
    let header = format!("Bearer {}", token);
    assert_eq!(authenticate(None, GUARD_SECRET, 100), Err(ApiError::MissingToken));
    assert_eq!(authenticate(Some(&token), GUARD_SECRET, 100), Err(ApiError::MissingToken));
    assert_eq!(authenticate(Some("Bearer "), GUARD_SECRET, 100), Err(ApiError::InvalidToken));
    assert_eq!(authenticate(Some("Bearer junk"), GUARD_SECRET, 100), Err(ApiError::InvalidToken));
    assert_eq!(authenticate(Some(&header), GUARD_SECRET, 1_000), Err(ApiError::InvalidToken));
    assert_eq!(authenticate(Some(&header), b"other", 100), Err(ApiError::InvalidToken));
}

#[test]
fn owner_check_passes_the_owner() {
    let note = guard_note("alice");
    assert_eq!(check_owner(Some(note.clone()), "alice"), Ok(note));
}

#[test]
fn owner_check_forbids_everybody_else() {
    assert_eq!(check_owner(Some(guard_note("alice")), "bob"), Err(ApiError::Forbidden));
    assert_eq!(check_owner(Some(guard_note("alice")), "Alice"), Err(ApiError::Forbidden));
    assert_eq!(check_owner(Some(guard_note("alice")), ""), Err(ApiError::Forbidden));
    assert_eq!(check_owner(Some(guard_note("alice")), "alice "), Err(ApiError::Forbidden));
}

#[test]
fn owner_check_reports_a_missing_note() {
    assert_eq!(check_owner(None, "alice"), Err(ApiError::NotFound));
}

#[test]
fn same_text_compares_characters() {
    assert!(same_text("", ""));
    assert!(same_text("abc", "abc"));
    assert!(!same_text("abc", "abd"));
    assert!(!same_text("abc", "ab"));
    assert!(!same_text("é", "e"));
}
