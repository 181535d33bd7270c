use notes_api::error::ApiError;
use notes_api::flow::Response;
use notes_api::models::Note;

#[test]
fn every_failure_has_its_status() {
    assert_eq!(ApiError::MissingToken.status(), 401);
    assert_eq!(ApiError::InvalidToken.status(), 401);
    assert_eq!(ApiError::InvalidCredentials.status(), 401);
    assert_eq!(ApiError::Forbidden.status(), 403);
    assert_eq!(ApiError::NotFound.status(), 404);
    assert_eq!(ApiError::DuplicateUsername.status(), 409);
    assert_eq!(ApiError::StorageFailure.status(), 500);
}

#[test]
fn every_failure_has_its_message() {
    assert_eq!(ApiError::MissingToken.message(), "Missing token");
    assert_eq!(ApiError::InvalidToken.message(), "Invalid token");
    assert_eq!(ApiError::InvalidCredentials.message(), "Invalid credentials");
    assert_eq!(ApiError::Forbidden.message(), "Not authorized");
    assert_eq!(ApiError::NotFound.message(), "Note not found");
    assert_eq!(ApiError::DuplicateUsername.message(), "Username already taken");
    assert_eq!(ApiError::StorageFailure.message(), "Internal server error");
}

#[test]
fn every_response_has_its_status() {
    let note = Note {
        id: "n".to_string(),
        title: "t".to_string(),
        content: "c".to_string(),
        created_at: "now".to_string(),
        user_id: "u".to_string(),
    };
    assert_eq!(Response::Registered { id: "u".to_string() }.status(), 201);
    assert_eq!(Response::LoggedIn { token: "t".to_string() }.status(), 200);
    assert_eq!(Response::NoteCreated(note.clone()).status(), 201);
    assert_eq!(Response::NoteList(vec![note.clone()]).status(), 200);
    assert_eq!(Response::NoteUpdated(note).status(), 200);
    assert_eq!(Response::NoteDeleted.status(), 204);
    assert_eq!(Response::Failure(ApiError::Forbidden).status(), 403);
    assert_eq!(Response::Failure(ApiError::StorageFailure).status(), 500);
}
