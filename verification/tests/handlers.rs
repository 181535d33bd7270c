use notes_api::auth::{issue_token, verify_password, PasswordError, TOKEN_VALIDITY_SECS};
use notes_api::context::{Ambient, Config};
use notes_api::error::ApiError;
use notes_api::flow::{Pending, Query, Response, Step};
use notes_api::handlers::{
    create_note, delete_note, get_notes, login_user, plan_registration, register_user, update_note,
};
use notes_api::models::{LoginRequest, NewNote, NewUser, Note, User};

fn handler_config() -> Config {
    Config::new(b"handler-secret".to_vec())
}

fn handler_env() -> Ambient {
    Ambient {
        now: 500,
        timestamp: "2024-03-01T12:00:00+00:00".to_string(),
        fresh_id: "fresh".to_string(),
    }
}

fn handler_bearer(cfg: &Config, subject: &str) -> String {
    format!("Bearer {}", issue_token(subject, &cfg.secret, 400, cfg.token_validity).unwrap())
}

fn handler_payload() -> NewNote {
    NewNote { title: "title".to_string(), content: "content".to_string() }
}

#[test]
fn default_configuration_has_the_fifteen_minute_window() {
    let cfg = Config::new(b"k".to_vec());
    assert_eq!(cfg.token_validity, 900);
    assert_eq!(TOKEN_VALIDITY_SECS, 900);
    assert_eq!(cfg.secret, b"k".to_vec());
    let custom = Config::with_validity(b"k".to_vec(), 30);
    assert_eq!(custom.token_validity, 30);
}

#[test]
fn create_note_plans_an_insert_owned_by_the_subject() {
    let cfg = handler_config();
    let header = handler_bearer(&cfg, "alice-id");
    let step = create_note(&cfg, Some(&header), handler_payload(), &handler_env());
    let note = Note {
        id: "fresh".to_string(),
        title: "title".to_string(),
        content: "content".to_string(),
        created_at: "2024-03-01T12:00:00+00:00".to_string(),
        user_id: "alice-id".to_string(),
    };
    assert_eq!(step, Step::Ask(Query::InsertNote(note), Pending::Creation));
}

#[test]
fn get_notes_plans_a_listing_for_the_subject() {
    let cfg = handler_config();
    let header = handler_bearer(&cfg, "alice-id");
    assert_eq!(
        get_notes(&cfg, Some(&header), &handler_env()),
        Step::Ask(Query::ListNotes { owner: "alice-id".to_string() }, Pending::Listing)
    );
}

#[test]
fn delete_note_fetches_the_note_first() {
    let cfg = handler_config();
    let header = handler_bearer(&cfg, "alice-id");
    assert_eq!(
        delete_note(&cfg, Some(&header), "n1".to_string(), &handler_env()),
        Step::Ask(
            Query::GetNote { id: "n1".to_string() },
            Pending::DeleteCheck { subject: "alice-id".to_string(), id: "n1".to_string() }
        )
    );
}

#[test]
fn update_note_fetches_the_note_first() {
    let cfg = handler_config();
    let header = handler_bearer(&cfg, "alice-id");
    assert_eq!(
        update_note(&cfg, Some(&header), "n1".to_string(), handler_payload(), &handler_env()),
        Step::Ask(
            Query::GetNote { id: "n1".to_string() },
            Pending::UpdateCheck {
                subject: "alice-id".to_string(),
                id: "n1".to_string(),
                title: "title".to_string(),
                content: "content".to_string()
            }
        )
    );
}

#[test]
fn note_handlers_answer_unauthenticated_requests_at_once() {
    let cfg = handler_config();
    let env = handler_env();
    let missing = Step::Done(Response::Failure(ApiError::MissingToken));
    let invalid = Step::Done(Response::Failure(ApiError::InvalidToken));
    assert_eq!(create_note(&cfg, None, handler_payload(), &env), missing);
    assert_eq!(get_notes(&cfg, None, &env), missing);
    assert_eq!(delete_note(&cfg, None, "n1".to_string(), &env), missing);
    assert_eq!(update_note(&cfg, None, "n1".to_string(), handler_payload(), &env), missing);
    let bad = Some("Bearer bad.token.here");
    assert_eq!(create_note(&cfg, bad, handler_payload(), &env), invalid);
    assert_eq!(get_notes(&cfg, bad, &env), invalid);
    assert_eq!(delete_note(&cfg, bad, "n1".to_string(), &env), invalid);
    assert_eq!(update_note(&cfg, bad, "n1".to_string(), handler_payload(), &env), invalid);
}

#[test]
fn note_handlers_refuse_an_expired_token() {
    let cfg = handler_config();
    let header = handler_bearer(&cfg, "alice-id");
    let mut env = handler_env();
    env.now = 400 + 900;
    assert_eq!(
        get_notes(&cfg, Some(&header), &env),
        Step::Done(Response::Failure(ApiError::InvalidToken))
    );
    env.now = 400 + 899;
    assert!(matches!(get_notes(&cfg, Some(&header), &env), Step::Ask(_, _)));
}

#[test]
fn plan_registration_inserts_the_user_or_gives_up() {
    let step = plan_registration(
        "alice".to_string(),
        Ok("the-hash".to_string()),
        "u1".to_string(),
        "2024-03-01T12:00:00+00:00".to_string(),
    );
    let user = User {
        id: "u1".to_string(),
        username: "alice".to_string(),
        password_hash: "the-hash".to_string(),
        created_at: "2024-03-01T12:00:00+00:00".to_string(),
    };
    assert_eq!(
        step,
        Step::Ask(Query::InsertUser(user), Pending::Registration { id: "u1".to_string() })
    );
    let failed = plan_registration(
        "alice".to_string(),
        Err(PasswordError::HashingFailed),
        "u1".to_string(),
        "2024-03-01T12:00:00+00:00".to_string(),
    );
    assert_eq!(failed, Step::Done(Response::Failure(ApiError::StorageFailure)));
}

#[test]
fn register_user_stores_a_hash_that_verifies_and_never_the_password() {
    let payload = NewUser { username: "alice".to_string(), password: "pw1".to_string() };
    let step = register_user(payload, &handler_env());
    match step {
        Step::Ask(Query::InsertUser(user), Pending::Registration { id }) => {
            assert_eq!(id, "fresh");
            assert_eq!(user.id, "fresh");
            assert_eq!(user.username, "alice");
            assert_eq!(user.created_at, "2024-03-01T12:00:00+00:00");
            assert_ne!(user.password_hash, "pw1");
            assert_eq!(verify_password("pw1", &user.password_hash), Ok(true));
        }
        other => panic!("expected an insert, got {:?}", other),
    }
}

#[test]
fn login_user_looks_the_user_up() {
    let payload = LoginRequest { username: "alice".to_string(), password: "pw1".to_string() };
    assert_eq!(
        login_user(payload),
        Step::Ask(
            Query::FindUser { username: "alice".to_string() },
            Pending::Login { password: "pw1".to_string() }
        )
    );
}

#[test]
fn records_clone_to_equal_records() {
    let note = Note {
        id: "n".to_string(),
        title: "t".to_string(),
        content: "c".to_string(),
        created_at: "now".to_string(),
        user_id: "u".to_string(),
    };
    assert_eq!(note.clone(), note);
    let user = User {
        id: "u".to_string(),
        username: "a".to_string(),
        password_hash: "h".to_string(),
        created_at: "now".to_string(),
    };
    assert_eq!(user.clone(), user);
    let new_note = handler_payload();
    assert_eq!(new_note.clone(), new_note);
    let new_user = NewUser { username: "a".to_string(), password: "p".to_string() };
    assert_eq!(new_user.clone(), new_user);
    let login = LoginRequest { username: "a".to_string(), password: "p".to_string() };
    assert_eq!(login.clone(), login);
}
