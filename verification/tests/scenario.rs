use notes_api::auth::verify_token;
use notes_api::context::{Ambient, Config};
use notes_api::error::ApiError;
use notes_api::flow::Response;
use notes_api::handlers::{
    create_note, delete_note, get_notes, login_user, register_user, update_note,
};
use notes_api::models::{LoginRequest, NewNote, NewUser, Note};
use notes_api::store::Database;

fn scenario_config() -> Config {
    Config::new(b"scenario-secret".to_vec())
}

fn scenario_env(now: u64, fresh_id: &str) -> Ambient {
    Ambient {
        now,
        timestamp: format!("2024-05-01T10:00:{:02}+00:00", now % 60),
        fresh_id: fresh_id.to_string(),
    }
}

fn scenario_register(db: &mut Database, cfg: &Config, name: &str, password: &str, env: &Ambient) -> Response {
    let payload = NewUser { username: name.to_string(), password: password.to_string() };
    db.serve(cfg, register_user(payload, env), env.now)
}

fn scenario_login(db: &mut Database, cfg: &Config, name: &str, password: &str, now: u64) -> Response {
    let payload = LoginRequest { username: name.to_string(), password: password.to_string() };
    db.serve(cfg, login_user(payload), now)
}

fn scenario_token(response: Response) -> String {
    match response {
        Response::LoggedIn { token } => token,
        other => panic!("expected a token, got {:?}", other),
    }
}

fn scenario_bearer(token: &str) -> String {
    format!("Bearer {}", token)
}

#[test]
fn alice_and_bob_scenario() {
    let cfg = scenario_config();
    let mut db = Database::new();

    let at_register = scenario_env(1_000, "id-alice");
    let registered = scenario_register(&mut db, &cfg, "alice", "pw1", &at_register);
    assert_eq!(registered.status(), 201);
    assert_eq!(registered, Response::Registered { id: "id-alice".to_string() });

    let logged_in = scenario_login(&mut db, &cfg, "alice", "pw1", 1_010);
    assert_eq!(logged_in.status(), 200);
    let alice_token = scenario_token(logged_in);
    let alice = scenario_bearer(&alice_token);

    let at_create = scenario_env(1_020, "id-note");
    let payload = NewNote { title: "a".to_string(), content: "b".to_string() };
    let created = db.serve(&cfg, create_note(&cfg, Some(&alice), payload, &at_create), 1_020);
    assert_eq!(created.status(), 201);
    let note = Note {
        id: "id-note".to_string(),
        title: "a".to_string(),
        content: "b".to_string(),
        created_at: at_create.timestamp.clone(),
        user_id: "id-alice".to_string(),
    };
    assert_eq!(created, Response::NoteCreated(note.clone()));

    let at_list = scenario_env(1_030, "unused");
    let listed = db.serve(&cfg, get_notes(&cfg, Some(&alice), &at_list), 1_030);
    assert_eq!(listed.status(), 200);
    assert_eq!(listed, Response::NoteList(vec![note.clone()]));

    let at_bob = scenario_env(1_040, "id-bob");
    assert_eq!(scenario_register(&mut db, &cfg, "bob", "pw2", &at_bob).status(), 201);
    let bob = scenario_bearer(&scenario_token(scenario_login(&mut db, &cfg, "bob", "pw2", 1_050)));

    let at_delete = scenario_env(1_060, "unused");
    let refused = db.serve(
        &cfg,
        delete_note(&cfg, Some(&bob), "id-note".to_string(), &at_delete),
        1_060,
    );
    assert_eq!(refused.status(), 403);
    assert_eq!(refused, Response::Failure(ApiError::Forbidden));
    assert_eq!(db.notes(), &vec![note.clone()]);

    let deleted = db.serve(
        &cfg,
        delete_note(&cfg, Some(&alice), "id-note".to_string(), &at_delete),
        1_060,
    );
    assert_eq!(deleted.status(), 204);
    assert_eq!(deleted, Response::NoteDeleted);

    let listed_again = db.serve(&cfg, get_notes(&cfg, Some(&alice), &at_list), 1_070);
    assert_eq!(listed_again, Response::NoteList(vec![]));
    assert_eq!(db.note_count(), 0);
    assert_eq!(db.user_count(), 2);
}

#[test]
fn register_then_login_gives_a_token_for_the_registered_id() {
    let cfg = scenario_config();
    let mut db = Database::new();
    let env = scenario_env(50, "id-carol");
    assert_eq!(
        scenario_register(&mut db, &cfg, "carol", "s3cret", &env),
        Response::Registered { id: "id-carol".to_string() }
    );
    let token = scenario_token(scenario_login(&mut db, &cfg, "carol", "s3cret", 60));
    let claims = verify_token(&token, &cfg.secret, 60).unwrap();
    assert_eq!(claims.sub, "id-carol");
    assert_eq!(claims.exp, 60 + 900);
    assert_eq!(db.user_count(), 1);
}

#[test]
fn login_with_wrong_password_or_unknown_user_is_refused() {
    let cfg = scenario_config();
    let mut db = Database::new();
    let env = scenario_env(50, "id-carol");
    scenario_register(&mut db, &cfg, "carol", "s3cret", &env);
    let wrong = scenario_login(&mut db, &cfg, "carol", "guess", 60);
    assert_eq!(wrong, Response::Failure(ApiError::InvalidCredentials));
    assert_eq!(wrong.status(), 401);
    let unknown = scenario_login(&mut db, &cfg, "nobody", "s3cret", 60);
    assert_eq!(unknown, Response::Failure(ApiError::InvalidCredentials));
}

#[test]
fn registering_a_username_twice_is_refused_and_keeps_one_row() {
    let cfg = scenario_config();
    let mut db = Database::new();
    let first = scenario_register(&mut db, &cfg, "dave", "pw", &scenario_env(1, "id-1"));
    assert_eq!(first.status(), 201);
    let second = scenario_register(&mut db, &cfg, "dave", "other", &scenario_env(2, "id-2"));
    assert_eq!(second, Response::Failure(ApiError::DuplicateUsername));
    assert_eq!(second.status(), 409);
    assert_eq!(db.user_count(), 1);
    assert_eq!(db.users().iter().filter(|u| u.username == "dave").count(), 1);
    assert_eq!(db.users()[0].id, "id-1");
}

#[test]
fn foreign_update_and_delete_are_forbidden_and_change_nothing() {
    let cfg = scenario_config();
    let mut db = Database::new();
    scenario_register(&mut db, &cfg, "alice", "pw1", &scenario_env(1, "id-alice"));
    scenario_register(&mut db, &cfg, "bob", "pw2", &scenario_env(2, "id-bob"));
    let alice = scenario_bearer(&scenario_token(scenario_login(&mut db, &cfg, "alice", "pw1", 3)));
    let bob = scenario_bearer(&scenario_token(scenario_login(&mut db, &cfg, "bob", "pw2", 3)));
    let env = scenario_env(4, "n1");
    let payload = NewNote { title: "mine".to_string(), content: "text".to_string() };
    db.serve(&cfg, create_note(&cfg, Some(&alice), payload, &env), 4);
    let before = db.notes().clone();

    let rewrite = NewNote { title: "hacked".to_string(), content: "gone".to_string() };
    let updated = db.serve(&cfg, update_note(&cfg, Some(&bob), "n1".to_string(), rewrite, &env), 4);
    assert_eq!(updated, Response::Failure(ApiError::Forbidden));
    assert_eq!(db.notes(), &before);

    let deleted = db.serve(&cfg, delete_note(&cfg, Some(&bob), "n1".to_string(), &env), 4);
    assert_eq!(deleted, Response::Failure(ApiError::Forbidden));
    assert_eq!(db.notes(), &before);

    let bob_list = db.serve(&cfg, get_notes(&cfg, Some(&bob), &env), 4);
    assert_eq!(bob_list, Response::NoteList(vec![]));
}

#[test]
fn deleting_or_updating_a_missing_note_is_not_found() {
    let cfg = scenario_config();
    let mut db = Database::new();
    scenario_register(&mut db, &cfg, "alice", "pw1", &scenario_env(1, "id-alice"));
    let alice = scenario_bearer(&scenario_token(scenario_login(&mut db, &cfg, "alice", "pw1", 3)));
    let env = scenario_env(4, "n1");
    let payload = NewNote { title: "t".to_string(), content: "c".to_string() };
    db.serve(&cfg, create_note(&cfg, Some(&alice), payload, &env), 4);

    let deleted = db.serve(&cfg, delete_note(&cfg, Some(&alice), "absent".to_string(), &env), 4);
    assert_eq!(deleted, Response::Failure(ApiError::NotFound));
    assert_eq!(deleted.status(), 404);
    assert_eq!(db.note_count(), 1);

    let rewrite = NewNote { title: "x".to_string(), content: "y".to_string() };
    let updated =
        db.serve(&cfg, update_note(&cfg, Some(&alice), "absent".to_string(), rewrite, &env), 4);
    assert_eq!(updated, Response::Failure(ApiError::NotFound));
    assert_eq!(db.note_count(), 1);
}

#[test]
fn owner_update_keeps_creation_time_and_owner() {
    let cfg = scenario_config();
    let mut db = Database::new();
    scenario_register(&mut db, &cfg, "alice", "pw1", &scenario_env(1, "id-alice"));
    let alice = scenario_bearer(&scenario_token(scenario_login(&mut db, &cfg, "alice", "pw1", 3)));
    let at_create = scenario_env(4, "n1");
    let payload = NewNote { title: "t".to_string(), content: "c".to_string() };
    db.serve(&cfg, create_note(&cfg, Some(&alice), payload, &at_create), 4);

    let at_update = scenario_env(59, "unused");
    let rewrite = NewNote { title: "t2".to_string(), content: "c2".to_string() };
    let updated =
        db.serve(&cfg, update_note(&cfg, Some(&alice), "n1".to_string(), rewrite, &at_update), 59);
    let expected = Note {
        id: "n1".to_string(),
        title: "t2".to_string(),
        content: "c2".to_string(),
        created_at: at_create.timestamp.clone(),
        user_id: "id-alice".to_string(),
    };
    assert_eq!(updated.status(), 200);
    assert_eq!(updated, Response::NoteUpdated(expected.clone()));
    assert_eq!(db.notes(), &vec![expected]);
}

#[test]
fn requests_without_a_valid_token_never_touch_the_store() {
    let cfg = scenario_config();
    let mut db = Database::new();
    scenario_register(&mut db, &cfg, "alice", "pw1", &scenario_env(1, "id-alice"));
    let token = scenario_token(scenario_login(&mut db, &cfg, "alice", "pw1", 3));
    let alice = scenario_bearer(&token);
    let env = scenario_env(4, "n1");
    let payload = NewNote { title: "t".to_string(), content: "c".to_string() };
    db.serve(&cfg, create_note(&cfg, Some(&alice), payload, &env), 4);
    let before = db.notes().clone();

    let missing = db.serve(&cfg, delete_note(&cfg, None, "n1".to_string(), &env), 4);
    assert_eq!(missing, Response::Failure(ApiError::MissingToken));
    assert_eq!(missing.status(), 401);
    let no_scheme = db.serve(&cfg, delete_note(&cfg, Some(&token), "n1".to_string(), &env), 4);
    assert_eq!(no_scheme, Response::Failure(ApiError::MissingToken));
    let garbage =
        db.serve(&cfg, delete_note(&cfg, Some("Bearer garbage"), "absent".to_string(), &env), 4);
    assert_eq!(garbage, Response::Failure(ApiError::InvalidToken));
    assert_eq!(garbage.status(), 401);

    let expired_env = scenario_env(3 + 900, "n2");
    let expired =
        db.serve(&cfg, delete_note(&cfg, Some(&alice), "n1".to_string(), &expired_env), 903);
    assert_eq!(expired, Response::Failure(ApiError::InvalidToken));
    let payload = NewNote { title: "late".to_string(), content: "c".to_string() };
    let late = db.serve(&cfg, create_note(&cfg, Some(&alice), payload, &expired_env), 903);
    assert_eq!(late, Response::Failure(ApiError::InvalidToken));
    assert_eq!(db.notes(), &before);

    let last_second = scenario_env(3 + 899, "n3");
    let in_time = db.serve(&cfg, get_notes(&cfg, Some(&alice), &last_second), 902);
    assert_eq!(in_time, Response::NoteList(before));
}

#[test]
fn observed_environment_drives_a_full_request() {
    let cfg = scenario_config();
    let mut db = Database::new();
    let env = Ambient::observe();
    assert!(env.now > 1_600_000_000);
    assert_eq!(env.fresh_id.len(), 36);
    assert!(env.timestamp.contains('T'));
    let other = Ambient::observe();
    assert_ne!(env.fresh_id, other.fresh_id);

    let registered = scenario_register(&mut db, &cfg, "erin", "pw", &env);
    assert_eq!(registered, Response::Registered { id: env.fresh_id.clone() });
    let token = scenario_token(scenario_login(&mut db, &cfg, "erin", "pw", env.now));
    let claims = verify_token(&token, &cfg.secret, env.now).unwrap();
    assert_eq!(claims.sub, env.fresh_id);
    assert_eq!(db.users()[0].created_at, env.timestamp);
}
