//! What holds of the service as a whole.
//!
//! The laws speak of [`DbView::run`], the store and the response after a
//! request has been driven to its end. [`crate::store::Database::serve`]
//! computes exactly that, so they hold of every request served from it.

use crate::auth::{jwt_encoding, password_check, signed_for, token_claims, ClaimsView};
use crate::error::ApiError;
use crate::flow::{resume_spec, PendingView, QueryView, ReplyView, ResponseView, StepView};
use crate::guard::authentication;
use crate::handlers::{
    create_note_spec, delete_note_spec, get_notes_spec, login_user_spec, plan_registration_spec,
    update_note_spec,
};
use crate::models::{NoteView, UserView};
use crate::store::{not_owned_by, owned_by, DbView};
use vstd::prelude::*;

verus! {

// ---------------------------------------------------------------------------
// The store
// ---------------------------------------------------------------------------

/// In a well-formed store a note is found under its own id, at its own row.
pub proof fn note_is_found_by_its_id(db: DbView, k: int)
    requires
        db.wf(),
        0 <= k < db.notes.len(),
    ensures
        db.note_position(db.notes[k].id) == Some(k),
        db.note_with_id(db.notes[k].id) == Some(db.notes[k]),
{
    let id = db.notes[k].id;
    assert(db.note_row_with_id(k, id));
    let c = choose|c: int| db.note_row_with_id(c, id);
    assert(db.notes[c].id == db.notes[k].id);
}

/// In a well-formed store a user is found under their own username.
pub proof fn user_is_found_by_their_name(db: DbView, k: int)
    requires
        db.wf(),
        0 <= k < db.users.len(),
    ensures
        db.user_named(db.users[k].username) == Some(db.users[k]),
{
    let name = db.users[k].username;
    assert(db.user_row_named(k, name));
    let c = choose|c: int| db.user_row_named(c, name);
    assert(db.users[c].username == db.users[k].username);
}

/// A well-formed store holds at most one row for a username: exactly one if
/// the name is registered, none otherwise.
pub proof fn one_row_per_username(db: DbView, username: Seq<char>)
    requires
        db.wf(),
    ensures
        db.users_named(username) == if db.has_username(username) {
            1nat
        } else {
            0nat
        },
    decreases db.users.len(),
{
    reveal(Seq::filter);
    if db.users.len() > 0 {
        let last = db.users.last();
        let rest = DbView { users: db.users.drop_last(), ..db };
        assert forall|i: int, j: int| 0 <= i < j < rest.users.len() implies (
        #[trigger] rest.users[i]).username != (#[trigger] rest.users[j]).username && rest.users[i].id
            != rest.users[j].id by {
            assert(rest.users[i] == db.users[i]);
            assert(rest.users[j] == db.users[j]);
        }
        one_row_per_username(rest, username);
        if rest.has_username(username) {
            let i = choose|i: int| rest.user_row_named(i, username);
            assert(db.users[i] == rest.users[i]);
            assert(db.user_row_named(i, username));
            assert(last == db.users[db.users.len() - 1]);
            assert(last.username != username);
        } else if last.username == username {
            assert(db.user_row_named(db.users.len() - 1, username));
        } else {
            if db.has_username(username) {
                let i = choose|i: int| db.user_row_named(i, username);
                assert(rest.user_row_named(i, username));
            }
        }
    } else {
        if db.has_username(username) {
            let i = choose|i: int| db.user_row_named(i, username);
        }
    }
}

/// Every query leaves the uniqueness constraints intact.
pub proof fn answer_preserves_wf(db: DbView, query: QueryView)
    requires
        db.wf(),
    ensures
        db.answer(query).0.wf(),
{
    let after = db.answer(query).0;
    match query {
        QueryView::InsertUser(user) => {
            if !(db.has_username(user.username) || db.has_user_id(user.id)) {
                assert forall|i: int, j: int| 0 <= i < j < after.users.len() implies (
                #[trigger] after.users[i]).username != (#[trigger] after.users[j]).username
                    && after.users[i].id != after.users[j].id by {
                    if j == db.users.len() {
                        assert(!db.user_row_named(i, user.username));
                        assert(!db.user_row_with_id(i, user.id));
                    }
                }
            }
        },
        QueryView::InsertNote(note) => {
            if db.note_position(note.id) is None {
                assert forall|i: int, j: int| 0 <= i < j < after.notes.len() implies (
                #[trigger] after.notes[i]).id != (#[trigger] after.notes[j]).id by {
                    if j == db.notes.len() {
                        assert(!db.note_row_with_id(i, note.id));
                    }
                }
            }
        },
        QueryView::UpdateNote { id, title, content } => {
            if let Some(k) = db.note_position(id) {
                assert(db.note_row_with_id(k, id));
            }
        },
        QueryView::DeleteNote { id } => {
            if let Some(k) = db.note_position(id) {
                assert(db.note_row_with_id(k, id));
            }
        },
        _ => {},
    }
}

/// No query changes or removes a user: the users table only grows at its end.
pub proof fn users_are_never_changed(db: DbView, query: QueryView)
    ensures
        db.users.is_prefix_of(db.answer(query).0.users),
{
}

/// Driving a request to its end leaves the uniqueness constraints intact and
/// changes or removes no user.
pub proof fn run_preserves_wf(db: DbView, secret: Seq<u8>, validity: u64, now: u64, step: StepView)
    requires
        db.wf(),
    ensures
        db.run(secret, validity, now, step).0.wf(),
        db.users.is_prefix_of(db.run(secret, validity, now, step).0.users),
    decreases step.queries_left(),
{
    match step {
        StepView::Done(_) => {},
        StepView::Ask(query, pending) => {
            answer_preserves_wf(db, query);
            users_are_never_changed(db, query);
            let (next, reply) = db.answer(query);
            run_preserves_wf(
                next,
                secret,
                validity,
                now,
                resume_spec(secret, validity, now, pending, reply),
            );
        },
    }
}

// ---------------------------------------------------------------------------
// Authentication comes first
// ---------------------------------------------------------------------------

/// A note request without a valid token is answered with that failure, in
/// the unauthenticated class (status 401), before any query: it never
/// reaches the ownership check and leaves the store as it was.
pub proof fn unauthenticated_request_asks_nothing(
    db: DbView,
    secret: Seq<u8>,
    validity: u64,
    now: u64,
    header: Option<Seq<char>>,
    id: Seq<char>,
    title: Seq<char>,
    content: Seq<char>,
    fresh_id: Seq<char>,
    timestamp: Seq<char>,
)
    requires
        authentication(header, secret, now) is Err,
    ensures
        ({
            let e = authentication(header, secret, now)->Err_0;
            &&& e.is_unauthenticated()
            &&& e.status_code() == 401
            &&& create_note_spec(secret, header, title, content, now, fresh_id, timestamp)
                == StepView::fail(e)
            &&& get_notes_spec(secret, header, now) == StepView::fail(e)
            &&& update_note_spec(secret, header, now, id, title, content) == StepView::fail(e)
            &&& delete_note_spec(secret, header, now, id) == StepView::fail(e)
            &&& db.run(secret, validity, now, StepView::fail(e)) == (db, ResponseView::Failure(e))
        }),
{
}

/// The statuses that each endpoint can answer with when the store works:
/// `POST /register` 201, 409 or 500; `POST /login` 200, 401 or 500;
/// `POST /notes` 201, 401 or 500; `GET /notes` 200 or 401;
/// `PUT /notes/{id}` 200, 401, 403 or 404; `DELETE /notes/{id}` 204, 401,
/// 403 or 404.
pub proof fn endpoint_statuses(
    db: DbView,
    secret: Seq<u8>,
    validity: u64,
    now: u64,
    header: Option<Seq<char>>,
    id: Seq<char>,
    title: Seq<char>,
    content: Seq<char>,
    fresh_id: Seq<char>,
    timestamp: Seq<char>,
    username: Seq<char>,
    password: Seq<char>,
    hashed: Option<Seq<char>>,
)
    requires
        db.wf(),
    ensures
        ({
            let registered = db.run(
                secret,
                validity,
                now,
                plan_registration_spec(username, hashed, fresh_id, timestamp),
            ).1.status_code();
            let logged_in = db.run(
                secret,
                validity,
                now,
                login_user_spec(username, password),
            ).1.status_code();
            let created = db.run(
                secret,
                validity,
                now,
                create_note_spec(secret, header, title, content, now, fresh_id, timestamp),
            ).1.status_code();
            let listed = db.run(
                secret,
                validity,
                now,
                get_notes_spec(secret, header, now),
            ).1.status_code();
            let updated = db.run(
                secret,
                validity,
                now,
                update_note_spec(secret, header, now, id, title, content),
            ).1.status_code();
            let deleted = db.run(
                secret,
                validity,
                now,
                delete_note_spec(secret, header, now, id),
            ).1.status_code();
            &&& registered == 201 || registered == 409 || registered == 500
            &&& logged_in == 200 || logged_in == 401 || logged_in == 500
            &&& created == 201 || created == 401 || created == 500
            &&& listed == 200 || listed == 401
            &&& updated == 200 || updated == 401 || updated == 403 || updated == 404
            &&& deleted == 204 || deleted == 401 || deleted == 403 || deleted == 404
        }),
{
    reveal_with_fuel(DbView::run, 3);
    if let Some(k) = db.note_position(id) {
        assert(db.note_row_with_id(k, id));
    }
}

// ---------------------------------------------------------------------------
// Notes and their owners
// ---------------------------------------------------------------------------

/// A created note is stored with the caller as its owner and with the given
/// title and content, provided its fresh id is indeed unused.
pub proof fn created_note_belongs_to_caller(
    db: DbView,
    secret: Seq<u8>,
    validity: u64,
    now: u64,
    header: Option<Seq<char>>,
    claims: ClaimsView,
    title: Seq<char>,
    content: Seq<char>,
    fresh_id: Seq<char>,
    timestamp: Seq<char>,
)
    requires
        authentication(header, secret, now) == Ok::<ClaimsView, ApiError>(claims),
        db.note_position(fresh_id) is None,
    ensures
        ({
            let note = NoteView {
                id: fresh_id,
                title,
                content,
                created_at: timestamp,
                user_id: claims.sub,
            };
            db.run(
                secret,
                validity,
                now,
                create_note_spec(secret, header, title, content, now, fresh_id, timestamp),
            ) == (DbView { notes: db.notes.push(note), ..db }, ResponseView::NoteCreated(note))
        }),
{
    reveal_with_fuel(DbView::run, 3);
}

/// A listing shows the caller's notes and no others, and does not change the
/// store.
pub proof fn listing_is_owner_scoped(
    db: DbView,
    secret: Seq<u8>,
    validity: u64,
    now: u64,
    header: Option<Seq<char>>,
    claims: ClaimsView,
)
    requires
        authentication(header, secret, now) == Ok::<ClaimsView, ApiError>(claims),
    ensures
        db.run(secret, validity, now, get_notes_spec(secret, header, now)) == (
            db,
            ResponseView::NoteList(db.notes_of(claims.sub)),
        ),
        forall|i: int|
            0 <= i < db.notes_of(claims.sub).len() ==> (#[trigger] db.notes_of(
                claims.sub,
            )[i]).user_id == claims.sub,
        forall|k: int|
            0 <= k < db.notes.len() && db.notes[k].user_id == claims.sub ==> db.notes_of(
                claims.sub,
            ).contains(#[trigger] db.notes[k]),
{
    reveal_with_fuel(DbView::run, 3);
    let shown = db.notes_of(claims.sub);
    assert forall|i: int| 0 <= i < shown.len() implies (#[trigger] shown[i]).user_id
        == claims.sub by {
        db.notes.lemma_filter_pred(owned_by(claims.sub), i);
    }
    assert forall|k: int|
        0 <= k < db.notes.len() && db.notes[k].user_id == claims.sub implies shown.contains(
        #[trigger] db.notes[k],
    ) by {
        db.notes.lemma_filter_contains(owned_by(claims.sub), k);
    }
}

/// An update or a deletion of a note through the token of anybody but its
/// owner is answered `Forbidden`, and the store stays exactly as it was.
pub proof fn foreign_note_is_untouched(
    db: DbView,
    secret: Seq<u8>,
    validity: u64,
    now: u64,
    header: Option<Seq<char>>,
    claims: ClaimsView,
    k: int,
    title: Seq<char>,
    content: Seq<char>,
)
    requires
        db.wf(),
        0 <= k < db.notes.len(),
        authentication(header, secret, now) == Ok::<ClaimsView, ApiError>(claims),
        claims.sub != db.notes[k].user_id,
    ensures
        db.run(secret, validity, now, delete_note_spec(secret, header, now, db.notes[k].id)) == (
            db,
            ResponseView::Failure(ApiError::Forbidden),
        ),
        db.run(
            secret,
            validity,
            now,
            update_note_spec(secret, header, now, db.notes[k].id, title, content),
        ) == (db, ResponseView::Failure(ApiError::Forbidden)),
{
    reveal_with_fuel(DbView::run, 3);
    note_is_found_by_its_id(db, k);
}

/// An update or a deletion of an id that no note has is answered `NotFound`,
/// and the store stays exactly as it was. So does the store's own deletion,
/// which reports that no row went.
pub proof fn absent_note_is_not_found(
    db: DbView,
    secret: Seq<u8>,
    validity: u64,
    now: u64,
    header: Option<Seq<char>>,
    claims: ClaimsView,
    id: Seq<char>,
    title: Seq<char>,
    content: Seq<char>,
)
    requires
        authentication(header, secret, now) == Ok::<ClaimsView, ApiError>(claims),
        db.note_position(id) is None,
    ensures
        db.run(secret, validity, now, delete_note_spec(secret, header, now, id)) == (
            db,
            ResponseView::Failure(ApiError::NotFound),
        ),
        db.run(secret, validity, now, update_note_spec(secret, header, now, id, title, content))
            == (db, ResponseView::Failure(ApiError::NotFound)),
        db.answer(QueryView::DeleteNote { id }) == (db, ReplyView::Rows(0)),
        db.answer(QueryView::UpdateNote { id, title, content }) == (db, ReplyView::Note(None)),
{
    reveal_with_fuel(DbView::run, 3);
}

/// The owner's deletion removes exactly that note and is answered
/// `NoteDeleted`.
pub proof fn owner_deletes_note(
    db: DbView,
    secret: Seq<u8>,
    validity: u64,
    now: u64,
    header: Option<Seq<char>>,
    claims: ClaimsView,
    k: int,
)
    requires
        db.wf(),
        0 <= k < db.notes.len(),
        authentication(header, secret, now) == Ok::<ClaimsView, ApiError>(claims),
        claims.sub == db.notes[k].user_id,
    ensures
        db.run(secret, validity, now, delete_note_spec(secret, header, now, db.notes[k].id)) == (
            DbView { notes: db.notes.remove(k), ..db },
            ResponseView::NoteDeleted,
        ),
{
    reveal_with_fuel(DbView::run, 3);
    note_is_found_by_its_id(db, k);
    let id = db.notes[k].id;
    let (after, reply) = db.answer(QueryView::DeleteNote { id });
    assert(reply == ReplyView::Rows(1));
}

/// The owner's update rewrites title and content of exactly that note and
/// answers with the stored row: its id, owner and creation time are those it
/// had before.
pub proof fn owner_updates_note(
    db: DbView,
    secret: Seq<u8>,
    validity: u64,
    now: u64,
    header: Option<Seq<char>>,
    claims: ClaimsView,
    k: int,
    title: Seq<char>,
    content: Seq<char>,
)
    requires
        db.wf(),
        0 <= k < db.notes.len(),
        authentication(header, secret, now) == Ok::<ClaimsView, ApiError>(claims),
        claims.sub == db.notes[k].user_id,
    ensures
        ({
            let stored = db.notes[k].rewritten(title, content);
            &&& db.run(
                secret,
                validity,
                now,
                update_note_spec(secret, header, now, db.notes[k].id, title, content),
            ) == (DbView { notes: db.notes.update(k, stored), ..db }, ResponseView::NoteUpdated(stored))
            &&& stored.created_at == db.notes[k].created_at
            &&& stored.user_id == db.notes[k].user_id
            &&& stored.id == db.notes[k].id
        }),
{
    reveal_with_fuel(DbView::run, 3);
    note_is_found_by_its_id(db, k);
}

/// A request asks a second query only to change a note that the first query
/// found and that belongs to the request's subject: the ownership check
/// stands between the lookup and every update or deletion.
pub proof fn second_query_needs_ownership(
    secret: Seq<u8>,
    validity: u64,
    now: u64,
    pending: PendingView,
    reply: ReplyView,
)
    requires
        resume_spec(secret, validity, now, pending, reply) is Ask,
    ensures
        reply matches ReplyView::Note(Some(note)) && match pending {
            PendingView::UpdateCheck { subject, id, title, content } => {
                &&& note.user_id == subject
                &&& resume_spec(secret, validity, now, pending, reply) == StepView::Ask(
                    QueryView::UpdateNote { id, title, content },
                    PendingView::Update,
                )
            },
            PendingView::DeleteCheck { subject, id } => {
                &&& note.user_id == subject
                &&& resume_spec(secret, validity, now, pending, reply) == StepView::Ask(
                    QueryView::DeleteNote { id },
                    PendingView::Deletion,
                )
            },
            _ => false,
        },
{
}

/// Removing an element that a predicate rejects does not change what the
/// predicate keeps.
proof fn filter_ignores_removal<A>(s: Seq<A>, pred: spec_fn(A) -> bool, k: int)
    requires
        0 <= k < s.len(),
        !pred(s[k]),
    ensures
        s.remove(k).filter(pred) == s.filter(pred),
{
    let head = s.take(k);
    let tail = s.skip(k + 1);
    let one = seq![s[k]];
    assert(s =~= head + one + tail);
    assert(s.remove(k) =~= head + tail);
    Seq::filter_distributes_over_add(head + one, tail, pred);
    Seq::filter_distributes_over_add(head, one, pred);
    Seq::filter_distributes_over_add(head, tail, pred);
    assert(one.filter(pred) =~= Seq::empty()) by {
        reveal_with_fuel(Seq::filter, 2);
        assert(one.drop_last() =~= Seq::empty());
    }
    assert(head.filter(pred) + one.filter(pred) =~= head.filter(pred));
}

/// Replacing an element that a predicate rejects by another that it rejects
/// does not change what the predicate keeps.
proof fn filter_ignores_update<A>(s: Seq<A>, pred: spec_fn(A) -> bool, k: int, x: A)
    requires
        0 <= k < s.len(),
        !pred(s[k]),
        !pred(x),
    ensures
        s.update(k, x).filter(pred) == s.filter(pred),
{
    let changed = s.update(k, x);
    filter_ignores_removal(s, pred, k);
    filter_ignores_removal(changed, pred, k);
    assert(changed.remove(k) =~= s.remove(k));
}

/// Whatever a note request does on behalf of its subject, the notes of
/// everybody else stay in the store exactly as they were, in their order,
/// and so does every user. A note is created, changed or removed only
/// through a request authenticated as its owner.
pub proof fn others_notes_are_preserved(
    db: DbView,
    secret: Seq<u8>,
    validity: u64,
    now: u64,
    header: Option<Seq<char>>,
    claims: ClaimsView,
    id: Seq<char>,
    title: Seq<char>,
    content: Seq<char>,
    fresh_id: Seq<char>,
    timestamp: Seq<char>,
)
    requires
        db.wf(),
        authentication(header, secret, now) == Ok::<ClaimsView, ApiError>(claims),
    ensures
        ({
            let created = db.run(
                secret,
                validity,
                now,
                create_note_spec(secret, header, title, content, now, fresh_id, timestamp),
            ).0;
            let listed = db.run(secret, validity, now, get_notes_spec(secret, header, now)).0;
            let updated = db.run(
                secret,
                validity,
                now,
                update_note_spec(secret, header, now, id, title, content),
            ).0;
            let deleted = db.run(
                secret,
                validity,
                now,
                delete_note_spec(secret, header, now, id),
            ).0;
            &&& created.notes_of_others(claims.sub) == db.notes_of_others(claims.sub)
            &&& listed.notes_of_others(claims.sub) == db.notes_of_others(claims.sub)
            &&& updated.notes_of_others(claims.sub) == db.notes_of_others(claims.sub)
            &&& deleted.notes_of_others(claims.sub) == db.notes_of_others(claims.sub)
            &&& created.users == db.users
            &&& listed.users == db.users
            &&& updated.users == db.users
            &&& deleted.users == db.users
        }),
{
    reveal_with_fuel(DbView::run, 3);
    let others = not_owned_by(claims.sub);
    let note = NoteView { id: fresh_id, title, content, created_at: timestamp, user_id: claims.sub };
    db.notes.lemma_filter_push(note, others);
    if let Some(k) = db.note_position(id) {
        assert(db.note_row_with_id(k, id));
        if db.notes[k].user_id == claims.sub {
            filter_ignores_removal(db.notes, others, k);
            filter_ignores_update(db.notes, others, k, db.notes[k].rewritten(title, content));
        }
    }
}

// ---------------------------------------------------------------------------
// Registration and login
// ---------------------------------------------------------------------------

/// A registration is answered `Registered` exactly when neither the username
/// nor the id is taken, and then appends the user's row; it is answered
/// `DuplicateUsername` otherwise, and then changes nothing.
pub proof fn registration_outcome(
    db: DbView,
    secret: Seq<u8>,
    validity: u64,
    now: u64,
    user: UserView,
)
    ensures
        db.run(
            secret,
            validity,
            now,
            plan_registration_spec(user.username, Some(user.password_hash), user.id, user.created_at),
        ) == if db.has_username(user.username) || db.has_user_id(user.id) {
            (db, ResponseView::Failure(ApiError::DuplicateUsername))
        } else {
            (DbView { users: db.users.push(user), ..db }, ResponseView::Registered { id: user.id })
        },
{
    reveal_with_fuel(DbView::run, 3);
}

/// Registering a username a second time is answered `DuplicateUsername`,
/// whatever the password and the id of the second attempt, and exactly one
/// row holds that username afterwards.
pub proof fn second_registration_is_refused(
    db: DbView,
    secret: Seq<u8>,
    validity: u64,
    now: u64,
    later: u64,
    first: UserView,
    second: UserView,
)
    requires
        db.wf(),
        first.username == second.username,
        db.run(
            secret,
            validity,
            now,
            plan_registration_spec(
                first.username,
                Some(first.password_hash),
                first.id,
                first.created_at,
            ),
        ).1 == (ResponseView::Registered { id: first.id }),
    ensures
        ({
            let once = db.run(
                secret,
                validity,
                now,
                plan_registration_spec(
                    first.username,
                    Some(first.password_hash),
                    first.id,
                    first.created_at,
                ),
            ).0;
            let twice = once.run(
                secret,
                validity,
                later,
                plan_registration_spec(
                    second.username,
                    Some(second.password_hash),
                    second.id,
                    second.created_at,
                ),
            );
            &&& twice == (once, ResponseView::Failure(ApiError::DuplicateUsername))
            &&& once.wf()
            &&& once.users_named(first.username) == 1
            &&& twice.0.users_named(first.username) == 1
        }),
{
    let plan = plan_registration_spec(
        first.username,
        Some(first.password_hash),
        first.id,
        first.created_at,
    );
    registration_outcome(db, secret, validity, now, first);
    run_preserves_wf(db, secret, validity, now, plan);
    let once = db.run(secret, validity, now, plan).0;
    assert(once.users == db.users.push(first));
    assert(once.user_row_named(db.users.len() as int, second.username));
    registration_outcome(once, secret, validity, later, second);
    one_row_per_username(once, first.username);
}

/// A login with the username and password of a registered user is answered
/// with the token signed for that user's id, expiring one validity window
/// after `now`, and does not change the store.
pub proof fn registered_user_logs_in(
    db: DbView,
    secret: Seq<u8>,
    validity: u64,
    now: u64,
    k: int,
    password: Seq<char>,
)
    requires
        db.wf(),
        0 <= k < db.users.len(),
        password_check(password, db.users[k].password_hash) == Some(true),
        now + validity <= u64::MAX,
    ensures
        db.run(secret, validity, now, login_user_spec(db.users[k].username, password)) == (
            db,
            ResponseView::LoggedIn {
                token: jwt_encoding(db.users[k].id, (now + validity) as u64, secret),
            },
        ),
{
    reveal_with_fuel(DbView::run, 3);
    user_is_found_by_their_name(db, k);
}

/// A login fails with `InvalidCredentials` when the username is unknown or
/// the password does not match the stored hash, and does not change the store.
pub proof fn wrong_credentials_are_refused(
    db: DbView,
    secret: Seq<u8>,
    validity: u64,
    now: u64,
    username: Seq<char>,
    password: Seq<char>,
)
    requires
        db.user_named(username) matches Some(user) ==> password_check(password, user.password_hash)
            == Some(false),
    ensures
        db.run(secret, validity, now, login_user_spec(username, password)) == (
            db,
            ResponseView::Failure(ApiError::InvalidCredentials),
        ),
{
    reveal_with_fuel(DbView::run, 3);
}

/// Register, then log in with the same credentials: the login succeeds, and
/// its token is the one signed for the registered user's id. Such a token,
/// decoding as signed, verifies at once with that id as its subject.
///
/// `hash` is any hash of the password, which is all that registration knows
/// of it: it verifies against the password. The first request must have
/// been answered `Registered`.
pub proof fn register_then_login(
    db: DbView,
    secret: Seq<u8>,
    validity: u64,
    registered_at: u64,
    now: u64,
    username: Seq<char>,
    password: Seq<char>,
    hash: Seq<char>,
    id: Seq<char>,
    created_at: Seq<char>,
)
    requires
        db.wf(),
        password_check(password, hash) == Some(true),
        db.run(
            secret,
            validity,
            registered_at,
            plan_registration_spec(username, Some(hash), id, created_at),
        ).1 == (ResponseView::Registered { id }),
        validity > 0,
        now + validity <= u64::MAX,
    ensures
        ({
            let registered = db.run(
                secret,
                validity,
                registered_at,
                plan_registration_spec(username, Some(hash), id, created_at),
            ).0;
            let token = jwt_encoding(id, (now + validity) as u64, secret);
            &&& registered.run(secret, validity, now, login_user_spec(username, password)) == (
                registered,
                ResponseView::LoggedIn { token },
            )
            &&& signed_for(token, id, (now + validity) as u64, secret) ==> token_claims(
                token,
                secret,
                now,
            ) == Some(ClaimsView { sub: id, exp: (now + validity) as u64 })
        }),
{
    let user = UserView { id, username, password_hash: hash, created_at };
    let plan = plan_registration_spec(username, Some(hash), id, created_at);
    registration_outcome(db, secret, validity, registered_at, user);
    run_preserves_wf(db, secret, validity, registered_at, plan);
    let registered = db.run(secret, validity, registered_at, plan).0;
    assert(registered.users == db.users.push(user));
    let k = db.users.len() as int;
    assert(registered.users[k] == user);
    registered_user_logs_in(registered, secret, validity, now, k, password);
}

} // verus!
