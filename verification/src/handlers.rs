//! The six request handlers.
//!
//! Each handler opens a request: it authenticates where the endpoint asks for
//! it and returns the first [`Step`]. A request whose token is missing or
//! invalid is answered on the spot and never reaches the store, so an
//! unauthenticated caller learns nothing about which notes exist.

use crate::auth::{hash_password, password_check, PasswordError};
use crate::context::{Ambient, Config};
use crate::error::ApiError;
use crate::flow::{Pending, PendingView, Query, QueryView, Response, Step, StepView};
use crate::guard::{authenticate, authentication, header_view};
use crate::models::{LoginRequest, NewNote, NewUser, Note, NoteView, User, UserView};
use vstd::prelude::*;

verus! {

/// `POST /notes`: the caller's new note, owned by the token's subject.
pub open spec fn create_note_spec(
    secret: Seq<u8>,
    header: Option<Seq<char>>,
    title: Seq<char>,
    content: Seq<char>,
    now: u64,
    fresh_id: Seq<char>,
    timestamp: Seq<char>,
) -> StepView {
    match authentication(header, secret, now) {
        Err(e) => StepView::fail(e),
        Ok(claims) => StepView::Ask(
            QueryView::InsertNote(
                NoteView { id: fresh_id, title, content, created_at: timestamp, user_id: claims.sub },
            ),
            PendingView::Creation,
        ),
    }
}

/// `GET /notes`: the notes of the token's subject and of nobody else.
pub open spec fn get_notes_spec(secret: Seq<u8>, header: Option<Seq<char>>, now: u64) -> StepView {
    match authentication(header, secret, now) {
        Err(e) => StepView::fail(e),
        Ok(claims) => StepView::Ask(
            QueryView::ListNotes { owner: claims.sub },
            PendingView::Listing,
        ),
    }
}

/// `DELETE /notes/{id}`: fetch the note first, to check its owner.
pub open spec fn delete_note_spec(
    secret: Seq<u8>,
    header: Option<Seq<char>>,
    now: u64,
    id: Seq<char>,
) -> StepView {
    match authentication(header, secret, now) {
        Err(e) => StepView::fail(e),
        Ok(claims) => StepView::Ask(
            QueryView::GetNote { id },
            PendingView::DeleteCheck { subject: claims.sub, id },
        ),
    }
}

/// `PUT /notes/{id}`: fetch the note first, to check its owner.
pub open spec fn update_note_spec(
    secret: Seq<u8>,
    header: Option<Seq<char>>,
    now: u64,
    id: Seq<char>,
    title: Seq<char>,
    content: Seq<char>,
) -> StepView {
    match authentication(header, secret, now) {
        Err(e) => StepView::fail(e),
        Ok(claims) => StepView::Ask(
            QueryView::GetNote { id },
            PendingView::UpdateCheck { subject: claims.sub, id, title, content },
        ),
    }
}

/// `POST /register`, once the password has been hashed: insert the user, or
/// give up if there is no hash.
pub open spec fn plan_registration_spec(
    username: Seq<char>,
    hashed: Option<Seq<char>>,
    id: Seq<char>,
    created_at: Seq<char>,
) -> StepView {
    match hashed {
        Some(password_hash) => StepView::Ask(
            QueryView::InsertUser(UserView { id, username, password_hash, created_at }),
            PendingView::Registration { id },
        ),
        None => StepView::fail(ApiError::StorageFailure),
    }
}

/// `POST /login`: look the user up; the password is checked on resumption.
pub open spec fn login_user_spec(username: Seq<char>, password: Seq<char>) -> StepView {
    StepView::Ask(QueryView::FindUser { username }, PendingView::Login { password })
}

/// The hash inside a hashing result, if it succeeded.
pub open spec fn hash_view(hashed: Result<String, PasswordError>) -> Option<Seq<char>> {
    match hashed {
        Ok(h) => Some(h@),
        Err(_) => None,
    }
}

/// Opens a note creation. The note gets the fresh id and the timestamp of
/// `env`, and the token's subject as its owner.
pub fn create_note(cfg: &Config, authorization: Option<&str>, payload: NewNote, env: &Ambient) -> (step:
    Step)
    ensures
        step@ == create_note_spec(
            cfg.secret@,
            header_view(authorization),
            payload.title@,
            payload.content@,
            env.now,
            env.fresh_id@,
            env.timestamp@,
        ),
{
    match authenticate(authorization, cfg.secret.as_slice(), env.now) {
        Err(e) => Step::Done(Response::Failure(e)),
        Ok(claims) => Step::Ask(
            Query::InsertNote(
                Note {
                    id: env.fresh_id.clone(),
                    title: payload.title,
                    content: payload.content,
                    created_at: env.timestamp.clone(),
                    user_id: claims.sub,
                },
            ),
            Pending::Creation,
        ),
    }
}

/// Opens a listing of the caller's own notes.
pub fn get_notes(cfg: &Config, authorization: Option<&str>, env: &Ambient) -> (step: Step)
    ensures
        step@ == get_notes_spec(cfg.secret@, header_view(authorization), env.now),
{
    match authenticate(authorization, cfg.secret.as_slice(), env.now) {
        Err(e) => Step::Done(Response::Failure(e)),
        Ok(claims) => Step::Ask(Query::ListNotes { owner: claims.sub }, Pending::Listing),
    }
}

/// Opens the deletion of the note `id`.
pub fn delete_note(cfg: &Config, authorization: Option<&str>, id: String, env: &Ambient) -> (step:
    Step)
    ensures
        step@ == delete_note_spec(cfg.secret@, header_view(authorization), env.now, id@),
{
    match authenticate(authorization, cfg.secret.as_slice(), env.now) {
        Err(e) => Step::Done(Response::Failure(e)),
        Ok(claims) => Step::Ask(
            Query::GetNote { id: id.clone() },
            Pending::DeleteCheck { subject: claims.sub, id },
        ),
    }
}

/// Opens the update of the note `id` to the payload's title and content.
pub fn update_note(
    cfg: &Config,
    authorization: Option<&str>,
    id: String,
    payload: NewNote,
    env: &Ambient,
) -> (step: Step)
    ensures
        step@ == update_note_spec(
            cfg.secret@,
            header_view(authorization),
            env.now,
            id@,
            payload.title@,
            payload.content@,
        ),
{
    match authenticate(authorization, cfg.secret.as_slice(), env.now) {
        Err(e) => Step::Done(Response::Failure(e)),
        Ok(claims) => Step::Ask(
            Query::GetNote { id: id.clone() },
            Pending::UpdateCheck {
                subject: claims.sub,
                id,
                title: payload.title,
                content: payload.content,
            },
        ),
    }
}

/// Plans a registration from the outcome of hashing the password.
pub fn plan_registration(
    username: String,
    hashed: Result<String, PasswordError>,
    id: String,
    created_at: String,
) -> (step: Step)
    ensures
        step@ == plan_registration_spec(username@, hash_view(hashed), id@, created_at@),
{
    match hashed {
        Ok(password_hash) => Step::Ask(
            Query::InsertUser(User { id: id.clone(), username, password_hash, created_at }),
            Pending::Registration { id },
        ),
        Err(_) => Step::Done(Response::Failure(ApiError::StorageFailure)),
    }
}

/// Opens a registration: hashes the password and plans the insert of a user
/// with the fresh id and the timestamp of `env`.
///
/// The hash is salted at random, so the contract says what holds of every
/// hash: the step is the plan for some hashing outcome, and a hash in it
/// verifies against the payload's password.
pub fn register_user(payload: NewUser, env: &Ambient) -> (step: Step)
    ensures
        exists|hashed: Option<Seq<char>>|
            {
                &&& step@ == #[trigger] plan_registration_spec(
                    payload.username@,
                    hashed,
                    env.fresh_id@,
                    env.timestamp@,
                )
                &&& hashed matches Some(h) ==> password_check(payload.password@, h) == Some(true)
            },
{
    let hashed = hash_password(payload.password.as_str());
    let ghost outcome = hash_view(hashed);
    let step = plan_registration(
        payload.username,
        hashed,
        env.fresh_id.clone(),
        env.timestamp.clone(),
    );
    assert(step@ == plan_registration_spec(
        payload.username@,
        outcome,
        env.fresh_id@,
        env.timestamp@,
    ));
    step
}

/// Opens a login: asks the store for the user of that name.
pub fn login_user(payload: LoginRequest) -> (step: Step)
    ensures
        step@ == login_user_spec(payload.username@, payload.password@),
{
    Step::Ask(
        Query::FindUser { username: payload.username },
        Pending::Login { password: payload.password },
    )
}

} // verus!
