//! The request protocol between the handlers and the store.
//!
//! A handler never touches the store. It returns a [`Step`]: either the
//! response, or one [`Query`] together with a [`Pending`] that remembers what
//! the request still has to decide. Whoever owns the store runs the query and
//! passes its [`Reply`] to [`resume`], until a response comes out. No request
//! asks more than two queries.

use crate::auth::{issue_token, issued_at, jwt_encoding, password_check, verify_password};
use crate::context::Config;
use crate::error::ApiError;
use crate::guard::{check_owner, ownership};
use crate::models::{note_views, Note, NoteView, User, UserView};
use vstd::prelude::*;

verus! {

/// One operation on the store.
#[derive(Debug, PartialEq, Eq)]
pub enum Query {
    /// Insert a user row; usernames and ids are unique.
    InsertUser(User),
    /// Look a user up by username.
    FindUser { username: String },
    /// Insert a note row and return it as stored; ids are unique.
    InsertNote(Note),
    /// All notes of one owner, in storage order.
    ListNotes { owner: String },
    /// Look a note up by id.
    GetNote { id: String },
    /// Replace title and content of the note with this id and return the
    /// row as stored afterwards.
    UpdateNote { id: String, title: String, content: String },
    /// Delete the note with this id and report how many rows went.
    DeleteNote { id: String },
}

/// What the store answers.
#[derive(Debug, PartialEq, Eq)]
pub enum Reply {
    /// The number of rows that an insert or a delete affected.
    Rows(u64),
    /// The store refused the write because of a uniqueness constraint.
    Conflict,
    /// The outcome of a user lookup.
    User(Option<User>),
    /// A note row as stored, or that no row matched.
    Note(Option<Note>),
    /// The outcome of a listing.
    Notes(Vec<Note>),
    /// The store failed for any other reason.
    Failed,
}

/// What a request remembers while its query runs.
#[derive(Debug, PartialEq, Eq)]
pub enum Pending {
    /// A registration waits for its insert.
    Registration { id: String },
    /// A login waits for the user row.
    Login { password: String },
    /// A note creation waits for its insert.
    Creation,
    /// A listing waits for its rows.
    Listing,
    /// An update by `subject` waits for the note, to check its owner.
    UpdateCheck { subject: String, id: String, title: String, content: String },
    /// An update that passed the ownership check waits for the write.
    Update,
    /// A deletion by `subject` waits for the note, to check its owner.
    DeleteCheck { subject: String, id: String },
    /// A deletion that passed the ownership check waits for the write.
    Deletion,
}

/// The outcome of a request.
#[derive(Debug, PartialEq, Eq)]
pub enum Response {
    /// The user was registered under this id.
    Registered { id: String },
    /// The credentials were right; here is the token.
    LoggedIn { token: String },
    /// The note was stored; here it is as stored.
    NoteCreated(Note),
    /// The caller's notes, in storage order.
    NoteList(Vec<Note>),
    /// The note was rewritten; here it is as stored.
    NoteUpdated(Note),
    /// The note is gone.
    NoteDeleted,
    /// The request failed.
    Failure(ApiError),
}

/// Where a request stands.
#[derive(Debug, PartialEq, Eq)]
pub enum Step {
    /// Run this query and resume with its reply.
    Ask(Query, Pending),
    /// The request is answered.
    Done(Response),
}

/// A query as contracts see it.
pub enum QueryView {
    InsertUser(UserView),
    FindUser { username: Seq<char> },
    InsertNote(NoteView),
    ListNotes { owner: Seq<char> },
    GetNote { id: Seq<char> },
    UpdateNote { id: Seq<char>, title: Seq<char>, content: Seq<char> },
    DeleteNote { id: Seq<char> },
}

/// A reply as contracts see it.
pub enum ReplyView {
    Rows(u64),
    Conflict,
    User(Option<UserView>),
    Note(Option<NoteView>),
    Notes(Seq<NoteView>),
    Failed,
}

/// A pending request as contracts see it.
pub enum PendingView {
    Registration { id: Seq<char> },
    Login { password: Seq<char> },
    Creation,
    Listing,
    UpdateCheck { subject: Seq<char>, id: Seq<char>, title: Seq<char>, content: Seq<char> },
    Update,
    DeleteCheck { subject: Seq<char>, id: Seq<char> },
    Deletion,
}

/// A response as contracts see it.
pub enum ResponseView {
    Registered { id: Seq<char> },
    LoggedIn { token: Seq<char> },
    NoteCreated(NoteView),
    NoteList(Seq<NoteView>),
    NoteUpdated(NoteView),
    NoteDeleted,
    Failure(ApiError),
}

/// A step as contracts see it.
pub enum StepView {
    Ask(QueryView, PendingView),
    Done(ResponseView),
}

impl View for Query {
    type V = QueryView;

    open spec fn view(&self) -> QueryView {
        match *self {
            Query::InsertUser(u) => QueryView::InsertUser(u@),
            Query::FindUser { username } => QueryView::FindUser { username: username@ },
            Query::InsertNote(n) => QueryView::InsertNote(n@),
            Query::ListNotes { owner } => QueryView::ListNotes { owner: owner@ },
            Query::GetNote { id } => QueryView::GetNote { id: id@ },
            Query::UpdateNote { id, title, content } => QueryView::UpdateNote {
                id: id@,
                title: title@,
                content: content@,
            },
            Query::DeleteNote { id } => QueryView::DeleteNote { id: id@ },
        }
    }
}

impl View for Reply {
    type V = ReplyView;

    open spec fn view(&self) -> ReplyView {
        match *self {
            Reply::Rows(n) => ReplyView::Rows(n),
            Reply::Conflict => ReplyView::Conflict,
            Reply::User(Some(u)) => ReplyView::User(Some(u@)),
            Reply::User(None) => ReplyView::User(None),
            Reply::Note(Some(n)) => ReplyView::Note(Some(n@)),
            Reply::Note(None) => ReplyView::Note(None),
            Reply::Notes(v) => ReplyView::Notes(note_views(v@)),
            Reply::Failed => ReplyView::Failed,
        }
    }
}

impl View for Pending {
    type V = PendingView;

    open spec fn view(&self) -> PendingView {
        match *self {
            Pending::Registration { id } => PendingView::Registration { id: id@ },
            Pending::Login { password } => PendingView::Login { password: password@ },
            Pending::Creation => PendingView::Creation,
            Pending::Listing => PendingView::Listing,
            Pending::UpdateCheck { subject, id, title, content } => PendingView::UpdateCheck {
                subject: subject@,
                id: id@,
                title: title@,
                content: content@,
            },
            Pending::Update => PendingView::Update,
            Pending::DeleteCheck { subject, id } => PendingView::DeleteCheck {
                subject: subject@,
                id: id@,
            },
            Pending::Deletion => PendingView::Deletion,
        }
    }
}

impl View for Response {
    type V = ResponseView;

    open spec fn view(&self) -> ResponseView {
        match *self {
            Response::Registered { id } => ResponseView::Registered { id: id@ },
            Response::LoggedIn { token } => ResponseView::LoggedIn { token: token@ },
            Response::NoteCreated(n) => ResponseView::NoteCreated(n@),
            Response::NoteList(v) => ResponseView::NoteList(note_views(v@)),
            Response::NoteUpdated(n) => ResponseView::NoteUpdated(n@),
            Response::NoteDeleted => ResponseView::NoteDeleted,
            Response::Failure(e) => ResponseView::Failure(e),
        }
    }
}

impl View for Step {
    type V = StepView;

    open spec fn view(&self) -> StepView {
        match *self {
            Step::Ask(q, p) => StepView::Ask(q@, p@),
            Step::Done(r) => StepView::Done(r@),
        }
    }
}

impl ResponseView {
    /// The HTTP status of the response.
    pub open spec fn status_code(self) -> u16 {
        match self {
            ResponseView::Registered { .. } => 201,
            ResponseView::LoggedIn { .. } => 200,
            ResponseView::NoteCreated(_) => 201,
            ResponseView::NoteList(_) => 200,
            ResponseView::NoteUpdated(_) => 200,
            ResponseView::NoteDeleted => 204,
            ResponseView::Failure(e) => e.status_code(),
        }
    }
}

impl Response {
    /// The HTTP status of the response.
    pub fn status(&self) -> (code: u16)
        ensures
            code == self@.status_code(),
    {
        match self {
            Response::Registered { .. } => 201,
            Response::LoggedIn { .. } => 200,
            Response::NoteCreated(_) => 201,
            Response::NoteList(_) => 200,
            Response::NoteUpdated(_) => 200,
            Response::NoteDeleted => 204,
            Response::Failure(e) => e.status(),
        }
    }
}

impl PendingView {
    /// How many queries a request in this state may still ask, the one that
    /// is running included.
    pub open spec fn queries_left(self) -> nat {
        match self {
            PendingView::UpdateCheck { .. } => 2,
            PendingView::DeleteCheck { .. } => 2,
            _ => 1,
        }
    }
}

impl StepView {
    /// How many queries the request may still ask.
    pub open spec fn queries_left(self) -> nat {
        match self {
            StepView::Ask(_, pending) => pending.queries_left(),
            StepView::Done(_) => 0,
        }
    }

    /// The step that answers a request with a failure.
    pub open spec fn fail(e: ApiError) -> StepView {
        StepView::Done(ResponseView::Failure(e))
    }
}

/// What a login answers once the user lookup has returned.
pub open spec fn login_outcome(
    secret: Seq<u8>,
    validity: u64,
    now: u64,
    password: Seq<char>,
    found: Option<UserView>,
) -> ResponseView {
    match found {
        None => ResponseView::Failure(ApiError::InvalidCredentials),
        Some(user) => match password_check(password, user.password_hash) {
            None => ResponseView::Failure(ApiError::StorageFailure),
            Some(false) => ResponseView::Failure(ApiError::InvalidCredentials),
            Some(true) => if now + validity <= u64::MAX {
                ResponseView::LoggedIn {
                    token: jwt_encoding(user.id, (now + validity) as u64, secret),
                }
            } else {
                ResponseView::Failure(ApiError::StorageFailure)
            },
        },
    }
}

/// How a request in state `pending` goes on when the store answers `reply`
/// at time `now`.
///
/// A reply of the wrong kind, a refused write other than a registration's,
/// and `Failed` all end the request with `StorageFailure`.
pub open spec fn resume_spec(
    secret: Seq<u8>,
    validity: u64,
    now: u64,
    pending: PendingView,
    reply: ReplyView,
) -> StepView {
    match pending {
        PendingView::Registration { id } => match reply {
            ReplyView::Rows(n) => if n > 0 {
                StepView::Done(ResponseView::Registered { id })
            } else {
                StepView::fail(ApiError::StorageFailure)
            },
            ReplyView::Conflict => StepView::fail(ApiError::DuplicateUsername),
            _ => StepView::fail(ApiError::StorageFailure),
        },
        PendingView::Login { password } => match reply {
            ReplyView::User(found) => StepView::Done(
                login_outcome(secret, validity, now, password, found),
            ),
            _ => StepView::fail(ApiError::StorageFailure),
        },
        PendingView::Creation => match reply {
            ReplyView::Note(Some(note)) => StepView::Done(ResponseView::NoteCreated(note)),
            _ => StepView::fail(ApiError::StorageFailure),
        },
        PendingView::Listing => match reply {
            ReplyView::Notes(notes) => StepView::Done(ResponseView::NoteList(notes)),
            _ => StepView::fail(ApiError::StorageFailure),
        },
        PendingView::UpdateCheck { subject, id, title, content } => match reply {
            ReplyView::Note(fetched) => match ownership(fetched, subject) {
                Ok(_) => StepView::Ask(
                    QueryView::UpdateNote { id, title, content },
                    PendingView::Update,
                ),
                Err(e) => StepView::fail(e),
            },
            _ => StepView::fail(ApiError::StorageFailure),
        },
        PendingView::Update => match reply {
            ReplyView::Note(Some(note)) => StepView::Done(ResponseView::NoteUpdated(note)),
            ReplyView::Note(None) => StepView::fail(ApiError::NotFound),
            _ => StepView::fail(ApiError::StorageFailure),
        },
        PendingView::DeleteCheck { subject, id } => match reply {
            ReplyView::Note(fetched) => match ownership(fetched, subject) {
                Ok(_) => StepView::Ask(QueryView::DeleteNote { id }, PendingView::Deletion),
                Err(e) => StepView::fail(e),
            },
            _ => StepView::fail(ApiError::StorageFailure),
        },
        PendingView::Deletion => match reply {
            ReplyView::Rows(n) => if n > 0 {
                StepView::Done(ResponseView::NoteDeleted)
            } else {
                StepView::fail(ApiError::NotFound)
            },
            _ => StepView::fail(ApiError::StorageFailure),
        },
    }
}

/// Decides a login once the user lookup has returned: checks the password
/// against the stored hash and, where it matches, issues a token for the
/// user's id.
pub fn finish_login(cfg: &Config, password: &str, found: Option<User>, now: u64) -> (response:
    Response)
    ensures
        response@ == login_outcome(
            cfg.secret@,
            cfg.token_validity,
            now,
            password@,
            match found {
                Some(u) => Some(u@),
                None => None,
            },
        ),
        response matches Response::LoggedIn { token } ==> found matches Some(u) && issued_at(
            token@,
            u.id@,
            cfg.secret@,
            now,
            cfg.token_validity,
        ),
{
    let user = match found {
        Some(u) => u,
        None => {
            return Response::Failure(ApiError::InvalidCredentials);
        },
    };
    match verify_password(password, user.password_hash.as_str()) {
        Err(_) => Response::Failure(ApiError::StorageFailure),
        Ok(false) => Response::Failure(ApiError::InvalidCredentials),
        Ok(true) => match issue_token(
            user.id.as_str(),
            cfg.secret.as_slice(),
            now,
            cfg.token_validity,
        ) {
            Some(token) => Response::LoggedIn { token },
            None => Response::Failure(ApiError::StorageFailure),
        },
    }
}

/// Continues a request with the store's reply.
pub fn resume(cfg: &Config, pending: Pending, reply: Reply, now: u64) -> (step: Step)
    ensures
        step@ == resume_spec(cfg.secret@, cfg.token_validity, now, pending@, reply@),
        step@.queries_left() < pending@.queries_left(),
        step matches Step::Done(Response::LoggedIn { token }) ==> reply matches Reply::User(
            Some(u),
        ) && issued_at(token@, u.id@, cfg.secret@, now, cfg.token_validity),
{
    let failed = Step::Done(Response::Failure(ApiError::StorageFailure));
    match pending {
        Pending::Registration { id } => match reply {
            Reply::Rows(n) => if n > 0 {
                Step::Done(Response::Registered { id })
            } else {
                failed
            },
            Reply::Conflict => Step::Done(Response::Failure(ApiError::DuplicateUsername)),
            _ => failed,
        },
        Pending::Login { password } => match reply {
            Reply::User(found) => Step::Done(finish_login(cfg, password.as_str(), found, now)),
            _ => failed,
        },
        Pending::Creation => match reply {
            Reply::Note(Some(note)) => Step::Done(Response::NoteCreated(note)),
            _ => failed,
        },
        Pending::Listing => match reply {
            Reply::Notes(notes) => Step::Done(Response::NoteList(notes)),
            _ => failed,
        },
        Pending::UpdateCheck { subject, id, title, content } => match reply {
            Reply::Note(fetched) => match check_owner(fetched, subject.as_str()) {
                Ok(_) => Step::Ask(Query::UpdateNote { id, title, content }, Pending::Update),
                Err(e) => Step::Done(Response::Failure(e)),
            },
            _ => failed,
        },
        Pending::Update => match reply {
            Reply::Note(Some(note)) => Step::Done(Response::NoteUpdated(note)),
            Reply::Note(None) => Step::Done(Response::Failure(ApiError::NotFound)),
            _ => failed,
        },
        Pending::DeleteCheck { subject, id } => match reply {
            Reply::Note(fetched) => match check_owner(fetched, subject.as_str()) {
                Ok(_) => Step::Ask(Query::DeleteNote { id }, Pending::Deletion),
                Err(e) => Step::Done(Response::Failure(e)),
            },
            _ => failed,
        },
        Pending::Deletion => match reply {
            Reply::Rows(n) => if n > 0 {
                Step::Done(Response::NoteDeleted)
            } else {
                Step::Done(Response::Failure(ApiError::NotFound))
            },
            _ => failed,
        },
    }
}

} // verus!
