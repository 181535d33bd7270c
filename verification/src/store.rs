//! The two tables of the service, and an executable model of them.
//!
//! [`DbView`] says what the store holds and what each [`Query`] does to it.
//! [`Database`] keeps the same rows in memory and is proved to answer every
//! query as the model says; [`Database::serve`] drives a request to its
//! response against it. A durable store that answers as [`DbView::answer`]
//! does gives the service the behaviour proved here.

use crate::context::Config;
use crate::flow::{
    resume, resume_spec, Query, QueryView, Reply, ReplyView, Response, ResponseView, Step,
    StepView,
};
use crate::guard::same_text;
use crate::models::{note_views, user_views, Note, NoteView, User, UserView};
use vstd::prelude::*;

verus! {

/// The predicate "belongs to `owner`" on notes.
pub open spec fn owned_by(owner: Seq<char>) -> spec_fn(NoteView) -> bool {
    |n: NoteView| n.user_id == owner
}

/// The predicate "belongs to somebody other than `owner`" on notes.
pub open spec fn not_owned_by(owner: Seq<char>) -> spec_fn(NoteView) -> bool {
    |n: NoteView| n.user_id != owner
}

/// The predicate "is registered under `username`" on users.
pub open spec fn named(username: Seq<char>) -> spec_fn(UserView) -> bool {
    |u: UserView| u.username == username
}

/// The contents of the store: the rows of each table in storage order.
pub struct DbView {
    pub users: Seq<UserView>,
    pub notes: Seq<NoteView>,
}

impl DbView {
    /// The store with no rows.
    pub open spec fn empty() -> DbView {
        DbView { users: Seq::empty(), notes: Seq::empty() }
    }

    /// The uniqueness constraints: no two users share a username or an id,
    /// and no two notes share an id.
    pub open spec fn wf(self) -> bool {
        &&& forall|i: int, j: int|
            0 <= i < j < self.users.len() ==> (#[trigger] self.users[i]).username != (
            #[trigger] self.users[j]).username
        &&& forall|i: int, j: int|
            0 <= i < j < self.users.len() ==> (#[trigger] self.users[i]).id != (
            #[trigger] self.users[j]).id
        &&& forall|i: int, j: int|
            0 <= i < j < self.notes.len() ==> (#[trigger] self.notes[i]).id != (
            #[trigger] self.notes[j]).id
    }

    /// Whether row `i` of the users table holds `username`.
    pub open spec fn user_row_named(self, i: int, username: Seq<char>) -> bool {
        0 <= i < self.users.len() && self.users[i].username == username
    }

    /// Whether row `i` of the users table holds the id `id`.
    pub open spec fn user_row_with_id(self, i: int, id: Seq<char>) -> bool {
        0 <= i < self.users.len() && self.users[i].id == id
    }

    /// Whether row `i` of the notes table holds the id `id`.
    pub open spec fn note_row_with_id(self, i: int, id: Seq<char>) -> bool {
        0 <= i < self.notes.len() && self.notes[i].id == id
    }

    /// Whether some user is registered under `username`.
    pub open spec fn has_username(self, username: Seq<char>) -> bool {
        exists|i: int| self.user_row_named(i, username)
    }

    /// Whether some user has the id `id`.
    pub open spec fn has_user_id(self, id: Seq<char>) -> bool {
        exists|i: int| self.user_row_with_id(i, id)
    }

    /// The user registered under `username`, if there is one.
    pub open spec fn user_named(self, username: Seq<char>) -> Option<UserView> {
        if self.has_username(username) {
            Some(self.users[choose|i: int| self.user_row_named(i, username)])
        } else {
            None
        }
    }

    /// The row of the note with id `id`, if there is one.
    pub open spec fn note_position(self, id: Seq<char>) -> Option<int> {
        if exists|i: int| self.note_row_with_id(i, id) {
            Some(choose|i: int| self.note_row_with_id(i, id))
        } else {
            None
        }
    }

    /// The note with id `id`, if there is one.
    pub open spec fn note_with_id(self, id: Seq<char>) -> Option<NoteView> {
        match self.note_position(id) {
            Some(k) => Some(self.notes[k]),
            None => None,
        }
    }

    /// The notes of `owner`, in storage order.
    pub open spec fn notes_of(self, owner: Seq<char>) -> Seq<NoteView> {
        self.notes.filter(owned_by(owner))
    }

    /// The notes of everybody but `owner`, in storage order.
    pub open spec fn notes_of_others(self, owner: Seq<char>) -> Seq<NoteView> {
        self.notes.filter(not_owned_by(owner))
    }

    /// How many users are registered under `username`.
    pub open spec fn users_named(self, username: Seq<char>) -> nat {
        self.users.filter(named(username)).len()
    }

    /// What a query does to the store, and what the store answers.
    ///
    /// A write that would break a uniqueness constraint changes nothing and
    /// answers `Conflict`. An update or a deletion of an id that is not there
    /// changes nothing and says so: no row, or zero rows.
    pub open spec fn answer(self, query: QueryView) -> (DbView, ReplyView) {
        match query {
            QueryView::InsertUser(user) => if self.has_username(user.username) || self.has_user_id(
                user.id,
            ) {
                (self, ReplyView::Conflict)
            } else {
                (DbView { users: self.users.push(user), ..self }, ReplyView::Rows(1))
            },
            QueryView::FindUser { username } => (self, ReplyView::User(self.user_named(username))),
            QueryView::InsertNote(note) => if self.note_position(note.id) is Some {
                (self, ReplyView::Conflict)
            } else {
                (DbView { notes: self.notes.push(note), ..self }, ReplyView::Note(Some(note)))
            },
            QueryView::ListNotes { owner } => (self, ReplyView::Notes(self.notes_of(owner))),
            QueryView::GetNote { id } => (self, ReplyView::Note(self.note_with_id(id))),
            QueryView::UpdateNote { id, title, content } => match self.note_position(id) {
                Some(k) => {
                    let stored = self.notes[k].rewritten(title, content);
                    (
                        DbView { notes: self.notes.update(k, stored), ..self },
                        ReplyView::Note(Some(stored)),
                    )
                },
                None => (self, ReplyView::Note(None)),
            },
            QueryView::DeleteNote { id } => match self.note_position(id) {
                Some(k) => (DbView { notes: self.notes.remove(k), ..self }, ReplyView::Rows(1)),
                None => (self, ReplyView::Rows(0)),
            },
        }
    }

    /// The store and the response after a request has been driven from
    /// `step` to its end, each query answered by this store.
    pub open spec fn run(self, secret: Seq<u8>, validity: u64, now: u64, step: StepView) -> (
        DbView,
        ResponseView,
    )
        decreases step.queries_left(),
    {
        match step {
            StepView::Done(response) => (self, response),
            StepView::Ask(query, pending) => {
                let (next, reply) = self.answer(query);
                next.run(secret, validity, now, resume_spec(secret, validity, now, pending, reply))
            },
        }
    }
}

/// The tables in memory.
pub struct Database {
    users: Vec<User>,
    notes: Vec<Note>,
}

impl View for Database {
    type V = DbView;

    closed spec fn view(&self) -> DbView {
        DbView { users: user_views(self.users@), notes: note_views(self.notes@) }
    }
}

impl Database {
    /// Whether the uniqueness constraints hold.
    pub open spec fn wf(&self) -> bool {
        self@.wf()
    }

    /// An empty store.
    pub fn new() -> (db: Database)
        ensures
            db.wf(),
            db@ == DbView::empty(),
    {
        let db = Database { users: Vec::new(), notes: Vec::new() };
        assert(db@.users =~= Seq::empty());
        assert(db@.notes =~= Seq::empty());
        db
    }

    /// The number of rows in the users table.
    pub fn user_count(&self) -> (n: usize)
        ensures
            n == self@.users.len(),
    {
        self.users.len()
    }

    /// The number of rows in the notes table.
    pub fn note_count(&self) -> (n: usize)
        ensures
            n == self@.notes.len(),
    {
        self.notes.len()
    }

    /// The rows of the users table, in storage order.
    pub fn users(&self) -> (rows: &Vec<User>)
        ensures
            user_views(rows@) == self@.users,
    {
        &self.users
    }

    /// The rows of the notes table, in storage order.
    pub fn notes(&self) -> (rows: &Vec<Note>)
        ensures
            note_views(rows@) == self@.notes,
    {
        &self.notes
    }

    fn user_row_by_name(&self, username: &str) -> (row: Option<usize>)
        requires
            self.wf(),
        ensures
            match row {
                Some(k) => self@.user_row_named(k as int, username@) && self@.user_named(username@)
                    == Some(self@.users[k as int]),
                None => !self@.has_username(username@),
            },
    {
        let mut i: usize = 0;
        while i < self.users.len()
            invariant
                self.wf(),
                i <= self.users.len(),
                forall|j: int| 0 <= j < i ==> !self@.user_row_named(j, username@),
            decreases self.users.len() - i,
        {
            if same_text(self.users[i].username.as_str(), username) {
                proof {
                    assert(self@.user_row_named(i as int, username@));
                    let c = choose|c: int| self@.user_row_named(c, username@);
                    assert(self@.users[c].username == self@.users[i as int].username);
                    assert(c == i);
                }
                return Some(i);
            }
            i += 1;
        }
        None
    }

    fn user_row_by_id(&self, id: &str) -> (row: Option<usize>)
        ensures
            match row {
                Some(k) => self@.user_row_with_id(k as int, id@),
                None => !self@.has_user_id(id@),
            },
    {
        let mut i: usize = 0;
        while i < self.users.len()
            invariant
                i <= self.users.len(),
                forall|j: int| 0 <= j < i ==> !self@.user_row_with_id(j, id@),
            decreases self.users.len() - i,
        {
            if same_text(self.users[i].id.as_str(), id) {
                return Some(i);
            }
            i += 1;
        }
        None
    }

    fn note_row(&self, id: &str) -> (row: Option<usize>)
        requires
            self.wf(),
        ensures
            match row {
                Some(k) => self@.note_position(id@) == Some(k as int) && self@.note_row_with_id(
                    k as int,
                    id@,
                ),
                None => self@.note_position(id@) is None,
            },
    {
        let mut i: usize = 0;
        while i < self.notes.len()
            invariant
                self.wf(),
                i <= self.notes.len(),
                forall|j: int| 0 <= j < i ==> !self@.note_row_with_id(j, id@),
            decreases self.notes.len() - i,
        {
            if same_text(self.notes[i].id.as_str(), id) {
                proof {
                    assert(self@.note_row_with_id(i as int, id@));
                    let c = choose|c: int| self@.note_row_with_id(c, id@);
                    assert(self@.notes[c].id == self@.notes[i as int].id);
                    assert(c == i);
                }
                return Some(i);
            }
            i += 1;
        }
        None
    }

    /// Inserts a user row unless its username or its id is taken.
    pub fn insert_user(&mut self, user: User) -> (reply: Reply)
        requires
            old(self).wf(),
        ensures
            final(self).wf(),
            (final(self)@, reply@) == old(self)@.answer(QueryView::InsertUser(user@)),
    {
        if self.user_row_by_name(user.username.as_str()).is_some() {
            return Reply::Conflict;
        }
        if self.user_row_by_id(user.id.as_str()).is_some() {
            return Reply::Conflict;
        }
        let ghost before = self@;
        self.users.push(user);
        proof {
            assert(self@.users =~= before.users.push(user@));
            assert(self@.notes == before.notes);
            assert forall|i: int, j: int| 0 <= i < j < self@.users.len() implies (
            #[trigger] self@.users[i]).username != (#[trigger] self@.users[j]).username && self@.users[i].id
                != self@.users[j].id by {
                if j == before.users.len() {
                    assert(!before.user_row_named(i, user@.username));
                    assert(!before.user_row_with_id(i, user@.id));
                }
            }
        }
        Reply::Rows(1)
    }

    /// Looks a user up by username.
    pub fn find_by_username(&self, username: &str) -> (reply: Reply)
        requires
            self.wf(),
        ensures
            (self@, reply@) == self@.answer(QueryView::FindUser { username: username@ }),
    {
        match self.user_row_by_name(username) {
            Some(k) => Reply::User(Some(self.users[k].clone())),
            None => Reply::User(None),
        }
    }

    /// Inserts a note row unless its id is taken, and returns it as stored.
    pub fn insert_note(&mut self, note: Note) -> (reply: Reply)
        requires
            old(self).wf(),
        ensures
            final(self).wf(),
            (final(self)@, reply@) == old(self)@.answer(QueryView::InsertNote(note@)),
    {
        if self.note_row(note.id.as_str()).is_some() {
            return Reply::Conflict;
        }
        let ghost before = self@;
        let stored = note.clone();
        self.notes.push(note);
        proof {
            assert(self@.notes =~= before.notes.push(note@));
            assert(self@.users == before.users);
            assert forall|i: int, j: int| 0 <= i < j < self@.notes.len() implies (
            #[trigger] self@.notes[i]).id != (#[trigger] self@.notes[j]).id by {
                if j == before.notes.len() {
                    assert(!before.note_row_with_id(i, note@.id));
                }
            }
        }
        Reply::Note(Some(stored))
    }

    /// All notes of `owner`, in storage order.
    pub fn list_notes(&self, owner: &str) -> (reply: Reply)
        ensures
            (self@, reply@) == self@.answer(QueryView::ListNotes { owner: owner@ }),
    {
        let mut found: Vec<Note> = Vec::new();
        let mut i: usize = 0;
        assert(self@.notes.take(0) =~= Seq::empty());
        assert(Seq::<NoteView>::empty().filter(owned_by(owner@)) =~= Seq::empty()) by {
            reveal(Seq::filter);
        }
        assert(note_views(found@) =~= Seq::empty());
        while i < self.notes.len()
            invariant
                i <= self.notes.len(),
                note_views(found@) == self@.notes.take(i as int).filter(owned_by(owner@)),
            decreases self.notes.len() - i,
        {
            let ghost so_far = self@.notes.take(i as int);
            let ghost kept = found@;
            proof {
                assert(self@.notes.take(i + 1) =~= so_far.push(self@.notes[i as int]));
                so_far.lemma_filter_push(self@.notes[i as int], owned_by(owner@));
            }
            if same_text(self.notes[i].user_id.as_str(), owner) {
                found.push(self.notes[i].clone());
                assert(note_views(found@) =~= note_views(kept).push(self@.notes[i as int]));
            }
            i += 1;
        }
        assert(self@.notes.take(self@.notes.len() as int) =~= self@.notes);
        Reply::Notes(found)
    }

    /// Looks a note up by id.
    pub fn get_note(&self, id: &str) -> (reply: Reply)
        requires
            self.wf(),
        ensures
            (self@, reply@) == self@.answer(QueryView::GetNote { id: id@ }),
    {
        match self.note_row(id) {
            Some(k) => Reply::Note(Some(self.notes[k].clone())),
            None => Reply::Note(None),
        }
    }

    /// Replaces title and content of the note with this id and returns the
    /// row as stored afterwards; its creation time and owner stay.
    pub fn update_note(&mut self, id: &str, title: String, content: String) -> (reply: Reply)
        requires
            old(self).wf(),
        ensures
            final(self).wf(),
            (final(self)@, reply@) == old(self)@.answer(
                QueryView::UpdateNote { id: id@, title: title@, content: content@ },
            ),
    {
        let k = match self.note_row(id) {
            Some(k) => k,
            None => {
                return Reply::Note(None);
            },
        };
        let ghost before = self@;
        let stored = Note {
            id: self.notes[k].id.clone(),
            title,
            content,
            created_at: self.notes[k].created_at.clone(),
            user_id: self.notes[k].user_id.clone(),
        };
        let answer = stored.clone();
        self.notes.set(k, stored);
        proof {
            assert(stored@ == before.notes[k as int].rewritten(title@, content@));
            assert(self@.notes =~= before.notes.update(k as int, stored@));
            assert(self@.users == before.users);
        }
        Reply::Note(Some(answer))
    }

    /// Deletes the note with this id and reports how many rows went: one,
    /// or none when the id is not there.
    pub fn delete_note(&mut self, id: &str) -> (reply: Reply)
        requires
            old(self).wf(),
        ensures
            final(self).wf(),
            (final(self)@, reply@) == old(self)@.answer(QueryView::DeleteNote { id: id@ }),
    {
        let k = match self.note_row(id) {
            Some(k) => k,
            None => {
                return Reply::Rows(0);
            },
        };
        let ghost before = self@;
        self.notes.remove(k);
        proof {
            assert(self@.notes =~= before.notes.remove(k as int));
            assert(self@.users == before.users);
        }
        Reply::Rows(1)
    }

    /// Answers one query as [`DbView::answer`] says.
    pub fn answer(&mut self, query: Query) -> (reply: Reply)
        requires
            old(self).wf(),
        ensures
            final(self).wf(),
            (final(self)@, reply@) == old(self)@.answer(query@),
    {
        match query {
            Query::InsertUser(user) => self.insert_user(user),
            Query::FindUser { username } => self.find_by_username(username.as_str()),
            Query::InsertNote(note) => self.insert_note(note),
            Query::ListNotes { owner } => self.list_notes(owner.as_str()),
            Query::GetNote { id } => self.get_note(id.as_str()),
            Query::UpdateNote { id, title, content } => self.update_note(
                id.as_str(),
                title,
                content,
            ),
            Query::DeleteNote { id } => self.delete_note(id.as_str()),
        }
    }

    /// Drives a request from `step` to its response, answering each of its
    /// queries from this store.
    pub fn serve(&mut self, cfg: &Config, step: Step, now: u64) -> (response: Response)
        requires
            old(self).wf(),
        ensures
            final(self).wf(),
            (final(self)@, response@) == old(self)@.run(
                cfg.secret@,
                cfg.token_validity,
                now,
                step@,
            ),
    {
        let mut current = step;
        loop
            invariant
                self.wf(),
                self@.run(cfg.secret@, cfg.token_validity, now, current@) == old(self)@.run(
                    cfg.secret@,
                    cfg.token_validity,
                    now,
                    step@,
                ),
            decreases current@.queries_left(),
        {
            match current {
                Step::Done(response) => {
                    return response;
                },
                Step::Ask(query, pending) => {
                    let reply = self.answer(query);
                    current = resume(cfg, pending, reply, now);
                },
            }
        }
    }
}

} // verus!
