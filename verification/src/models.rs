//! The records of the service and their mathematical views.
//!
//! Each record is a bundle of strings. Its view replaces every `String` by the
//! sequence of its characters, which is what contracts speak of.

use vstd::prelude::*;

verus! {

/// Body of a request that creates or rewrites a note. The owner is never part
/// of it: the guard takes the owner from the verified token.
#[derive(Debug, PartialEq, Eq)]
pub struct NewNote {
    pub title: String,
    pub content: String,
}

/// A stored note.
#[derive(Debug, PartialEq, Eq)]
pub struct Note {
    pub id: String,
    pub title: String,
    pub content: String,
    pub created_at: String,
    pub user_id: String,
}

/// A stored user. Written once at registration and never changed.
#[derive(Debug, PartialEq, Eq)]
pub struct User {
    pub id: String,
    pub username: String,
    pub password_hash: String,
    pub created_at: String,
}

/// Body of a registration request. The password is plain text, to be hashed.
#[derive(Debug, PartialEq, Eq)]
pub struct NewUser {
    pub username: String,
    pub password: String,
}

/// Body of a login request.
#[derive(Debug, PartialEq, Eq)]
pub struct LoginRequest {
    pub username: String,
    pub password: String,
}

/// A note as contracts see it.
pub struct NoteView {
    pub id: Seq<char>,
    pub title: Seq<char>,
    pub content: Seq<char>,
    pub created_at: Seq<char>,
    pub user_id: Seq<char>,
}

/// A user as contracts see it.
pub struct UserView {
    pub id: Seq<char>,
    pub username: Seq<char>,
    pub password_hash: Seq<char>,
    pub created_at: Seq<char>,
}

impl View for Note {
    type V = NoteView;

    open spec fn view(&self) -> NoteView {
        NoteView {
            id: self.id@,
            title: self.title@,
            content: self.content@,
            created_at: self.created_at@,
            user_id: self.user_id@,
        }
    }
}

impl View for User {
    type V = UserView;

    open spec fn view(&self) -> UserView {
        UserView {
            id: self.id@,
            username: self.username@,
            password_hash: self.password_hash@,
            created_at: self.created_at@,
        }
    }
}

impl NoteView {
    /// The note with its title and content replaced; identity, owner and
    /// creation time stay as they are.
    pub open spec fn rewritten(self, title: Seq<char>, content: Seq<char>) -> NoteView {
        NoteView { title, content, ..self }
    }
}

/// The views of a sequence of notes, in order.
pub open spec fn note_views(notes: Seq<Note>) -> Seq<NoteView> {
    notes.map_values(|n: Note| n@)
}

/// The views of a sequence of users, in order.
pub open spec fn user_views(users: Seq<User>) -> Seq<UserView> {
    users.map_values(|u: User| u@)
}

impl Clone for Note {
    fn clone(&self) -> (copy: Self)
        ensures
            copy == *self,
    {
        Note {
            id: self.id.clone(),
            title: self.title.clone(),
            content: self.content.clone(),
            created_at: self.created_at.clone(),
            user_id: self.user_id.clone(),
        }
    }
}

impl Clone for User {
    fn clone(&self) -> (copy: Self)
        ensures
            copy == *self,
    {
        User {
            id: self.id.clone(),
            username: self.username.clone(),
            password_hash: self.password_hash.clone(),
            created_at: self.created_at.clone(),
        }
    }
}

impl Clone for NewNote {
    fn clone(&self) -> (copy: Self)
        ensures
            copy == *self,
    {
        NewNote { title: self.title.clone(), content: self.content.clone() }
    }
}

impl Clone for NewUser {
    fn clone(&self) -> (copy: Self)
        ensures
            copy == *self,
    {
        NewUser { username: self.username.clone(), password: self.password.clone() }
    }
}

impl Clone for LoginRequest {
    fn clone(&self) -> (copy: Self)
        ensures
            copy == *self,
    {
        LoginRequest { username: self.username.clone(), password: self.password.clone() }
    }
}

} // verus!
