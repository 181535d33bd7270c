//! Verified core of a multi-user note-taking service.
//!
//! Clients register, log in, and create, list, update and delete personal
//! notes. Every note request passes an authorization guard: a bearer token is
//! extracted and verified before the store is consulted, and a note is only
//! changed by the user who owns it.
//!
//! The crate decides; it performs no I/O. A handler returns a [`flow::Step`]
//! that either answers the request or names the one store query to run next.
//! The caller runs the query and hands the reply to [`flow::resume`].
//!
//! - [`models`]: the records and their views.
//! - [`error`]: the failure taxonomy and its HTTP statuses.
//! - [`auth`]: password hashing and identity tokens.
//! - [`guard`]: token extraction, authentication, the ownership check.
//! - [`context`]: configuration, and what the environment supplies.
//! - [`flow`]: queries, replies, and how a request resumes.
//! - [`handlers`]: the six endpoints.
//! - [`store`]: what the store holds, and an executable model of it.
//! - [`laws`]: what is proved of the service as a whole.

pub mod auth;
pub mod context;
pub mod error;
pub mod flow;
pub mod guard;
pub mod handlers;
pub mod laws;
pub mod models;
pub mod store;
