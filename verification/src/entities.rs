//! The rows of the five tables.
//!
//! A user is the root of ownership. API keys and sessions belong to one user.
//! Labels and test cases belong to one session and, redundantly, to a user,
//! who must be the session's owner: the tables do not enforce that, so rows
//! for a session are best made by [`Session::label`] and
//! [`Session::testcase`], which copy the owner from the session.

use vstd::prelude::*;

verus! {

/// A point in time: whole seconds since 1970-01-01 00:00:00 UTC and the
/// nanoseconds into that second.
#[derive(Clone, Copy, Debug, PartialEq, Eq, Hash, Structural)]
pub struct Timestamp {
    pub secs: i64,
    pub nanos: u32,
}

/// A principal. Secrets are held as a salt and a hash, never in the clear.
#[derive(Clone, Debug, PartialEq, Eq)]
pub struct User {
    pub id: u128,
    pub username: String,
    pub password_salt: Vec<u8>,
    pub password_hash: Vec<u8>,
    pub created_at: Timestamp,
    pub updated_at: Timestamp,
}

/// An API key of a user. The secret is held as a salt and a hash.
#[derive(Clone, Debug, PartialEq, Eq)]
pub struct ApiKey {
    pub id: u128,
    pub description: Option<String>,
    pub secret_salt: Vec<u8>,
    pub secret_hash: Vec<u8>,
    pub user_id: u128,
    pub created_at: Timestamp,
    pub updated_at: Timestamp,
}

/// A test session of a user. The baggage is free-form structured metadata,
/// carried as text and not looked into.
#[derive(Clone, Debug, PartialEq, Eq)]
pub struct Session {
    pub id: u128,
    pub description: Option<String>,
    pub baggage: Option<String>,
    pub user_id: u128,
    pub created_at: Timestamp,
    pub updated_at: Timestamp,
}

/// A label of a session. Its `id` is assigned by the datastore.
#[derive(Clone, Debug, PartialEq, Eq)]
pub struct Label {
    pub id: i32,
    pub session_id: u128,
    pub key: String,
    pub value: Option<String>,
    pub user_id: u128,
    pub created_at: Timestamp,
    pub updated_at: Timestamp,
}

/// A test case recorded in a session.
#[derive(Clone, Debug, PartialEq, Eq)]
pub struct Testcase {
    pub id: u128,
    pub session_id: u128,
    pub name: String,
    pub classname: Option<String>,
    pub file: Option<String>,
    pub testsuite: Option<String>,
    pub output: Option<String>,
    pub status: i32,
    pub baggage: Option<String>,
    pub user_id: u128,
    pub created_at: Timestamp,
    pub updated_at: Timestamp,
}

impl Timestamp {
    /// Whether the nanoseconds stay within their second.
    pub open spec fn well_formed(self) -> bool {
        self.secs >= 0 && self.nanos < 1_000_000_000
    }
}

impl Session {
    /// A label of this session, owned by this session's user. The `id` is a
    /// placeholder until the datastore assigns one.
    pub fn label(&self, key: String, value: Option<String>, at: Timestamp) -> (label: Label)
        ensures
            label.session_id == self.id,
            label.user_id == self.user_id,
            label.id == 0,
            label.key == key,
            label.value == value,
            label.created_at == at,
            label.updated_at == at,
    {
        Label {
            id: 0,
            session_id: self.id,
            key,
            value,
            user_id: self.user_id,
            created_at: at,
            updated_at: at,
        }
    }

    /// A test case of this session, owned by this session's user, with
    /// nothing recorded but its name and status.
    pub fn testcase(&self, id: u128, name: String, status: i32, at: Timestamp) -> (testcase:
        Testcase)
        ensures
            testcase.session_id == self.id,
            testcase.user_id == self.user_id,
            testcase.id == id,
            testcase.name == name,
            testcase.status == status,
            testcase.classname is None,
            testcase.file is None,
            testcase.testsuite is None,
            testcase.output is None,
            testcase.baggage is None,
            testcase.created_at == at,
            testcase.updated_at == at,
    {
        Testcase {
            id,
            session_id: self.id,
            name,
            classname: None,
            file: None,
            testsuite: None,
            output: None,
            status,
            baggage: None,
            user_id: self.user_id,
            created_at: at,
            updated_at: at,
        }
    }
}

} // verus!
