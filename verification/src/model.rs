//! The rules that the schema gives the five tables, over the rows as
//! mathematical sequences: primary keys are unique, a row can only be
//! inserted while the rows it references exist, and deleting a row deletes
//! every row that references it, and so on down the ownership chain.

use crate::entities::{ApiKey, Label, Session, Testcase, User};
use vstd::prelude::*;

verus! {

/// Why the store refused a row.
#[derive(Clone, Copy, Debug, PartialEq, Eq, Hash, Structural)]
pub enum StoreError {
    /// A row of the table has the same primary key.
    DuplicateKey,
    /// Usernames are kept unique and a user has the same username.
    DuplicateUsername,
    /// The referenced user does not exist.
    MissingUser,
    /// The referenced session does not exist.
    MissingSession,
    /// No label identifier is left to assign.
    LabelIdsExhausted,
}

/// A [`Store`](crate::store::Store) as a mathematical value: the rows of
/// each table in insertion order, the identifier that the next label gets,
/// and whether usernames are kept unique.
pub struct StoreState {
    pub users: Seq<User>,
    pub apikeys: Seq<ApiKey>,
    pub sessions: Seq<Session>,
    pub labels: Seq<Label>,
    pub testcases: Seq<Testcase>,
    pub next_label_id: i32,
    pub unique_usernames: bool,
}

/// Whether `users` holds a user with identifier `id`.
pub open spec fn user_present(users: Seq<User>, id: u128) -> bool {
    exists|i: int| 0 <= i < users.len() && (#[trigger] users[i]).id == id
}

/// Whether `users` holds a user named `username`.
pub open spec fn username_present(users: Seq<User>, username: Seq<char>) -> bool {
    exists|i: int| 0 <= i < users.len() && (#[trigger] users[i]).username@ == username
}

/// Whether `apikeys` holds an API key with identifier `id`.
pub open spec fn apikey_present(apikeys: Seq<ApiKey>, id: u128) -> bool {
    exists|i: int| 0 <= i < apikeys.len() && (#[trigger] apikeys[i]).id == id
}

/// Whether `sessions` holds a session with identifier `id`.
pub open spec fn session_present(sessions: Seq<Session>, id: u128) -> bool {
    exists|i: int| 0 <= i < sessions.len() && (#[trigger] sessions[i]).id == id
}

/// Whether `labels` holds a label with identifier `id`.
pub open spec fn label_present(labels: Seq<Label>, id: i32) -> bool {
    exists|i: int| 0 <= i < labels.len() && (#[trigger] labels[i]).id == id
}

/// Whether `testcases` holds a test case with identifier `id`.
pub open spec fn testcase_present(testcases: Seq<Testcase>, id: u128) -> bool {
    exists|i: int| 0 <= i < testcases.len() && (#[trigger] testcases[i]).id == id
}

/// The session with identifier `id` among `sessions`, where there is one.
pub open spec fn session_of(sessions: Seq<Session>, id: u128) -> Session {
    sessions[choose|i: int| 0 <= i < sessions.len() && (#[trigger] sessions[i]).id == id]
}

/// The users other than the one with identifier `id`.
pub open spec fn user_other_than(id: u128) -> spec_fn(User) -> bool {
    |user: User| user.id != id
}

/// The sessions other than the one with identifier `id`.
pub open spec fn session_other_than(id: u128) -> spec_fn(Session) -> bool {
    |session: Session| session.id != id
}

/// The API keys whose user is among `users`.
pub open spec fn apikey_owned(users: Seq<User>) -> spec_fn(ApiKey) -> bool {
    |key: ApiKey| user_present(users, key.user_id)
}

/// The sessions whose user is among `users`.
pub open spec fn session_owned(users: Seq<User>) -> spec_fn(Session) -> bool {
    |session: Session| user_present(users, session.user_id)
}

/// The labels whose user is among `users` and whose session is among
/// `sessions`.
pub open spec fn label_owned(users: Seq<User>, sessions: Seq<Session>) -> spec_fn(Label) -> bool {
    |label: Label| user_present(users, label.user_id) && session_present(sessions, label.session_id)
}

/// The test cases whose user is among `users` and whose session is among
/// `sessions`.
pub open spec fn testcase_owned(users: Seq<User>, sessions: Seq<Session>) -> spec_fn(
    Testcase,
) -> bool {
    |testcase: Testcase|
        user_present(users, testcase.user_id) && session_present(sessions, testcase.session_id)
}

impl StoreState {
    /// No two rows of a table share a primary key.
    pub open spec fn keys_unique(self) -> bool {
        &&& forall|i: int, j: int|
            0 <= i < j < self.users.len() ==> (#[trigger] self.users[i]).id != (
            #[trigger] self.users[j]).id
        &&& forall|i: int, j: int|
            0 <= i < j < self.apikeys.len() ==> (#[trigger] self.apikeys[i]).id != (
            #[trigger] self.apikeys[j]).id
        &&& forall|i: int, j: int|
            0 <= i < j < self.sessions.len() ==> (#[trigger] self.sessions[i]).id != (
            #[trigger] self.sessions[j]).id
        &&& forall|i: int, j: int|
            0 <= i < j < self.labels.len() ==> (#[trigger] self.labels[i]).id != (
            #[trigger] self.labels[j]).id
        &&& forall|i: int, j: int|
            0 <= i < j < self.testcases.len() ==> (#[trigger] self.testcases[i]).id != (
            #[trigger] self.testcases[j]).id
    }

    /// Every row that references a user or a session references one that
    /// exists.
    pub open spec fn references_resolve(self) -> bool {
        &&& forall|i: int|
            0 <= i < self.apikeys.len() ==> apikey_owned(self.users)(#[trigger] self.apikeys[i])
        &&& forall|i: int|
            0 <= i < self.sessions.len() ==> session_owned(self.users)(#[trigger] self.sessions[i])
        &&& forall|i: int|
            0 <= i < self.labels.len() ==> label_owned(self.users, self.sessions)(
                #[trigger] self.labels[i],
            )
        &&& forall|i: int|
            0 <= i < self.testcases.len() ==> testcase_owned(self.users, self.sessions)(
                #[trigger] self.testcases[i],
            )
    }

    /// Every label was numbered before the next identifier to assign.
    pub open spec fn labels_numbered(self) -> bool {
        forall|i: int|
            0 <= i < self.labels.len() ==> (#[trigger] self.labels[i]).id < self.next_label_id
    }

    /// No two users share a username.
    pub open spec fn usernames_unique(self) -> bool {
        forall|i: int, j: int|
            0 <= i < j < self.users.len() ==> (#[trigger] self.users[i]).username@ != (
            #[trigger] self.users[j]).username@
    }

    /// The rules that every store obeys: unique keys, resolved references,
    /// labels numbered by the store, and unique usernames where they are
    /// kept unique.
    pub open spec fn consistent(self) -> bool {
        &&& self.keys_unique()
        &&& self.references_resolve()
        &&& self.labels_numbered()
        &&& self.unique_usernames ==> self.usernames_unique()
    }

    /// Every label and test case is owned by the user who owns its session.
    /// The tables do not enforce this; rows made by [`Session::label`] and
    /// [`Session::testcase`] keep it.
    pub open spec fn owners_agree(self) -> bool {
        &&& forall|i: int, j: int|
            0 <= i < self.labels.len() && 0 <= j < self.sessions.len() && (
            #[trigger] self.labels[i]).session_id == (#[trigger] self.sessions[j]).id
                ==> self.labels[i].user_id == self.sessions[j].user_id
        &&& forall|i: int, j: int|
            0 <= i < self.testcases.len() && 0 <= j < self.sessions.len() && (
            #[trigger] self.testcases[i]).session_id == (#[trigger] self.sessions[j]).id
                ==> self.testcases[i].user_id == self.sessions[j].user_id
    }

    /// Whether a label or test case of session `session_id` that names
    /// `user_id` as its user names the owner of that session.
    pub open spec fn names_session_owner(self, session_id: u128, user_id: u128) -> bool {
        forall|j: int|
            0 <= j < self.sessions.len() && (#[trigger] self.sessions[j]).id == session_id
                ==> self.sessions[j].user_id == user_id
    }

    /// The store without the rows whose owner is gone: API keys and sessions
    /// without their user, labels and test cases without their user or
    /// without their session, those sessions included that go here.
    pub open spec fn settled(self) -> StoreState {
        let sessions = self.sessions.filter(session_owned(self.users));
        StoreState {
            apikeys: self.apikeys.filter(apikey_owned(self.users)),
            sessions,
            labels: self.labels.filter(label_owned(self.users, sessions)),
            testcases: self.testcases.filter(testcase_owned(self.users, sessions)),
            ..self
        }
    }

    /// The store after the user with identifier `id` is deleted, with all
    /// that the deletion cascades to.
    pub open spec fn without_user(self, id: u128) -> StoreState {
        (StoreState { users: self.users.filter(user_other_than(id)), ..self }).settled()
    }

    /// The store after the session with identifier `id` is deleted, with all
    /// that the deletion cascades to.
    pub open spec fn without_session(self, id: u128) -> StoreState {
        (StoreState { sessions: self.sessions.filter(session_other_than(id)), ..self }).settled()
    }

    /// Whether `user` can be inserted, and if not, why.
    pub open spec fn admits_user(self, user: User) -> Result<(), StoreError> {
        if user_present(self.users, user.id) {
            Err(StoreError::DuplicateKey)
        } else if self.unique_usernames && username_present(self.users, user.username@) {
            Err(StoreError::DuplicateUsername)
        } else {
            Ok(())
        }
    }

    /// Whether `key` can be inserted, and if not, why.
    pub open spec fn admits_apikey(self, key: ApiKey) -> Result<(), StoreError> {
        if apikey_present(self.apikeys, key.id) {
            Err(StoreError::DuplicateKey)
        } else if !user_present(self.users, key.user_id) {
            Err(StoreError::MissingUser)
        } else {
            Ok(())
        }
    }

    /// Whether `session` can be inserted, and if not, why.
    pub open spec fn admits_session(self, session: Session) -> Result<(), StoreError> {
        if session_present(self.sessions, session.id) {
            Err(StoreError::DuplicateKey)
        } else if !user_present(self.users, session.user_id) {
            Err(StoreError::MissingUser)
        } else {
            Ok(())
        }
    }

    /// Whether `label` can be inserted, and if not, why.
    pub open spec fn admits_label(self, label: Label) -> Result<(), StoreError> {
        if self.next_label_id == i32::MAX {
            Err(StoreError::LabelIdsExhausted)
        } else if !user_present(self.users, label.user_id) {
            Err(StoreError::MissingUser)
        } else if !session_present(self.sessions, label.session_id) {
            Err(StoreError::MissingSession)
        } else {
            Ok(())
        }
    }

    /// Whether `testcase` can be inserted, and if not, why.
    pub open spec fn admits_testcase(self, testcase: Testcase) -> Result<(), StoreError> {
        if testcase_present(self.testcases, testcase.id) {
            Err(StoreError::DuplicateKey)
        } else if !user_present(self.users, testcase.user_id) {
            Err(StoreError::MissingUser)
        } else if !session_present(self.sessions, testcase.session_id) {
            Err(StoreError::MissingSession)
        } else {
            Ok(())
        }
    }

    /// The store with `user` as its newest user.
    pub open spec fn with_user(self, user: User) -> StoreState {
        StoreState { users: self.users.push(user), ..self }
    }

    /// The store with `key` as its newest API key.
    pub open spec fn with_apikey(self, key: ApiKey) -> StoreState {
        StoreState { apikeys: self.apikeys.push(key), ..self }
    }

    /// The store with `session` as its newest session.
    pub open spec fn with_session(self, session: Session) -> StoreState {
        StoreState { sessions: self.sessions.push(session), ..self }
    }

    /// The store with `label` as its newest label, numbered by the store.
    pub open spec fn with_label(self, label: Label) -> StoreState {
        StoreState {
            labels: self.labels.push(Label { id: self.next_label_id, ..label }),
            next_label_id: (self.next_label_id + 1) as i32,
            ..self
        }
    }

    /// The store with `testcase` as its newest test case.
    pub open spec fn with_testcase(self, testcase: Testcase) -> StoreState {
        StoreState { testcases: self.testcases.push(testcase), ..self }
    }
}

} // verus!
