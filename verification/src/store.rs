//! An in-memory store of the five tables. It holds what a datastore that
//! the migration was applied to holds after each insertion and deletion, and
//! obeys the rules of the schema at all times. Rows are kept in insertion
//! order.

use crate::cascade::{
    lemma_deletion_keeps_owners, lemma_filter_rows, lemma_insertion_keeps_references,
    lemma_new_session_has_no_rows, lemma_remaining_sessions_unique, lemma_remaining_users_unique,
    lemma_settled_is_consistent,
};
use crate::entities::{ApiKey, Label, Session, Testcase, User};
use crate::model::{
    apikey_owned, apikey_present, label_owned, label_present, session_other_than, session_owned,
    session_present, testcase_owned, testcase_present, user_other_than, user_present,
    username_present, StoreError, StoreState,
};
use vstd::prelude::*;

verus! {

/// The rows and counters of a store, not yet held to the rules.
#[derive(Debug)]
struct Tables {
    users: Vec<User>,
    apikeys: Vec<ApiKey>,
    sessions: Vec<Session>,
    labels: Vec<Label>,
    testcases: Vec<Testcase>,
    next_label_id: i32,
    unique_usernames: bool,
}

/// The five tables, consistent at all times.
#[derive(Debug)]
pub struct Store {
    tables: Tables,
}

impl View for Tables {
    type V = StoreState;

    closed spec fn view(&self) -> StoreState {
        StoreState {
            users: self.users@,
            apikeys: self.apikeys@,
            sessions: self.sessions@,
            labels: self.labels@,
            testcases: self.testcases@,
            next_label_id: self.next_label_id,
            unique_usernames: self.unique_usernames,
        }
    }
}

impl View for Store {
    type V = StoreState;

    closed spec fn view(&self) -> StoreState {
        self.tables@
    }
}

fn has_user(users: &Vec<User>, id: u128) -> (found: bool)
    ensures
        found == user_present(users@, id),
{
    let mut i: usize = 0;
    while i < users.len()
        invariant
            0 <= i <= users@.len(),
            forall|j: int| 0 <= j < i ==> (#[trigger] users@[j]).id != id,
        decreases users@.len() - i,
    {
        if users[i].id == id {
            return true;
        }
        i += 1;
    }
    false
}

fn has_username(users: &Vec<User>, username: &String) -> (found: bool)
    ensures
        found == username_present(users@, username@),
{
    let mut i: usize = 0;
    while i < users.len()
        invariant
            0 <= i <= users@.len(),
            forall|j: int| 0 <= j < i ==> (#[trigger] users@[j]).username@ != username@,
        decreases users@.len() - i,
    {
        if users[i].username == *username {
            return true;
        }
        i += 1;
    }
    false
}

fn has_apikey(apikeys: &Vec<ApiKey>, id: u128) -> (found: bool)
    ensures
        found == apikey_present(apikeys@, id),
{
    let mut i: usize = 0;
    while i < apikeys.len()
        invariant
            0 <= i <= apikeys@.len(),
            forall|j: int| 0 <= j < i ==> (#[trigger] apikeys@[j]).id != id,
        decreases apikeys@.len() - i,
    {
        if apikeys[i].id == id {
            return true;
        }
        i += 1;
    }
    false
}

fn has_session(sessions: &Vec<Session>, id: u128) -> (found: bool)
    ensures
        found == session_present(sessions@, id),
{
    let mut i: usize = 0;
    while i < sessions.len()
        invariant
            0 <= i <= sessions@.len(),
            forall|j: int| 0 <= j < i ==> (#[trigger] sessions@[j]).id != id,
        decreases sessions@.len() - i,
    {
        if sessions[i].id == id {
            return true;
        }
        i += 1;
    }
    false
}

fn has_label(labels: &Vec<Label>, id: i32) -> (found: bool)
    ensures
        found == label_present(labels@, id),
{
    let mut i: usize = 0;
    while i < labels.len()
        invariant
            0 <= i <= labels@.len(),
            forall|j: int| 0 <= j < i ==> (#[trigger] labels@[j]).id != id,
        decreases labels@.len() - i,
    {
        if labels[i].id == id {
            return true;
        }
        i += 1;
    }
    false
}

fn has_testcase(testcases: &Vec<Testcase>, id: u128) -> (found: bool)
    ensures
        found == testcase_present(testcases@, id),
{
    let mut i: usize = 0;
    while i < testcases.len()
        invariant
            0 <= i <= testcases@.len(),
            forall|j: int| 0 <= j < i ==> (#[trigger] testcases@[j]).id != id,
        decreases testcases@.len() - i,
    {
        if testcases[i].id == id {
            return true;
        }
        i += 1;
    }
    false
}

/// Removes from `rows` the rows that `keep` marks `false`, in place and in
/// order.
fn retain<T>(rows: &mut Vec<T>, keep: &Vec<bool>, Ghost(survives): Ghost<spec_fn(T) -> bool>)
    requires
        keep@.len() == old(rows)@.len(),
        forall|i: int| 0 <= i < keep@.len() ==> keep@[i] == survives(#[trigger] old(rows)@[i]),
    ensures
        final(rows)@ == old(rows)@.filter(survives),
{
    let ghost before = rows@;
    let mut kept: usize = 0;
    let mut seen: usize = 0;
    proof {
        reveal(Seq::filter);
        assert(before.take(0) =~= Seq::<T>::empty());
        assert(before.skip(0) =~= before);
        assert(rows@ =~= before.take(0).filter(survives) + before.skip(0));
    }
    while seen < keep.len()
        invariant
            keep@.len() == before.len(),
            forall|i: int| 0 <= i < keep@.len() ==> keep@[i] == survives(#[trigger] before[i]),
            0 <= seen <= before.len(),
            kept == before.take(seen as int).filter(survives).len(),
            rows@ == before.take(seen as int).filter(survives) + before.skip(seen as int),
        decreases before.len() - seen,
    {
        proof {
            before.take(seen as int).lemma_filter_push(before[seen as int], survives);
            assert(before.take(seen + 1) =~= before.take(seen as int).push(before[seen as int]));
            before.take(seen as int).lemma_filter_len(survives);
        }
        if keep[seen] {
            assert(rows@ =~= before.take(seen + 1).filter(survives) + before.skip(seen + 1));
            kept += 1;
        } else {
            rows.remove(kept);
            assert(rows@ =~= before.take(seen + 1).filter(survives) + before.skip(seen + 1));
        }
        seen += 1;
    }
    proof {
        assert(before.take(seen as int) =~= before);
        assert(rows@ =~= before.filter(survives));
    }
}

fn mark_users(users: &Vec<User>, id: u128) -> (keep: Vec<bool>)
    ensures
        keep@.len() == users@.len(),
        forall|i: int|
            0 <= i < keep@.len() ==> keep@[i] == user_other_than(id)(#[trigger] users@[i]),
{
    let mut keep: Vec<bool> = Vec::new();
    let mut i: usize = 0;
    while i < users.len()
        invariant
            0 <= i <= users@.len(),
            keep@.len() == i,
            forall|j: int| 0 <= j < i ==> keep@[j] == user_other_than(id)(#[trigger] users@[j]),
        decreases users@.len() - i,
    {
        keep.push(users[i].id != id);
        i += 1;
    }
    keep
}

fn mark_sessions(sessions: &Vec<Session>, id: u128) -> (keep: Vec<bool>)
    ensures
        keep@.len() == sessions@.len(),
        forall|i: int|
            0 <= i < keep@.len() ==> keep@[i] == session_other_than(id)(#[trigger] sessions@[i]),
{
    let mut keep: Vec<bool> = Vec::new();
    let mut i: usize = 0;
    while i < sessions.len()
        invariant
            0 <= i <= sessions@.len(),
            keep@.len() == i,
            forall|j: int|
                0 <= j < i ==> keep@[j] == session_other_than(id)(#[trigger] sessions@[j]),
        decreases sessions@.len() - i,
    {
        keep.push(sessions[i].id != id);
        i += 1;
    }
    keep
}

fn mark_owned_apikeys(apikeys: &Vec<ApiKey>, users: &Vec<User>) -> (keep: Vec<bool>)
    ensures
        keep@.len() == apikeys@.len(),
        forall|i: int|
            0 <= i < keep@.len() ==> keep@[i] == apikey_owned(users@)(#[trigger] apikeys@[i]),
{
    let mut keep: Vec<bool> = Vec::new();
    let mut i: usize = 0;
    while i < apikeys.len()
        invariant
            0 <= i <= apikeys@.len(),
            keep@.len() == i,
            forall|j: int| 0 <= j < i ==> keep@[j] == apikey_owned(users@)(#[trigger] apikeys@[j]),
        decreases apikeys@.len() - i,
    {
        keep.push(has_user(users, apikeys[i].user_id));
        i += 1;
    }
    keep
}

fn mark_owned_sessions(sessions: &Vec<Session>, users: &Vec<User>) -> (keep: Vec<bool>)
    ensures
        keep@.len() == sessions@.len(),
        forall|i: int|
            0 <= i < keep@.len() ==> keep@[i] == session_owned(users@)(#[trigger] sessions@[i]),
{
    let mut keep: Vec<bool> = Vec::new();
    let mut i: usize = 0;
    while i < sessions.len()
        invariant
            0 <= i <= sessions@.len(),
            keep@.len() == i,
            forall|j: int|
                0 <= j < i ==> keep@[j] == session_owned(users@)(#[trigger] sessions@[j]),
        decreases sessions@.len() - i,
    {
        keep.push(has_user(users, sessions[i].user_id));
        i += 1;
    }
    keep
}

fn mark_owned_labels(labels: &Vec<Label>, users: &Vec<User>, sessions: &Vec<Session>) -> (keep:
    Vec<bool>)
    ensures
        keep@.len() == labels@.len(),
        forall|i: int|
            0 <= i < keep@.len() ==> keep@[i] == label_owned(users@, sessions@)(
                #[trigger] labels@[i],
            ),
{
    let mut keep: Vec<bool> = Vec::new();
    let mut i: usize = 0;
    while i < labels.len()
        invariant
            0 <= i <= labels@.len(),
            keep@.len() == i,
            forall|j: int|
                0 <= j < i ==> keep@[j] == label_owned(users@, sessions@)(#[trigger] labels@[j]),
        decreases labels@.len() - i,
    {
        keep.push(
            has_user(users, labels[i].user_id) && has_session(sessions, labels[i].session_id),
        );
        i += 1;
    }
    keep
}

fn mark_owned_testcases(
    testcases: &Vec<Testcase>,
    users: &Vec<User>,
    sessions: &Vec<Session>,
) -> (keep: Vec<bool>)
    ensures
        keep@.len() == testcases@.len(),
        forall|i: int|
            0 <= i < keep@.len() ==> keep@[i] == testcase_owned(users@, sessions@)(
                #[trigger] testcases@[i],
            ),
{
    let mut keep: Vec<bool> = Vec::new();
    let mut i: usize = 0;
    while i < testcases.len()
        invariant
            0 <= i <= testcases@.len(),
            keep@.len() == i,
            forall|j: int|
                0 <= j < i ==> keep@[j] == testcase_owned(users@, sessions@)(
                    #[trigger] testcases@[j],
                ),
        decreases testcases@.len() - i,
    {
        keep.push(
            has_user(users, testcases[i].user_id) && has_session(sessions, testcases[i].session_id),
        );
        i += 1;
    }
    keep
}

impl Tables {
    fn empty(unique_usernames: bool) -> (tables: Tables)
        ensures
            tables@ == (StoreState {
                users: Seq::empty(),
                apikeys: Seq::empty(),
                sessions: Seq::empty(),
                labels: Seq::empty(),
                testcases: Seq::empty(),
                next_label_id: 1,
                unique_usernames,
            }),
    {
        Tables {
            users: Vec::new(),
            apikeys: Vec::new(),
            sessions: Vec::new(),
            labels: Vec::new(),
            testcases: Vec::new(),
            next_label_id: 1,
            unique_usernames,
        }
    }

    /// Removes every row whose user or session is gone.
    fn settle(&mut self)
        ensures
            final(self)@ == old(self)@.settled(),
    {
        let keep = mark_owned_apikeys(&self.apikeys, &self.users);
        retain(&mut self.apikeys, &keep, Ghost(apikey_owned(self.users@)));
        let keep = mark_owned_sessions(&self.sessions, &self.users);
        retain(&mut self.sessions, &keep, Ghost(session_owned(self.users@)));
        let keep = mark_owned_labels(&self.labels, &self.users, &self.sessions);
        retain(&mut self.labels, &keep, Ghost(label_owned(self.users@, self.sessions@)));
        let keep = mark_owned_testcases(&self.testcases, &self.users, &self.sessions);
        retain(&mut self.testcases, &keep, Ghost(testcase_owned(self.users@, self.sessions@)));
    }

    /// Removes the user with identifier `id` and all that it owned.
    fn remove_user(&mut self, id: u128)
        requires
            old(self)@.consistent(),
        ensures
            final(self)@ == old(self)@.without_user(id),
            final(self)@.consistent(),
            old(self)@.owners_agree() ==> final(self)@.owners_agree(),
    {
        let keep = mark_users(&self.users, id);
        retain(&mut self.users, &keep, Ghost(user_other_than(id)));
        proof {
            lemma_remaining_users_unique(old(self)@, id);
            lemma_settled_is_consistent(self@);
            lemma_deletion_keeps_owners(old(self)@, self@);
        }
        self.settle();
    }

    /// Removes the session with identifier `id` and all that it owned.
    fn remove_session(&mut self, id: u128)
        requires
            old(self)@.consistent(),
        ensures
            final(self)@ == old(self)@.without_session(id),
            final(self)@.consistent(),
            old(self)@.owners_agree() ==> final(self)@.owners_agree(),
    {
        let keep = mark_sessions(&self.sessions, id);
        retain(&mut self.sessions, &keep, Ghost(session_other_than(id)));
        proof {
            lemma_remaining_sessions_unique(old(self)@, id);
            lemma_settled_is_consistent(self@);
            lemma_filter_rows(old(self)@.sessions, session_other_than(id));
            lemma_deletion_keeps_owners(old(self)@, self@);
        }
        self.settle();
    }
}

impl Store {
    #[verifier::type_invariant]
    spec fn obeys_the_rules(self) -> bool {
        self.tables@.consistent()
    }

    /// Hands out the tables to work on and leaves the store empty until they
    /// are put back.
    fn take(&mut self) -> (tables: Tables)
        ensures
            tables@ == old(self)@,
            tables@.consistent(),
    {
        proof {
            use_type_invariant(&*self);
        }
        let mut tables = Tables::empty(self.tables.unique_usernames);
        std::mem::swap(&mut self.tables, &mut tables);
        tables
    }

    /// An empty store. With `unique_usernames`, a second user of the same
    /// username is refused; without, the username is only a way to look a
    /// user up.
    pub fn new(unique_usernames: bool) -> (store: Store)
        ensures
            store@ == (StoreState {
                users: Seq::empty(),
                apikeys: Seq::empty(),
                sessions: Seq::empty(),
                labels: Seq::empty(),
                testcases: Seq::empty(),
                next_label_id: 1,
                unique_usernames,
            }),
            store@.consistent(),
            store@.owners_agree(),
    {
        Store { tables: Tables::empty(unique_usernames) }
    }

    /// Inserts `user`, unless a user has the same identifier or, where
    /// usernames are kept unique, the same username. No other row changes.
    pub fn insert_user(&mut self, user: User) -> (inserted: Result<(), StoreError>)
        ensures
            old(self)@.consistent(),
            inserted == old(self)@.admits_user(user),
            final(self)@ == if inserted is Ok {
                old(self)@.with_user(user)
            } else {
                old(self)@
            },
            final(self)@.consistent(),
            old(self)@.owners_agree() ==> final(self)@.owners_agree(),
    {
        proof {
            use_type_invariant(&*self);
        }
        if has_user(&self.tables.users, user.id) {
            return Err(StoreError::DuplicateKey);
        }
        if self.tables.unique_usernames && has_username(&self.tables.users, &user.username) {
            return Err(StoreError::DuplicateUsername);
        }
        proof {
            lemma_insertion_keeps_references(self@, self@.with_user(user));
        }
        let mut tables = self.take();
        tables.users.push(user);
        self.tables = tables;
        Ok(())
    }

    /// Inserts `key`, unless an API key has the same identifier or its user
    /// does not exist. No other row changes.
    pub fn insert_apikey(&mut self, key: ApiKey) -> (inserted: Result<(), StoreError>)
        ensures
            old(self)@.consistent(),
            inserted == old(self)@.admits_apikey(key),
            final(self)@ == if inserted is Ok {
                old(self)@.with_apikey(key)
            } else {
                old(self)@
            },
            final(self)@.consistent(),
            old(self)@.owners_agree() ==> final(self)@.owners_agree(),
    {
        proof {
            use_type_invariant(&*self);
        }
        if has_apikey(&self.tables.apikeys, key.id) {
            return Err(StoreError::DuplicateKey);
        }
        if !has_user(&self.tables.users, key.user_id) {
            return Err(StoreError::MissingUser);
        }
        let mut tables = self.take();
        tables.apikeys.push(key);
        self.tables = tables;
        Ok(())
    }

    /// Inserts `session`, unless a session has the same identifier or its
    /// user does not exist. No other row changes.
    pub fn insert_session(&mut self, session: Session) -> (inserted: Result<(), StoreError>)
        ensures
            old(self)@.consistent(),
            inserted == old(self)@.admits_session(session),
            final(self)@ == if inserted is Ok {
                old(self)@.with_session(session)
            } else {
                old(self)@
            },
            final(self)@.consistent(),
            old(self)@.owners_agree() ==> final(self)@.owners_agree(),
    {
        proof {
            use_type_invariant(&*self);
        }
        if has_session(&self.tables.sessions, session.id) {
            return Err(StoreError::DuplicateKey);
        }
        if !has_user(&self.tables.users, session.user_id) {
            return Err(StoreError::MissingUser);
        }
        proof {
            lemma_insertion_keeps_references(self@, self@.with_session(session));
            lemma_new_session_has_no_rows(self@, session);
        }
        let mut tables = self.take();
        tables.sessions.push(session);
        self.tables = tables;
        Ok(())
    }

    /// Inserts `label` under the next free identifier, whatever identifier
    /// it came with, and returns that identifier; unless its user or its
    /// session does not exist. No other row changes.
    pub fn insert_label(&mut self, label: Label) -> (inserted: Result<i32, StoreError>)
        ensures
            old(self)@.consistent(),
            match old(self)@.admits_label(label) {
                Ok(_) => inserted == Ok::<i32, StoreError>(old(self)@.next_label_id) && final(self)@
                    == old(self)@.with_label(label),
                Err(error) => inserted == Err::<i32, StoreError>(error) && final(self)@ == old(
                    self,
                )@,
            },
            final(self)@.consistent(),
            old(self)@.owners_agree() && old(self)@.names_session_owner(
                label.session_id,
                label.user_id,
            ) ==> final(self)@.owners_agree(),
    {
        proof {
            use_type_invariant(&*self);
        }
        if self.tables.next_label_id == i32::MAX {
            return Err(StoreError::LabelIdsExhausted);
        }
        if !has_user(&self.tables.users, label.user_id) {
            return Err(StoreError::MissingUser);
        }
        if !has_session(&self.tables.sessions, label.session_id) {
            return Err(StoreError::MissingSession);
        }
        let mut tables = self.take();
        let id = tables.next_label_id;
        let mut label = label;
        label.id = id;
        tables.labels.push(label);
        tables.next_label_id = id + 1;
        self.tables = tables;
        Ok(id)
    }

    /// Inserts `testcase`, unless a test case has the same identifier or its
    /// user or its session does not exist. No other row changes.
    pub fn insert_testcase(&mut self, testcase: Testcase) -> (inserted: Result<(), StoreError>)
        ensures
            old(self)@.consistent(),
            inserted == old(self)@.admits_testcase(testcase),
            final(self)@ == if inserted is Ok {
                old(self)@.with_testcase(testcase)
            } else {
                old(self)@
            },
            final(self)@.consistent(),
            old(self)@.owners_agree() && old(self)@.names_session_owner(
                testcase.session_id,
                testcase.user_id,
            ) ==> final(self)@.owners_agree(),
    {
        proof {
            use_type_invariant(&*self);
        }
        if has_testcase(&self.tables.testcases, testcase.id) {
            return Err(StoreError::DuplicateKey);
        }
        if !has_user(&self.tables.users, testcase.user_id) {
            return Err(StoreError::MissingUser);
        }
        if !has_session(&self.tables.sessions, testcase.session_id) {
            return Err(StoreError::MissingSession);
        }
        let mut tables = self.take();
        tables.testcases.push(testcase);
        self.tables = tables;
        Ok(())
    }

    /// Deletes the user with identifier `id`, and with it every row that it
    /// owns: its API keys and sessions, and the labels and test cases that
    /// are its own or belong to one of its sessions. Says whether there was
    /// such a user.
    pub fn delete_user(&mut self, id: u128) -> (deleted: bool)
        ensures
            old(self)@.consistent(),
            deleted == user_present(old(self)@.users, id),
            final(self)@ == old(self)@.without_user(id),
            final(self)@.consistent(),
            old(self)@.owners_agree() ==> final(self)@.owners_agree(),
    {
        proof {
            use_type_invariant(&*self);
        }
        let mut tables = self.take();
        let deleted = has_user(&tables.users, id);
        tables.remove_user(id);
        self.tables = tables;
        deleted
    }

    /// Deletes the session with identifier `id`, and with it its labels and
    /// test cases. Says whether there was such a session.
    pub fn delete_session(&mut self, id: u128) -> (deleted: bool)
        ensures
            old(self)@.consistent(),
            deleted == session_present(old(self)@.sessions, id),
            final(self)@ == old(self)@.without_session(id),
            final(self)@.consistent(),
            old(self)@.owners_agree() ==> final(self)@.owners_agree(),
    {
        proof {
            use_type_invariant(&*self);
        }
        let mut tables = self.take();
        let deleted = has_session(&tables.sessions, id);
        tables.remove_session(id);
        self.tables = tables;
        deleted
    }

    /// The users, oldest first.
    pub fn users(&self) -> (users: &[User])
        ensures
            users@ == self@.users,
            self@.consistent(),
    {
        proof {
            use_type_invariant(self);
        }
        self.tables.users.as_slice()
    }

    /// The API keys, oldest first.
    pub fn apikeys(&self) -> (apikeys: &[ApiKey])
        ensures
            apikeys@ == self@.apikeys,
            self@.consistent(),
    {
        proof {
            use_type_invariant(self);
        }
        self.tables.apikeys.as_slice()
    }

    /// The sessions, oldest first.
    pub fn sessions(&self) -> (sessions: &[Session])
        ensures
            sessions@ == self@.sessions,
            self@.consistent(),
    {
        proof {
            use_type_invariant(self);
        }
        self.tables.sessions.as_slice()
    }

    /// The labels, oldest first.
    pub fn labels(&self) -> (labels: &[Label])
        ensures
            labels@ == self@.labels,
            self@.consistent(),
    {
        proof {
            use_type_invariant(self);
        }
        self.tables.labels.as_slice()
    }

    /// The test cases, oldest first.
    pub fn testcases(&self) -> (testcases: &[Testcase])
        ensures
            testcases@ == self@.testcases,
            self@.consistent(),
    {
        proof {
            use_type_invariant(self);
        }
        self.tables.testcases.as_slice()
    }

    /// Whether there is a user with identifier `id`.
    pub fn has_user(&self, id: u128) -> (found: bool)
        ensures
            found == user_present(self@.users, id),
    {
        has_user(&self.tables.users, id)
    }

    /// Whether there is an API key with identifier `id`.
    pub fn has_apikey(&self, id: u128) -> (found: bool)
        ensures
            found == apikey_present(self@.apikeys, id),
    {
        has_apikey(&self.tables.apikeys, id)
    }

    /// Whether there is a session with identifier `id`.
    pub fn has_session(&self, id: u128) -> (found: bool)
        ensures
            found == session_present(self@.sessions, id),
    {
        has_session(&self.tables.sessions, id)
    }

    /// Whether there is a label with identifier `id`.
    pub fn has_label(&self, id: i32) -> (found: bool)
        ensures
            found == label_present(self@.labels, id),
    {
        has_label(&self.tables.labels, id)
    }

    /// Whether there is a test case with identifier `id`.
    pub fn has_testcase(&self, id: u128) -> (found: bool)
        ensures
            found == testcase_present(self@.testcases, id),
    {
        has_testcase(&self.tables.testcases, id)
    }

    /// The oldest user named `username`, if there is one.
    pub fn find_user_by_username(&self, username: &str) -> (found: Option<&User>)
        ensures
            found is None <==> !username_present(self@.users, username@),
            found matches Some(user) ==> exists|i: int|
                0 <= i < self@.users.len() && #[trigger] self@.users[i] == *user && user.username@
                    == username@ && !username_present(self@.users.take(i), username@),
    {
        let wanted = username.to_owned();
        let mut i: usize = 0;
        while i < self.tables.users.len()
            invariant
                0 <= i <= self.tables.users@.len(),
                wanted@ == username@,
                forall|j: int|
                    0 <= j < i ==> (#[trigger] self.tables.users@[j]).username@ != username@,
            decreases self.tables.users@.len() - i,
        {
            if self.tables.users[i].username == wanted {
                assert(self@.users[i as int] == self.tables.users@[i as int]);
                return Some(&self.tables.users[i]);
            }
            i += 1;
        }
        None
    }
}

} // verus!
