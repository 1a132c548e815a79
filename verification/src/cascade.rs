//! What follows from the rules of the tables: inserting an admitted row and
//! deleting with cascade keep the rules, and a deletion removes what the
//! deleted row owned and nothing else.

use crate::entities::{ApiKey, Label, Session, Testcase, User};
use crate::model::{
    apikey_owned, label_owned, session_of, session_other_than, session_owned, session_present,
    testcase_owned, testcase_present, user_other_than, user_present, StoreState,
};
use vstd::prelude::*;

verus! {

/// Two rows that survive a filter were rows before it, in the same order:
/// returns where rows `i` and `j` of the filtered sequence stood.
pub(crate) proof fn lemma_filter_keeps_order<T>(
    rows: Seq<T>,
    survives: spec_fn(T) -> bool,
    i: int,
    j: int,
) -> (at: (int, int))
    requires
        0 <= i < j < rows.filter(survives).len(),
    ensures
        0 <= at.0 < at.1 < rows.len(),
        rows[at.0] == rows.filter(survives)[i],
        rows[at.1] == rows.filter(survives)[j],
    decreases rows.len(),
{
    reveal(Seq::filter);
    let kept = rows.filter(survives);
    let front = rows.drop_last();
    let front_kept = front.filter(survives);
    if j < front_kept.len() {
        lemma_filter_keeps_order(front, survives, i, j)
    } else {
        assert(front_kept.contains(front_kept[i]));
        front.lemma_filter_contains_rev(survives, front_kept[i]);
        let a = choose|a: int| 0 <= a < front.len() && front[a] == front_kept[i];
        (a, rows.len() - 1)
    }
}

/// A row survives a filter exactly when it was a row and passes.
pub(crate) proof fn lemma_filter_rows<T>(rows: Seq<T>, survives: spec_fn(T) -> bool)
    ensures
        forall|i: int|
            0 <= i < rows.filter(survives).len() ==> survives(#[trigger] rows.filter(survives)[i])
                && rows.contains(rows.filter(survives)[i]),
        forall|i: int|
            0 <= i < rows.len() && survives(#[trigger] rows[i]) ==> rows.filter(survives).contains(
                rows[i],
            ),
{
    let kept = rows.filter(survives);
    assert forall|i: int| 0 <= i < kept.len() implies survives(#[trigger] kept[i]) && rows.contains(
        kept[i],
    ) by {
        rows.lemma_filter_pred(survives, i);
        assert(kept.contains(kept[i]));
        rows.lemma_filter_contains_rev(survives, kept[i]);
    }
    assert forall|i: int| 0 <= i < rows.len() && survives(#[trigger] rows[i]) implies kept.contains(
        rows[i],
    ) by {
        rows.lemma_filter_contains(survives, i);
    }
}

/// Removing rows whose owner is gone leaves a store that obeys the rules,
/// whatever was deleted before.
pub(crate) proof fn lemma_settled_is_consistent(store: StoreState)
    requires
        store.keys_unique(),
        store.labels_numbered(),
        store.unique_usernames ==> store.usernames_unique(),
    ensures
        store.settled().consistent(),
{
    let after = store.settled();
    lemma_filter_rows(store.apikeys, apikey_owned(store.users));
    lemma_filter_rows(store.sessions, session_owned(store.users));
    lemma_filter_rows(store.labels, label_owned(store.users, after.sessions));
    lemma_filter_rows(store.testcases, testcase_owned(store.users, after.sessions));
    assert forall|i: int, j: int| 0 <= i < j < after.apikeys.len() implies (
    #[trigger] after.apikeys[i]).id != (#[trigger] after.apikeys[j]).id by {
        let (a, b) = lemma_filter_keeps_order(store.apikeys, apikey_owned(store.users), i, j);
    }
    assert forall|i: int, j: int| 0 <= i < j < after.sessions.len() implies (
    #[trigger] after.sessions[i]).id != (#[trigger] after.sessions[j]).id by {
        let (a, b) = lemma_filter_keeps_order(store.sessions, session_owned(store.users), i, j);
    }
    assert forall|i: int, j: int| 0 <= i < j < after.labels.len() implies (
    #[trigger] after.labels[i]).id != (#[trigger] after.labels[j]).id by {
        let (a, b) = lemma_filter_keeps_order(
            store.labels,
            label_owned(store.users, after.sessions),
            i,
            j,
        );
    }
    assert forall|i: int, j: int| 0 <= i < j < after.testcases.len() implies (
    #[trigger] after.testcases[i]).id != (#[trigger] after.testcases[j]).id by {
        let (a, b) = lemma_filter_keeps_order(
            store.testcases,
            testcase_owned(store.users, after.sessions),
            i,
            j,
        );
    }
    assert forall|i: int| 0 <= i < after.labels.len() implies (#[trigger] after.labels[i]).id
        < after.next_label_id by {
        let a = choose|a: int| 0 <= a < store.labels.len() && store.labels[a] == after.labels[i];
    }
}

/// Deleting users leaves the remaining users with unique keys and, where
/// they were, unique usernames.
pub(crate) proof fn lemma_remaining_users_unique(store: StoreState, id: u128)
    requires
        store.keys_unique(),
        store.unique_usernames ==> store.usernames_unique(),
    ensures
        (StoreState { users: store.users.filter(user_other_than(id)), ..store }).keys_unique(),
        store.unique_usernames ==> (StoreState {
            users: store.users.filter(user_other_than(id)),
            ..store
        }).usernames_unique(),
{
    let users = store.users.filter(user_other_than(id));
    assert forall|i: int, j: int| 0 <= i < j < users.len() implies (#[trigger] users[i]).id != (
    #[trigger] users[j]).id by {
        let (a, b) = lemma_filter_keeps_order(store.users, user_other_than(id), i, j);
    }
    if store.unique_usernames {
        assert forall|i: int, j: int| 0 <= i < j < users.len() implies (
        #[trigger] users[i]).username@ != (#[trigger] users[j]).username@ by {
            let (a, b) = lemma_filter_keeps_order(store.users, user_other_than(id), i, j);
        }
    }
}

/// Deleting sessions leaves the remaining sessions with unique keys.
pub(crate) proof fn lemma_remaining_sessions_unique(store: StoreState, id: u128)
    requires
        store.keys_unique(),
    ensures
        (StoreState {
            sessions: store.sessions.filter(session_other_than(id)),
            ..store
        }).keys_unique(),
{
    let sessions = store.sessions.filter(session_other_than(id));
    assert forall|i: int, j: int| 0 <= i < j < sessions.len() implies (#[trigger] sessions[i]).id
        != (#[trigger] sessions[j]).id by {
        let (a, b) = lemma_filter_keeps_order(store.sessions, session_other_than(id), i, j);
    }
}

/// A new user or session leaves every reference resolved that was.
pub(crate) proof fn lemma_insertion_keeps_references(before: StoreState, after: StoreState)
    requires
        before.references_resolve(),
        before.apikeys == after.apikeys,
        before.labels == after.labels,
        before.testcases == after.testcases,
        before.users == after.users && after.sessions == before.sessions.push(after.sessions.last())
            && user_present(before.users, after.sessions.last().user_id) || before.sessions
            == after.sessions && after.users == before.users.push(after.users.last()),
    ensures
        after.references_resolve(),
{
    assert forall|id: u128| user_present(before.users, id) implies user_present(
        after.users,
        id,
    ) by {
        let i = choose|i: int| 0 <= i < before.users.len() && (#[trigger] before.users[i]).id == id;
        assert(after.users[i].id == id);
    }
    assert forall|id: u128| session_present(before.sessions, id) implies session_present(
        after.sessions,
        id,
    ) by {
        let i = choose|i: int|
            0 <= i < before.sessions.len() && (#[trigger] before.sessions[i]).id == id;
        assert(after.sessions[i].id == id);
    }
}

/// No label or test case belongs to a session that is yet to be inserted.
pub(crate) proof fn lemma_new_session_has_no_rows(store: StoreState, session: Session)
    requires
        store.references_resolve(),
        !session_present(store.sessions, session.id),
    ensures
        store.owners_agree() ==> store.with_session(session).owners_agree(),
{
    let after = store.with_session(session);
    assert forall|i: int| 0 <= i < store.labels.len() implies (#[trigger] store.labels[i]).session_id
        != session.id by {
        assert(label_owned(store.users, store.sessions)(store.labels[i]));
    }
    assert forall|i: int| 0 <= i < store.testcases.len() implies (
    #[trigger] store.testcases[i]).session_id != session.id by {
        assert(testcase_owned(store.users, store.sessions)(store.testcases[i]));
    }
}

/// Rows left after users or sessions were deleted and the store settled
/// are owned as they were.
pub(crate) proof fn lemma_deletion_keeps_owners(before: StoreState, deleted: StoreState)
    requires
        before.labels == deleted.labels,
        before.testcases == deleted.testcases,
        forall|j: int|
            0 <= j < deleted.sessions.len() ==> before.sessions.contains(
                #[trigger] deleted.sessions[j],
            ),
    ensures
        before.owners_agree() ==> deleted.settled().owners_agree(),
{
    let after = deleted.settled();
    lemma_filter_rows(deleted.sessions, session_owned(deleted.users));
    lemma_filter_rows(deleted.labels, label_owned(deleted.users, after.sessions));
    lemma_filter_rows(deleted.testcases, testcase_owned(deleted.users, after.sessions));
    if before.owners_agree() {
        assert forall|i: int, j: int|
            0 <= i < after.labels.len() && 0 <= j < after.sessions.len() && (
            #[trigger] after.labels[i]).session_id == (
            #[trigger] after.sessions[j]).id implies after.labels[i].user_id
            == after.sessions[j].user_id by {
            assert(deleted.sessions.contains(after.sessions[j]));
            let d = choose|d: int|
                0 <= d < deleted.sessions.len() && deleted.sessions[d] == after.sessions[j];
            assert(before.sessions.contains(deleted.sessions[d]));
            assert(before.labels.contains(after.labels[i]));
            let a = choose|a: int|
                0 <= a < before.labels.len() && before.labels[a] == after.labels[i];
            let b = choose|b: int|
                0 <= b < before.sessions.len() && before.sessions[b] == after.sessions[j];
            assert(before.labels[a].session_id == before.sessions[b].id);
        }
        assert forall|i: int, j: int|
            0 <= i < after.testcases.len() && 0 <= j < after.sessions.len() && (
            #[trigger] after.testcases[i]).session_id == (
            #[trigger] after.sessions[j]).id implies after.testcases[i].user_id
            == after.sessions[j].user_id by {
            assert(deleted.sessions.contains(after.sessions[j]));
            let d = choose|d: int|
                0 <= d < deleted.sessions.len() && deleted.sessions[d] == after.sessions[j];
            assert(before.sessions.contains(deleted.sessions[d]));
            assert(before.testcases.contains(after.testcases[i]));
            let a = choose|a: int|
                0 <= a < before.testcases.len() && before.testcases[a] == after.testcases[i];
            let b = choose|b: int|
                0 <= b < before.sessions.len() && before.sessions[b] == after.sessions[j];
            assert(before.testcases[a].session_id == before.sessions[b].id);
        }
    }
}

/// A filter that every row passes removes nothing.
pub(crate) proof fn lemma_filter_of_survivors<T>(rows: Seq<T>, survives: spec_fn(T) -> bool)
    requires
        forall|i: int| 0 <= i < rows.len() ==> survives(#[trigger] rows[i]),
    ensures
        rows.filter(survives) == rows,
    decreases rows.len(),
{
    reveal(Seq::filter);
    if rows.len() > 0 {
        lemma_filter_of_survivors(rows.drop_last(), survives);
        assert(rows.drop_last().push(rows.last()) =~= rows);
    }
}

/// A row that the store admits leaves the store consistent.
pub proof fn admitted_rows_keep_the_store_consistent(
    store: StoreState,
    user: User,
    key: ApiKey,
    session: Session,
    label: Label,
    testcase: Testcase,
)
    requires
        store.consistent(),
    ensures
        store.admits_user(user) is Ok ==> store.with_user(user).consistent(),
        store.admits_apikey(key) is Ok ==> store.with_apikey(key).consistent(),
        store.admits_session(session) is Ok ==> store.with_session(session).consistent(),
        store.admits_label(label) is Ok ==> store.with_label(label).consistent(),
        store.admits_testcase(testcase) is Ok ==> store.with_testcase(testcase).consistent(),
{
    if store.admits_user(user) is Ok {
        lemma_insertion_keeps_references(store, store.with_user(user));
    }
    if store.admits_session(session) is Ok {
        lemma_insertion_keeps_references(store, store.with_session(session));
    }
}

/// A label or test case that names a stored session and that session's user
/// names the owner of its session, as [`Session::label`] and
/// [`Session::testcase`] make them.
pub proof fn rows_made_for_a_stored_session_name_its_owner(store: StoreState, session: Session)
    requires
        store.consistent(),
        store.sessions.contains(session),
    ensures
        store.names_session_owner(session.id, session.user_id),
{
    let at = choose|at: int| 0 <= at < store.sessions.len() && store.sessions[at] == session;
    assert forall|j: int|
        0 <= j < store.sessions.len() && (#[trigger] store.sessions[j]).id
            == session.id implies store.sessions[j].user_id == session.user_id by {
        if j < at {
            assert(store.sessions[j].id != store.sessions[at].id);
        } else if at < j {
            assert(store.sessions[at].id != store.sessions[j].id);
        }
    }
}

/// Deleting a user leaves nothing behind that it owned: not the user, not
/// an API key, session, label or test case of its own, and not a session of
/// its own for a label or test case of anyone to belong to.
pub proof fn deleting_a_user_deletes_what_it_owned(store: StoreState, id: u128)
    requires
        store.consistent(),
    ensures
        ({
            let after = store.without_user(id);
            &&& after.consistent()
            &&& !user_present(after.users, id)
            &&& forall|i: int|
                0 <= i < after.apikeys.len() ==> (#[trigger] after.apikeys[i]).user_id != id
            &&& forall|i: int|
                0 <= i < after.sessions.len() ==> (#[trigger] after.sessions[i]).user_id != id
            &&& forall|i: int|
                0 <= i < after.labels.len() ==> (#[trigger] after.labels[i]).user_id != id
            &&& forall|i: int|
                0 <= i < after.testcases.len() ==> (#[trigger] after.testcases[i]).user_id != id
            &&& forall|j: int|
                0 <= j < store.sessions.len() && (#[trigger] store.sessions[j]).user_id == id
                    ==> !session_present(after.sessions, store.sessions[j].id)
        }),
{
    let remaining = StoreState { users: store.users.filter(user_other_than(id)), ..store };
    let after = remaining.settled();
    lemma_remaining_users_unique(store, id);
    lemma_settled_is_consistent(remaining);
    lemma_filter_rows(store.users, user_other_than(id));
    lemma_filter_rows(store.sessions, session_owned(remaining.users));
    assert(!user_present(after.users, id));
    assert forall|i: int| 0 <= i < after.apikeys.len() implies (#[trigger] after.apikeys[i]).user_id
        != id by {
        assert(apikey_owned(after.users)(after.apikeys[i]));
    }
    assert forall|i: int| 0 <= i < after.sessions.len() implies (
    #[trigger] after.sessions[i]).user_id != id by {
        assert(session_owned(after.users)(after.sessions[i]));
    }
    assert forall|i: int| 0 <= i < after.labels.len() implies (#[trigger] after.labels[i]).user_id
        != id by {
        assert(label_owned(after.users, after.sessions)(after.labels[i]));
    }
    assert forall|i: int| 0 <= i < after.testcases.len() implies (
    #[trigger] after.testcases[i]).user_id != id by {
        assert(testcase_owned(after.users, after.sessions)(after.testcases[i]));
    }
    assert forall|j: int|
        0 <= j < store.sessions.len() && (#[trigger] store.sessions[j]).user_id
            == id implies !session_present(after.sessions, store.sessions[j].id) by {
        if session_present(after.sessions, store.sessions[j].id) {
            let k = choose|k: int|
                0 <= k < after.sessions.len() && (#[trigger] after.sessions[k]).id
                    == store.sessions[j].id;
            assert(store.sessions.contains(after.sessions[k]));
            let m = choose|m: int|
                0 <= m < store.sessions.len() && store.sessions[m] == after.sessions[k];
            if m < j {
                assert(store.sessions[m].id != store.sessions[j].id);
            } else if j < m {
                assert(store.sessions[j].id != store.sessions[m].id);
            }
        }
    }
}

/// Deleting a user deletes no more than it owned: every other user stays,
/// and so does every API key and session of another user, and every label
/// and test case of another user in a session of another user.
pub proof fn deleting_a_user_spares_the_rest(store: StoreState, id: u128)
    requires
        store.consistent(),
    ensures
        ({
            let after = store.without_user(id);
            &&& forall|i: int|
                0 <= i < store.users.len() && (#[trigger] store.users[i]).id != id
                    ==> after.users.contains(store.users[i])
            &&& forall|i: int|
                0 <= i < store.apikeys.len() && (#[trigger] store.apikeys[i]).user_id != id
                    ==> after.apikeys.contains(store.apikeys[i])
            &&& forall|i: int|
                0 <= i < store.sessions.len() && (#[trigger] store.sessions[i]).user_id != id
                    ==> after.sessions.contains(store.sessions[i])
            &&& forall|i: int|
                0 <= i < store.labels.len() && (#[trigger] store.labels[i]).user_id != id
                    && after.sessions.contains(
                    session_of(store.sessions, store.labels[i].session_id),
                )
                    ==> after.labels.contains(store.labels[i])
            &&& forall|i: int|
                0 <= i < store.testcases.len() && (#[trigger] store.testcases[i]).user_id != id
                    && after.sessions.contains(
                    session_of(store.sessions, store.testcases[i].session_id),
                ) ==> after.testcases.contains(store.testcases[i])
        }),
{
    let remaining = StoreState { users: store.users.filter(user_other_than(id)), ..store };
    let after = remaining.settled();
    lemma_filter_rows(store.users, user_other_than(id));
    lemma_filter_rows(store.apikeys, apikey_owned(remaining.users));
    lemma_filter_rows(store.sessions, session_owned(remaining.users));
    lemma_filter_rows(store.labels, label_owned(remaining.users, after.sessions));
    lemma_filter_rows(store.testcases, testcase_owned(remaining.users, after.sessions));
    assert forall|owner: u128| owner != id && user_present(store.users, owner) implies user_present(
        remaining.users,
        owner,
    ) by {
        let i = choose|i: int|
            0 <= i < store.users.len() && (#[trigger] store.users[i]).id == owner;
        assert(remaining.users.contains(store.users[i]));
        let k = choose|k: int|
            0 <= k < remaining.users.len() && remaining.users[k] == store.users[i];
        assert(remaining.users[k].id == owner);
    }
    assert forall|i: int|
        0 <= i < store.apikeys.len() && (#[trigger] store.apikeys[i]).user_id
            != id implies after.apikeys.contains(store.apikeys[i]) by {
        assert(apikey_owned(store.users)(store.apikeys[i]));
    }
    assert forall|i: int|
        0 <= i < store.sessions.len() && (#[trigger] store.sessions[i]).user_id
            != id implies after.sessions.contains(store.sessions[i]) by {
        assert(session_owned(store.users)(store.sessions[i]));
    }
    assert forall|i: int|
        0 <= i < store.labels.len() && (#[trigger] store.labels[i]).user_id != id
            && after.sessions.contains(
            session_of(store.sessions, store.labels[i].session_id),
        ) implies after.labels.contains(store.labels[i]) by {
        assert(label_owned(store.users, store.sessions)(store.labels[i]));
        let session = session_of(store.sessions, store.labels[i].session_id);
        let k = choose|k: int| 0 <= k < after.sessions.len() && after.sessions[k] == session;
        assert(after.sessions[k].id == store.labels[i].session_id);
    }
    assert forall|i: int|
        0 <= i < store.testcases.len() && (#[trigger] store.testcases[i]).user_id != id
            && after.sessions.contains(
            session_of(store.sessions, store.testcases[i].session_id),
        ) implies after.testcases.contains(store.testcases[i]) by {
        assert(testcase_owned(store.users, store.sessions)(store.testcases[i]));
        let session = session_of(store.sessions, store.testcases[i].session_id);
        let k = choose|k: int| 0 <= k < after.sessions.len() && after.sessions[k] == session;
        assert(after.sessions[k].id == store.testcases[i].session_id);
    }
}

/// Deleting a session deletes the session with its labels and test cases,
/// and no user or API key.
pub proof fn deleting_a_session_deletes_its_rows(store: StoreState, id: u128)
    requires
        store.consistent(),
    ensures
        ({
            let after = store.without_session(id);
            &&& after.consistent()
            &&& after.users == store.users
            &&& after.apikeys == store.apikeys
            &&& after.sessions == store.sessions.filter(session_other_than(id))
            &&& !session_present(after.sessions, id)
            &&& forall|i: int|
                0 <= i < after.labels.len() ==> (#[trigger] after.labels[i]).session_id != id
            &&& forall|i: int|
                0 <= i < after.testcases.len() ==> (#[trigger] after.testcases[i]).session_id != id
        }),
{
    let remaining = StoreState { sessions: store.sessions.filter(session_other_than(id)), ..store };
    let after = remaining.settled();
    lemma_remaining_sessions_unique(store, id);
    lemma_settled_is_consistent(remaining);
    lemma_filter_rows(store.sessions, session_other_than(id));
    assert forall|i: int| 0 <= i < store.apikeys.len() implies apikey_owned(store.users)(
        #[trigger] store.apikeys[i],
    ) by {}
    lemma_filter_of_survivors(store.apikeys, apikey_owned(store.users));
    assert forall|i: int| 0 <= i < remaining.sessions.len() implies session_owned(store.users)(
        #[trigger] remaining.sessions[i],
    ) by {
        assert(store.sessions.contains(remaining.sessions[i]));
        let a = choose|a: int|
            0 <= a < store.sessions.len() && store.sessions[a] == remaining.sessions[i];
        assert(session_owned(store.users)(store.sessions[a]));
    }
    lemma_filter_of_survivors(remaining.sessions, session_owned(store.users));
    assert(!session_present(after.sessions, id));
    assert forall|i: int| 0 <= i < after.labels.len() implies (#[trigger] after.labels[i]).session_id
        != id by {
        assert(label_owned(after.users, after.sessions)(after.labels[i]));
    }
    assert forall|i: int| 0 <= i < after.testcases.len() implies (
    #[trigger] after.testcases[i]).session_id != id by {
        assert(testcase_owned(after.users, after.sessions)(after.testcases[i]));
    }
}

/// A user, then a session of that user, then a test case of that session
/// are inserted, and then the user is deleted: the user, the session and the
/// test case are gone.
pub proof fn deleting_a_user_reaches_the_testcases_of_its_sessions(
    store: StoreState,
    user: User,
    session: Session,
    testcase: Testcase,
)
    requires
        store.consistent(),
        store.admits_user(user) is Ok,
        session.user_id == user.id,
        store.with_user(user).admits_session(session) is Ok,
        testcase.session_id == session.id,
        store.with_user(user).with_session(session).admits_testcase(testcase) is Ok,
    ensures
        ({
            let after = store.with_user(user).with_session(session).with_testcase(
                testcase,
            ).without_user(user.id);
            &&& !user_present(after.users, user.id)
            &&& !session_present(after.sessions, session.id)
            &&& !testcase_present(after.testcases, testcase.id)
        }),
{
    let with_user = store.with_user(user);
    let with_session = with_user.with_session(session);
    let full = with_session.with_testcase(testcase);
    let after = full.without_user(user.id);
    admitted_rows_keep_the_store_consistent(
        store,
        user,
        arbitrary(),
        session,
        arbitrary(),
        testcase,
    );
    admitted_rows_keep_the_store_consistent(
        with_user,
        user,
        arbitrary(),
        session,
        arbitrary(),
        testcase,
    );
    admitted_rows_keep_the_store_consistent(
        with_session,
        user,
        arbitrary(),
        session,
        arbitrary(),
        testcase,
    );
    deleting_a_user_deletes_what_it_owned(full, user.id);
    assert(full.sessions[full.sessions.len() - 1] == session);
    assert(!session_present(after.sessions, session.id));
    if testcase_present(after.testcases, testcase.id) {
        let k = choose|k: int|
            0 <= k < after.testcases.len() && (#[trigger] after.testcases[k]).id == testcase.id;
        lemma_filter_rows(
            full.testcases,
            testcase_owned(full.users.filter(user_other_than(user.id)), after.sessions),
        );
        assert(full.testcases.contains(after.testcases[k]));
        let m = choose|m: int|
            0 <= m < full.testcases.len() && full.testcases[m] == after.testcases[k];
        let last = full.testcases.len() - 1;
        assert(full.testcases[last] == testcase);
        if m < last {
            assert(full.testcases[m].id != full.testcases[last].id);
        }
        assert(after.testcases[k] == testcase);
        assert(testcase_owned(after.users, after.sessions)(after.testcases[k]));
    }
}

} // verus!
