//! Provisioning a principal: a new user row with a freshly derived
//! credential, for a datastore that has been validated.
//!
//! The row is made here; inserting it is the caller's work, and what the
//! datastore said comes back through [`Provisioning::inserted`].

use crate::connection::Connection;
use crate::credentials::{derived_hash, hash_password, is_credential_for};
use crate::entities::{Timestamp, User};
use crate::error::{ProvisionError, ProvisionErrorView};
use vstd::prelude::*;

verus! {

/// A user row that is made and yet to be inserted.
#[derive(Debug)]
pub struct Provisioning {
    url: String,
    user: User,
}

/// How inserting the row ended.
#[derive(Clone, Debug, PartialEq, Eq)]
pub enum InsertOutcome {
    /// The datastore holds the row.
    Inserted,
    /// The datastore refused it, and holds nothing of it.
    Rejected { cause: String },
}

/// Whether `id` has the shape of a random (version 4) UUID: the version
/// digit is 4 and the variant bits are `10`.
pub open spec fn is_random_uuid(id: u128) -> bool {
    id & 0x0000_0000_0000_f000_c000_0000_0000_0000 == 0x0000_0000_0000_4000_8000_0000_0000_0000
}

/// Calls `uuid::Uuid::new_v4` and returns the identifier as an integer, most
/// significant byte first. Trusted: the version and variant bits are set as
/// for every version 4 UUID; the other 122 bits are random. The call panics
/// where the operating system supplies no random bytes.
#[verifier::external_body]
fn random_uuid() -> (id: u128)
    ensures
        is_random_uuid(id),
{
    uuid::Uuid::new_v4().as_u128()
}

/// Calls `chrono::Utc::now` and returns the time as seconds and nanoseconds
/// since the epoch. Trusted: the clock is read as a duration since the
/// epoch, so the seconds are not negative and the nanoseconds are below one
/// second. The call panics where the system clock stands before the epoch.
#[verifier::external_body]
fn utc_now() -> (now: Timestamp)
    ensures
        now.well_formed(),
{
    let now = chrono::Utc::now();
    Timestamp { secs: now.timestamp(), nanos: now.timestamp_subsec_nanos() }
}

/// Whether `user` is a row that provisioning makes for `username` and
/// `password`: the username as given, a credential derived from the
/// password, a random identifier, and one time of creation for both audit
/// timestamps.
pub open spec fn is_provisioned(user: User, username: Seq<char>, password: Seq<char>) -> bool {
    &&& user.username@ == username
    &&& is_credential_for(password, user.password_salt@, user.password_hash@)
    &&& is_random_uuid(user.id)
    &&& user.created_at.well_formed()
    &&& user.updated_at == user.created_at
}

/// Makes the row of a new user for a validated datastore: hashes the
/// password under a fresh salt, draws a fresh identifier and stamps the
/// current time. The username is taken as it is.
pub fn provision_user<H>(connection: &Connection<H>, username: &str, password: &str) -> (provisioning:
    Provisioning)
    ensures
        is_provisioned(provisioning.row(), username@, password@),
        provisioning.target() == connection@.url,
{
    let (password_salt, password_hash) = hash_password(password);
    let now = utc_now();
    Provisioning {
        url: connection.url().to_owned(),
        user: User {
            id: random_uuid(),
            username: username.to_owned(),
            password_salt,
            password_hash,
            created_at: now,
            updated_at: now,
        },
    }
}

impl Provisioning {
    /// The row to insert.
    pub closed spec fn row(self) -> User {
        self.user
    }

    /// The connection string of the datastore that the row is for.
    pub closed spec fn target(self) -> Seq<char> {
        self.url@
    }

    /// The row to insert.
    pub fn user(&self) -> (user: &User)
        ensures
            *user == self.row(),
    {
        &self.user
    }

    /// Takes how the insertion ended. The user is handed out only when the
    /// datastore holds the row; a refusal is final, nothing is tried again.
    pub fn inserted(self, outcome: InsertOutcome) -> (user: Result<User, ProvisionError>)
        ensures
            match outcome {
                InsertOutcome::Inserted => user == Ok::<User, ProvisionError>(self.row()),
                InsertOutcome::Rejected { cause } => user is Err && user->Err_0@ == (
                ProvisionErrorView::ProvisionFailed {
                    url: self.target(),
                    username: self.row().username@,
                    cause: cause@,
                }),
            },
    {
        match outcome {
            InsertOutcome::Inserted => Ok(self.user),
            InsertOutcome::Rejected { cause } => Err(
                ProvisionError::ProvisionFailed {
                    url: self.url,
                    username: self.user.username,
                    cause,
                },
            ),
        }
    }
}

/// A user that provisioning hands out has the username as it was given, and
/// a hash that is derived again from the password and the stored salt.
pub proof fn provisioned_user_round_trips(user: User, username: Seq<char>, password: Seq<char>)
    requires
        is_provisioned(user, username, password),
    ensures
        user.username@ == username,
        derived_hash(password, user.password_salt@) == user.password_hash@,
{
}

impl User {
    /// The line that confirms the new principal to the operator.
    pub fn confirmation(&self) -> (line: String)
        ensures
            line@ == "User created successfully: "@ + self.username@,
    {
        let mut line = String::from_str("User created successfully: ");
        line.append(self.username.as_str());
        line
    }
}

} // verus!
