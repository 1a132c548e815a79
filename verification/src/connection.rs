//! Validating the target datastore before anything is written to it.
//!
//! Validation alternates decisions, made here, with work on the datastore,
//! done by the caller: the declared kind is read, the caller opens the
//! datastore, the engine found is held against the declared kind, the caller
//! probes the datastore, and only then is there a [`Connection`]. Each state
//! is a type of its own, so that no step can be skipped. How long the caller
//! may wait for the datastore is a setting of the pending connection.
//!
//! The handle by which the caller reaches the datastore travels with the
//! states: it is handed over when the datastore is opened, dropped with the
//! state that holds it when the validation fails, and kept by the
//! [`Connection`] for the work that follows.

use crate::datastore::DatastoreKind;
use crate::error::{ProvisionError, ProvisionErrorView};
use vstd::prelude::*;

verus! {

/// A datastore whose declared kind is supported and that is yet to be opened.
#[derive(Debug)]
pub struct PendingConnection {
    url: String,
    declared: String,
    kind: DatastoreKind,
    timeout_secs: Option<u64>,
}

/// A datastore that was opened and is of the declared kind, yet to be probed.
/// It holds the handle `H` by which the caller reaches the datastore.
#[derive(Debug)]
pub struct OpenedConnection<H> {
    url: String,
    kind: DatastoreKind,
    handle: H,
}

/// A validated datastore: opened, of the declared kind, and alive. It holds
/// the handle `H` by which the caller reaches the datastore, and releases the
/// datastore when it is dropped.
#[derive(Debug)]
pub struct Connection<H> {
    url: String,
    kind: DatastoreKind,
    handle: H,
}

/// What a state of the validation knows of its datastore.
pub struct Target {
    pub url: Seq<char>,
    pub kind: DatastoreKind,
}

/// How opening the datastore ended.
#[derive(Debug)]
pub enum ConnectOutcome<H> {
    /// It was opened: it is reached by `handle`, and its engine is `backend`.
    Opened { handle: H, backend: DatastoreKind },
    /// It could not be opened.
    Failed { cause: String },
}

/// How the liveness probe ended.
#[derive(Debug)]
pub enum ProbeOutcome {
    /// The datastore answered.
    Alive,
    /// It did not.
    Failed { cause: String },
}

impl View for PendingConnection {
    type V = Target;

    closed spec fn view(&self) -> Target {
        Target { url: self.url@, kind: self.kind }
    }
}

impl<H> View for OpenedConnection<H> {
    type V = Target;

    closed spec fn view(&self) -> Target {
        Target { url: self.url@, kind: self.kind }
    }
}

impl<H> View for Connection<H> {
    type V = Target;

    closed spec fn view(&self) -> Target {
        Target { url: self.url@, kind: self.kind }
    }
}

/// First step of the validation: reads the declared kind. Nothing is opened
/// or sent here, so an unsupported kind is refused before any network
/// traffic.
pub fn validate_connection(url: &str, declared_kind: &str) -> (pending: Result<
    PendingConnection,
    ProvisionError,
>)
    ensures
        match DatastoreKind::spec_parse(declared_kind@) {
            Some(kind) => pending is Ok && pending->Ok_0@ == (Target { url: url@, kind })
                && pending->Ok_0.declared() == declared_kind@ && pending->Ok_0.time_limit() is None,
            None => pending is Err && pending->Err_0@ == (ProvisionErrorView::UnsupportedKind {
                declared: declared_kind@,
            }),
        },
{
    match DatastoreKind::parse(declared_kind) {
        Some(kind) => Ok(
            PendingConnection {
                url: url.to_owned(),
                declared: declared_kind.to_owned(),
                kind,
                timeout_secs: None,
            },
        ),
        None => Err(ProvisionError::UnsupportedKind { declared: declared_kind.to_owned() }),
    }
}

impl PendingConnection {
    /// The kind as it was declared, letter for letter.
    pub closed spec fn declared(&self) -> Seq<char> {
        self.declared@
    }

    /// The seconds that opening and probing the datastore may take, where a
    /// limit was set.
    pub closed spec fn time_limit(&self) -> Option<u64> {
        self.timeout_secs
    }

    /// The same pending connection with `seconds` as the time that opening
    /// and probing the datastore may take. Without a limit, the client of the
    /// datastore decides how long it waits.
    pub fn with_timeout(self, seconds: u64) -> (pending: PendingConnection)
        ensures
            pending@ == self@,
            pending.declared() == self.declared(),
            pending.time_limit() == Some(seconds),
    {
        PendingConnection { timeout_secs: Some(seconds), ..self }
    }

    /// The seconds that opening and probing the datastore may take, where a
    /// limit was set.
    pub fn timeout(&self) -> (seconds: Option<u64>)
        ensures
            seconds == self.time_limit(),
    {
        self.timeout_secs
    }

    /// The connection string to open.
    pub fn url(&self) -> (url: &str)
        ensures
            url@ == self@.url,
    {
        self.url.as_str()
    }

    /// The kind that the datastore must turn out to be.
    pub fn kind(&self) -> (kind: DatastoreKind)
        ensures
            kind == self@.kind,
    {
        self.kind
    }

    /// Second step: takes how opening the datastore ended. A datastore of
    /// another kind than declared is refused, against operator error, and its
    /// handle dropped.
    pub fn opened<H>(self, outcome: ConnectOutcome<H>) -> (opened: Result<
        OpenedConnection<H>,
        ProvisionError,
    >)
        ensures
            match outcome {
                ConnectOutcome::Opened { handle, backend } => if backend == self@.kind {
                    opened is Ok && opened->Ok_0@ == self@ && opened->Ok_0.held() == handle
                } else {
                    opened is Err && opened->Err_0@ == (ProvisionErrorView::KindMismatch {
                        url: self@.url,
                        expected: self@.kind,
                        actual: backend,
                    })
                },
                ConnectOutcome::Failed { cause } => opened is Err && opened->Err_0@ == (
                ProvisionErrorView::ConnectFailed {
                    declared: self.declared(),
                    url: self@.url,
                    cause: cause@,
                }),
            },
    {
        match outcome {
            ConnectOutcome::Opened { handle, backend } => if backend == self.kind {
                Ok(OpenedConnection { url: self.url, kind: self.kind, handle })
            } else {
                Err(
                    ProvisionError::KindMismatch {
                        url: self.url,
                        expected: self.kind,
                        actual: backend,
                    },
                )
            },
            ConnectOutcome::Failed { cause } => Err(
                ProvisionError::ConnectFailed { declared: self.declared, url: self.url, cause },
            ),
        }
    }
}

impl<H> OpenedConnection<H> {
    /// The handle by which the datastore is reached.
    pub closed spec fn held(&self) -> H {
        self.handle
    }

    /// The handle by which the datastore is reached, to probe it.
    pub fn handle(&self) -> (handle: &H)
        ensures
            *handle == self.held(),
    {
        &self.handle
    }

    /// Third step: takes how the liveness probe ended. A datastore that did
    /// not answer is refused, and its handle dropped.
    pub fn probed(self, outcome: ProbeOutcome) -> (connection: Result<Connection<H>, ProvisionError>)
        ensures
            match outcome {
                ProbeOutcome::Alive => connection is Ok && connection->Ok_0@ == self@
                    && connection->Ok_0.held() == self.held(),
                ProbeOutcome::Failed { cause } => connection is Err && connection->Err_0@ == (
                ProvisionErrorView::Unreachable { url: self@.url, cause: cause@ }),
            },
    {
        match outcome {
            ProbeOutcome::Alive => Ok(
                Connection { url: self.url, kind: self.kind, handle: self.handle },
            ),
            ProbeOutcome::Failed { cause } => Err(
                ProvisionError::Unreachable { url: self.url, cause },
            ),
        }
    }
}

impl<H> Connection<H> {
    /// The handle by which the datastore is reached.
    pub closed spec fn held(&self) -> H {
        self.handle
    }

    /// The handle by which the datastore is reached.
    pub fn handle(&self) -> (handle: &H)
        ensures
            *handle == self.held(),
    {
        &self.handle
    }

    /// The connection string of the datastore.
    pub fn url(&self) -> (url: &str)
        ensures
            url@ == self@.url,
    {
        self.url.as_str()
    }

    /// The kind of the datastore.
    pub fn kind(&self) -> (kind: DatastoreKind)
        ensures
            kind == self@.kind,
    {
        self.kind
    }
}

} // verus!
