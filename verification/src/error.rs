//! What can end a provisioning run. Every error is final: nothing is retried.

use crate::datastore::DatastoreKind;
use vstd::prelude::*;

verus! {

/// Why a provisioning run ended without a new principal. Each error carries
/// what an operator needs to act on it.
#[derive(Clone, Debug, PartialEq, Eq)]
pub enum ProvisionError {
    /// The declared kind names no supported engine.
    UnsupportedKind { declared: String },
    /// The datastore could not be opened.
    ConnectFailed { declared: String, url: String, cause: String },
    /// The datastore was opened and is of another kind than declared.
    KindMismatch { url: String, expected: DatastoreKind, actual: DatastoreKind },
    /// The datastore was opened and did not answer the liveness probe.
    Unreachable { url: String, cause: String },
    /// The datastore refused the new row.
    ProvisionFailed { url: String, username: String, cause: String },
}

/// A [`ProvisionError`] as a mathematical value.
pub enum ProvisionErrorView {
    UnsupportedKind { declared: Seq<char> },
    ConnectFailed { declared: Seq<char>, url: Seq<char>, cause: Seq<char> },
    KindMismatch { url: Seq<char>, expected: DatastoreKind, actual: DatastoreKind },
    Unreachable { url: Seq<char>, cause: Seq<char> },
    ProvisionFailed { url: Seq<char>, username: Seq<char>, cause: Seq<char> },
}

impl View for ProvisionError {
    type V = ProvisionErrorView;

    open spec fn view(&self) -> ProvisionErrorView {
        match self {
            ProvisionError::UnsupportedKind { declared } => ProvisionErrorView::UnsupportedKind {
                declared: declared@,
            },
            ProvisionError::ConnectFailed { declared, url, cause } => {
                ProvisionErrorView::ConnectFailed { declared: declared@, url: url@, cause: cause@ }
            },
            ProvisionError::KindMismatch { url, expected, actual } => {
                ProvisionErrorView::KindMismatch { url: url@, expected: *expected, actual: *actual }
            },
            ProvisionError::Unreachable { url, cause } => ProvisionErrorView::Unreachable {
                url: url@,
                cause: cause@,
            },
            ProvisionError::ProvisionFailed { url, username, cause } => {
                ProvisionErrorView::ProvisionFailed { url: url@, username: username@, cause: cause@ }
            },
        }
    }
}

impl ProvisionErrorView {
    /// The message shown to the operator.
    pub open spec fn message(self) -> Seq<char> {
        match self {
            ProvisionErrorView::UnsupportedKind { declared } => "Unsupported database type: "@
                + declared + " (supported: postgres, mysql, sqlite)"@,
            ProvisionErrorView::ConnectFailed { declared, url, cause } => "Failed to connect to "@
                + declared + " database: "@ + cause,
            ProvisionErrorView::KindMismatch { url, expected, actual } =>
                "Database backend mismatch: expected "@ + expected.spec_name() + ", got "@
                    + actual.spec_name(),
            ProvisionErrorView::Unreachable { url, cause } => "Failed to ping database: "@ + cause,
            ProvisionErrorView::ProvisionFailed { url, username, cause } => {
                "Failed to create user: "@ + cause
            },
        }
    }
}

impl ProvisionError {
    /// The message shown to the operator.
    pub fn message(&self) -> (message: String)
        ensures
            message@ == self@.message(),
    {
        match self {
            ProvisionError::UnsupportedKind { declared } => {
                let mut message = String::from_str("Unsupported database type: ");
                message.append(declared.as_str());
                message.append(" (supported: postgres, mysql, sqlite)");
                message
            },
            ProvisionError::ConnectFailed { declared, url: _, cause } => {
                let mut message = String::from_str("Failed to connect to ");
                message.append(declared.as_str());
                message.append(" database: ");
                message.append(cause.as_str());
                message
            },
            ProvisionError::KindMismatch { url: _, expected, actual } => {
                let mut message = String::from_str("Database backend mismatch: expected ");
                message.append(expected.name());
                message.append(", got ");
                message.append(actual.name());
                message
            },
            ProvisionError::Unreachable { url: _, cause } => {
                let mut message = String::from_str("Failed to ping database: ");
                message.append(cause.as_str());
                message
            },
            ProvisionError::ProvisionFailed { url: _, username: _, cause } => {
                let mut message = String::from_str("Failed to create user: ");
                message.append(cause.as_str());
                message
            },
        }
    }
}

} // verus!
