//! The error taxonomy of the driver and its propagation rules.

use crate::text::{contains, occurs_in};
use vstd::prelude::*;
use vstd::string::*;

verus! {

/// A violation of the wire protocol's invariants, found on the client side.
#[derive(Clone, Copy, Debug, PartialEq, Eq, Structural)]
pub enum InternalError {
    /// A server frame named a request id for which no reply sink is installed.
    UnknownRequestId,
    /// A request was issued under an id that is still in use.
    DuplicateRequestId,
    /// A server was named that the connection does not hold.
    UnknownServer,
    /// A number on the wire is not a member of the enumeration it stands for.
    EnumOutOfBounds,
    /// A response does not have the shape that its request calls for.
    UnexpectedResponseType,
}

/// The kind of an [`Error`], without its payload.
#[derive(Clone, Copy, Debug, PartialEq, Eq, Structural)]
pub enum ErrorKind {
    ClientIsClosed,
    UnableToConnect,
    ClusterUnableToConnect,
    ClusterAllNodesFailed,
    ClusterReplicaNotPrimary,
    DatabaseDoesNotExist,
    SessionIsClosed,
    TransactionIsClosed,
    MissingResponseField,
    InternalError,
    Other,
}

/// Everything that an operation of the driver can fail with.
#[derive(Debug, PartialEq, Eq)]
pub enum Error {
    /// The connection was force-closed. Fatal, never retried.
    ClientIsClosed,
    /// A single endpoint could not be reached.
    UnableToConnect,
    /// Every replica or server that was tried failed to connect; the payload
    /// lists the addresses.
    ClusterUnableToConnect(String),
    /// Every node of a fan-out answered with an error; the payload holds one
    /// line per node.
    ClusterAllNodesFailed(String),
    /// The server refused a write because the replica is not the primary.
    ClusterReplicaNotPrimary,
    /// The named database does not exist.
    DatabaseDoesNotExist(String),
    /// The session was closed before the operation.
    SessionIsClosed,
    /// The transaction was closed before the operation.
    TransactionIsClosed,
    /// A response lacks the named field.
    MissingResponseField(String),
    /// The protocol was violated.
    InternalError(InternalError),
    /// Any other failure, with its message.
    Other(String),
}

/// The mathematical value of an [`Error`].
pub enum ErrorView {
    ClientIsClosed,
    UnableToConnect,
    ClusterUnableToConnect(Seq<char>),
    ClusterAllNodesFailed(Seq<char>),
    ClusterReplicaNotPrimary,
    DatabaseDoesNotExist(Seq<char>),
    SessionIsClosed,
    TransactionIsClosed,
    MissingResponseField(Seq<char>),
    InternalError(InternalError),
    Other(Seq<char>),
}

impl ErrorView {
    /// The kind of the error.
    pub open spec fn kind(self) -> ErrorKind {
        match self {
            ErrorView::ClientIsClosed => ErrorKind::ClientIsClosed,
            ErrorView::UnableToConnect => ErrorKind::UnableToConnect,
            ErrorView::ClusterUnableToConnect(_) => ErrorKind::ClusterUnableToConnect,
            ErrorView::ClusterAllNodesFailed(_) => ErrorKind::ClusterAllNodesFailed,
            ErrorView::ClusterReplicaNotPrimary => ErrorKind::ClusterReplicaNotPrimary,
            ErrorView::DatabaseDoesNotExist(_) => ErrorKind::DatabaseDoesNotExist,
            ErrorView::SessionIsClosed => ErrorKind::SessionIsClosed,
            ErrorView::TransactionIsClosed => ErrorKind::TransactionIsClosed,
            ErrorView::MissingResponseField(_) => ErrorKind::MissingResponseField,
            ErrorView::InternalError(_) => ErrorKind::InternalError,
            ErrorView::Other(_) => ErrorKind::Other,
        }
    }

    /// Whether the cluster combinators consume this error and try again.
    pub open spec fn is_retryable(self) -> bool {
        self is UnableToConnect || self is ClusterReplicaNotPrimary
    }
}

/// What an internal error says.
pub open spec fn internal_error_message(error: InternalError) -> Seq<char> {
    match error {
        InternalError::UnknownRequestId =>
            "Internal error: received a response for an unknown request."@,
        InternalError::DuplicateRequestId =>
            "Internal error: issued a request under an id that is in use."@,
        InternalError::UnknownServer =>
            "Internal error: the connection holds no such server."@,
        InternalError::EnumOutOfBounds =>
            "Internal error: received a number that is out of the bounds of its enumeration."@,
        InternalError::UnexpectedResponseType =>
            "Internal error: received a response of an unexpected type."@,
    }
}

/// What an error says to the user.
pub open spec fn error_message(error: ErrorView) -> Seq<char> {
    match error {
        ErrorView::ClientIsClosed =>
            "The client has been closed and no further operation is allowed."@,
        ErrorView::UnableToConnect => "Unable to connect to the server."@,
        ErrorView::ClusterUnableToConnect(addresses) =>
            "Unable to connect to the cluster. Attempted connecting to the cluster members, but none are available: '"@
                + addresses + "'."@,
        ErrorView::ClusterAllNodesFailed(diagnostics) =>
            "Attempted connecting to all cluster members, but the following errors occurred:\n"@
                + diagnostics,
        ErrorView::ClusterReplicaNotPrimary => "The replica is not the primary replica."@,
        ErrorView::DatabaseDoesNotExist(name) => "The database '"@ + name + "' does not exist."@,
        ErrorView::SessionIsClosed =>
            "The session is closed and no further operation is allowed."@,
        ErrorView::TransactionIsClosed =>
            "The transaction is closed and no further operation is allowed."@,
        ErrorView::MissingResponseField(field) =>
            "Missing field in message received from server: '"@ + field + "'."@,
        ErrorView::InternalError(error) => internal_error_message(error),
        ErrorView::Other(message) => message,
    }
}

/// The status code that says that a call broke inside the server.
pub const STATUS_INTERNAL: i32 = 13;

/// The status code that says that the server is not available.
pub const STATUS_UNAVAILABLE: i32 = 14;

/// The status code that says that the caller is not authenticated.
pub const STATUS_UNAUTHENTICATED: i32 = 16;

/// The error that a failed call stands for, by its status code and its
/// message. A server that is not available, or that reset the stream, could
/// not be reached. An internal status with the mark `[RPL01]` is the refusal
/// of a replica that is not the primary. Anything else is passed on with its
/// message.
pub open spec fn error_of_status(code: i32, message: Seq<char>) -> ErrorView {
    if code == STATUS_UNAVAILABLE || occurs_in(message, "Received Rst Stream"@) {
        ErrorView::UnableToConnect
    } else if code == STATUS_INTERNAL && occurs_in(message, "[RPL01]"@) {
        ErrorView::ClusterReplicaNotPrimary
    } else {
        ErrorView::Other(message)
    }
}

impl View for Error {
    type V = ErrorView;

    open spec fn view(&self) -> ErrorView {
        match *self {
            Error::ClientIsClosed => ErrorView::ClientIsClosed,
            Error::UnableToConnect => ErrorView::UnableToConnect,
            Error::ClusterUnableToConnect(s) => ErrorView::ClusterUnableToConnect(s@),
            Error::ClusterAllNodesFailed(s) => ErrorView::ClusterAllNodesFailed(s@),
            Error::ClusterReplicaNotPrimary => ErrorView::ClusterReplicaNotPrimary,
            Error::DatabaseDoesNotExist(s) => ErrorView::DatabaseDoesNotExist(s@),
            Error::SessionIsClosed => ErrorView::SessionIsClosed,
            Error::TransactionIsClosed => ErrorView::TransactionIsClosed,
            Error::MissingResponseField(s) => ErrorView::MissingResponseField(s@),
            Error::InternalError(e) => ErrorView::InternalError(e),
            Error::Other(s) => ErrorView::Other(s@),
        }
    }
}

impl Clone for Error {
    fn clone(&self) -> (res: Self)
        ensures
            res@ == self@,
    {
        match self {
            Error::ClientIsClosed => Error::ClientIsClosed,
            Error::UnableToConnect => Error::UnableToConnect,
            Error::ClusterUnableToConnect(s) => Error::ClusterUnableToConnect(s.clone()),
            Error::ClusterAllNodesFailed(s) => Error::ClusterAllNodesFailed(s.clone()),
            Error::ClusterReplicaNotPrimary => Error::ClusterReplicaNotPrimary,
            Error::DatabaseDoesNotExist(s) => Error::DatabaseDoesNotExist(s.clone()),
            Error::SessionIsClosed => Error::SessionIsClosed,
            Error::TransactionIsClosed => Error::TransactionIsClosed,
            Error::MissingResponseField(s) => Error::MissingResponseField(s.clone()),
            Error::InternalError(e) => Error::InternalError(*e),
            Error::Other(s) => Error::Other(s.clone()),
        }
    }
}

impl Error {
    /// The kind of the error.
    pub fn kind(&self) -> (k: ErrorKind)
        ensures
            k == self@.kind(),
    {
        match self {
            Error::ClientIsClosed => ErrorKind::ClientIsClosed,
            Error::UnableToConnect => ErrorKind::UnableToConnect,
            Error::ClusterUnableToConnect(_) => ErrorKind::ClusterUnableToConnect,
            Error::ClusterAllNodesFailed(_) => ErrorKind::ClusterAllNodesFailed,
            Error::ClusterReplicaNotPrimary => ErrorKind::ClusterReplicaNotPrimary,
            Error::DatabaseDoesNotExist(_) => ErrorKind::DatabaseDoesNotExist,
            Error::SessionIsClosed => ErrorKind::SessionIsClosed,
            Error::TransactionIsClosed => ErrorKind::TransactionIsClosed,
            Error::MissingResponseField(_) => ErrorKind::MissingResponseField,
            Error::InternalError(_) => ErrorKind::InternalError,
            Error::Other(_) => ErrorKind::Other,
        }
    }

    /// The error that a failed call stands for, by its status code and its
    /// message: `UnableToConnect` for a server that is not available or
    /// that reset the stream, `ClusterReplicaNotPrimary` for the refusal of
    /// a replica that is not the primary, and `Other` with the message for
    /// anything else.
    pub fn from_status(code: i32, message: &str) -> (error: Error)
        ensures
            error@ == error_of_status(code, message@),
    {
        if code == STATUS_UNAVAILABLE || contains(message, "Received Rst Stream") {
            Error::UnableToConnect
        } else if code == STATUS_INTERNAL && contains(message, "[RPL01]") {
            Error::ClusterReplicaNotPrimary
        } else {
            Error::Other(message.to_owned())
        }
    }

    /// What the error says to the user.
    pub fn message(&self) -> (text: String)
        ensures
            text@ == error_message(self@),
    {
        match self {
            Error::ClientIsClosed => String::from_str(
                "The client has been closed and no further operation is allowed.",
            ),
            Error::UnableToConnect => String::from_str("Unable to connect to the server."),
            Error::ClusterUnableToConnect(addresses) => {
                let mut text = String::from_str(
                    "Unable to connect to the cluster. Attempted connecting to the cluster members, but none are available: '",
                );
                text.append(addresses.as_str());
                text.append("'.");
                text
            },
            Error::ClusterAllNodesFailed(diagnostics) => {
                let mut text = String::from_str(
                    "Attempted connecting to all cluster members, but the following errors occurred:\n",
                );
                text.append(diagnostics.as_str());
                text
            },
            Error::ClusterReplicaNotPrimary => String::from_str(
                "The replica is not the primary replica.",
            ),
            Error::DatabaseDoesNotExist(name) => {
                let mut text = String::from_str("The database '");
                text.append(name.as_str());
                text.append("' does not exist.");
                text
            },
            Error::SessionIsClosed => String::from_str(
                "The session is closed and no further operation is allowed.",
            ),
            Error::TransactionIsClosed => String::from_str(
                "The transaction is closed and no further operation is allowed.",
            ),
            Error::MissingResponseField(field) => {
                let mut text = String::from_str("Missing field in message received from server: '");
                text.append(field.as_str());
                text.append("'.");
                text
            },
            Error::InternalError(error) => match error {
                InternalError::UnknownRequestId => String::from_str(
                    "Internal error: received a response for an unknown request.",
                ),
                InternalError::DuplicateRequestId => String::from_str(
                    "Internal error: issued a request under an id that is in use.",
                ),
                InternalError::UnknownServer => String::from_str(
                    "Internal error: the connection holds no such server.",
                ),
                InternalError::EnumOutOfBounds => String::from_str(
                    "Internal error: received a number that is out of the bounds of its enumeration.",
                ),
                InternalError::UnexpectedResponseType => String::from_str(
                    "Internal error: received a response of an unexpected type.",
                ),
            },
            Error::Other(message) => message.clone(),
        }
    }

    /// Whether the cluster combinators consume this error and try again:
    /// exactly `UnableToConnect` and `ClusterReplicaNotPrimary`.
    pub fn is_retryable(&self) -> (b: bool)
        ensures
            b == self@.is_retryable(),
    {
        match self {
            Error::UnableToConnect => true,
            Error::ClusterReplicaNotPrimary => true,
            _ => false,
        }
    }
}

} // verus!
