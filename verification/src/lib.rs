//! Client-side core of a driver for a distributed graph database.
//!
//! The crate holds the decisions of the driver and none of its I/O: error
//! classification, credentials, options, replica selection, the failover
//! combinators, the session registry, the pulse schedule and the transaction
//! stream multiplexer. An embedding program performs the network actions that
//! these state machines ask for and feeds the outcomes back.

pub mod address;
pub mod client;
pub mod concept;
pub mod connection;
pub mod credential;
pub mod database;
pub mod database_manager;
pub mod discovery;
pub mod dispatch;
pub mod error;
pub mod failover;
pub mod failover_laws;
pub mod id;
pub mod message;
pub mod options;
pub mod rule;
pub mod session;
pub mod text;
pub mod transaction;
pub mod transaction_laws;

pub use crate::address::{Address, Scheme};
pub use crate::client::{Client, Explanation, Operation, TypeDBClient, TypeDBDatabaseManager};
pub use crate::connection::{Connection, ServerConnection, SessionClosure};
pub use crate::credential::{CallCredentials, Credential};
pub use crate::database::{Database, DatabaseInfo, Replica, ReplicaInfo};
pub use crate::database_manager::{DatabaseManager, Listing, ListingAction, ListingPhase};
pub use crate::discovery::Discovery;
pub use crate::dispatch::Dispatcher;
pub use crate::error::{Error, ErrorKind, InternalError};
pub use crate::failover::{Action, Failover, Phase, Strategy};
pub use crate::id::ID;
pub use crate::options::{Options, OptionsProto, SessionType, TransactionType};
pub use crate::session::{Pulse, PulseAction, Session};
pub use crate::transaction::{
    FrameKind, Lifecycle, Routing, Sink, SinkKind, Teardown, TransactionStream,
};
