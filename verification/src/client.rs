//! The user's entry points: clients, and the operations on databases as
//! plans that a caller carries out.

use crate::concept::ConceptMap;
use crate::connection::{addresses_of, id_views, Connection, ConnectionView};
use crate::database::{Database, DatabaseView};
use crate::database_manager::DatabaseManager;
use crate::failover::{Failover, FailoverView, Phase, Strategy};
use crate::id::ID;
use crate::message::Request;
use crate::rule::Rule;
use vstd::prelude::*;
use vstd::string::*;

verus! {

/// An operation on a database of a cluster: the request to send, and the
/// retry combinator that says where to send it.
#[derive(Debug)]
pub struct Operation {
    pub request: Request,
    pub run: Failover,
}

impl Operation {
    /// Whether the operation runs on the database with the strategy, from
    /// the start.
    pub open spec fn runs(self, strategy: Strategy, database: DatabaseView) -> bool {
        self.run@ == (FailoverView { strategy, phase: Phase::Idle, database }) && self.run@.wf()
    }
}

impl Database {
    /// The deletion of the database. It runs on the primary replica only.
    pub fn delete(self) -> (operation: Operation)
        ensures
            operation.request matches Request::DatabaseDelete { database_name } && database_name@
                == self@.name,
            operation.runs(Strategy::PrimaryReplica, self@),
    {
        let request = Request::DatabaseDelete { database_name: self.name().to_owned() };
        Operation { request, run: self.run_on_primary_replica() }
    }

    /// The reading of the whole schema of the database. It runs fail-safe.
    pub fn schema(self) -> (operation: Operation)
        ensures
            operation.request matches Request::DatabaseSchema { database_name } && database_name@
                == self@.name,
            operation.runs(Strategy::Failsafe, self@),
    {
        let request = Request::DatabaseSchema { database_name: self.name().to_owned() };
        Operation { request, run: self.run_failsafe() }
    }

    /// The reading of the rules of the schema. It runs fail-safe.
    pub fn rule_schema(self) -> (operation: Operation)
        ensures
            operation.request matches Request::DatabaseRuleSchema { database_name }
                && database_name@ == self@.name,
            operation.runs(Strategy::Failsafe, self@),
    {
        let request = Request::DatabaseRuleSchema { database_name: self.name().to_owned() };
        Operation { request, run: self.run_failsafe() }
    }

    /// The reading of the types of the schema. It runs fail-safe.
    pub fn type_schema(self) -> (operation: Operation)
        ensures
            operation.request matches Request::DatabaseTypeSchema { database_name }
                && database_name@ == self@.name,
            operation.runs(Strategy::Failsafe, self@),
    {
        let request = Request::DatabaseTypeSchema { database_name: self.name().to_owned() };
        Operation { request, run: self.run_failsafe() }
    }
}

impl DatabaseManager {
    /// The check whether the database exists, once it has been looked up.
    /// It runs fail-safe.
    pub fn contains(&self, database: Database) -> (operation: Operation)
        ensures
            operation.request matches Request::DatabasesContains { database_name }
                && database_name@ == database@.name,
            operation.runs(Strategy::Failsafe, database@),
    {
        let request = Request::DatabasesContains { database_name: database.name().to_owned() };
        Operation { request, run: database.run_failsafe() }
    }

    /// The creation of the database, once its name has been looked up. It
    /// runs fail-safe.
    pub fn create(&self, database: Database) -> (operation: Operation)
        ensures
            operation.request matches Request::DatabaseCreate { database_name } && database_name@
                == database@.name,
            operation.runs(Strategy::Failsafe, database@),
    {
        let request = Request::DatabaseCreate { database_name: database.name().to_owned() };
        Operation { request, run: database.run_failsafe() }
    }
}

/// A client of a cluster: the connection and the databases behind it.
#[derive(Debug)]
pub struct Client {
    databases: DatabaseManager,
    cluster_connection: Connection,
}

impl Client {
    /// The connection of the client.
    pub closed spec fn connection(&self) -> ConnectionView {
        self.cluster_connection@
    }

    /// The servers whose databases the client manages.
    pub closed spec fn managed(&self) -> Seq<crate::address::AddressView> {
        self.databases@
    }

    /// The client of the cluster that the connection leads to: it manages
    /// the databases of the connection's servers.
    pub fn new(cluster_connection: Connection) -> (client: Client)
        ensures
            client.connection() == cluster_connection@,
            client.managed() == addresses_of(cluster_connection@.servers),
    {
        let databases = DatabaseManager::new(cluster_connection.addresses());
        Client { databases, cluster_connection }
    }

    /// The databases of the cluster.
    pub fn databases(&self) -> (databases: &DatabaseManager)
        ensures
            databases@ == self.managed(),
    {
        &self.databases
    }

    /// The connection of the client.
    pub fn cluster_connection(&self) -> (connection: &Connection)
        ensures
            connection@ == self.connection(),
    {
        &self.cluster_connection
    }

    /// Closes the client's connection by force. The result holds, for each
    /// server, the sessions that have to be closed. A second call finds
    /// none.
    pub fn force_close(&mut self) -> (sessions: Vec<Vec<ID>>)
        ensures
            final(self).connection() == old(self).connection().force_closed(),
            final(self).managed() == old(self).managed(),
            sessions@.len() == old(self).connection().servers.len(),
            forall|i: int|
                0 <= i < sessions@.len() ==> id_views((#[trigger] sessions@[i])@) == old(
                    self,
                ).connection().open_sessions()[i],
    {
        self.cluster_connection.force_close()
    }
}

/// A client of a single server.
#[derive(Debug)]
pub struct TypeDBClient {
    databases: DatabaseManager,
}

impl View for TypeDBClient {
    type V = Seq<crate::address::AddressView>;

    closed spec fn view(&self) -> Seq<crate::address::AddressView> {
        self.databases@
    }
}

impl TypeDBClient {
    /// The client of the server at the connection's address.
    pub fn from_connection(connection: &Connection) -> (client: TypeDBClient)
        ensures
            client@ == addresses_of(connection@.servers),
    {
        TypeDBClient { databases: DatabaseManager::new(connection.addresses()) }
    }

    /// The databases of the server.
    pub fn databases(&self) -> (databases: &DatabaseManager)
        ensures
            databases@ == self@,
    {
        &self.databases
    }
}

/// A database manager that knows one operation: creating a database.
#[derive(Debug)]
pub struct TypeDBDatabaseManager {}

impl TypeDBDatabaseManager {
    /// The request that creates the named database.
    pub fn create(&self, name: &str) -> (request: Request)
        ensures
            request matches Request::DatabaseCreate { database_name } && database_name@ == name@,
    {
        Request::DatabaseCreate { database_name: name.to_owned() }
    }
}

/// Why an answer was inferred: the rule that fired, what it concluded, the
/// answer that met its condition, and how the variables of the query map to
/// those of the rule.
#[derive(Debug)]
pub struct Explanation {
    pub rule: Rule,
    pub conclusion: ConceptMap,
    pub condition: ConceptMap,
    pub variable_mapping: Vec<(String, Vec<String>)>,
}

} // verus!
