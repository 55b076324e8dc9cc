use tonic::metadata::MetadataMap;
use typedb_client::message::{Request, Response};
use typedb_client::{
    Action, Address, CallCredentials, Client, Connection, Credential, Database, DatabaseInfo,
    DatabaseManager, Error, Operation, Replica, ReplicaInfo,
};

const SEEDS: [&str; 3] = ["localhost:11729", "localhost:21729", "localhost:31729"];

/// A cluster of three servers that keeps its databases in memory.
struct Cluster {
    databases: Vec<String>,
    primary: usize,
    term: i64,
    reachable: [bool; 3],
    /// How many waits an election takes; 0 when none is under way.
    election: u32,
    waits: u32,
    requests: u32,
}

impl Cluster {
    fn new() -> Cluster {
        Cluster { databases: Vec::new(), primary: 0, term: 1, reachable: [true; 3], election: 0, waits: 0, requests: 0 }
    }

    fn index(&self, address: &Address) -> usize {
        SEEDS.iter().position(|seed| *seed == address.to_string()).unwrap()
    }

    fn replicas(&self, name: &str) -> DatabaseInfo {
        let replicas = (0..3)
            .map(|i| ReplicaInfo {
                address: SEEDS[i].to_owned(),
                primary: self.election == 0 && i == self.primary,
                preferred: false,
                term: self.term,
            })
            .collect();
        DatabaseInfo { name: name.to_owned(), replicas }
    }

    fn elect(&mut self, primary: usize, takes: u32) {
        self.primary = primary;
        self.term += 1;
        self.election = takes;
    }

    fn wait(&mut self) {
        self.waits += 1;
        if self.election > 0 {
            self.election -= 1;
        }
    }

    fn handle(&mut self, server: usize, request: &Request) -> Result<Response, Error> {
        self.requests += 1;
        if !self.reachable[server] {
            return Err(Error::UnableToConnect);
        }
        let is_primary = self.election == 0 && server == self.primary;
        match request {
            Request::DatabasesContains { database_name } => Ok(Response::DatabasesContains { contains: self.databases.contains(database_name) }),
            Request::DatabaseCreate { database_name } => {
                if !is_primary {
                    Err(Error::ClusterReplicaNotPrimary)
                } else if self.databases.contains(database_name) {
                    Err(Error::Other(format!("The database '{}' already exists.", database_name)))
                } else {
                    self.databases.push(database_name.clone());
                    Ok(Response::DatabaseCreate)
                }
            }
            Request::DatabaseDelete { database_name } => {
                if !is_primary {
                    Err(Error::ClusterReplicaNotPrimary)
                } else if !self.databases.contains(database_name) {
                    Err(Error::DatabaseDoesNotExist(database_name.clone()))
                } else {
                    self.databases.retain(|name| name != database_name);
                    Ok(Response::DatabaseDelete)
                }
            }
            Request::DatabaseGet { database_name } => Ok(Response::DatabaseGet { database: self.replicas(database_name) }),
            _ => Err(Error::Other("not served".to_owned())),
        }
    }
}

/// Carries out an operation: does what the run asks for until it is over.
fn carry_out(cluster: &mut Cluster, operation: Operation) -> (Result<Response, Error>, Database) {
    let Operation { request, mut run } = operation;
    let mut last: Result<Response, Error> = Ok(Response::SessionPulse);
    let mut action = run.start();
    loop {
        action = match action {
            Action::Run { replica, .. } => {
                let server = cluster.index(run.database().replicas()[replica].address());
                last = cluster.handle(server, &request);
                run.on_task_result(&last)
            }
            Action::Wait { millis } => {
                assert_eq!(millis, 2000);
                cluster.wait();
                run.on_waited()
            }
            Action::Fetch { server } => {
                let get = Request::DatabaseGet { database_name: run.database().name().to_owned() };
                match cluster.handle(server, &get).and_then(Response::into_database) {
                    Ok(report) => run.on_fetched(Replica::from_proto(&report).unwrap()),
                    Err(error) => run.on_fetch_failed(error),
                }
            }
            Action::Return => return (last, run.into_database()),
            Action::Fail(error) => return (Err(error), run.into_database()),
        }
    }
}

fn get(cluster: &mut Cluster, databases: &DatabaseManager, name: &str) -> Result<Database, Error> {
    let operation = Operation { request: Request::DatabaseGet { database_name: name.to_owned() }, run: databases.get(name) };
    let (result, database) = carry_out(cluster, operation);
    result.map(|_| database)
}

fn contains(cluster: &mut Cluster, databases: &DatabaseManager, name: &str) -> Result<bool, Error> {
    let database = get(cluster, databases, name)?;
    carry_out(cluster, databases.contains(database)).0?.into_contains()
}

fn create(cluster: &mut Cluster, databases: &DatabaseManager, name: &str) -> Result<(), Error> {
    let database = get(cluster, databases, name)?;
    carry_out(cluster, databases.create(database)).0.map(|_| ())
}

fn delete(cluster: &mut Cluster, databases: &DatabaseManager, name: &str) -> Result<(), Error> {
    let database = get(cluster, databases, name)?;
    carry_out(cluster, database.delete()).0.map(|_| ())
}

fn connect() -> Client {
    let seeds: Vec<String> = SEEDS.iter().map(|s| s.to_string()).collect();
    let mut discovery = Connection::from_init(&seeds).unwrap();
    let connection = discovery.on_servers(&seeds).unwrap();
    Client::new(connection)
}

#[test]
fn a_created_database_is_contained() {
    let credential = Credential::new_with_tls("admin", "password", Some("/etc/typedb/root-ca.pem"));
    let credentials = CallCredentials::new(credential);
    let mut metadata = MetadataMap::new();
    credentials.inject(&mut metadata);
    assert_eq!(metadata.get("username").unwrap(), "admin");
    assert_eq!(metadata.get("password").unwrap(), "password");

    let mut cluster = Cluster::new();
    cluster.primary = 1;
    let client = connect();
    assert_eq!(contains(&mut cluster, client.databases(), "test"), Ok(false));
    assert_eq!(create(&mut cluster, client.databases(), "test"), Ok(()));
    assert_eq!(contains(&mut cluster, client.databases(), "test"), Ok(true));
    assert_eq!(cluster.waits, 0);
}

#[test]
fn creating_a_database_twice_is_a_domain_error() {
    let mut cluster = Cluster::new();
    let client = connect();
    create(&mut cluster, client.databases(), "test").unwrap();
    match create(&mut cluster, client.databases(), "test") {
        Err(Error::Other(message)) => assert_eq!(message, "The database 'test' already exists."),
        other => panic!("unexpected: {:?}", other),
    }
    assert_eq!(cluster.databases, vec!["test"]);
}

#[test]
fn a_deleted_database_is_gone_after_at_most_one_retry() {
    let mut cluster = Cluster::new();
    let client = connect();
    create(&mut cluster, client.databases(), "test").unwrap();
    assert_eq!(delete(&mut cluster, client.databases(), "test"), Ok(()));
    cluster.reachable[0] = false;
    cluster.elect(2, 1);
    assert_eq!(contains(&mut cluster, client.databases(), "test"), Ok(false));
    assert!(cluster.waits <= 1);
}

#[test]
fn a_write_follows_the_primary_to_its_successor() {
    let mut cluster = Cluster::new();
    let client = connect();
    let database = get(&mut cluster, client.databases(), "test").unwrap();
    assert_eq!(database.primary_replica_index(), Some(0));
    create(&mut cluster, client.databases(), "test").unwrap();
    // The primary fails over after the client has taken its snapshot.
    cluster.elect(1, 1);
    let (result, database) = carry_out(&mut cluster, database.delete());
    assert!(matches!(result, Ok(Response::DatabaseDelete)));
    assert_eq!(cluster.waits, 1);
    assert_eq!(database.primary_replica().unwrap().address().to_string(), "localhost:21729");
    assert_eq!(database.primary_replica().unwrap().term(), 2);
    assert!(cluster.databases.is_empty());
}

#[test]
fn a_write_without_a_primary_gives_up_within_its_budget() {
    let mut cluster = Cluster::new();
    let client = connect();
    let database = get(&mut cluster, client.databases(), "test").unwrap();
    cluster.elect(1, u32::MAX);
    let (result, _) = carry_out(&mut cluster, database.delete());
    match result {
        Err(Error::ClusterUnableToConnect(addresses)) => assert_eq!(addresses, "localhost:11729,localhost:21729,localhost:31729"),
        other => panic!("unexpected: {:?}", other),
    }
    // One wait after the refused write, and ten while no primary shows.
    assert_eq!(cluster.waits, 11);
}

#[test]
fn an_unreachable_cluster_is_reported_as_such() {
    let mut cluster = Cluster::new();
    cluster.reachable = [false; 3];
    let client = connect();
    match contains(&mut cluster, client.databases(), "test") {
        Err(Error::ClusterUnableToConnect(addresses)) => assert_eq!(addresses, "localhost:11729,localhost:21729,localhost:31729"),
        other => panic!("unexpected: {:?}", other),
    }
    assert_eq!(cluster.requests, 3);
}

#[test]
fn after_force_close_nothing_touches_the_network() {
    let mut cluster = Cluster::new();
    let mut client = connect();
    create(&mut cluster, client.databases(), "test").unwrap();
    let before = cluster.requests;
    client.force_close();
    client.force_close();
    let call = |client: &Client, cluster: &mut Cluster| -> Result<bool, Error> {
        client.cluster_connection().check_open()?;
        contains(cluster, client.databases(), "test")
    };
    assert_eq!(call(&client, &mut cluster), Err(Error::ClientIsClosed));
    assert_eq!(call(&client, &mut cluster), Err(Error::ClientIsClosed));
    assert_eq!(cluster.requests, before);
}
