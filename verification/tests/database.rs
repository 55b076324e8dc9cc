use typedb_client::error::{STATUS_INTERNAL, STATUS_UNAUTHENTICATED, STATUS_UNAVAILABLE};
use typedb_client::text::{decimal_text, join};
use typedb_client::{Address, Database, DatabaseInfo, Error, Replica, ReplicaInfo};

fn info(address: &str, primary: bool, term: i64) -> ReplicaInfo {
    ReplicaInfo { address: address.to_owned(), primary, preferred: false, term }
}

fn servers(addresses: &[&str]) -> Vec<Address> {
    addresses.iter().map(|a| Address::parse(a).unwrap()).collect()
}

fn database(replicas: Vec<ReplicaInfo>) -> Database {
    let proto = DatabaseInfo { name: "test".to_owned(), replicas };
    Database::new(&proto, servers(&["a:1", "b:1", "c:1"])).unwrap()
}

#[test]
fn a_replica_is_read_from_its_report() {
    let report = ReplicaInfo { address: "localhost:11729".to_owned(), primary: true, preferred: true, term: 7 };
    let replica = Replica::new("test", &report).unwrap();
    assert_eq!(replica.address().to_string(), "localhost:11729");
    assert_eq!(replica.database_name(), "test");
    assert!(replica.is_primary());
    assert!(replica.is_preferred());
    assert_eq!(replica.term(), 7);
}

#[test]
fn a_replica_with_a_bad_address_is_refused() {
    assert!(matches!(Replica::new("test", &info("nowhere", true, 1)), Err(Error::Other(_))));
    let proto = DatabaseInfo { name: "test".to_owned(), replicas: vec![info("a:1", true, 1), info("b", false, 1)] };
    assert!(matches!(Replica::from_proto(&proto), Err(Error::Other(_))));
    assert!(matches!(Database::new(&proto, Vec::new()), Err(Error::Other(_))));
}

#[test]
fn replicas_keep_the_order_of_the_report() {
    let proto = DatabaseInfo {
        name: "test".to_owned(),
        replicas: vec![info("a:1", false, 1), info("b:2", true, 2), info("c:3", false, 2)],
    };
    let replicas = Replica::from_proto(&proto).unwrap();
    let addresses: Vec<String> = replicas.iter().map(|r| r.address().to_string()).collect();
    assert_eq!(addresses, vec!["a:1", "b:2", "c:3"]);
    assert!(replicas.iter().all(|r| r.database_name() == "test"));
}

#[test]
fn the_primary_is_the_primary_of_the_highest_term() {
    let db = database(vec![info("a:1", true, 1), info("b:1", true, 3), info("c:1", false, 9)]);
    assert_eq!(db.primary_replica_index(), Some(1));
    let primary = db.primary_replica().unwrap();
    assert_eq!(primary.address().to_string(), "b:1");
    assert_eq!(primary.term(), 3);
}

#[test]
fn of_two_primaries_of_one_term_the_later_is_taken() {
    let db = database(vec![info("a:1", true, 3), info("b:1", true, 3), info("c:1", true, 2)]);
    assert_eq!(db.primary_replica_index(), Some(1));
    let replicas: Vec<&Replica> = db.replicas().iter().filter(|r| r.is_primary()).collect();
    let by_std = replicas.into_iter().max_by_key(|r| r.term()).unwrap();
    assert_eq!(by_std.address().to_string(), db.primary_replica().unwrap().address().to_string());
}

#[test]
fn a_newly_elected_primary_wins() {
    let db = database(vec![info("a:1", true, 4), info("b:1", true, 5), info("c:1", false, 5)]);
    assert_eq!(db.primary_replica().unwrap().address().to_string(), "b:1");
    let db = database(vec![info("a:1", true, 6), info("b:1", true, 5)]);
    assert_eq!(db.primary_replica().unwrap().address().to_string(), "a:1");
}

#[test]
fn without_a_primary_there_is_none() {
    let db = database(vec![info("a:1", false, 1), info("b:1", false, 3)]);
    assert_eq!(db.primary_replica_index(), None);
    assert!(db.primary_replica().is_none());
    assert!(database(Vec::new()).primary_replica().is_none());
}

#[test]
fn negative_terms_are_ordered_like_the_others() {
    let db = database(vec![info("a:1", true, -5), info("b:1", true, i64::MIN), info("c:1", true, -6)]);
    assert_eq!(db.primary_replica_index(), Some(0));
}

#[test]
fn unable_to_connect_lists_the_servers() {
    let db = database(Vec::new());
    match db.cluster_unable_to_connect() {
        Error::ClusterUnableToConnect(addresses) => assert_eq!(addresses, "a:1,b:1,c:1"),
        other => panic!("unexpected: {:?}", other),
    }
    let lonely = Database::named("test", servers(&["localhost:1729"]));
    match lonely.cluster_unable_to_connect() {
        Error::ClusterUnableToConnect(addresses) => assert_eq!(addresses, "localhost:1729"),
        other => panic!("unexpected: {:?}", other),
    }
    let nowhere = Database::named("test", Vec::new());
    match nowhere.cluster_unable_to_connect() {
        Error::ClusterUnableToConnect(addresses) => assert_eq!(addresses, ""),
        other => panic!("unexpected: {:?}", other),
    }
}

#[test]
fn a_database_keeps_its_name_and_servers() {
    let db = database(vec![info("a:1", true, 1)]);
    assert_eq!(db.name(), "test");
    assert_eq!(db.replicas().len(), 1);
    assert_eq!(db.servers().len(), 3);
    let copy = db.clone();
    assert_eq!(copy.name(), "test");
    assert_eq!(copy.replicas()[0].address().to_string(), "a:1");
    assert_eq!(copy.servers()[2].to_string(), "c:1");
}

#[test]
fn error_messages_say_what_happened() {
    assert_eq!(Error::ClientIsClosed.message(), "The client has been closed and no further operation is allowed.");
    assert_eq!(Error::UnableToConnect.message(), "Unable to connect to the server.");
    assert_eq!(
        Error::ClusterUnableToConnect("a:1,b:1".to_owned()).message(),
        "Unable to connect to the cluster. Attempted connecting to the cluster members, but none are available: 'a:1,b:1'."
    );
    assert_eq!(
        Error::ClusterAllNodesFailed("- a:1: x".to_owned()).message(),
        "Attempted connecting to all cluster members, but the following errors occurred:\n- a:1: x"
    );
    assert_eq!(Error::ClusterReplicaNotPrimary.message(), "The replica is not the primary replica.");
    assert_eq!(Error::DatabaseDoesNotExist("test".to_owned()).message(), "The database 'test' does not exist.");
    assert_eq!(Error::SessionIsClosed.message(), "The session is closed and no further operation is allowed.");
    assert_eq!(Error::TransactionIsClosed.message(), "The transaction is closed and no further operation is allowed.");
    assert_eq!(
        Error::MissingResponseField("concept".to_owned()).message(),
        "Missing field in message received from server: 'concept'."
    );
    assert_eq!(Error::Other("anything".to_owned()).message(), "anything");
}

#[test]
fn only_connection_trouble_is_retried() {
    assert!(Error::UnableToConnect.is_retryable());
    assert!(Error::ClusterReplicaNotPrimary.is_retryable());
    assert!(!Error::ClientIsClosed.is_retryable());
    assert!(!Error::ClusterUnableToConnect(String::new()).is_retryable());
    assert!(!Error::ClusterAllNodesFailed(String::new()).is_retryable());
    assert!(!Error::DatabaseDoesNotExist(String::new()).is_retryable());
    assert!(!Error::SessionIsClosed.is_retryable());
    assert!(!Error::TransactionIsClosed.is_retryable());
    assert!(!Error::Other(String::new()).is_retryable());
}

#[test]
fn a_failed_call_is_classified_by_its_status() {
    assert_eq!(STATUS_INTERNAL, tonic::Code::Internal as i32);
    assert_eq!(STATUS_UNAVAILABLE, tonic::Code::Unavailable as i32);
    assert_eq!(STATUS_UNAUTHENTICATED, tonic::Code::Unauthenticated as i32);
    assert_eq!(Error::from_status(14, "connection refused"), Error::UnableToConnect);
    assert_eq!(Error::from_status(14, ""), Error::UnableToConnect);
    assert_eq!(Error::from_status(2, "h2 protocol error: Received Rst Stream"), Error::UnableToConnect);
    assert_eq!(Error::from_status(13, "[RPL01] The replica is not primary."), Error::ClusterReplicaNotPrimary);
    assert_eq!(Error::from_status(13, "x [RPL01]"), Error::ClusterReplicaNotPrimary);
    assert_eq!(Error::from_status(2, "[RPL01] elsewhere"), Error::Other("[RPL01] elsewhere".to_owned()));
    assert_eq!(Error::from_status(13, "[RPL0] [RPL 01] RPL01"), Error::Other("[RPL0] [RPL 01] RPL01".to_owned()));
    assert_eq!(Error::from_status(16, "bad token"), Error::Other("bad token".to_owned()));
    assert_eq!(Error::from_status(5, "[DBS06] The database 'test' does not exist."), Error::Other("[DBS06] The database 'test' does not exist.".to_owned()));
}

#[test]
fn text_is_searched_as_the_standard_library_searches_it() {
    let texts = ["", "a", "ab", "abc", "aab", "abab", "[RPL01]", "x[RPL01", "\u{e9}t\u{e9}", "t\u{e9}"];
    for text in texts {
        for part in texts {
            assert_eq!(typedb_client::text::contains(text, part), text.contains(part));
        }
    }
}

#[test]
fn texts_are_joined_and_numbers_are_spelled() {
    assert_eq!(join(&vec!["a".to_owned(), "b".to_owned(), "".to_owned(), "c".to_owned()], ", "), "a, b, , c");
    assert_eq!(join(&vec!["only".to_owned()], ","), "only");
    assert_eq!(join(&Vec::new(), ","), "");
    assert_eq!(decimal_text(0), "0");
    assert_eq!(decimal_text(7), "7");
    assert_eq!(decimal_text(10), "10");
    assert_eq!(decimal_text(65535), "65535");
    assert_eq!(decimal_text(u64::MAX), "18446744073709551615");
}

#[test]
fn an_error_has_the_kind_of_its_variant() {
    use_kinds();
}

fn use_kinds() {
    let kinds = [
        (Error::ClientIsClosed, typedb_client::ErrorKind::ClientIsClosed),
        (Error::UnableToConnect, typedb_client::ErrorKind::UnableToConnect),
        (Error::ClusterUnableToConnect("a".to_owned()), typedb_client::ErrorKind::ClusterUnableToConnect),
        (Error::ClusterAllNodesFailed("a".to_owned()), typedb_client::ErrorKind::ClusterAllNodesFailed),
        (Error::ClusterReplicaNotPrimary, typedb_client::ErrorKind::ClusterReplicaNotPrimary),
        (Error::DatabaseDoesNotExist("a".to_owned()), typedb_client::ErrorKind::DatabaseDoesNotExist),
        (Error::SessionIsClosed, typedb_client::ErrorKind::SessionIsClosed),
        (Error::TransactionIsClosed, typedb_client::ErrorKind::TransactionIsClosed),
        (Error::MissingResponseField("a".to_owned()), typedb_client::ErrorKind::MissingResponseField),
        (Error::InternalError(typedb_client::InternalError::UnknownServer), typedb_client::ErrorKind::InternalError),
        (Error::Other("a".to_owned()), typedb_client::ErrorKind::Other),
    ];
    for (error, kind) in kinds {
        assert_eq!(error.kind(), kind);
        assert_eq!(error.clone(), error);
    }
}
