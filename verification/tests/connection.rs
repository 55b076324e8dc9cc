use typedb_client::{
    Address, Client, Connection, Error, InternalError, ServerConnection, TypeDBClient, ID,
};

fn addresses(list: &[&str]) -> Vec<Address> {
    list.iter().map(|a| Address::parse(a).unwrap()).collect()
}

fn texts(list: &[&str]) -> Vec<String> {
    list.iter().map(|a| a.to_string()).collect()
}

fn id(n: u8) -> ID {
    ID::from_bytes(vec![n; 16])
}

fn cluster() -> Connection {
    Connection::new_encrypted(&addresses(&["localhost:11729", "localhost:21729", "localhost:31729"]))
}

fn hex(ids: &[ID]) -> Vec<String> {
    ids.iter().map(|i| i.to_hex()).collect()
}

#[test]
fn a_plaintext_connection_has_one_server() {
    let connection = Connection::new_plaintext("localhost:1729").unwrap();
    assert!(connection.is_open());
    assert_eq!(connection.server_count(), 1);
    assert_eq!(connection.addresses()[0].to_string(), "localhost:1729");
    assert_eq!(connection.server(0).unwrap().session_count(), 0);
    assert!(connection.server(1).is_none());
    assert!(matches!(Connection::new_plaintext("nowhere"), Err(Error::Other(_))));
}

#[test]
fn an_encrypted_connection_takes_each_server_once() {
    let connection = Connection::new_encrypted(&addresses(&["a:1", "b:1", "a:1", "https://b:1", "c:1", "a:1"]));
    let listed: Vec<String> = connection.addresses().iter().map(|a| a.to_string()).collect();
    assert_eq!(listed, vec!["a:1", "b:1", "c:1"]);
    assert_eq!(connection.server_count(), 3);
    assert!(connection.is_open());
    assert_eq!(Connection::new_encrypted(&Vec::new()).server_count(), 0);
}

#[test]
fn servers_are_found_by_their_address() {
    let connection = cluster();
    assert_eq!(connection.get_server_connection(&Address::parse("localhost:21729").unwrap()), Some(1));
    assert_eq!(connection.get_server_connection(&Address::parse("https://localhost:31729").unwrap()), Some(2));
    assert_eq!(connection.get_server_connection(&Address::parse("localhost:1").unwrap()), None);
    assert_eq!(connection.server(1).unwrap().address().to_string(), "localhost:21729");
}

#[test]
fn unable_to_connect_lists_the_addresses() {
    match cluster().unable_to_connect() {
        Error::ClusterUnableToConnect(listed) => assert_eq!(listed, "localhost:11729,localhost:21729,localhost:31729"),
        other => panic!("unexpected: {:?}", other),
    }
}

#[test]
fn sessions_are_registered_once() {
    let mut server = ServerConnection::new(Address::parse("a:1").unwrap());
    assert!(server.register_session(id(1)));
    assert!(server.register_session(id(2)));
    assert!(!server.register_session(id(1)));
    assert_eq!(server.session_count(), 2);
    assert_eq!(hex(&server.sessions()), vec![id(1).to_hex(), id(2).to_hex()]);
    assert!(server.has_session(&id(1)));
    assert!(!server.has_session(&id(3)));
    assert!(server.unregister_session(&id(1)));
    assert!(!server.unregister_session(&id(1)));
    assert!(!server.has_session(&id(1)));
    assert_eq!(server.session_count(), 1);
    assert_eq!(hex(&server.force_close()), vec![id(2).to_hex()]);
    assert_eq!(server.session_count(), 0);
    assert!(server.force_close().is_empty());
}

#[test]
fn a_session_is_open_from_its_opening_to_its_closing() {
    let mut connection = cluster();
    connection.open_session(1, id(7)).unwrap();
    connection.open_session(1, id(8)).unwrap();
    connection.open_session(2, id(9)).unwrap();
    assert_eq!(connection.server(0).unwrap().session_count(), 0);
    assert_eq!(connection.server(1).unwrap().session_count(), 2);
    assert!(connection.server(1).unwrap().has_session(&id(7)));
    assert!(!connection.server(2).unwrap().has_session(&id(7)));

    let closure = connection.close_session(1, &id(7));
    assert!(closure.cancel_pulse);
    assert!(closure.request.is_ok());
    assert!(!connection.server(1).unwrap().has_session(&id(7)));
    assert!(connection.server(1).unwrap().has_session(&id(8)));
    assert_eq!(connection.server(1).unwrap().address().to_string(), "localhost:21729");

    let again = connection.close_session(1, &id(7));
    assert!(!again.cancel_pulse);
    assert!(again.request.is_ok());
}

#[test]
fn a_server_that_the_connection_does_not_hold_is_refused() {
    let mut connection = cluster();
    assert!(matches!(connection.open_session(3, id(1)), Err(Error::InternalError(InternalError::UnknownServer))));
    let closure = connection.close_session(3, &id(1));
    assert!(!closure.cancel_pulse);
    assert!(matches!(closure.request, Err(Error::InternalError(InternalError::UnknownServer))));
}

#[test]
fn force_close_closes_every_session_and_the_connection() {
    let mut connection = cluster();
    connection.open_session(0, id(1)).unwrap();
    connection.open_session(2, id(2)).unwrap();
    connection.open_session(2, id(3)).unwrap();
    assert!(connection.check_open().is_ok());
    let sessions = connection.force_close();
    assert_eq!(sessions.len(), 3);
    assert_eq!(hex(&sessions[0]), vec![id(1).to_hex()]);
    assert!(sessions[1].is_empty());
    assert_eq!(hex(&sessions[2]), vec![id(2).to_hex(), id(3).to_hex()]);
    assert!(!connection.is_open());
    assert_eq!(connection.server_count(), 3);
    for server in 0..3 {
        assert_eq!(connection.server(server).unwrap().session_count(), 0);
    }
}

#[test]
fn force_close_twice_is_a_no_op() {
    let mut connection = cluster();
    connection.open_session(0, id(1)).unwrap();
    connection.force_close();
    let again = connection.force_close();
    assert_eq!(again.len(), 3);
    assert!(again.iter().all(|sessions| sessions.is_empty()));
    assert!(!connection.is_open());
    assert_eq!(connection.server_count(), 3);
    assert_eq!(connection.addresses()[2].to_string(), "localhost:31729");
}

#[test]
fn after_force_close_every_call_is_refused() {
    let mut connection = cluster();
    connection.open_session(0, id(1)).unwrap();
    connection.force_close();
    assert!(matches!(connection.check_open(), Err(Error::ClientIsClosed)));
    assert!(matches!(connection.open_session(0, id(2)), Err(Error::ClientIsClosed)));
    assert!(matches!(connection.open_session(9, id(2)), Err(Error::ClientIsClosed)));
    let closure = connection.close_session(0, &id(1));
    assert!(!closure.cancel_pulse);
    assert!(matches!(closure.request, Err(Error::ClientIsClosed)));
    assert_eq!(connection.server(0).unwrap().session_count(), 0);
}

#[test]
fn discovery_takes_the_first_answer() {
    let mut discovery = Connection::from_init(&texts(&["localhost:11729", "localhost:21729", "localhost:31729"])).unwrap();
    assert_eq!(discovery.seeds().len(), 3);
    assert!(!discovery.is_finished());
    assert!(discovery.on_failure(1, &Error::UnableToConnect).is_none());
    let connection = discovery.on_servers(&texts(&["10.0.0.1:1729", "10.0.0.2:1729", "10.0.0.1:1729"])).unwrap();
    assert!(discovery.is_finished());
    let listed: Vec<String> = connection.addresses().iter().map(|a| a.to_string()).collect();
    assert_eq!(listed, vec!["10.0.0.1:1729", "10.0.0.2:1729"]);
    assert!(connection.is_open());
    assert!(discovery.on_failure(0, &Error::UnableToConnect).is_none());
}

#[test]
fn discovery_fails_when_every_seed_has_failed() {
    let mut discovery = Connection::from_init(&texts(&["localhost:11729", "localhost:21729", "localhost:31729"])).unwrap();
    assert!(discovery.on_failure(2, &Error::UnableToConnect).is_none());
    assert!(discovery.on_failure(7, &Error::UnableToConnect).is_none());
    assert!(discovery.on_failure(0, &Error::Other("certificate expired".to_owned())).is_none());
    match discovery.on_failure(1, &Error::ClientIsClosed) {
        Some(Error::ClusterUnableToConnect(carried)) => assert_eq!(
            carried,
            "localhost:31729: Unable to connect to the server.,localhost:11729: certificate expired,localhost:21729: The client has been closed and no further operation is allowed."
        ),
        other => panic!("unexpected: {:?}", other),
    }
    assert!(discovery.is_finished());
    assert!(discovery.on_failure(1, &Error::UnableToConnect).is_none());
}

#[test]
fn a_seed_that_is_reported_twice_has_failed_once() {
    let mut discovery = Connection::from_init(&texts(&["localhost:11729", "localhost:21729"])).unwrap();
    assert!(discovery.on_failure(0, &Error::UnableToConnect).is_none());
    assert!(discovery.on_failure(0, &Error::Other("again".to_owned())).is_none());
    assert!(discovery.on_failure(0, &Error::UnableToConnect).is_none());
    assert!(!discovery.is_finished());
    match discovery.on_failure(1, &Error::Other("refused".to_owned())) {
        Some(Error::ClusterUnableToConnect(carried)) => {
            assert_eq!(carried, "localhost:11729: Unable to connect to the server.,localhost:21729: refused")
        }
        other => panic!("unexpected: {:?}", other),
    }
    assert!(discovery.is_finished());
}

#[test]
fn discovery_refuses_bad_addresses() {
    assert!(matches!(Connection::from_init(&texts(&["localhost:11729", "nowhere"])), Err(Error::Other(_))));
    match Connection::from_init(&Vec::new()) {
        Err(Error::ClusterUnableToConnect(carried)) => assert_eq!(carried, ""),
        _ => panic!("unexpected"),
    }
    let mut discovery = Connection::from_init(&texts(&["localhost:11729"])).unwrap();
    assert!(matches!(discovery.on_servers(&texts(&["a:1", "b"])), Err(Error::Other(_))));
    assert!(discovery.is_finished());
}

#[test]
fn a_client_manages_the_databases_of_its_servers() {
    let mut client = Client::new(cluster());
    assert_eq!(client.databases().servers().len(), 3);
    assert_eq!(client.databases().servers()[1].to_string(), "localhost:21729");
    assert!(client.cluster_connection().is_open());
    let sessions = client.force_close();
    assert_eq!(sessions.len(), 3);
    assert!(!client.cluster_connection().is_open());
    assert!(client.force_close().iter().all(|s| s.is_empty()));
    assert_eq!(client.databases().servers().len(), 3);

    let single = TypeDBClient::from_connection(&Connection::new_plaintext("localhost:1729").unwrap());
    assert_eq!(single.databases().servers().len(), 1);
    assert_eq!(single.databases().servers()[0].to_string(), "localhost:1729");
}
