use typedb_client::{Address, Error, Scheme};

fn refused(text: &str) -> bool {
    matches!(Address::parse(text), Err(Error::Other(_)))
}

#[test]
fn parses_host_and_port() {
    let address = Address::parse("localhost:11729").unwrap();
    assert_eq!(address.host(), "localhost");
    assert_eq!(address.port(), 11729);
    assert_eq!(address.scheme(), Scheme::Http);
    assert_eq!(address.to_string(), "localhost:11729");
}

#[test]
fn parses_a_scheme() {
    let secure = Address::parse("https://db.example.com:443").unwrap();
    assert_eq!(secure.scheme(), Scheme::Https);
    assert_eq!(secure.host(), "db.example.com");
    assert_eq!(secure.port(), 443);
    assert_eq!(secure.to_string(), "db.example.com:443");

    let plain = Address::parse("http://10.0.0.7:1729").unwrap();
    assert_eq!(plain.scheme(), Scheme::Http);
    assert_eq!(plain.host(), "10.0.0.7");
    assert_eq!(plain.port(), 1729);
}

#[test]
fn accepts_the_bounds_of_a_port() {
    assert_eq!(Address::parse("a:0").unwrap().port(), 0);
    assert_eq!(Address::parse("a:65535").unwrap().port(), 65535);
    assert!(refused("a:65536"));
    assert!(refused("a:99999"));
    assert!(refused("a:123456"));
}

#[test]
fn leading_zeros_do_not_change_the_port() {
    let address = Address::parse("node-1_a.local:00080").unwrap();
    assert_eq!(address.port(), 80);
    assert_eq!(address.to_string(), "node-1_a.local:80");
    assert!(address.same_as(&Address::parse("node-1_a.local:80").unwrap()));
}

#[test]
fn refuses_what_is_no_address() {
    assert!(refused(""));
    assert!(refused("localhost"));
    assert!(refused("localhost:"));
    assert!(refused(":1729"));
    assert!(refused("local host:1729"));
    assert!(refused("localhost:17a9"));
    assert!(refused("localhost:1729 "));
    assert!(refused("http://"));
    assert!(refused("ftp://localhost:1729"));
    assert!(refused("localhost:1729:1"));
    assert!(refused("[::1]:1729"));
    assert!(refused("localhost:-1"));
}

#[test]
fn the_error_names_the_text() {
    match Address::parse("nowhere") {
        Err(Error::Other(message)) => assert_eq!(message, "invalid address: nowhere"),
        other => panic!("unexpected: {:?}", other),
    }
}

#[test]
fn equality_is_by_canonical_text() {
    let a = Address::parse("http://a.b:1").unwrap();
    let b = Address::parse("https://a.b:1").unwrap();
    let c = Address::parse("a.b:2").unwrap();
    let d = Address::parse("a.c:1").unwrap();
    assert!(a.same_as(&b));
    assert!(a.same_as(&a.clone()));
    assert!(!a.same_as(&c));
    assert!(!a.same_as(&d));
}

#[test]
fn an_address_reads_back_from_its_canonical_text() {
    for text in ["localhost:11729", "a:0", "node-1_a.local:65535", "10.0.0.7:80", "https://db.example.com:443", "http:8"] {
        let address = Address::parse(text).unwrap();
        let again = Address::parse(&address.to_string()).unwrap();
        assert_eq!(again.host(), address.host());
        assert_eq!(again.port(), address.port());
        assert_eq!(again.scheme(), Scheme::Http);
        assert!(again.same_as(&address));
    }
}
