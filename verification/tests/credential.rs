use tonic::metadata::MetadataMap;
use typedb_client::credential::{is_metadata_text, should_renew, METADATA_ROOM};
use typedb_client::{CallCredentials, Credential};

#[test]
fn credential_with_tls_keeps_its_parts() {
    let credential = Credential::new_with_tls("admin", "password", Some("/etc/ca.pem"));
    assert_eq!(credential.username(), "admin");
    assert_eq!(credential.password(), "password");
    assert!(credential.is_tls_enabled());
    assert_eq!(credential.tls_root_ca(), Some("/etc/ca.pem"));
}

#[test]
fn credential_without_tls_has_no_root_ca() {
    let credential = Credential::new_without_tls("admin", "password");
    assert_eq!(credential.username(), "admin");
    assert_eq!(credential.password(), "password");
    assert!(!credential.is_tls_enabled());
    assert_eq!(credential.tls_root_ca(), None);
}

#[test]
fn first_call_presents_the_password() {
    let credentials = CallCredentials::new(Credential::new_with_tls("admin", "password", None));
    let mut metadata = MetadataMap::new();
    credentials.inject(&mut metadata);
    assert_eq!(metadata.get("username").unwrap(), "admin");
    assert_eq!(metadata.get("password").unwrap(), "password");
    assert!(metadata.get("token").is_none());
    assert_eq!(metadata.len(), 2);
}

#[test]
fn later_calls_present_the_token_and_omit_the_password() {
    let mut credentials = CallCredentials::new(Credential::new_with_tls("admin", "password", None));
    credentials.set_token("t0k3n".to_owned());
    let mut metadata = MetadataMap::new();
    credentials.inject(&mut metadata);
    assert_eq!(metadata.get("username").unwrap(), "admin");
    assert_eq!(metadata.get("token").unwrap(), "t0k3n");
    assert!(metadata.get("password").is_none());
    assert_eq!(credentials.token(), Some("t0k3n"));
}

#[test]
fn reset_token_brings_the_password_back() {
    let mut credentials = CallCredentials::new(Credential::new_with_tls("admin", "password", None));
    credentials.set_token("t0k3n".to_owned());
    credentials.reset_token();
    let mut metadata = MetadataMap::new();
    credentials.inject(&mut metadata);
    assert_eq!(metadata.get("password").unwrap(), "password");
    assert!(metadata.get("token").is_none());
    assert_eq!(credentials.token(), None);
}

#[test]
fn inject_replaces_an_earlier_entry() {
    let credentials = CallCredentials::new(Credential::new_with_tls("admin", "password", None));
    let mut metadata = MetadataMap::new();
    metadata.insert("username", "guest".parse().unwrap());
    metadata.insert("trace", "on".parse().unwrap());
    credentials.inject(&mut metadata);
    assert_eq!(metadata.get("username").unwrap(), "admin");
    assert_eq!(metadata.get("trace").unwrap(), "on");
    assert_eq!(metadata.len(), 3);
}

#[test]
fn try_inject_refuses_text_that_metadata_cannot_carry() {
    let credentials = CallCredentials::new(Credential::new_with_tls("ad\nmin", "password", None));
    assert!(!credentials.is_presentable());
    let mut metadata = MetadataMap::new();
    assert!(!credentials.try_inject(&mut metadata));
    assert!(metadata.is_empty());

    let credentials = CallCredentials::new(Credential::new_with_tls("admin", "pass\tword", None));
    assert!(credentials.is_presentable());
    assert!(credentials.try_inject(&mut metadata));
    assert_eq!(metadata.get("password").unwrap(), "pass\tword");

    let mut crowded = MetadataMap::new();
    for n in 0..6553 {
        crowded.insert(format!("k{}", n).parse::<tonic::metadata::AsciiMetadataKey>().unwrap(), "v".parse().unwrap());
    }
    assert!(!credentials.try_inject(&mut crowded));
    assert_eq!(crowded.len(), 6553);
    let mut roomy = MetadataMap::new();
    for n in 0..6552 {
        roomy.insert(format!("k{}", n).parse::<tonic::metadata::AsciiMetadataKey>().unwrap(), "v".parse().unwrap());
    }
    assert!(credentials.try_inject(&mut roomy));
    assert_eq!(roomy.len(), 6554);
}

#[test]
fn a_reply_with_a_fresh_token_refreshes_the_token() {
    let mut credentials = CallCredentials::new(Credential::new_with_tls("admin", "password", None));
    credentials.on_reply(0, None);
    assert_eq!(credentials.token(), None);
    credentials.on_reply(0, Some("first".to_owned()));
    assert_eq!(credentials.token(), Some("first"));
    credentials.on_reply(0, None);
    assert_eq!(credentials.token(), Some("first"));
    credentials.on_reply(13, Some("second".to_owned()));
    assert_eq!(credentials.token(), Some("second"));
    let mut metadata = MetadataMap::new();
    credentials.inject(&mut metadata);
    assert_eq!(metadata.get("token").unwrap(), "second");
    assert!(metadata.get("password").is_none());
}

#[test]
fn an_authentication_error_clears_the_token() {
    let mut credentials = CallCredentials::new(Credential::new_with_tls("admin", "password", None));
    credentials.set_token("stale".to_owned());
    credentials.on_reply(16, None);
    assert_eq!(credentials.token(), None);
    credentials.set_token("stale".to_owned());
    credentials.on_reply(16, Some("ignored".to_owned()));
    assert_eq!(credentials.token(), None);
    assert_eq!(credentials.username(), "admin");
    assert_eq!(credentials.password(), "password");
}

#[test]
fn metadata_takes_no_control_characters_but_the_tab() {
    for text in ["", "admin", "pass word", "tab\there", "~!@#$%^&*()", "caf\u{e9}", "line\nbreak", "\u{7f}", "nul\0"] {
        let by_tonic: Result<tonic::metadata::MetadataValue<tonic::metadata::Ascii>, _> = text.parse();
        assert_eq!(is_metadata_text(text), by_tonic.is_ok());
    }
}

#[test]
fn a_token_is_fetched_after_a_refusal_only() {
    assert_eq!(METADATA_ROOM, 6554);
    for rejected in [false, true] {
        for has_credentials in [false, true] {
            for has_token in [false, true] {
                assert_eq!(should_renew(rejected, has_credentials, has_token), rejected && has_credentials && !has_token);
            }
        }
    }
    assert!(should_renew(true, true, false));
    assert!(!should_renew(true, true, true));
}
