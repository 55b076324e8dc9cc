use typedb_client::message::{Request, TransactionRequest};
use typedb_client::session::PULSE_INTERVAL_MILLIS;
use typedb_client::{
    Error, Options, Pulse, PulseAction, Session, SessionType, TransactionType, ID,
};

fn id(n: u8) -> ID {
    ID::from_bytes(vec![n; 16])
}

#[test]
fn the_pulse_interval_is_five_seconds() {
    assert_eq!(PULSE_INTERVAL_MILLIS, 5000);
}

#[test]
fn every_tick_sends_a_pulse_for_the_session() {
    let mut pulse = Pulse::new(id(4));
    assert!(pulse.is_running());
    for _ in 0..25 {
        match pulse.on_timer() {
            PulseAction::Send { session_id, next_pulse_in_millis } => {
                assert!(session_id.same_as(&id(4)));
                assert_eq!(next_pulse_in_millis, 5000);
            }
            PulseAction::Stop => panic!("the pulse stopped"),
        }
    }
    assert!(pulse.is_running());
}

#[test]
fn a_failed_pulse_is_swallowed() {
    let mut pulse = Pulse::new(id(4));
    assert!(matches!(pulse.on_timer(), PulseAction::Send { .. }));
    assert!(pulse.on_reply(false));
    assert!(matches!(pulse.on_timer(), PulseAction::Send { .. }));
    assert!(pulse.on_reply(true));
    assert!(pulse.is_running());
}

#[test]
fn a_cancelled_pulse_stops() {
    let mut pulse = Pulse::new(id(4));
    pulse.on_timer();
    pulse.on_cancel();
    assert!(!pulse.is_running());
    assert!(!pulse.on_reply(true));
    assert!(matches!(pulse.on_timer(), PulseAction::Stop));
    assert!(matches!(pulse.on_timer(), PulseAction::Stop));
}

#[test]
fn an_idle_session_sees_a_pulse_in_every_timeout() {
    // With pulses due at 0, 5000, 10000, ... every stretch of an idle
    // timeout of ten seconds holds a pulse, up to ten timeouts and beyond.
    let timeout: u64 = 10_000;
    let due: Vec<u64> = (0..30).map(|k| k * PULSE_INTERVAL_MILLIS).collect();
    let mut from = 0;
    while from + timeout <= 10 * timeout {
        assert!(due.iter().any(|d| from <= *d && *d < from + timeout));
        from += 137;
    }
}

#[test]
fn a_session_keeps_what_the_server_told() {
    let session = Session::new("test", SessionType::Schema, id(9), 40, 25);
    assert!(session.id().same_as(&id(9)));
    assert_eq!(session.type_(), SessionType::Schema);
    assert_eq!(session.database_name(), "test");
    assert_eq!(session.network_latency_millis(), 15);
    assert!(session.is_open());
    assert!(session.pulse().is_running());
}

#[test]
fn the_network_latency_is_never_negative() {
    assert_eq!(Session::new("test", SessionType::Data, id(1), 10, 10).network_latency_millis(), 0);
    assert_eq!(Session::new("test", SessionType::Data, id(1), 10, 11).network_latency_millis(), 0);
    assert_eq!(Session::new("test", SessionType::Data, id(1), 0, u64::MAX).network_latency_millis(), 0);
    assert_eq!(Session::new("test", SessionType::Data, id(1), u64::MAX, 1).network_latency_millis(), u64::MAX - 1);
}

#[test]
fn an_open_session_opens_transactions() {
    let session = Session::new("test", SessionType::Data, id(9), 40, 25);
    let options = Options::new().infer(true);
    match session.transaction(TransactionType::Write, options) {
        Ok(Request::Transaction(TransactionRequest::Open { session_id, transaction_type, options: carried, network_latency_millis })) => {
            assert!(session_id.same_as(&id(9)));
            assert_eq!(transaction_type, TransactionType::Write);
            assert_eq!(carried, options);
            assert_eq!(network_latency_millis, 15);
        }
        other => panic!("unexpected: {:?}", other),
    }
}

#[test]
fn a_closed_session_opens_nothing() {
    let mut session = Session::new("test", SessionType::Data, id(9), 40, 25);
    assert!(session.force_close());
    assert!(!session.is_open());
    assert!(!session.force_close());
    assert!(matches!(session.transaction(TransactionType::Read, Options::new()), Err(Error::SessionIsClosed)));
    assert_eq!(session.database_name(), "test");
}
