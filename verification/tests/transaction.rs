use typedb_client::transaction::DISPATCH_INTERVAL_MILLIS;
use typedb_client::{
    Dispatcher, Error, FrameKind, InternalError, Lifecycle, Routing, SinkKind, TransactionStream,
    TransactionType, ID,
};

fn id(n: u8) -> ID {
    ID::from_bytes(vec![n; 16])
}

const PART: FrameKind = FrameKind::ResPart { terminal: false };
const LAST: FrameKind = FrameKind::ResPart { terminal: true };

/// Routes a frame and names the sink that it went to.
fn deliver(stream: &mut TransactionStream<&'static str>, to: u8, kind: FrameKind) -> Option<&'static str> {
    match stream.on_frame(&id(to), kind) {
        Routing::Push { index } => Some(stream.sink(index).unwrap().handle),
        Routing::Complete { sink, .. } => Some(sink.handle),
        Routing::Continue { .. } => None,
        Routing::Violation { .. } => None,
        Routing::Ignored => None,
    }
}

#[test]
fn a_new_transaction_is_open_and_empty() {
    let stream: TransactionStream<u32> = TransactionStream::new(TransactionType::Write);
    assert_eq!(stream.transaction_type(), TransactionType::Write);
    assert_eq!(stream.lifecycle(), Lifecycle::Open);
    assert!(stream.is_open());
    assert_eq!(stream.pending(), 0);
    assert!(stream.sink(0).is_none());
    assert_eq!(DISPATCH_INTERVAL_MILLIS, 3);
}

#[test]
fn a_single_reply_completes_its_sink() {
    let mut stream = TransactionStream::new(TransactionType::Read);
    stream.issue(id(1), SinkKind::Single, "one").unwrap();
    stream.issue(id(2), SinkKind::Single, "two").unwrap();
    assert_eq!(stream.pending(), 2);
    assert_eq!(stream.find(&id(2)), Some(1));
    match stream.on_frame(&id(1), FrameKind::Res) {
        Routing::Complete { sink, teardown } => {
            assert_eq!(sink.handle, "one");
            assert_eq!(sink.kind, SinkKind::Single);
            assert!(sink.id.same_as(&id(1)));
            assert!(teardown.is_none());
        }
        other => panic!("unexpected: {:?}", other),
    }
    assert_eq!(stream.pending(), 1);
    assert_eq!(stream.find(&id(1)), None);
    assert_eq!(stream.find(&id(2)), Some(0));
    assert_eq!(stream.lifecycle(), Lifecycle::Open);
}

#[test]
fn each_stream_receives_its_own_parts_in_order() {
    let mut stream = TransactionStream::new(TransactionType::Write);
    stream.issue(id(1), SinkKind::Stream, "first").unwrap();
    stream.issue(id(2), SinkKind::Stream, "second").unwrap();
    stream.issue(id(3), SinkKind::Stream, "third").unwrap();
    let frames = [(2, PART), (1, PART), (2, PART), (3, PART), (1, PART), (1, LAST), (3, PART), (2, LAST), (3, PART), (3, LAST)];
    let mut received: Vec<(&'static str, usize)> = Vec::new();
    for (position, (to, kind)) in frames.iter().enumerate() {
        received.push((deliver(&mut stream, *to, *kind).unwrap(), position));
    }
    let of = |name: &str| -> Vec<usize> { received.iter().filter(|(n, _)| *n == name).map(|(_, p)| *p).collect() };
    assert_eq!(of("first"), vec![1, 4, 5]);
    assert_eq!(of("second"), vec![0, 2, 7]);
    assert_eq!(of("third"), vec![3, 6, 8, 9]);
    assert_eq!(stream.pending(), 0);
    assert_eq!(stream.lifecycle(), Lifecycle::Open);
}

#[test]
fn a_match_of_five_answers_reaches_its_stream() {
    let mut stream = TransactionStream::new(TransactionType::Write);
    stream.issue(id(9), SinkKind::Stream, "match $x sub thing;").unwrap();
    let mut answers = 0;
    for _ in 0..4 {
        assert_eq!(deliver(&mut stream, 9, PART), Some("match $x sub thing;"));
        answers += 1;
        assert!(stream.can_continue(&id(9)));
    }
    assert_eq!(deliver(&mut stream, 9, LAST), Some("match $x sub thing;"));
    answers += 1;
    assert_eq!(answers, 5);
    assert!(!stream.can_continue(&id(9)));
    assert_eq!(stream.pending(), 0);
}

#[test]
fn a_part_keeps_its_sink_and_the_last_part_removes_it() {
    let mut stream = TransactionStream::new(TransactionType::Read);
    stream.issue(id(1), SinkKind::Single, 10).unwrap();
    stream.issue(id(2), SinkKind::Stream, 20).unwrap();
    assert!(matches!(stream.on_frame(&id(2), PART), Routing::Push { index: 1 }));
    assert_eq!(stream.pending(), 2);
    assert!(stream.can_continue(&id(2)));
    assert!(!stream.can_continue(&id(1)));
    assert!(!stream.can_continue(&id(3)));
    match stream.on_frame(&id(2), LAST) {
        Routing::Complete { sink, teardown } => {
            assert_eq!(sink.handle, 20);
            assert_eq!(sink.kind, SinkKind::Stream);
            assert!(teardown.is_none());
        }
        other => panic!("unexpected: {:?}", other),
    }
    assert_eq!(stream.pending(), 1);
}

#[test]
fn an_unknown_id_closes_the_transaction() {
    let mut stream = TransactionStream::new(TransactionType::Read);
    stream.issue(id(1), SinkKind::Single, "one").unwrap();
    stream.issue(id(2), SinkKind::Stream, "two").unwrap();
    match stream.on_frame(&id(7), FrameKind::Res) {
        Routing::Violation { teardown } => {
            assert_eq!(teardown.error, Error::InternalError(InternalError::UnknownRequestId));
            let handles: Vec<&str> = teardown.drained.iter().map(|s| s.handle).collect();
            assert_eq!(handles, vec!["one", "two"]);
        }
        other => panic!("unexpected: {:?}", other),
    }
    assert_eq!(stream.lifecycle(), Lifecycle::Closed);
    assert!(!stream.is_open());
    assert_eq!(stream.pending(), 0);
    assert!(matches!(stream.on_frame(&id(1), FrameKind::Res), Routing::Ignored));
    assert!(matches!(stream.issue(id(3), SinkKind::Single, "three"), Err(Error::TransactionIsClosed)));
}

#[test]
fn a_reply_after_the_last_part_is_a_violation() {
    let mut stream = TransactionStream::new(TransactionType::Read);
    stream.issue(id(1), SinkKind::Stream, "one").unwrap();
    assert_eq!(deliver(&mut stream, 1, LAST), Some("one"));
    assert!(matches!(stream.on_frame(&id(1), PART), Routing::Violation { .. }));
    assert_eq!(stream.lifecycle(), Lifecycle::Closed);
}

#[test]
fn an_id_in_use_is_refused() {
    let mut stream = TransactionStream::new(TransactionType::Read);
    stream.issue(id(1), SinkKind::Single, "one").unwrap();
    assert!(matches!(
        stream.issue(id(1), SinkKind::Stream, "again"),
        Err(Error::InternalError(InternalError::DuplicateRequestId))
    ));
    assert!(matches!(stream.commit(id(1), "commit"), Err(Error::InternalError(InternalError::DuplicateRequestId))));
    assert_eq!(stream.pending(), 1);
    assert_eq!(stream.lifecycle(), Lifecycle::Open);
    assert_eq!(stream.sink(0).unwrap().handle, "one");
}

#[test]
fn a_commit_without_other_requests_closes_with_nothing_to_drain() {
    let mut stream = TransactionStream::new(TransactionType::Write);
    stream.commit(id(1), "commit").unwrap();
    match stream.on_frame(&id(1), FrameKind::Res) {
        Routing::Complete { sink, teardown } => {
            assert_eq!(sink.handle, "commit");
            let teardown = teardown.unwrap();
            assert_eq!(teardown.error, Error::TransactionIsClosed);
            assert!(teardown.drained.is_empty());
        }
        other => panic!("unexpected: {:?}", other),
    }
    assert_eq!(stream.lifecycle(), Lifecycle::Closed);
}

#[test]
fn an_acknowledged_commit_closes_the_transaction() {
    let mut stream = TransactionStream::new(TransactionType::Write);
    stream.issue(id(1), SinkKind::Stream, "query").unwrap();
    stream.commit(id(2), "commit").unwrap();
    assert_eq!(stream.lifecycle(), Lifecycle::Committing);
    assert!(stream.is_open());
    stream.issue(id(3), SinkKind::Single, "late").unwrap();
    assert!(matches!(stream.commit(id(4), "again"), Err(Error::TransactionIsClosed)));
    assert!(matches!(stream.rollback(id(4), "again"), Err(Error::TransactionIsClosed)));
    match stream.on_frame(&id(2), FrameKind::Res) {
        Routing::Complete { sink, teardown } => {
            assert_eq!(sink.handle, "commit");
            let teardown = teardown.unwrap();
            assert_eq!(teardown.error, Error::TransactionIsClosed);
            let handles: Vec<&str> = teardown.drained.iter().map(|s| s.handle).collect();
            assert_eq!(handles, vec!["query", "late"]);
        }
        other => panic!("unexpected: {:?}", other),
    }
    assert_eq!(stream.lifecycle(), Lifecycle::Closed);
    assert!(matches!(stream.issue(id(5), SinkKind::Single, "after"), Err(Error::TransactionIsClosed)));
    assert!(matches!(stream.commit(id(5), "after"), Err(Error::TransactionIsClosed)));
}

#[test]
fn other_replies_do_not_end_a_commit() {
    let mut stream = TransactionStream::new(TransactionType::Write);
    stream.issue(id(1), SinkKind::Single, "query").unwrap();
    stream.commit(id(2), "commit").unwrap();
    assert_eq!(deliver(&mut stream, 1, FrameKind::Res), Some("query"));
    assert_eq!(stream.lifecycle(), Lifecycle::Committing);
    assert_eq!(stream.pending(), 1);
}

#[test]
fn an_acknowledged_rollback_opens_the_transaction_again() {
    let mut stream = TransactionStream::new(TransactionType::Write);
    stream.issue(id(1), SinkKind::Stream, "query").unwrap();
    stream.rollback(id(2), "rollback").unwrap();
    assert_eq!(stream.lifecycle(), Lifecycle::RollingBack);
    match stream.on_frame(&id(2), FrameKind::Res) {
        Routing::Complete { sink, teardown } => {
            assert_eq!(sink.handle, "rollback");
            assert!(teardown.is_none());
        }
        other => panic!("unexpected: {:?}", other),
    }
    assert_eq!(stream.lifecycle(), Lifecycle::Open);
    assert_eq!(stream.pending(), 1);
    stream.commit(id(3), "commit").unwrap();
    assert_eq!(stream.lifecycle(), Lifecycle::Committing);
}

#[test]
fn closing_hands_back_the_sinks() {
    let mut stream = TransactionStream::new(TransactionType::Read);
    stream.issue(id(1), SinkKind::Single, "one").unwrap();
    stream.issue(id(2), SinkKind::Stream, "two").unwrap();
    let teardown = stream.close();
    assert_eq!(teardown.error, Error::TransactionIsClosed);
    assert_eq!(teardown.drained.len(), 2);
    assert_eq!(teardown.drained[0].handle, "one");
    assert_eq!(teardown.drained[1].handle, "two");
    assert_eq!(stream.lifecycle(), Lifecycle::Closed);
    assert!(stream.close().drained.is_empty());
    assert!(matches!(stream.issue(id(3), SinkKind::Single, "three"), Err(Error::TransactionIsClosed)));
}

#[test]
fn the_buffer_is_sent_at_the_high_water_mark() {
    let mut dispatcher = Dispatcher::new(3);
    assert_eq!(dispatcher.push("a"), None);
    assert_eq!(dispatcher.push("b"), None);
    assert_eq!(dispatcher.len(), 2);
    assert_eq!(dispatcher.push("c"), Some(vec!["a", "b", "c"]));
    assert_eq!(dispatcher.len(), 0);
    assert_eq!(dispatcher.push("d"), None);
}

#[test]
fn the_buffer_is_sent_at_a_tick() {
    let mut dispatcher = Dispatcher::new(100);
    assert_eq!(dispatcher.on_tick(), None);
    dispatcher.push(1);
    dispatcher.push(2);
    assert_eq!(dispatcher.on_tick(), Some(vec![1, 2]));
    assert_eq!(dispatcher.on_tick(), None);
    dispatcher.push(3);
    assert_eq!(dispatcher.on_tick(), Some(vec![3]));
}

#[test]
fn batches_keep_the_order_of_issue() {
    let mut dispatcher = Dispatcher::new(4);
    let mut sent: Vec<u32> = Vec::new();
    for request in 0..23u32 {
        if let Some(batch) = dispatcher.push(request) {
            assert!(!batch.is_empty());
            sent.extend(batch);
        }
        if request % 7 == 6 {
            if let Some(batch) = dispatcher.on_tick() {
                sent.extend(batch);
            }
        }
    }
    if let Some(batch) = dispatcher.on_tick() {
        sent.extend(batch);
    }
    assert_eq!(sent, (0..23).collect::<Vec<u32>>());
}

#[test]
fn a_buffer_without_room_sends_every_request_at_once() {
    let mut dispatcher = Dispatcher::new(0);
    assert_eq!(dispatcher.push(1), Some(vec![1]));
    let mut dispatcher = Dispatcher::new(1);
    assert_eq!(dispatcher.push(2), Some(vec![2]));
}

#[test]
fn a_stream_that_waits_to_be_asked_goes_on_under_its_id() {
    let mut stream = TransactionStream::new(TransactionType::Read);
    stream.issue(id(1), SinkKind::Single, "single").unwrap();
    stream.issue(id(2), SinkKind::Stream, "stream").unwrap();
    assert_eq!(deliver(&mut stream, 2, PART), Some("stream"));
    assert!(matches!(stream.on_frame(&id(2), FrameKind::Continue), Routing::Continue { index: 1 }));
    assert_eq!(stream.pending(), 2);
    assert_eq!(stream.lifecycle(), Lifecycle::Open);
    assert_eq!(deliver(&mut stream, 2, PART), Some("stream"));
    assert_eq!(deliver(&mut stream, 2, LAST), Some("stream"));
    assert_eq!(stream.pending(), 1);
}

#[test]
fn a_wait_on_what_is_no_stream_closes_the_transaction() {
    let mut stream = TransactionStream::new(TransactionType::Read);
    stream.issue(id(1), SinkKind::Single, "single").unwrap();
    stream.issue(id(2), SinkKind::Stream, "stream").unwrap();
    match stream.on_frame(&id(1), FrameKind::Continue) {
        Routing::Violation { teardown } => {
            assert_eq!(teardown.error, Error::InternalError(InternalError::UnexpectedResponseType));
            assert_eq!(teardown.drained.len(), 2);
        }
        other => panic!("unexpected: {:?}", other),
    }
    assert_eq!(stream.lifecycle(), Lifecycle::Closed);

    let mut stream = TransactionStream::new(TransactionType::Read);
    stream.issue(id(2), SinkKind::Stream, "stream").unwrap();
    assert!(matches!(stream.on_frame(&id(3), FrameKind::Continue), Routing::Violation { .. }));
    assert!(matches!(stream.on_frame(&id(2), FrameKind::Continue), Routing::Ignored));
}
