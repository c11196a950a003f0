use rustratify::EventSender;
use rustratify::EventStream;
use rustratify::StreamBuilder;
use rustratify::TryRecvFailure;
use rustratify::TrySendFailure;
use rustratify::create_stream;
use rustratify::create_stream_with_buffer;

#[derive(Debug, Clone, PartialEq)]
enum TestEvent {
    Start,
    Progress(u32),
    Complete,
}

/// Drain a stream whose senders are all gone: every buffered event, in order.
fn drain<T>(stream: &mut EventStream<T>) -> Vec<T> {
    let mut events = Vec::new();
    loop {
        match stream.try_recv() {
            Ok(event) => events.push(event),
            Err(TryRecvFailure::Disconnected) => return events,
            Err(TryRecvFailure::Empty) => panic!("senders are gone, Empty cannot come"),
        }
    }
}

fn send<T>(sender: &EventSender<T>, event: T) {
    sender.inner().blocking_send(event).unwrap();
}

#[test]
fn test_stream_builder() {
    let (sender, mut stream) = StreamBuilder::<TestEvent>::new().buffer_size(10).build();

    send(&sender, TestEvent::Start);
    send(&sender, TestEvent::Progress(50));
    send(&sender, TestEvent::Complete);
    drop(sender);

    let events = drain(&mut stream);
    assert_eq!(
        events,
        vec![TestEvent::Start, TestEvent::Progress(50), TestEvent::Complete]
    );
}

#[test]
fn test_create_stream() {
    let (sender, mut stream) = create_stream::<String>();

    send(&sender, "Hello".to_string());
    send(&sender, "World".to_string());
    drop(sender);

    let events = drain(&mut stream);
    assert_eq!(events, vec!["Hello".to_string(), "World".to_string()]);
}

#[test]
fn test_sender_clone() {
    let (sender, mut stream) = create_stream::<u32>();

    let sender2 = sender.clone();
    send(&sender, 1);
    send(&sender2, 2);
    drop(sender);
    drop(sender2);

    let events = drain(&mut stream);
    assert_eq!(events, vec![1, 2]);
}

#[test]
fn stream_test_try_send() {
    let (sender, _stream) = create_stream_with_buffer::<u32>(1);

    // First send should succeed
    assert!(sender.try_send(1).is_ok());
    // Second might fail if buffer is full
    // (depends on timing, so just test it doesn't panic)
    let _ = sender.try_send(2);
}

#[test]
fn test_try_send_full_returns_event() {
    let (sender, mut stream) = create_stream_with_buffer::<String>(1);

    assert!(sender.try_send("first".to_string()).is_ok());
    // No room is left: the event must come back unmodified, marked transient.
    match sender.try_send("second".to_string()) {
        Err(TrySendFailure::Full(event)) => assert_eq!(event, "second"),
        other => panic!("expected a Full failure, got {:?}", other),
    }
    // The rejected event was not enqueued.
    drop(sender);
    let events = drain(&mut stream);
    assert_eq!(events, vec!["first".to_string()]);
}

#[test]
fn test_try_send_closed_returns_event() {
    let (sender, stream) = create_stream_with_buffer::<u32>(4);
    drop(stream);

    assert!(sender.is_closed());
    match sender.try_send(7) {
        Err(TrySendFailure::Closed(event)) => assert_eq!(event, 7),
        other => panic!("expected a Closed failure, got {:?}", other),
    }
}

#[test]
fn test_into_event_returns_original() {
    let failure = TrySendFailure::Full("payload".to_string());
    assert_eq!(failure.into_event(), "payload");
    let failure = TrySendFailure::Closed("payload".to_string());
    assert_eq!(failure.into_event(), "payload");
}

#[test]
fn test_capacity_reports_buffer() {
    let (sender, mut stream) = create_stream_with_buffer::<u32>(3);
    assert_eq!(sender.capacity(), 3);
    assert!(sender.try_send(1).is_ok());
    assert_eq!(sender.capacity(), 2);
    assert_eq!(stream.try_recv(), Ok(1));
    assert_eq!(sender.capacity(), 3);
}

#[test]
fn test_is_closed_observes_receiver() {
    let (sender, stream) = create_stream::<u32>();
    assert!(!sender.is_closed());
    drop(stream);
    assert!(sender.is_closed());
}

#[test]
fn test_default_buffer_size() {
    let builder = StreamBuilder::<u32>::default();
    let (sender, _stream) = builder.build();
    assert_eq!(sender.capacity(), 100);
}

#[test]
fn test_stream_ordering_across_clones() {
    // Events sent in one call order, from several cloned handles, come out
    // in exactly that order.
    let (sender1, mut stream) = create_stream::<&'static str>();
    let sender2 = sender1.clone();
    let sender3 = sender2.clone();

    send(&sender1, "E1");
    send(&sender2, "E2");
    send(&sender3, "E3");
    drop(sender1);
    drop(sender2);
    drop(sender3);

    let events = drain(&mut stream);
    assert_eq!(events, vec!["E1", "E2", "E3"]);
}

#[test]
fn test_stream_closure_completeness() {
    // N successful sends, then dropping every sender, yields exactly N
    // events and then termination: no loss, no duplication.
    let (sender, mut stream) = create_stream_with_buffer::<u32>(64);
    for i in 0..40u32 {
        assert!(sender.try_send(i).is_ok());
    }
    drop(sender);

    let events = drain(&mut stream);
    assert_eq!(events.len(), 40);
    for (i, event) in events.iter().enumerate() {
        assert_eq!(*event, i as u32);
    }
    // After termination the stream stays terminated.
    assert_eq!(stream.try_recv(), Err(TryRecvFailure::Disconnected));
}

#[test]
fn test_empty_then_more_events() {
    let (sender, mut stream) = create_stream::<u32>();
    // Nothing buffered, but a sender remains: Empty, not Disconnected.
    assert_eq!(stream.try_recv(), Err(TryRecvFailure::Empty));
    send(&sender, 5);
    assert_eq!(stream.try_recv(), Ok(5));
    drop(sender);
    assert_eq!(stream.try_recv(), Err(TryRecvFailure::Disconnected));
}
