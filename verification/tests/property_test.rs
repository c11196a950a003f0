//! Scenario tests for the toolkit's documented behavior: registration order,
//! priority selection, tie-breaking, removal, clone independence, channel
//! ordering and closure, and exact error texts.

use rustratify::ProviderError;
use rustratify::Registry;
use rustratify::RegistryError;
use rustratify::RustratifyError;
use rustratify::SimpleProvider;
use rustratify::EventSender;
use rustratify::TryRecvFailure;
use rustratify::TrySendFailure;
use rustratify::create_stream;
use rustratify::create_stream_with_buffer;
use rustratify::provider::Provider;

fn provider(name: &str, extensions: Vec<&str>, priority: i32) -> SimpleProvider {
    let exts: Vec<String> = extensions.into_iter().map(|e| e.to_string()).collect();
    SimpleProvider::new(name, exts).with_priority(priority)
}

#[test]
fn test_names_follow_call_order() {
    let mut registry: Registry<SimpleProvider> = Registry::new();
    let order = vec!["delta", "alpha", "zeta", "beta"];
    for name in &order {
        registry.register(provider(name, vec![], 0));
    }
    let names = registry.names();
    let expected: Vec<String> = order.into_iter().map(|n| n.to_string()).collect();
    assert_eq!(names, expected);
}

#[test]
fn test_highest_priority_wins_either_order() {
    // p2 (priority 10) beats p1 (priority 5) regardless of registration order.
    let mut first: Registry<SimpleProvider> = Registry::new();
    first.register(provider("p1", vec![".k"], 5));
    first.register(provider("p2", vec![".k"], 10));
    assert_eq!(first.find_best("x.k").unwrap().name(), "p2");

    let mut second: Registry<SimpleProvider> = Registry::new();
    second.register(provider("p2", vec![".k"], 10));
    second.register(provider("p1", vec![".k"], 5));
    assert_eq!(second.find_best("x.k").unwrap().name(), "p2");
}

#[test]
fn test_find_best_tie_prefers_last_registered() {
    let mut registry: Registry<SimpleProvider> = Registry::new();
    registry.register(provider("early", vec![".k"], 3));
    registry.register(provider("late", vec![".k"], 3));
    assert_eq!(registry.find_best("x.k").unwrap().name(), "late");
}

#[test]
fn test_find_earliest_supporter_and_find_all_order() {
    let mut registry: Registry<SimpleProvider> = Registry::new();
    registry.register(provider("none", vec![".other"], 9));
    registry.register(provider("first", vec![".k"], 0));
    registry.register(provider("second", vec![".k"], 5));
    registry.register(provider("third", vec![".k"], 7));

    // find returns the supporter registered earliest, whatever its priority.
    assert_eq!(registry.find("x.k").unwrap().name(), "first");

    // find_all returns exactly the supporters, in registration order.
    let all: Vec<String> = registry.find_all("x.k").iter().map(|p| p.name()).collect();
    assert_eq!(all, vec!["first".to_string(), "second".to_string(), "third".to_string()]);
}

#[test]
fn test_register_unique_idempotent_safe() {
    let mut registry: Registry<SimpleProvider> = Registry::new();
    assert!(registry.register_unique(provider("p", vec![".a"], 1)).is_ok());

    // The second call fails recoverably and leaves the first call's state.
    let result = registry.register_unique(provider("p", vec![".b"], 9));
    match result {
        Err(RegistryError::AlreadyRegistered(name)) => assert_eq!(name, "p"),
        other => panic!("expected AlreadyRegistered, got {:?}", other),
    }
    assert_eq!(registry.len(), 1);
    let kept = registry.get("p").unwrap();
    assert_eq!(kept.priority(), 1);
    assert_eq!(kept.extensions(), vec![".a".to_string()]);
}

#[test]
fn test_remove_then_get_yields_empty() {
    let mut registry: Registry<SimpleProvider> = Registry::new();
    registry.register(provider("a", vec![], 0));
    registry.register(provider("b", vec![], 0));

    // Present name: removed, len decreases by exactly one.
    let removed = registry.remove("a");
    assert!(removed.is_some());
    assert_eq!(removed.unwrap().name(), "a");
    assert!(registry.get("a").is_none());
    assert_eq!(registry.len(), 1);

    // Absent name: len unchanged.
    assert!(registry.remove("missing").is_none());
    assert_eq!(registry.len(), 1);

    // Removing again after removal also yields empty.
    assert!(registry.remove("a").is_none());
    assert_eq!(registry.len(), 1);
}

#[test]
fn test_clone_independence() {
    let mut original: Registry<SimpleProvider> = Registry::new();
    original.register(provider("a", vec![".a"], 1));
    original.register(provider("b", vec![".b"], 2));

    let cloned = original.clone();
    original.remove("a");

    assert_eq!(original.len(), 1);
    assert_eq!(cloned.len(), 2);
    assert!(cloned.get("a").is_some());
    assert_eq!(cloned.get("a").unwrap().priority(), 1);
    assert_eq!(cloned.names(), vec!["a".to_string(), "b".to_string()]);
}

#[test]
fn test_try_send_full_keeps_event_out() {
    let (sender, mut stream) = create_stream_with_buffer::<String>(2);
    assert!(sender.try_send("one".to_string()).is_ok());
    assert!(sender.try_send("two".to_string()).is_ok());

    // Zero remaining capacity: the event comes back unmodified, not enqueued.
    match sender.try_send("three".to_string()) {
        Err(TrySendFailure::Full(event)) => assert_eq!(event, "three"),
        other => panic!("expected Full, got {:?}", other),
    }

    drop(sender);
    let mut events = Vec::new();
    loop {
        match stream.try_recv() {
            Ok(event) => events.push(event),
            Err(TryRecvFailure::Disconnected) => break,
            Err(TryRecvFailure::Empty) => panic!("senders are gone, Empty cannot come"),
        }
    }
    assert_eq!(events, vec!["one".to_string(), "two".to_string()]);
}

#[test]
fn test_example_end_to_end() {
    let mut registry: Registry<SimpleProvider> = Registry::new();
    registry.register(provider("rust", vec![".rs"], 0));
    registry.register(provider("generic", vec![".test"], 1));
    registry.register(provider("specific", vec![".test"], 10));

    assert_eq!(registry.find_best("x.test").unwrap().name(), "specific");
    // The earliest registered supporter wins the plain find.
    assert_eq!(registry.find("x.test").unwrap().name(), "generic");
    assert_eq!(registry.find("main.rs").unwrap().name(), "rust");
    assert!(registry.find("x.css").is_none());
}

#[test]
fn test_find_by_path_scans_in_order() {
    let mut registry: Registry<SimpleProvider> = Registry::new();
    registry.register(provider("rust", vec![".rs"], 0));
    registry.register(provider("python", vec![".py"], 0));

    assert_eq!(registry.find_by_path("src/main.rs").unwrap().name(), "rust");
    assert_eq!(registry.find_by_path("lib/util.py").unwrap().name(), "python");
    assert!(registry.find_by_path("notes.txt").is_none());
}

#[test]
fn test_providers_in_registration_order() {
    let mut registry: Registry<SimpleProvider> = Registry::new();
    registry.register(provider("c", vec![], 0));
    registry.register(provider("a", vec![], 0));
    registry.register(provider("b", vec![], 0));

    let listed: Vec<String> = registry.providers().iter().map(|p| p.name()).collect();
    assert_eq!(listed, vec!["c".to_string(), "a".to_string(), "b".to_string()]);
}

#[test]
fn test_event_sender_from_raw_channel() {
    let (tx, mut rx) = tokio::sync::mpsc::channel::<u32>(4);
    let sender = EventSender::new(tx);
    assert!(sender.try_send(11).is_ok());
    assert_eq!(rx.blocking_recv(), Some(11));
}

#[test]
fn test_stream_into_inner_hands_over_the_receiver() {
    let (sender, stream) = create_stream::<u32>();
    sender.try_send(3).unwrap();
    drop(sender);

    let mut rx = stream.into_inner();
    assert_eq!(rx.blocking_recv(), Some(3));
    assert_eq!(rx.blocking_recv(), None);
}

#[test]
fn test_registry_error_messages_exact() {
    assert_eq!(
        RegistryError::AlreadyRegistered("worker".to_string()).message(),
        "Provider already registered: worker"
    );
    assert_eq!(RegistryError::NoMatchingProvider.message(), "No matching provider found");
    assert_eq!(RegistryError::Empty.message(), "Registry is empty");
    assert_eq!(
        RegistryError::InvalidName("bad name".to_string()).message(),
        "Invalid provider name: bad name"
    );
}

#[test]
fn test_provider_error_messages_exact() {
    assert_eq!(ProviderError::NotFound("k".to_string()).message(), "Provider not found: k");
    assert_eq!(
        ProviderError::NotSupported("x.css".to_string()).message(),
        "Provider does not support: x.css"
    );
    assert_eq!(
        ProviderError::ExecutionFailed("boom".to_string()).message(),
        "Provider execution failed: boom"
    );
    assert_eq!(
        ProviderError::InitializationFailed("io".to_string()).message(),
        "Provider initialization failed: io"
    );
    assert_eq!(
        ProviderError::ConfigurationError("bad".to_string()).message(),
        "Provider configuration error: bad"
    );
    assert_eq!(ProviderError::IoError("denied".to_string()).message(), "IO error: denied");
    assert_eq!(ProviderError::Timeout(1500).message(), "Operation timed out after 1500ms");
    assert_eq!(ProviderError::Timeout(0).message(), "Operation timed out after 0ms");
    assert_eq!(
        ProviderError::Timeout(18446744073709551615).message(),
        "Operation timed out after 18446744073709551615ms"
    );
    assert_eq!(ProviderError::Cancelled.message(), "Operation was cancelled");
}

#[test]
fn test_rustratify_error_messages_and_from() {
    let from_provider = RustratifyError::from(ProviderError::Cancelled);
    assert_eq!(from_provider.message(), "Provider error: Operation was cancelled");

    let from_registry = RustratifyError::from(RegistryError::Empty);
    assert_eq!(from_registry.message(), "Registry error: Registry is empty");

    assert_eq!(
        RustratifyError::Stream("closed".to_string()).message(),
        "Stream error: closed"
    );
    assert_eq!(RustratifyError::Other("plain".to_string()).message(), "plain");

    let from_string = ProviderError::from("late failure".to_string());
    assert_eq!(from_string, ProviderError::ExecutionFailed("late failure".to_string()));

    let from_text = ProviderError::from("quick failure");
    assert_eq!(from_text, ProviderError::ExecutionFailed("quick failure".to_string()));
}
