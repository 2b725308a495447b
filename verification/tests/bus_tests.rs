use std::sync::Arc;
use std::sync::Mutex;
use std::sync::atomic::AtomicUsize;
use std::sync::atomic::Ordering;

use cryptolytica::bus::InMemoryEventBus;
use cryptolytica::error::CoreError;
use cryptolytica::events::Event;
use cryptolytica::events::EventHandler;

const TEST_EVENT_KIND: u64 = 100;
const OTHER_TEST_EVENT_KIND: u64 = 101;

#[derive(Debug, Clone)]
struct TestEvent {
    id: u128,
    message: String,
    timestamp: i64,
}

impl Event for TestEvent {
    fn spec_discriminator(&self) -> u64 {
        TEST_EVENT_KIND
    }

    fn discriminator(&self) -> u64 {
        TEST_EVENT_KIND
    }

    fn event_type(&self) -> &'static str {
        "test.event"
    }

    fn timestamp_millis(&self) -> i64 {
        self.timestamp
    }

    fn id(&self) -> u128 {
        self.id
    }
}

#[derive(Debug, Clone)]
struct OtherTestEvent {
    id: u128,
    value: i32,
    timestamp: i64,
}

impl Event for OtherTestEvent {
    fn spec_discriminator(&self) -> u64 {
        OTHER_TEST_EVENT_KIND
    }

    fn discriminator(&self) -> u64 {
        OTHER_TEST_EVENT_KIND
    }

    fn event_type(&self) -> &'static str {
        "other.test.event"
    }

    fn timestamp_millis(&self) -> i64 {
        self.timestamp
    }

    fn id(&self) -> u128 {
        self.id
    }
}

enum TestHandler {
    Counting { counter: Arc<AtomicUsize>, last_message: Arc<Mutex<Option<String>>> },
    Logging { log: Arc<Mutex<Vec<String>>>, label: String },
    Erroring,
    Valuing { counter: Arc<AtomicUsize> },
}

impl EventHandler<TestEvent> for TestHandler {
    fn spec_event_discriminator(&self) -> u64 {
        match self {
            TestHandler::Valuing { .. } => OTHER_TEST_EVENT_KIND,
            _ => TEST_EVENT_KIND,
        }
    }

    fn event_discriminator(&self) -> u64 {
        match self {
            TestHandler::Valuing { .. } => OTHER_TEST_EVENT_KIND,
            _ => TEST_EVENT_KIND,
        }
    }

    fn handle(&mut self, event: &TestEvent) -> Result<(), CoreError> {
        match self {
            TestHandler::Counting { counter, last_message } => {
                counter.fetch_add(1, Ordering::SeqCst);
                let mut last = last_message.lock().unwrap();
                *last = Some(event.message.clone());
                Ok(())
            }
            TestHandler::Logging { log, label } => {
                log.lock().unwrap().push(label.clone());
                Ok(())
            }
            TestHandler::Erroring => Err(CoreError::Unknown("핸들러 오류".to_string())),
            TestHandler::Valuing { .. } => Ok(()),
        }
    }
}

impl EventHandler<OtherTestEvent> for TestHandler {
    fn spec_event_discriminator(&self) -> u64 {
        match self {
            TestHandler::Valuing { .. } => OTHER_TEST_EVENT_KIND,
            _ => TEST_EVENT_KIND,
        }
    }

    fn event_discriminator(&self) -> u64 {
        match self {
            TestHandler::Valuing { .. } => OTHER_TEST_EVENT_KIND,
            _ => TEST_EVENT_KIND,
        }
    }

    fn handle(&mut self, event: &OtherTestEvent) -> Result<(), CoreError> {
        match self {
            TestHandler::Valuing { counter } => {
                counter.fetch_add(event.value as usize, Ordering::SeqCst);
                Ok(())
            }
            _ => Ok(()),
        }
    }
}

fn counting_handler(counter: &Arc<AtomicUsize>) -> TestHandler {
    TestHandler::Counting {
        counter: counter.clone(),
        last_message: Arc::new(Mutex::new(None)),
    }
}

fn test_event(message: &str) -> TestEvent {
    TestEvent { id: 1, message: message.to_string(), timestamp: 1_700_000_000_000 }
}

#[test]
fn test_publish_subscribe() {
    let mut event_bus: InMemoryEventBus<TestHandler> = InMemoryEventBus::new();
    let received: Arc<Mutex<Vec<String>>> = Arc::new(Mutex::new(Vec::new()));

    let handler = TestHandler::Logging { log: received.clone(), label: "Hello, World!".to_string() };
    let handle = event_bus.subscribe::<TestEvent>(handler).unwrap();

    let event = test_event("Hello, World!");
    event_bus.publish(&event).unwrap();

    {
        let got = received.lock().unwrap();
        assert_eq!(got.len(), 1);
        assert_eq!(got[0], "Hello, World!");
    }

    event_bus.unsubscribe(&handle).unwrap();

    let event = test_event("After unsubscribe");
    event_bus.publish(&event).unwrap();

    let got = received.lock().unwrap();
    assert_eq!(got.len(), 1);
}

#[test]
fn test_multiple_handlers_for_same_event() {
    let mut event_bus: InMemoryEventBus<TestHandler> = InMemoryEventBus::new();

    let counter1 = Arc::new(AtomicUsize::new(0));
    let counter2 = Arc::new(AtomicUsize::new(0));

    let _handle1 = event_bus.subscribe::<TestEvent>(counting_handler(&counter1)).unwrap();
    let _handle2 = event_bus.subscribe::<TestEvent>(counting_handler(&counter2)).unwrap();

    let event = test_event("Hello, World!");
    event_bus.publish(&event).unwrap();

    assert_eq!(counter1.load(Ordering::SeqCst), 1);
    assert_eq!(counter2.load(Ordering::SeqCst), 1);
}

#[test]
fn test_different_event_types() {
    let mut event_bus: InMemoryEventBus<TestHandler> = InMemoryEventBus::new();

    let test_counter = Arc::new(AtomicUsize::new(0));
    let other_counter = Arc::new(AtomicUsize::new(0));

    let _test_handle = event_bus.subscribe::<TestEvent>(counting_handler(&test_counter)).unwrap();
    let _other_handle = event_bus
        .subscribe::<OtherTestEvent>(TestHandler::Valuing { counter: other_counter.clone() })
        .unwrap();

    let test_event = test_event("Test Event");
    event_bus.publish(&test_event).unwrap();

    let other_event = OtherTestEvent { id: 2, value: 42, timestamp: 1_700_000_000_000 };
    event_bus.publish(&other_event).unwrap();

    assert_eq!(test_counter.load(Ordering::SeqCst), 1);
    assert_eq!(other_counter.load(Ordering::SeqCst), 42);
}

#[test]
fn test_handler_error_handling() {
    let mut event_bus: InMemoryEventBus<TestHandler> = InMemoryEventBus::new();

    let counter = Arc::new(AtomicUsize::new(0));

    let _error_handle = event_bus.subscribe::<TestEvent>(TestHandler::Erroring).unwrap();
    let _normal_handle = event_bus.subscribe::<TestEvent>(counting_handler(&counter)).unwrap();

    let event = test_event("Error Test");
    let result = event_bus.publish(&event);
    assert!(result.is_ok());

    assert_eq!(counter.load(Ordering::SeqCst), 1);
}

#[test]
fn test_unsubscribe_specific_handler() {
    let mut event_bus: InMemoryEventBus<TestHandler> = InMemoryEventBus::new();

    let counter1 = Arc::new(AtomicUsize::new(0));
    let counter2 = Arc::new(AtomicUsize::new(0));

    let handle1 = event_bus.subscribe::<TestEvent>(counting_handler(&counter1)).unwrap();
    let _handle2 = event_bus.subscribe::<TestEvent>(counting_handler(&counter2)).unwrap();

    let result = event_bus.unsubscribe(&handle1);
    assert!(result.is_ok());

    let event = test_event("After unsubscribe");
    event_bus.publish(&event).unwrap();

    assert_eq!(counter1.load(Ordering::SeqCst), 0);
    assert_eq!(counter2.load(Ordering::SeqCst), 1);
}

#[test]
fn publish_with_no_subscribers_has_no_effect() {
    let mut event_bus: InMemoryEventBus<TestHandler> = InMemoryEventBus::new();

    let counter = Arc::new(AtomicUsize::new(0));
    let _handle = event_bus.subscribe::<TestEvent>(counting_handler(&counter)).unwrap();

    // Nothing listens to this discriminator.
    let other_event = OtherTestEvent { id: 3, value: 7, timestamp: 0 };
    let result = event_bus.publish(&other_event);
    assert!(result.is_ok());
    assert_eq!(counter.load(Ordering::SeqCst), 0);

    let mut empty_bus: InMemoryEventBus<TestHandler> = InMemoryEventBus::new();
    assert!(empty_bus.publish(&test_event("nobody")).is_ok());
}

#[test]
fn handlers_fire_in_subscription_order() {
    let mut event_bus: InMemoryEventBus<TestHandler> = InMemoryEventBus::new();
    let log: Arc<Mutex<Vec<String>>> = Arc::new(Mutex::new(Vec::new()));

    let h1 = TestHandler::Logging { log: log.clone(), label: "h1".to_string() };
    let h2 = TestHandler::Logging { log: log.clone(), label: "h2".to_string() };
    let _s1 = event_bus.subscribe::<TestEvent>(h1).unwrap();
    let _s2 = event_bus.subscribe::<TestEvent>(h2).unwrap();

    event_bus.publish(&test_event("ordered")).unwrap();

    let got = log.lock().unwrap();
    assert_eq!(*got, vec!["h1".to_string(), "h2".to_string()]);
}

#[test]
fn unsubscribe_unknown_handle_is_an_error() {
    let mut event_bus: InMemoryEventBus<TestHandler> = InMemoryEventBus::new();
    let handle = cryptolytica::events::SubscriptionHandle::new(99, TEST_EVENT_KIND);
    let result = event_bus.unsubscribe(&handle);
    match result {
        Err(CoreError::NotFound(message)) => {
            assert!(message.contains("99"));
        }
        _ => panic!("unknown handles must be a not-found error"),
    }
    // A second unsubscribe of a removed handle fails too.
    let counter = Arc::new(AtomicUsize::new(0));
    let h = event_bus.subscribe::<TestEvent>(counting_handler(&counter)).unwrap();
    assert!(event_bus.unsubscribe(&h).is_ok());
    assert!(event_bus.unsubscribe(&h).is_err());
}
