use contract_kit::address::Address;
use contract_kit::example_impl::{CounterError, CounterEvent, ExampleImplementation};
use contract_kit::example_impl_v2::ExampleImplementationV2;

#[test]
fn example_impl_test_initialize() {
    let owner = Address::from_id(1);
    let mut c = ExampleImplementation::new();
    c.initialize(owner);
    assert_eq!(c.get_owner(), Ok(owner));
    assert_eq!(c.get_value(), Ok(0));
}

#[test]
fn test_increment() {
    let mut c = ExampleImplementation::new();
    c.initialize(Address::from_id(1));
    assert_eq!(c.increment(), Ok(1));
    assert_eq!(c.increment(), Ok(2));
    assert_eq!(c.get_value(), Ok(2));
}

#[test]
fn test_reset_unauthorized() {
    let mut c = ExampleImplementation::new();
    c.initialize(Address::from_id(1));
    c.increment().unwrap();
    assert_eq!(c.reset(Address::from_id(2)), Err(CounterError::Unauthorized));
    assert_eq!(c.get_value(), Ok(1));
}

#[test]
fn test_reset_authorized() {
    let owner = Address::from_id(1);
    let mut c = ExampleImplementation::new();
    c.initialize(owner);
    c.increment().unwrap();
    assert_eq!(c.get_value(), Ok(1));
    c.reset(owner).unwrap();
    assert_eq!(c.get_value(), Ok(0));
}

#[test]
fn example_impl_test_version() {
    assert_eq!(ExampleImplementation::version(), 1);
}

#[test]
fn counter_needs_initialization() {
    let mut c = ExampleImplementation::new();
    assert_eq!(c.increment(), Err(CounterError::NotInitialized));
    assert_eq!(c.get_value(), Err(CounterError::NotInitialized));
}

#[test]
fn test_initialize_v2() {
    let owner = Address::from_id(1);
    let max_value = 100u64;
    let mut c = ExampleImplementationV2::new();
    c.initialize(owner, max_value);
    assert_eq!(c.get_owner(), Ok(owner));
    assert_eq!(c.get_value(), Ok(0));
    assert_eq!(c.get_max_value(), Ok(max_value));
    assert_eq!(c.get_reset_count(), Ok(0));
}

#[test]
fn test_increment_with_max() {
    let mut c = ExampleImplementationV2::new();
    c.initialize(Address::from_id(1), 3);
    assert_eq!(c.increment(), Ok(1));
    assert_eq!(c.increment(), Ok(2));
    assert_eq!(c.increment(), Ok(3));
    assert_eq!(c.increment(), Err(CounterError::MaxValueReached));
}

#[test]
fn test_reset_tracking() {
    let owner = Address::from_id(1);
    let mut c = ExampleImplementationV2::new();
    c.initialize(owner, 100);
    c.increment().unwrap();
    c.increment().unwrap();
    assert_eq!(c.get_value(), Ok(2));
    assert_eq!(c.get_reset_count(), Ok(0));
    c.reset(owner).unwrap();
    assert_eq!(c.get_value(), Ok(0));
    assert_eq!(c.get_reset_count(), Ok(1));
    c.reset(owner).unwrap();
    assert_eq!(c.get_reset_count(), Ok(2));
}

#[test]
fn test_set_max_value_unauthorized() {
    let mut c = ExampleImplementationV2::new();
    c.initialize(Address::from_id(1), 100);
    assert_eq!(c.set_max_value(Address::from_id(2), 200), Err(CounterError::Unauthorized));
    assert_eq!(c.get_max_value(), Ok(100));
}

#[test]
fn test_set_max_value_authorized() {
    let owner = Address::from_id(1);
    let mut c = ExampleImplementationV2::new();
    c.initialize(owner, 100);
    c.set_max_value(owner, 200).unwrap();
    assert_eq!(c.get_max_value(), Ok(200));
}

#[test]
fn example_impl_v2_test_version() {
    assert_eq!(ExampleImplementationV2::version(), 2);
}

#[test]
fn counters_publish_their_changes() {
    let owner = Address::from_id(1);
    let mut c = ExampleImplementation::new();
    c.initialize(owner);
    c.increment().unwrap();
    c.reset(owner).unwrap();
    assert_eq!(c.events(), &vec![CounterEvent::Incremented { value: 1 }, CounterEvent::Reset]);
    let mut v2 = ExampleImplementationV2::new();
    v2.initialize(owner, 1);
    v2.increment().unwrap();
    assert!(v2.increment().is_err());
    v2.reset(owner).unwrap();
    v2.set_max_value(owner, 5).unwrap();
    assert_eq!(
        v2.events(),
        &vec![
            CounterEvent::Incremented { value: 1 },
            CounterEvent::ResetCounted { reset_count: 1 },
            CounterEvent::MaxValueSet { max_value: 5 },
        ]
    );
}
