use wasm_cache::{cache_t, HandleState, Registry};

#[test]
fn null_handle_is_token_zero() {
    assert!(cache_t::null().is_null());
    assert_eq!(cache_t::null(), cache_t { id: 0 });
    assert!(!cache_t { id: 1 }.is_null());
    assert_ne!(cache_t { id: 1 }, cache_t { id: 2 });
}

#[test]
fn registry_issues_handles_in_order() {
    let mut registry: Registry<&str> = Registry::new();
    assert_eq!(registry.lookup(cache_t { id: 1 }), None);
    let first = registry.register("a");
    let second = registry.register("b");
    assert_eq!(first, cache_t { id: 1 });
    assert_eq!(second, cache_t { id: 2 });
    assert_eq!(registry.lookup(first), Some(&"a"));
    assert_eq!(registry.lookup(second), Some(&"b"));
    assert_eq!(registry.lookup(cache_t::null()), None);
    assert_eq!(registry.lookup(cache_t { id: 3 }), None);
}

#[test]
fn retire_releases_for_good() {
    let mut registry: Registry<&str> = Registry::new();
    let first = registry.register("a");
    let second = registry.register("b");
    registry.retire(first);
    assert_eq!(registry.lookup(first), None);
    assert_eq!(registry.lookup(second), Some(&"b"));
    registry.retire(first);
    assert_eq!(registry.lookup(first), None);
    assert_eq!(registry.lookup(second), Some(&"b"));
    let third = registry.register("c");
    assert_eq!(third, cache_t { id: 3 });
    assert_eq!(registry.lookup(first), None);
    assert_eq!(registry.lookup(third), Some(&"c"));
}

#[test]
fn retire_ignores_handles_that_name_nothing() {
    let mut registry: Registry<u32> = Registry::new();
    registry.retire(cache_t::null());
    registry.retire(cache_t { id: 1 });
    let handle = registry.register(11);
    registry.retire(cache_t::null());
    registry.retire(cache_t { id: 2 });
    registry.retire(cache_t { id: usize::MAX });
    assert_eq!(registry.lookup(handle), Some(&11));
}

#[test]
fn retire_drops_the_engine() {
    let engine = std::rc::Rc::new(5u8);
    let mut registry: Registry<std::rc::Rc<u8>> = Registry::new();
    let handle = registry.register(engine.clone());
    assert_eq!(std::rc::Rc::strong_count(&engine), 2);
    registry.retire(handle);
    assert_eq!(std::rc::Rc::strong_count(&engine), 1);
}

#[test]
fn handle_states_are_distinct() {
    assert_ne!(HandleState::Absent, HandleState::Live);
    assert_ne!(HandleState::Live, HandleState::Released);
    assert_ne!(HandleState::Absent, HandleState::Released);
}

#[test]
fn a_handle_goes_from_absent_to_live_to_released() {
    let mut registry: Registry<u8> = Registry::new();
    let handle = cache_t { id: 1 };
    assert_eq!(registry.state(cache_t::null()), HandleState::Absent);
    assert_eq!(registry.state(handle), HandleState::Absent);
    assert_eq!(registry.register(9), handle);
    assert_eq!(registry.state(handle), HandleState::Live);
    assert_eq!(registry.state(cache_t { id: 2 }), HandleState::Absent);
    registry.retire(handle);
    assert_eq!(registry.state(handle), HandleState::Released);
    registry.retire(handle);
    assert_eq!(registry.state(handle), HandleState::Released);
    registry.register(10);
    assert_eq!(registry.state(handle), HandleState::Released);
    assert_eq!(registry.state(cache_t { id: 2 }), HandleState::Live);
    assert_eq!(registry.state(cache_t::null()), HandleState::Absent);
    assert_eq!(registry.state(cache_t { id: usize::MAX }), HandleState::Absent);
}
