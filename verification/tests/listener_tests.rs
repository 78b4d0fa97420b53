use platy_recorder::listener::ActiveListener;

#[test]
fn fresh_listener_is_unregistered_and_not_alive() {
    let l = ActiveListener::new();
    assert!(!l.is_alive());
    assert!(!l.registered);
    assert_eq!(l.device_id, None);
}

#[test]
fn register_attaches_to_one_device() {
    let mut l = ActiveListener::new();
    l.register(42);
    assert!(l.registered);
    assert_eq!(l.device_id, Some(42));
    assert!(!l.is_alive());
}

#[test]
fn unplug_transitions_alive_and_publishes_once() {
    let mut l = ActiveListener::new();
    l.register(42);
    // The device comes up: one notification for the transition.
    assert_eq!(l.on_property_event(true), Some(true));
    assert!(l.is_alive());
    // Repeated "running" reports publish nothing.
    assert_eq!(l.on_property_event(true), None);
    assert_eq!(l.on_property_event(true), None);
    assert!(l.is_alive());
    // The unplug flips is_alive and publishes exactly one notification.
    assert_eq!(l.on_property_event(false), Some(false));
    assert!(!l.is_alive());
    assert_eq!(l.on_property_event(false), None);
}

#[test]
fn unregister_is_idempotent() {
    let mut l = ActiveListener::new();
    l.register(7);
    l.on_property_event(true);
    l.unregister();
    assert!(!l.registered);
    assert!(l.is_alive());
    assert_eq!(l.device_id, Some(7));
    // Teardown paths may call it again freely.
    l.unregister();
    assert!(!l.registered);
}

#[test]
fn listener_can_watch_another_device_after_unregister() {
    let mut l = ActiveListener::new();
    l.register(1);
    l.unregister();
    l.register(2);
    assert!(l.registered);
    assert_eq!(l.device_id, Some(2));
}
