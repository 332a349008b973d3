use vrpn::TypeDispatcher;
use vrpn::types::SenderId;
use vrpn::types::SenderName;
use vrpn::types::TypeId;
use vrpn::types::TypeName;

#[test]
fn wildcard_handler_fires_for_every_message() {
    let mut dispatcher = TypeDispatcher::new();
    let wildcard = dispatcher.register_handler(None, None);
    for (t, s) in [(0, 0), (3, 1), (-1, 5), (-7, 0)] {
        let decision = dispatcher.route(TypeId(t), SenderId(s));
        assert!(decision.handlers.contains(&wildcard));
    }
}

#[test]
fn exact_type_filter_fires_only_for_that_type() {
    let mut dispatcher = TypeDispatcher::new();
    let filtered = dispatcher.register_handler(Some(TypeId(3)), None);
    let hit = dispatcher.route(TypeId(3), SenderId(0));
    assert!(hit.handlers.contains(&filtered));
    let miss = dispatcher.route(TypeId(4), SenderId(0));
    assert!(!miss.handlers.contains(&filtered));
}

#[test]
fn handlers_fire_in_registration_order() {
    let mut dispatcher = TypeDispatcher::new();
    let first = dispatcher.register_handler(None, None);
    let second = dispatcher.register_handler(Some(TypeId(1)), None);
    let third = dispatcher.register_handler(None, Some(SenderId(9)));
    let fourth = dispatcher.register_handler(None, None);
    let decision = dispatcher.route(TypeId(1), SenderId(9));
    assert_eq!(decision.handlers, vec![first, second, third, fourth]);
    let partial = dispatcher.route(TypeId(2), SenderId(9));
    assert_eq!(partial.handlers, vec![first, third, fourth]);
}

#[test]
fn description_messages_route_to_system_handler_first() {
    let dispatcher = TypeDispatcher::new();
    assert!(dispatcher.route(TypeId(-1), SenderId(0)).system_description_first);
    assert!(dispatcher.route(TypeId(-2), SenderId(0)).system_description_first);
    assert!(!dispatcher.route(TypeId(-6), SenderId(0)).system_description_first);
    assert!(!dispatcher.route(TypeId(0), SenderId(0)).system_description_first);
}

#[test]
fn name_registries_assign_and_find_ids() {
    let mut dispatcher = TypeDispatcher::new();
    let t0 = dispatcher.add_type(TypeName(b"Tracker Pose".to_vec())).unwrap();
    let t1 = dispatcher.add_type(TypeName(b"Tracker Velocity".to_vec())).unwrap();
    assert_eq!(t0, TypeId(0));
    assert_eq!(t1, TypeId(1));
    assert_eq!(
        dispatcher.add_type(TypeName(b"Tracker Pose".to_vec())).unwrap(),
        t0
    );
    assert_eq!(
        dispatcher.get_type_id(&TypeName(b"Tracker Velocity".to_vec())),
        Some(t1)
    );
    assert_eq!(dispatcher.get_type_id(&TypeName(b"absent".to_vec())), None);

    let s0 = dispatcher.add_sender(SenderName(b"Tracker0".to_vec())).unwrap();
    assert_eq!(s0, SenderId(0));
    assert_eq!(
        dispatcher.get_sender_id(&SenderName(b"Tracker0".to_vec())),
        Some(s0)
    );
    assert_eq!(dispatcher.get_sender_id(&SenderName(b"nobody".to_vec())), None);
}

#[test]
fn unresolved_type_fires_only_wildcard_type_filters() {
    let mut dispatcher = TypeDispatcher::new();
    let wildcard = dispatcher.register_handler(None, None);
    let typed = dispatcher.register_handler(Some(TypeId(3)), None);
    let sender_only = dispatcher.register_handler(None, Some(SenderId(9)));
    // The message's type could not be resolved: wildcard-type handlers
    // still run, type-specific ones are skipped, and it is not an error.
    let decision = dispatcher.route_message(None, SenderId(9));
    assert!(!decision.system_description_first);
    assert_eq!(decision.handlers, vec![wildcard, sender_only]);
    let elsewhere = dispatcher.route_message(None, SenderId(1));
    assert_eq!(elsewhere.handlers, vec![wildcard]);
    // A resolved identity routes exactly as `route` does.
    let resolved = dispatcher.route_message(Some(TypeId(3)), SenderId(9));
    assert_eq!(resolved.handlers, dispatcher.route(TypeId(3), SenderId(9)).handlers);
    assert_eq!(resolved.handlers, vec![wildcard, typed, sender_only]);
}
