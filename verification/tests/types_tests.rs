use vrpn::id_filter_matches;
use vrpn::types::ClassOfService;
use vrpn::types::IntoId;
use vrpn::types::LocalId;
use vrpn::types::RemoteId;
use vrpn::types::SenderId;
use vrpn::types::TypeId;
use vrpn::types::TypeSafeId;

#[test]
fn filter_none_matches_anything() {
    assert!(id_filter_matches(None, SenderId(0)));
    assert!(id_filter_matches(None, SenderId(-5)));
    assert!(id_filter_matches(None, TypeId(17)));
}

#[test]
fn filter_some_matches_exactly() {
    assert!(id_filter_matches(Some(SenderId(3)), SenderId(3)));
    assert!(!id_filter_matches(Some(SenderId(3)), SenderId(4)));
}

#[test]
fn system_message_ids_are_negative() {
    assert!(TypeId(-1).is_system_message());
    assert!(TypeId(-7).is_system_message());
    assert!(!TypeId(0).is_system_message());
    assert!(!TypeId(42).is_system_message());
}

#[test]
fn namespace_tags_strip_to_their_base_id() {
    assert_eq!(LocalId(TypeId(5)).into_id(), TypeId(5));
    assert_eq!(RemoteId(TypeId(5)).into_id(), TypeId(5));
    assert_eq!(LocalId(SenderId(9)).get(), 9);
    assert_eq!(RemoteId(SenderId(9)).get(), 9);
}

#[test]
fn class_of_service_flags_combine() {
    let both = ClassOfService::reliable().union(ClassOfService::high_throughput());
    assert_eq!(both.bits, 1 | 16);
    assert!(both.contains(ClassOfService::reliable()));
    assert!(both.contains(ClassOfService::high_throughput()));
    assert!(!both.contains(ClassOfService::low_latency()));
}
