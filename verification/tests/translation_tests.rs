use vrpn::TranslationTable;
use vrpn::types::LocalId;
use vrpn::types::RemoteId;
use vrpn::types::SenderId;
use vrpn::types::TypeSafeId;

#[test]
fn add_twice_returns_same_id() {
    let mut table: TranslationTable<SenderId> = TranslationTable::new();
    let first = table.add(b"Tracker0".to_vec()).unwrap();
    let second = table.add(b"Tracker0".to_vec()).unwrap();
    assert_eq!(first.get(), second.get());
    assert_eq!(table.len(), 1);
}

#[test]
fn ids_are_assigned_densely_from_zero() {
    let mut table: TranslationTable<SenderId> = TranslationTable::new();
    let tracker0 = table.add(b"Tracker0".to_vec()).unwrap();
    let tracker1 = table.add(b"Tracker1".to_vec()).unwrap();
    assert_eq!(tracker0.get(), 0);
    assert_eq!(tracker1.get(), 1);
    // Registering again renumbers nothing.
    assert_eq!(table.add(b"Tracker0".to_vec()).unwrap().get(), 0);
    assert_eq!(table.add(b"Tracker1".to_vec()).unwrap().get(), 1);
    assert_eq!(table.len(), 2);
}

#[test]
fn lookup_by_name_and_by_id() {
    let mut table: TranslationTable<SenderId> = TranslationTable::new();
    let id = table.add(b"Tracker0".to_vec()).unwrap();
    let found = table.lookup_by_name(&b"Tracker0".to_vec()).unwrap();
    assert_eq!(found.get(), id.get());
    assert!(table.lookup_by_name(&b"absent".to_vec()).is_none());
    let name = table.lookup_by_local_id(id).unwrap();
    assert_eq!(name.as_slice(), b"Tracker0");
    assert!(table.lookup_by_local_id(LocalId(SenderId(5))).is_none());
    assert!(table.lookup_by_local_id(LocalId(SenderId(-1))).is_none());
}

#[test]
fn remote_binding_translates_peer_numbering() {
    let mut table: TranslationTable<SenderId> = TranslationTable::new();
    // The peer announces: "my ID 12 means Tracker0".
    let local = table
        .add_remote_entry(b"Tracker0".to_vec(), RemoteId(SenderId(12)))
        .unwrap();
    assert_eq!(local.get(), 0);
    let mapped = table.map_to_local_id(RemoteId(SenderId(12))).unwrap();
    assert_eq!(mapped.get(), 0);
    assert!(table.map_to_local_id(RemoteId(SenderId(13))).is_none());
    // A rebinding for the same name keeps the local ID stable.
    let again = table
        .add_remote_entry(b"Tracker0".to_vec(), RemoteId(SenderId(44)))
        .unwrap();
    assert_eq!(again.get(), 0);
    assert_eq!(table.map_to_local_id(RemoteId(SenderId(44))).unwrap().get(), 0);
}
