use vrpn::ConnectionIP;
use vrpn::LogFileNames;
use vrpn::make_log_names;
use vrpn::make_none_log_names;
use vrpn::types::SenderId;
use vrpn::types::SenderName;
use vrpn::types::TypeId;
use vrpn::types::TypeName;

#[test]
fn server_starts_without_endpoints() {
    let connection = ConnectionIP::new_server(None).unwrap();
    assert_eq!(connection.endpoint_count(), 0);
    assert!(connection.local_log_names.in_log_file.is_none());
    assert!(connection.remote_log_names.out_log_file.is_none());
}

#[test]
fn client_starts_with_one_endpoint() {
    let connection = ConnectionIP::new_client(None, None).unwrap();
    assert_eq!(connection.endpoint_count(), 1);
    assert!(connection.endpoints[0].is_some());
}

#[test]
fn log_names_default_to_none() {
    let names = make_none_log_names();
    assert!(names.in_log_file.is_none() && names.out_log_file.is_none());
    let defaulted = make_log_names(None);
    assert!(defaulted.in_log_file.is_none() && defaulted.out_log_file.is_none());
    let kept = make_log_names(Some(LogFileNames {
        in_log_file: Some(b"in.log".to_vec()),
        out_log_file: None,
    }));
    assert_eq!(kept.in_log_file.as_deref(), Some(b"in.log".as_slice()));
}

#[test]
fn connection_registers_names_through_its_dispatcher() {
    let mut connection = ConnectionIP::new_client(None, None).unwrap();
    let t = connection.add_type(TypeName(b"Tracker Pose".to_vec())).unwrap();
    assert_eq!(t, TypeId(0));
    let s = connection.add_sender(SenderName(b"Tracker0".to_vec())).unwrap();
    assert_eq!(s, SenderId(0));
    assert_eq!(
        connection.get_type_id(&TypeName(b"Tracker Pose".to_vec())),
        Some(t)
    );
    assert_eq!(
        connection.get_sender_id(&SenderName(b"Tracker0".to_vec())),
        Some(s)
    );
    assert_eq!(connection.get_sender_id(&SenderName(b"nobody".to_vec())), None);
}
