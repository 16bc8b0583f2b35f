use ndi_audio_src::registry::{ReceiverRegistry, ReleaseAction};

#[test]
fn attach_on_empty_registry_returns_no_receiver() {
    let mut reg = ReceiverRegistry::new();
    let ip = String::from("10.0.0.1:5961");
    let name = String::from("cam-a");
    assert_eq!(reg.attach(&ip, &name), 0);
    assert_eq!(reg.live_connections(), 0);
}

#[test]
fn register_connection_allocates_fresh_nonzero_ids() {
    let mut reg = ReceiverRegistry::new();
    let a = reg.register_connection(&String::from("10.0.0.1"), &String::from("cam-a"), 111);
    let b = reg.register_connection(&String::from("10.0.0.2"), &String::from("cam-b"), 222);
    assert_ne!(a, 0);
    assert_ne!(b, 0);
    assert_ne!(a, b);
    assert_eq!(reg.live_connections(), 2);
    assert_eq!(reg.reference_count_of(a), Some(1));
    assert_eq!(reg.initial_timestamp_of(a), Some(0));
}

#[test]
fn two_adapters_share_one_entry() {
    let mut reg = ReceiverRegistry::new();
    let ip = String::from("10.0.0.1:5961");
    let name = String::from("cam-a");
    let first = reg.register_connection(&ip, &name, 4242);
    // The second adapter attaches instead of connecting again.
    let second = reg.attach(&ip, &name);
    assert_eq!(second, first);
    assert_eq!(reg.live_connections(), 1);
    assert_eq!(reg.reference_count_of(first), Some(2));
    // One adapter stops: the connection stays open.
    assert_eq!(reg.release(first), ReleaseAction::StillShared);
    assert_eq!(reg.live_connections(), 1);
    assert_eq!(reg.reference_count_of(first), Some(1));
    // The other stops too: the connection is handed back for closing.
    assert_eq!(reg.release(first), ReleaseAction::CloseConnection { handle: 4242 });
    assert_eq!(reg.live_connections(), 0);
    assert_eq!(reg.reference_count_of(first), None);
}

#[test]
fn release_of_unknown_id_is_a_no_op() {
    let mut reg = ReceiverRegistry::new();
    assert_eq!(reg.release(0), ReleaseAction::NotFound);
    assert_eq!(reg.release(99), ReleaseAction::NotFound);
}

#[test]
fn distinct_identities_do_not_share() {
    let mut reg = ReceiverRegistry::new();
    let a = reg.register_connection(&String::from("10.0.0.1"), &String::from("cam-a"), 1);
    assert_eq!(reg.attach(&String::from("10.0.0.1"), &String::from("cam-b")), 0);
    assert_eq!(reg.attach(&String::from("10.0.0.2"), &String::from("cam-a")), 0);
    assert_eq!(reg.attach(&String::from("10.0.0.1"), &String::from("cam-a")), a);
}

#[test]
fn epoch_updates_only_backward_once_set() {
    let mut reg = ReceiverRegistry::new();
    let id = reg.register_connection(&String::from("ip"), &String::from("s"), 5);
    assert!(reg.observe_timestamp(id, 1000));
    assert_eq!(reg.initial_timestamp_of(id), Some(1000));
    // A later, larger observation does not move the epoch.
    assert!(reg.observe_timestamp(id, 1500));
    assert_eq!(reg.initial_timestamp_of(id), Some(1000));
    // An earlier observation moves it backward.
    assert!(reg.observe_timestamp(id, 900));
    assert_eq!(reg.initial_timestamp_of(id), Some(900));
    assert!(!reg.observe_timestamp(id + 1, 100));
}
