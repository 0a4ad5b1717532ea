use bcvk::activation::{
    served, try_activated_listener, try_serve_varlink, ActivatedListener, ServeEvent, ServeStep,
};
use libsystemd::errors::SdError;

#[test]
fn listener_yields_its_connection_once() {
    let mut listener = ActivatedListener::new("connection");
    assert_eq!(listener.accept(), Some("connection"));
    for _ in 0..3 {
        assert_eq!(listener.accept(), None);
    }
}

#[test]
fn first_descriptor_is_served() {
    let fd = try_activated_listener(Ok(vec![3, 4, 5])).unwrap();
    assert_eq!(fd, Some(3));
}

#[test]
fn without_descriptors_nothing_is_served() {
    let fd = try_activated_listener(Ok(Vec::<i32>::new())).unwrap();
    assert_eq!(fd, None);
}

#[test]
fn activation_failure_is_reported() {
    let failed = try_activated_listener::<i32>(Err(SdError::from("bad LISTEN_FDS")));
    let chain: Vec<String> = failed
        .unwrap_err()
        .chain()
        .map(|e| e.to_string())
        .collect();
    assert_eq!(
        chain,
        ["Failed to receive activation fds: libsystemd error: bad LISTEN_FDS"]
    );
}

#[test]
fn varlink_is_served_if_activated() {
    assert!(matches!(
        try_serve_varlink::<i32, &str>(Ok(Some(3))),
        ServeStep::Serve(3)
    ));
    assert!(matches!(
        try_serve_varlink::<i32, &str>(Ok(None)),
        ServeStep::Done(Ok(false))
    ));
    assert!(matches!(
        try_serve_varlink::<i32, &str>(Err("fd")),
        ServeStep::Done(Err("fd"))
    ));
}

#[test]
fn caller_exits_after_serving() {
    assert_eq!(served::<&str>(ServeEvent::Stopped(Ok(()))), Ok(true));
    assert_eq!(served::<&str>(ServeEvent::Interrupted), Ok(true));
    assert_eq!(served(ServeEvent::Stopped(Err("io"))), Err("io"));
}
