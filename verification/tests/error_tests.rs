use echo_server::error::ServerError;

#[test]
fn startup_errors_are_fatal() {
    assert!(ServerError::Bind.is_fatal());
    assert!(ServerError::ListenerClone.is_fatal());
}

#[test]
fn per_connection_errors_are_contained() {
    assert!(!ServerError::Accept.is_fatal());
    assert!(!ServerError::ConnectionClone.is_fatal());
    assert!(!ServerError::EchoIo.is_fatal());
}

#[test]
fn every_error_has_a_log_message() {
    let all = [
        ServerError::Bind,
        ServerError::ListenerClone,
        ServerError::Accept,
        ServerError::ConnectionClone,
        ServerError::EchoIo,
    ];
    for e in all {
        assert!(!e.message().is_empty());
    }
    assert_eq!(ServerError::Bind.message(), "error binding the listening socket");
    assert_eq!(
        ServerError::EchoIo.message(),
        "error while echoing bytes on the connection"
    );
}
