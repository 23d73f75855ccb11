use echo_server::error::ServerError;
use echo_server::startup::{
    on_accept_event, AcceptEvent, Startup, StartupPhase, WorkerStep, WORKER_COUNT,
};

#[test]
fn worker_count_meets_functional_minimum() {
    assert_eq!(WORKER_COUNT, 8);
    assert!(WORKER_COUNT >= 5);
}

#[test]
fn bind_failure_is_fatal_and_spawns_no_worker() {
    let mut st = Startup::new(WORKER_COUNT);
    let r = st.on_bind(false);
    assert_eq!(r, Err(ServerError::Bind));
    assert_eq!(st.phase, StartupPhase::Failed(ServerError::Bind));
    assert_eq!(st.spawned, 0);
    assert!(r.unwrap_err().is_fatal());
}

#[test]
fn full_startup_spawns_every_worker() {
    let mut st = Startup::new(WORKER_COUNT);
    assert_eq!(st.on_bind(true), Ok(()));
    for expected in 0..WORKER_COUNT {
        assert_eq!(st.on_worker_clone(true), Ok(expected));
    }
    assert_eq!(st.phase, StartupPhase::Running);
    assert_eq!(st.spawned, WORKER_COUNT);
}

#[test]
fn listener_clone_failure_aborts_startup() {
    let mut st = Startup::new(WORKER_COUNT);
    assert_eq!(st.on_bind(true), Ok(()));
    assert_eq!(st.on_worker_clone(true), Ok(0));
    assert_eq!(st.on_worker_clone(true), Ok(1));
    let r = st.on_worker_clone(false);
    assert_eq!(r, Err(ServerError::ListenerClone));
    assert_eq!(st.phase, StartupPhase::Failed(ServerError::ListenerClone));
    assert_eq!(st.spawned, 2);
    assert!(r.unwrap_err().is_fatal());
}

#[test]
fn accepted_connection_is_handled() {
    assert_eq!(on_accept_event(AcceptEvent::Accepted), WorkerStep::Handle);
}

#[test]
fn transient_accept_error_keeps_the_loop_going() {
    assert_eq!(
        on_accept_event(AcceptEvent::TransientError),
        WorkerStep::LogAndContinue(ServerError::Accept)
    );
}

#[test]
fn closed_listener_ends_the_loop() {
    assert_eq!(on_accept_event(AcceptEvent::ListenerClosed), WorkerStep::Exit);
}
