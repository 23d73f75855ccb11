use echo_server::pool::{Pool, WorkerState};

#[test]
fn new_pool_is_all_idle() {
    let p = Pool::new(8);
    assert_eq!(p.workers.len(), 8);
    assert!(p.workers.iter().all(|w| *w == WorkerState::Idle));
    assert!(p.pending.is_empty());
}

#[test]
fn concurrent_connections_up_to_worker_count() {
    let mut p = Pool::new(8);
    let mut taken: Vec<u64> = Vec::new();
    for _ in 0..5 {
        p.arrive();
        let w = p.find_idle().expect("a worker must be idle below capacity");
        let id = p.dispatch(w, 0);
        taken.push(id);
    }
    // Five connections are in service at once, none waiting.
    let busy = p.workers.iter().filter(|w| matches!(w, WorkerState::Busy { .. })).count();
    assert_eq!(busy, 5);
    assert!(p.pending.is_empty());
    // Each is held by exactly one worker, and they are all distinct.
    for (i, a) in taken.iter().enumerate() {
        for b in taken.iter().skip(i + 1) {
            assert_ne!(a, b);
        }
    }
}

#[test]
fn dispatch_leaves_other_workers_alone() {
    let mut p = Pool::new(3);
    p.arrive();
    p.arrive();
    let first = p.dispatch(1, 0);
    let before = p.workers.clone();
    let second = p.dispatch(2, 0);
    assert_ne!(first, second);
    assert_eq!(p.workers[0], before[0]);
    assert_eq!(p.workers[1], before[1]);
    assert_eq!(p.workers[1], WorkerState::Busy { conn: first });
    assert_eq!(p.workers[2], WorkerState::Busy { conn: second });
}

#[test]
fn excess_attempts_stay_pending_until_a_worker_frees() {
    let mut p = Pool::new(2);
    let a = p.arrive();
    let b = p.arrive();
    let c = p.arrive();

    let w0 = p.find_idle().unwrap();
    assert_eq!(p.dispatch(w0, 0), a);
    let w1 = p.find_idle().unwrap();
    assert_eq!(p.dispatch(w1, 0), b);

    // The pool is full: the third attempt is not rejected, it waits.
    assert_eq!(p.find_idle(), None);
    assert_eq!(p.pending, vec![c]);

    // Once a worker finishes, the pending attempt is serviced.
    assert_eq!(p.finish(w0), a);
    let w = p.find_idle().expect("the finished worker is idle again");
    assert_eq!(p.dispatch(w, 0), c);
    assert!(p.pending.is_empty());
}

#[test]
fn finish_frees_only_that_worker() {
    let mut p = Pool::new(2);
    let a = p.arrive();
    let b = p.arrive();
    p.dispatch(0, 0);
    p.dispatch(1, 0);
    assert_eq!(p.finish(0), a);
    assert_eq!(p.workers[0], WorkerState::Idle);
    assert_eq!(p.workers[1], WorkerState::Busy { conn: b });
}

#[test]
fn connection_identities_are_never_reused() {
    let mut p = Pool::new(1);
    let a = p.arrive();
    p.dispatch(0, 0);
    p.finish(0);
    let b = p.arrive();
    assert_ne!(a, b);
}
