//! The listener pool: a fixed set of workers sharing one accept queue.
//!
//! A [`Pool`] models which connection, if any, each worker is servicing and
//! which accepted-but-unserviced connection attempts are still pending in
//! the transport's queue. Connection attempts are never rejected: an attempt
//! joins the pending queue and stays there until an idle worker takes it.
//! Workers are independent — taking or finishing a connection changes no
//! other worker — and no two workers ever hold the same connection.

use vstd::prelude::*;

verus! {

/// What one worker of the pool is doing.
#[derive(Clone, Copy, Debug, PartialEq, Eq, Structural)]
pub enum WorkerState {
    /// Blocked on accept, ready to service the next connection.
    Idle,
    /// Servicing the connection with this identity, accepting no other
    /// until it is fully serviced.
    Busy { conn: u64 },
}

/// How many of these workers are servicing a connection.
pub open spec fn busy_in(ws: Seq<WorkerState>) -> nat
    decreases ws.len(),
{
    if ws.len() == 0 {
        0
    } else {
        (if ws[0] is Busy { 1nat } else { 0nat }) + busy_in(ws.drop_first())
    }
}

/// No more workers are busy than there are workers.
pub proof fn lemma_busy_at_most_count(ws: Seq<WorkerState>)
    ensures
        busy_in(ws) <= ws.len(),
    decreases ws.len(),
{
    if ws.len() > 0 {
        lemma_busy_at_most_count(ws.drop_first());
    }
}

/// While fewer connections are in service than there are workers, some
/// worker is idle: an already-accepted connection never blocks the pool
/// from servicing another, up to the worker count.
pub proof fn lemma_idle_worker_exists(ws: Seq<WorkerState>)
    requires
        busy_in(ws) < ws.len(),
    ensures
        exists|w: int| 0 <= w < ws.len() && ws[w] is Idle,
    decreases ws.len(),
{
    if ws[0] is Idle {
        assert(0 <= 0 < ws.len() && ws[0] is Idle);
    } else {
        lemma_idle_worker_exists(ws.drop_first());
        let w = choose|w: int| 0 <= w < ws.drop_first().len() && ws.drop_first()[w] is Idle;
        assert(ws[w + 1] is Idle);
    }
}

/// When as many connections are in service as there are workers, every
/// worker is busy: no attempt can be taken until one of them finishes.
pub proof fn lemma_full_pool_all_busy(ws: Seq<WorkerState>)
    requires
        busy_in(ws) == ws.len(),
    ensures
        forall|w: int| 0 <= w < ws.len() ==> ws[w] is Busy,
    decreases ws.len(),
{
    if ws.len() > 0 {
        lemma_busy_at_most_count(ws.drop_first());
        lemma_full_pool_all_busy(ws.drop_first());
        assert forall|w: int| 0 <= w < ws.len() implies ws[w] is Busy by {
            if w > 0 {
                assert(ws.drop_first()[w - 1] is Busy);
            }
        }
    }
}

/// The listener pool and the transport's queue of pending attempts.
///
/// Connection identities are handed out in arrival order and never reused.
pub struct Pool {
    /// What each worker is doing.
    pub workers: Vec<WorkerState>,
    /// Accepted-but-unserviced connection attempts, in arrival order.
    pub pending: Vec<u64>,
    /// The identity the next arriving connection attempt will get.
    pub next_conn: u64,
}

impl Pool {
    /// Worker `w` is servicing connection `c`.
    pub open spec fn holds(self, w: int, c: u64) -> bool {
        self.workers@[w] matches WorkerState::Busy { conn } && conn == c
    }

    /// The pool's invariant: identities are in range and distinct, no
    /// connection is pending and in service at once, and no two workers
    /// service the same connection.
    pub open spec fn wf(self) -> bool {
        &&& self.workers@.len() >= 1
        &&& forall|w: int| 0 <= w < self.workers@.len()
            ==> (#[trigger] self.workers@[w] matches WorkerState::Busy { conn }
                ==> conn < self.next_conn)
        &&& forall|v: int, w: int|
            0 <= v < self.workers@.len() && 0 <= w < self.workers@.len() && v != w
                && #[trigger] self.workers@[v] is Busy && #[trigger] self.workers@[w] is Busy
                ==> self.workers@[v]->conn != self.workers@[w]->conn
        &&& forall|k: int| 0 <= k < self.pending@.len()
            ==> #[trigger] self.pending@[k] < self.next_conn
        &&& forall|k: int, l: int| 0 <= k < l < self.pending@.len()
            ==> self.pending@[k] != self.pending@[l]
        &&& forall|k: int, w: int|
            0 <= k < self.pending@.len() && 0 <= w < self.workers@.len()
                && #[trigger] self.workers@[w] is Busy
                ==> #[trigger] self.pending@[k] != self.workers@[w]->conn
    }

    /// Set up the pool: this many workers, all idle, nothing pending.
    pub fn new(worker_count: usize) -> (p: Pool)
        requires
            worker_count >= 1,
        ensures
            p.wf(),
            p.workers@.len() == worker_count,
            forall|w: int| 0 <= w < worker_count ==> p.workers@[w] is Idle,
            p.pending@ == Seq::<u64>::empty(),
            p.next_conn == 0,
    {
        let mut workers: Vec<WorkerState> = Vec::new();
        let mut i: usize = 0;
        while i < worker_count
            invariant
                i <= worker_count,
                workers@.len() == i,
                forall|w: int| 0 <= w < i ==> workers@[w] is Idle,
            decreases worker_count - i,
        {
            workers.push(WorkerState::Idle);
            i = i + 1;
        }
        Pool { workers, pending: Vec::new(), next_conn: 0 }
    }

    /// A connection attempt arrives. It is never rejected: it joins the
    /// pending queue — at the back, with a fresh identity — and every
    /// worker goes on exactly as it was.
    pub fn arrive(&mut self) -> (id: u64)
        requires
            old(self).wf(),
            old(self).next_conn < u64::MAX,
        ensures
            final(self).wf(),
            id == old(self).next_conn,
            final(self).workers@ == old(self).workers@,
            final(self).pending@ == old(self).pending@.push(id),
            final(self).next_conn == old(self).next_conn + 1,
    {
        let id = self.next_conn;
        self.pending.push(id);
        self.next_conn = self.next_conn + 1;
        id
    }

    /// An idle worker takes one pending connection attempt and becomes busy
    /// with it. Every other worker, and every other pending attempt, is
    /// left exactly as it was.
    pub fn dispatch(&mut self, w: usize, k: usize) -> (id: u64)
        requires
            old(self).wf(),
            w < old(self).workers@.len(),
            old(self).workers@[w as int] is Idle,
            k < old(self).pending@.len(),
        ensures
            final(self).wf(),
            id == old(self).pending@[k as int],
            final(self).workers@ == old(self).workers@.update(
                w as int,
                WorkerState::Busy { conn: id },
            ),
            final(self).pending@ == old(self).pending@.remove(k as int),
            final(self).next_conn == old(self).next_conn,
            final(self).holds(w as int, id),
    {
        let id = self.pending.remove(k);
        self.workers[w] = WorkerState::Busy { conn: id };
        proof {
            old(self).pending@.remove_ensures(k as int);
        }
        id
    }

    /// A worker finishes servicing its connection and becomes idle again,
    /// ready to accept. Every other worker, and the pending queue, is left
    /// exactly as it was. The finished identity is never reused.
    pub fn finish(&mut self, w: usize) -> (id: u64)
        requires
            old(self).wf(),
            w < old(self).workers@.len(),
            old(self).workers@[w as int] is Busy,
        ensures
            final(self).wf(),
            id == old(self).workers@[w as int]->conn,
            final(self).workers@ == old(self).workers@.update(w as int, WorkerState::Idle),
            final(self).pending@ == old(self).pending@,
            final(self).next_conn == old(self).next_conn,
    {
        let id = match self.workers[w] {
            WorkerState::Busy { conn } => conn,
            WorkerState::Idle => 0,
        };
        self.workers[w] = WorkerState::Idle;
        id
    }

    /// Look for an idle worker. `None` means every worker is busy, so a
    /// pending attempt must wait for one to finish.
    pub fn find_idle(&self) -> (r: Option<usize>)
        ensures
            r matches Some(w) ==> w < self.workers@.len() && self.workers@[w as int] is Idle,
            r is None ==> forall|w: int| 0 <= w < self.workers@.len()
                ==> self.workers@[w] is Busy,
    {
        let mut i: usize = 0;
        while i < self.workers.len()
            invariant
                i <= self.workers@.len(),
                forall|w: int| 0 <= w < i ==> self.workers@[w] is Busy,
            decreases self.workers@.len() - i,
        {
            match self.workers[i] {
                WorkerState::Idle => {
                    return Some(i);
                }
                WorkerState::Busy { .. } => {}
            }
            i = i + 1;
        }
        None
    }

    /// At most one worker ever holds a given connection: two distinct busy
    /// workers are servicing distinct connections.
    pub proof fn lemma_exclusive_ownership(self, v: int, w: int)
        requires
            self.wf(),
            0 <= v < self.workers@.len(),
            0 <= w < self.workers@.len(),
            v != w,
            self.workers@[v] is Busy,
            self.workers@[w] is Busy,
        ensures
            self.workers@[v]->conn != self.workers@[w]->conn,
    {
    }
}

} // verus!
