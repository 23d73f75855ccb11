//! The lifecycle of one accepted connection.
//!
//! Each connection moves through `Accepted`, `Duplicating` (obtaining the
//! read and write handles), `Echoing`, and ends in `Closed` (the peer closed
//! the stream cleanly) or `Failed` (a handle could not be duplicated, or a
//! read or write failed). The lifecycle is strictly linear: no transition
//! leads back, and the two end phases are terminal.

use vstd::prelude::*;

verus! {

/// The phase a connection's handling is in.
#[derive(Clone, Copy, Debug, PartialEq, Eq, Structural)]
pub enum ConnPhase {
    /// The connection was accepted; nothing has been done with it yet.
    Accepted,
    /// The handler is obtaining a second handle for the write side.
    Duplicating,
    /// Bytes are being copied from the read side to the write side.
    Echoing,
    /// The peer closed the stream; the echo ended cleanly.
    Closed,
    /// Duplicating a handle failed, or a read or write failed.
    Failed,
}

/// The transitions a connection's handling may take.
pub open spec fn phase_steps_to(from: ConnPhase, to: ConnPhase) -> bool {
    match from {
        ConnPhase::Accepted => to is Duplicating,
        ConnPhase::Duplicating => to is Echoing || to is Failed,
        ConnPhase::Echoing => to is Echoing || to is Closed || to is Failed,
        ConnPhase::Closed => false,
        ConnPhase::Failed => false,
    }
}

/// The phases a connection's handling never leaves.
pub open spec fn phase_is_terminal(p: ConnPhase) -> bool {
    p is Closed || p is Failed
}

/// How far along its lifecycle a phase lies.
pub open spec fn phase_rank(p: ConnPhase) -> int {
    match p {
        ConnPhase::Accepted => 0,
        ConnPhase::Duplicating => 1,
        ConnPhase::Echoing => 2,
        ConnPhase::Closed => 3,
        ConnPhase::Failed => 3,
    }
}

/// Once a connection's handling is `Closed` or `Failed` it takes no further
/// transition: the end phases are terminal.
pub proof fn lemma_terminal_phases_final(p: ConnPhase, q: ConnPhase)
    requires
        phase_is_terminal(p),
    ensures
        !phase_steps_to(p, q),
{
}

/// The lifecycle is strictly linear: every transition keeps or advances the
/// phase's rank, and the only transition that keeps it is the echo loop
/// continuing to echo. No transition leads back.
pub proof fn lemma_lifecycle_linear(p: ConnPhase, q: ConnPhase)
    requires
        phase_steps_to(p, q),
    ensures
        phase_rank(p) <= phase_rank(q),
        p == q ==> p is Echoing,
        phase_rank(p) == phase_rank(q) ==> p == q,
{
}

} // verus!
