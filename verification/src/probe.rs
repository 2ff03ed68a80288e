//! The probe's phase sequencing, as a state machine.
//!
//! A probe is a linear session: synthesize the payload, write it to the
//! scratch path, read the path back as text, remove the path, and report
//! the two measured durations.  The filesystem work and the timing are an
//! unverified driver's job; this module decides, from the current state
//! and the outcome of the last action, which action comes next and how
//! the probe ends.  Every failure ends the probe at once, tagged with the
//! phase that produced it, and success is reached only after the scratch
//! path has been removed.

use vstd::prelude::*;

use crate::payload::payload_bytes;
use crate::payload::synthesize_payload;

verus! {

/// The phase of a probe in which a filesystem operation can fail.
#[derive(Clone, Copy, Debug, PartialEq, Eq, Structural)]
pub enum ProbePhase {
    /// Writing the payload to the scratch path.
    Write,
    /// Reading the scratch path back as text.
    Read,
    /// Removing the scratch path.
    Remove,
}

/// An unrecovered filesystem failure, tagged with the phase that
/// produced it.
#[derive(Clone, Copy, Debug, PartialEq, Eq, Structural)]
pub struct IoFailure {
    pub phase: ProbePhase,
}

/// The outcome of a finished probe: the elapsed wall-clock durations of
/// the write and of the read, in nanoseconds.
#[derive(Clone, Copy, Debug, PartialEq, Eq, Structural)]
pub struct ProbeResult {
    pub write_nanos: u64,
    pub read_nanos: u64,
}

/// One probe's immutable input: the number of growth steps for the
/// payload and the size of the zeroed seed buffer, both in bytes.
#[derive(Clone, Copy, Debug, PartialEq, Eq, Structural)]
pub struct ProbeRequest {
    pub total_size: usize,
    pub chunk_size: usize,
}

impl ProbeRequest {
    /// A request is valid when both sizes are positive and the payload
    /// length `chunk_size + total_size - 1` is representable.
    pub open spec fn valid(self) -> bool {
        &&& 1 <= self.total_size
        &&& 1 <= self.chunk_size
        &&& self.chunk_size + self.total_size - 1 <= usize::MAX
    }

    /// The length of the payload this request synthesizes.
    pub open spec fn payload_len(self) -> int {
        self.chunk_size + self.total_size - 1
    }

    /// Packs the two sizes of a probe into a request.  A target size of
    /// zero is rejected here, as a violated precondition, rather than
    /// producing an empty payload.
    pub fn new(total_size: usize, chunk_size: usize) -> (r: Self)
        requires
            1 <= total_size,
            1 <= chunk_size,
            chunk_size + total_size - 1 <= usize::MAX,
        ensures
            r.total_size == total_size,
            r.chunk_size == chunk_size,
            r.valid(),
    {
        ProbeRequest { total_size, chunk_size }
    }

    /// The payload this request asks the driver to write.
    pub fn payload(&self) -> (r: Vec<u8>)
        requires
            self.valid(),
        ensures
            r@ == payload_bytes(self.total_size as int, self.chunk_size as int),
            r@.len() == self.payload_len(),
    {
        synthesize_payload(self.total_size, self.chunk_size)
    }
}

/// Where a probe stands between two driver actions.
#[derive(Clone, Copy, Debug, PartialEq, Eq, Structural)]
pub enum ProbeState {
    /// No action has been requested yet.
    Idle,
    /// The write of the payload has been requested.
    AwaitingWrite,
    /// The write succeeded; the read back has been requested.
    AwaitingRead { write_nanos: u64 },
    /// The read succeeded; the removal of the scratch path has been
    /// requested.
    AwaitingRemove { write_nanos: u64, read_nanos: u64 },
    /// The probe finished: write, read and removal all succeeded.
    DoneOk { result: ProbeResult },
    /// The probe ended at its first failure.
    DoneFailed { failure: IoFailure },
}

/// What the driver must do next.
#[derive(Clone, Copy, Debug, PartialEq, Eq, Structural)]
pub enum ProbeAction {
    /// Write the request's payload to the scratch path, timing the call.
    PerformWrite,
    /// Read the scratch path back as text, timing the call.
    PerformRead,
    /// Remove the scratch path.
    PerformRemove,
    /// The probe is over; report the outcome held in the state.
    Stop,
}

/// What the driver reports back: the start of the probe, or the outcome
/// of the action it just performed.
#[derive(Clone, Copy, Debug, PartialEq, Eq, Structural)]
pub enum ProbeEvent {
    /// The probe begins.
    Begin,
    /// The write succeeded in the given elapsed time.
    WriteFinished { nanos: u64 },
    /// The write could not complete.
    WriteFailed,
    /// The read succeeded in the given elapsed time.
    ReadFinished { nanos: u64 },
    /// The read could not complete, or the content was not valid text.
    ReadFailed,
    /// The scratch path was removed.
    RemoveFinished,
    /// The scratch path could not be removed.
    RemoveFailed,
}

/// Whether `e` is an event the driver can report in state `s`: each
/// state accepts exactly the outcomes of the action it is awaiting.
pub open spec fn accepts(s: ProbeState, e: ProbeEvent) -> bool {
    match s {
        ProbeState::Idle => e is Begin,
        ProbeState::AwaitingWrite => e is WriteFinished || e is WriteFailed,
        ProbeState::AwaitingRead { .. } => e is ReadFinished || e is ReadFailed,
        ProbeState::AwaitingRemove { .. } => e is RemoveFinished || e is RemoveFailed,
        ProbeState::DoneOk { .. } => false,
        ProbeState::DoneFailed { .. } => false,
    }
}

/// The state after event `e` arrives in state `s`.  An event that `s`
/// does not accept leaves the state unchanged.
pub open spec fn step_state(s: ProbeState, e: ProbeEvent) -> ProbeState {
    match s {
        ProbeState::Idle => match e {
            ProbeEvent::Begin => ProbeState::AwaitingWrite,
            _ => s,
        },
        ProbeState::AwaitingWrite => match e {
            ProbeEvent::WriteFinished { nanos } => ProbeState::AwaitingRead { write_nanos: nanos },
            ProbeEvent::WriteFailed => ProbeState::DoneFailed {
                failure: IoFailure { phase: ProbePhase::Write },
            },
            _ => s,
        },
        ProbeState::AwaitingRead { write_nanos } => match e {
            ProbeEvent::ReadFinished { nanos } => ProbeState::AwaitingRemove {
                write_nanos,
                read_nanos: nanos,
            },
            ProbeEvent::ReadFailed => ProbeState::DoneFailed {
                failure: IoFailure { phase: ProbePhase::Read },
            },
            _ => s,
        },
        ProbeState::AwaitingRemove { write_nanos, read_nanos } => match e {
            ProbeEvent::RemoveFinished => ProbeState::DoneOk {
                result: ProbeResult { write_nanos, read_nanos },
            },
            ProbeEvent::RemoveFailed => ProbeState::DoneFailed {
                failure: IoFailure { phase: ProbePhase::Remove },
            },
            _ => s,
        },
        _ => s,
    }
}

/// The action the driver must perform after event `e` arrives in state
/// `s`: the one the successor state is awaiting, or `Stop` when the
/// probe is over.
pub open spec fn step_action(s: ProbeState, e: ProbeEvent) -> ProbeAction {
    match step_state(s, e) {
        ProbeState::AwaitingWrite => ProbeAction::PerformWrite,
        ProbeState::AwaitingRead { .. } => ProbeAction::PerformRead,
        ProbeState::AwaitingRemove { .. } => ProbeAction::PerformRemove,
        _ => ProbeAction::Stop,
    }
}

/// Advances a probe by one event: returns the successor state and the
/// action the driver must perform next.
pub fn probe_step(s: ProbeState, e: ProbeEvent) -> (r: (ProbeState, ProbeAction))
    requires
        accepts(s, e),
    ensures
        r.0 == step_state(s, e),
        r.1 == step_action(s, e),
{
    let next = match s {
        ProbeState::Idle => match e {
            ProbeEvent::Begin => ProbeState::AwaitingWrite,
            _ => s,
        },
        ProbeState::AwaitingWrite => match e {
            ProbeEvent::WriteFinished { nanos } => ProbeState::AwaitingRead { write_nanos: nanos },
            ProbeEvent::WriteFailed => ProbeState::DoneFailed {
                failure: IoFailure { phase: ProbePhase::Write },
            },
            _ => s,
        },
        ProbeState::AwaitingRead { write_nanos } => match e {
            ProbeEvent::ReadFinished { nanos } => ProbeState::AwaitingRemove {
                write_nanos,
                read_nanos: nanos,
            },
            ProbeEvent::ReadFailed => ProbeState::DoneFailed {
                failure: IoFailure { phase: ProbePhase::Read },
            },
            _ => s,
        },
        ProbeState::AwaitingRemove { write_nanos, read_nanos } => match e {
            ProbeEvent::RemoveFinished => ProbeState::DoneOk {
                result: ProbeResult { write_nanos, read_nanos },
            },
            ProbeEvent::RemoveFailed => ProbeState::DoneFailed {
                failure: IoFailure { phase: ProbePhase::Remove },
            },
            _ => s,
        },
        _ => s,
    };
    let action = match next {
        ProbeState::AwaitingWrite => ProbeAction::PerformWrite,
        ProbeState::AwaitingRead { .. } => ProbeAction::PerformRead,
        ProbeState::AwaitingRemove { .. } => ProbeAction::PerformRemove,
        _ => ProbeAction::Stop,
    };
    (next, action)
}

/// A probe whose write, read and removal all succeed ends in success,
/// carrying exactly the two durations that were measured.
pub proof fn lemma_successful_run(w: u64, r: u64)
    ensures
        ({
            let s1 = step_state(ProbeState::Idle, ProbeEvent::Begin);
            let s2 = step_state(s1, ProbeEvent::WriteFinished { nanos: w });
            let s3 = step_state(s2, ProbeEvent::ReadFinished { nanos: r });
            let s4 = step_state(s3, ProbeEvent::RemoveFinished);
            s4 == (ProbeState::DoneOk { result: ProbeResult { write_nanos: w, read_nanos: r } })
        }),
{
}

/// Success is reached only by the removal of the scratch path
/// succeeding: after a successful probe the scratch path no longer
/// exists.
pub proof fn lemma_success_implies_removed(s: ProbeState, e: ProbeEvent)
    requires
        accepts(s, e),
        step_state(s, e) is DoneOk,
    ensures
        s is AwaitingRemove,
        e is RemoveFinished,
{
}

/// A failed write ends the probe at once with a write-tagged failure
/// and no further action: the read phase is never attempted.
pub proof fn lemma_write_failure_stops()
    ensures
        step_state(ProbeState::AwaitingWrite, ProbeEvent::WriteFailed) == (ProbeState::DoneFailed {
            failure: IoFailure { phase: ProbePhase::Write },
        }),
        step_action(ProbeState::AwaitingWrite, ProbeEvent::WriteFailed) == ProbeAction::Stop,
{
}

/// A read is requested only right after a successful write.
pub proof fn lemma_read_only_after_write(s: ProbeState, e: ProbeEvent)
    requires
        accepts(s, e),
        step_action(s, e) == ProbeAction::PerformRead,
    ensures
        s is AwaitingWrite,
        e is WriteFinished,
{
}

/// Every failure carries the phase whose operation failed.
pub proof fn lemma_failure_tagged(s: ProbeState, e: ProbeEvent)
    requires
        accepts(s, e),
        step_state(s, e) is DoneFailed,
    ensures
        s is AwaitingWrite ==> step_state(s, e)->failure.phase == ProbePhase::Write,
        s is AwaitingRead ==> step_state(s, e)->failure.phase == ProbePhase::Read,
        s is AwaitingRemove ==> step_state(s, e)->failure.phase == ProbePhase::Remove,
{
}

} // verus!
