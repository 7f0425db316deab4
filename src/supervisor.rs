//! Ownership and shutdown of the worker process.
//!
//! The supervisor is generic over the handle type: whoever spawns the
//! process hands the handle over, and the supervisor decides when it is
//! given up for termination.
use vstd::prelude::*;

verus! {

/// Why a supervisor could not be built.
pub enum SpawnError {
    /// Neither place where the worker binary may live holds it.
    BinaryMissing,
    /// The operating system refused to start the binary.
    Refused(String),
    /// The spawning side went away without handing over a handle.
    HandoffLost,
}

/// Where the worker binary was found.
#[derive(PartialEq, Eq, Structural, Clone, Copy, Debug)]
pub enum WorkerLocation {
    /// The binary built next to the sources, for local debugging.
    DebugLocal,
    /// The binary shipped with the application.
    Packaged,
}

/// Picks the worker binary: the debug-local one when present, else the
/// packaged one; an error when neither is present.
pub fn select_worker_binary(debug_local_present: bool, packaged_present: bool) -> (r: Result<
    WorkerLocation,
    SpawnError,
>)
    ensures
        debug_local_present ==> r == Ok::<WorkerLocation, SpawnError>(WorkerLocation::DebugLocal),
        !debug_local_present && packaged_present ==> r == Ok::<WorkerLocation, SpawnError>(
            WorkerLocation::Packaged,
        ),
        !debug_local_present && !packaged_present ==> r == Err::<WorkerLocation, SpawnError>(
            SpawnError::BinaryMissing,
        ),
{
    if debug_local_present {
        Ok(WorkerLocation::DebugLocal)
    } else if packaged_present {
        Ok(WorkerLocation::Packaged)
    } else {
        Err(SpawnError::BinaryMissing)
    }
}

/// One termination step on the held handle: afterwards nothing is held, and
/// what was held (if anything) is handed out to be signalled and awaited.
pub open spec fn take_step<C>(held: Option<C>) -> (Option<C>, Option<C>) {
    (None, held)
}

/// Sole owner of the worker process handle.
pub struct Supervisor<C> {
    child: Option<C>,
}

impl<C> Supervisor<C> {
    /// The handle held, if the process has not been given up for termination.
    pub closed spec fn child(&self) -> Option<C> {
        self.child
    }

    /// Builds a supervisor from what the spawning side handed over: the
    /// handle, the spawn error, or nothing at all when the handoff was lost.
    pub fn from_handoff(received: Option<Result<C, SpawnError>>) -> (r: Result<Self, SpawnError>)
        ensures
            match received {
                Some(Ok(c)) => r matches Ok(s) && s.child() == Some(c),
                Some(Err(e)) => r matches Err(f) && f == e,
                None => r matches Err(f) && f == SpawnError::HandoffLost,
            },
    {
        match received {
            Some(Ok(c)) => Ok(Supervisor { child: Some(c) }),
            Some(Err(e)) => Err(e),
            None => Err(SpawnError::HandoffLost),
        }
    }

    /// Whether the handle is still held.
    pub fn is_running(&self) -> (r: bool)
        ensures
            r == self.child() is Some,
    {
        self.child.is_some()
    }

    /// Borrows the held handle, to query the process without giving it up;
    /// whatever the borrower leaves in it stays held.
    pub fn child_mut(&mut self) -> (r: Option<&mut C>)
        ensures
            match old(self).child() {
                None => r is None && final(self).child() is None,
                Some(c) => r matches Some(h) && *h == c && final(self).child() == Some(*final(h)),
            },
    {
        self.child.as_mut()
    }

    /// Gives up the handle for termination. After the first call nothing is
    /// held, so any later call hands out nothing and changes nothing.
    pub fn take_for_termination(&mut self) -> (r: Option<C>)
        ensures
            (final(self).child(), r) == take_step(old(self).child()),
    {
        let mut held: Option<C> = None;
        std::mem::swap(&mut held, &mut self.child);
        held
    }
}

/// Terminating a second time, or any number of times, hands out nothing and
/// leaves the supervisor as the first termination left it.
pub proof fn law_terminate_idempotent<C>(held: Option<C>, repeats: nat)
    ensures
        take_step(take_step(held).0).1 is None,
        take_step(take_step(held).0).0 == take_step(held).0,
        repeated_take(take_step(held).0, repeats) == (None::<C>, None::<C>),
    decreases repeats,
{
    if repeats > 0 {
        law_terminate_idempotent(held, (repeats - 1) as nat);
    }
}

/// Nothing held and nothing handed out after `n` more termination steps
/// from `held`.
pub open spec fn repeated_take<C>(held: Option<C>, n: nat) -> (Option<C>, Option<C>)
    decreases n,
{
    if n == 0 {
        (held, None)
    } else {
        take_step(repeated_take(held, (n - 1) as nat).0)
    }
}

/// The log text for a failed termination signal.
pub open spec fn kill_failed_text(e: Seq<char>) -> Seq<char> {
    "Failed to stop node: "@ + e
}

/// The log text for an observed exit status.
pub open spec fn exited_text(status: Seq<char>) -> Seq<char> {
    "Node exited: "@ + status
}

/// The log text for a failed wait on the process.
pub open spec fn wait_failed_text(e: Seq<char>) -> Seq<char> {
    "Failed to wait for node: "@ + e
}

/// The lines that record one termination: the signal's failure, if it
/// failed, then the exit status or the failure to observe it. Shutdown goes
/// on past either failure.
pub fn termination_lines(kill_error: Option<String>, exit: Result<String, String>) -> (r: Vec<
    String,
>)
    ensures
        r@.len() == if kill_error is Some { 2int } else { 1int },
        kill_error matches Some(e) ==> r@[0]@ == kill_failed_text(e@),
        exit matches Ok(s) ==> r@.last()@ == exited_text(s@),
        exit matches Err(e) ==> r@.last()@ == wait_failed_text(e@),
{
    let mut out: Vec<String> = Vec::new();
    if let Some(e) = kill_error {
        out.push(String::from_str("Failed to stop node: ").concat(e.as_str()));
    }
    match exit {
        Ok(s) => out.push(String::from_str("Node exited: ").concat(s.as_str())),
        Err(e) => out.push(String::from_str("Failed to wait for node: ").concat(e.as_str())),
    }
    out
}

/// The log text for an output channel that closed under a live process.
pub open spec fn channel_anomaly_text() -> Seq<char> {
    "Output channel closed while the node is still running"@
}

/// What to log when a reader or the collector finds its channel closed:
/// nothing once the process has exited, an anomaly line while it lives.
pub fn channel_closed_line(child_alive: bool) -> (r: Option<String>)
    ensures
        child_alive ==> (r matches Some(l) && l@ == channel_anomaly_text()),
        !child_alive ==> r is None,
{
    if child_alive {
        Some(String::from_str("Output channel closed while the node is still running"))
    } else {
        None
    }
}

} // verus!
