//! The lifecycle store and the decisions of the supervisor's operations.
//!
//! A `Supervisor` holds at most one recorded child (by process id) and the
//! port bound to the current or most recent child. The four operations —
//! start, stop, status, restart — are decision steps over this store; the
//! embedding application performs the operating-system work between them
//! (spawning, signalling, sleeping, probing ports) and feeds the outcomes in.
//!
//! A start first asks `existing_start_status`: when a child is already
//! recorded it only reports, and nothing is spawned. Otherwise the caller
//! locates the payload and interpreter (`paths`), allocates a port
//! (`ports`), spawns with the arguments of `launch`, and on success records
//! the child with `record_start` — the recorded port is not rolled back when
//! the readiness probe later times out. A stop takes the recorded child out
//! of the store with `take_child` (so concurrent stops cannot double-stop
//! the same handle) and the caller then terminates it; a stop with no child
//! recorded is a no-op success. A restart is a stop, a settle delay, and a
//! start.

use vstd::prelude::*;
use crate::ports::DEFAULT_PORT;
use crate::status::ServerStatus;
use crate::status::make_status;
use crate::status::status_wf;

verus! {

/// How long a restart settles between the stop and the start, and a stop
/// waits between the graceful signal and the forced kill, in milliseconds.
pub const SETTLE_DELAY_MS: u64 = 500;

/// The process-wide lifecycle store: at most one live child, and the port
/// bound to the current or most recent one.
#[derive(Debug)]
pub struct Supervisor {
    /// The recorded child's process id, or none when stopped.
    pub child: Option<u32>,
    /// The port of the most recent start, or the default before any.
    pub port: u16,
}

/// The store after a start recorded a freshly spawned child.
pub open spec fn after_record(s: Supervisor, pid: u32, port: u16) -> Supervisor {
    Supervisor { child: Some(pid), port: port }
}

/// The store after a stop took the child out.
pub open spec fn after_take(s: Supervisor) -> Supervisor {
    Supervisor { child: None, port: s.port }
}

/// The running flag a status reports: a child is recorded and its port was
/// observed occupied.
pub open spec fn status_running(s: Supervisor, port_occupied: bool) -> bool {
    s.child is Some && port_occupied
}

/// The snapshot a successful start returns: running, on `port`, with the
/// derived URL and no diagnostic.
pub open spec fn started_status(st: ServerStatus, port: u16) -> bool {
    &&& st.running
    &&& st.port == port
    &&& status_wf(st)
}

impl Supervisor {
    /// A fresh store: no child recorded, the default port.
    pub fn new() -> (s: Self)
        ensures
            s.child is None,
            s.port == DEFAULT_PORT,
    {
        Supervisor { child: None, port: DEFAULT_PORT }
    }
}

/// The idempotence check a start begins with: when a child is already
/// recorded, the status to report instead of spawning a second child —
/// reported optimistically as running, on the recorded port. None exactly
/// when no child is recorded and the start must go on to spawn.
pub fn existing_start_status(sup: &Supervisor) -> (r: Option<ServerStatus>)
    ensures
        (r is Some) <==> (sup.child is Some),
        r matches Some(st) ==> started_status(st, sup.port),
{
    if sup.child.is_some() {
        Some(make_status(true, sup.port))
    } else {
        None
    }
}

/// Records a freshly spawned child and the port allocated for it, and builds
/// the snapshot the start returns. The store must be empty: the caller
/// checked `existing_start_status` under the same critical section.
pub fn record_start(sup: &mut Supervisor, pid: u32, port: u16) -> (st: ServerStatus)
    requires
        old(sup).child is None,
    ensures
        *final(sup) == after_record(*old(sup), pid, port),
        started_status(st, port),
{
    sup.child = Some(pid);
    sup.port = port;
    make_status(true, port)
}

/// Takes the recorded child out of the store, handing its process id to the
/// caller for termination. The port stays: it reflects the most recent
/// start. With no child recorded, nothing changes and there is nothing to
/// terminate — a stop is then a no-op success.
pub fn take_child(sup: &mut Supervisor) -> (r: Option<u32>)
    ensures
        r == old(sup).child,
        *final(sup) == after_take(*old(sup)),
{
    let r = sup.child;
    sup.child = None;
    r
}

/// The read-only status snapshot: never mutates the store. `port_occupied`
/// is the caller's observation of the stored port, so a crashed child —
/// handle still recorded, port freed — is reported as not running.
pub fn get_server_status(sup: &Supervisor, port_occupied: bool) -> (st: ServerStatus)
    ensures
        st.running == status_running(*sup, port_occupied),
        st.port == sup.port,
        status_wf(st),
{
    let recorded = sup.child.is_some();
    make_status(recorded && port_occupied, sup.port)
}

/// Idempotent start: once a start has recorded a child, a second start
/// without an intervening stop finds the child recorded, so it only reports
/// and spawns nothing; and the status it reports is identical in running
/// flag, port and URL to the one the first start returned.
pub proof fn lemma_start_idempotent(
    s: Supervisor,
    pid: u32,
    port: u16,
    st1: ServerStatus,
    st2: ServerStatus,
)
    requires
        s.child is None,
        started_status(st1, port),
        started_status(st2, after_record(s, pid, port).port),
    ensures
        after_record(s, pid, port).child is Some,
        st2.running == st1.running,
        st2.port == st1.port,
        st2.url@ == st1.url@,
{
}

/// Idempotent stop: taking the child out of a store that records none
/// leaves the store exactly as it was, and hands the caller nothing to
/// terminate.
pub proof fn lemma_stop_idempotent(s: Supervisor)
    requires
        s.child is None,
    ensures
        after_take(s) == s,
{
}

/// Status consistency: a snapshot reports running only when the recorded
/// port was observed occupied, and a snapshot that reports not running had
/// either no child recorded or the port unoccupied.
pub proof fn lemma_status_consistency(s: Supervisor, port_occupied: bool)
    ensures
        status_running(s, port_occupied) ==> port_occupied,
        !status_running(s, port_occupied) ==> (s.child is None || !port_occupied),
{
}

/// Restart composition: a stop followed by a start that records a child on a
/// freshly allocated port — which may differ from the port before the
/// restart — leaves a store whose status, with the port observed occupied,
/// reports running on that new port.
pub proof fn lemma_restart_reports_running(s: Supervisor, pid: u32, port: u16)
    ensures
        status_running(after_record(after_take(s), pid, port), true),
        after_record(after_take(s), pid, port).port == port,
{
}

} // verus!
