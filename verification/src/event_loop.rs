//! The decision logic of the supervising event loop.
//!
//! The loop runs once per tick. A tick first checks the termination flag;
//! if it is set the loop shuts down without touching the reload flag. An
//! ordinary tick respawns the job if it exited on its own — the crash check
//! deliberately precedes reload, since a dead process cannot be reloaded —
//! and then consumes the reload flag in a single swap, so concurrent reload
//! requests coalesce into at most one reload per tick and the flag is never
//! cleared without being acted on.
//!
//! The caller that owns the real clock, process table and file system drives
//! the loop: it observes the flags and the child, asks these functions what
//! to do, and performs the spawns, signals, waits and file writes.

use crate::command::Command;
use crate::command::spawn_args;
use crate::job::Job;
use crate::pid::Pid;
use crate::pid::lemma_reset_then_read;
use crate::pid::spec_read;
use crate::text::dec_string;
use vstd::prelude::*;

verus! {

/// What one tick decides to do, in order: respawn (crash recovery) first,
/// then reload.
#[derive(Debug, PartialEq, Eq, Structural)]
pub enum TickAction {
    Shutdown,
    Proceed { respawn: bool, reload: bool },
}

pub open spec fn tick_decision(terminate: bool, job_exited: bool, reload: bool) -> TickAction {
    if terminate {
        TickAction::Shutdown
    } else {
        TickAction::Proceed { respawn: job_exited, reload }
    }
}

/// The reload flag after a tick: untouched on shutdown, cleared otherwise.
pub open spec fn reload_flag_after_tick(terminate: bool, reload: bool) -> bool {
    if terminate {
        reload
    } else {
        false
    }
}

/// Consumes the reload flag in one swap: reports whether a reload was
/// requested and always leaves the flag false.
pub fn reload_requested(reload: &mut bool) -> (r: bool)
    ensures
        r == *old(reload),
        *final(reload) == false,
{
    let r = *reload;
    *reload = false;
    r
}

/// Reads the termination flag without changing it.
pub fn termination_requested(terminate: &bool) -> (r: bool)
    ensures
        r == *terminate,
{
    *terminate
}

/// One tick's decision, as `tick_decision` describes: termination overrides
/// everything and leaves the reload flag alone; otherwise the flag is
/// consumed.
pub fn plan_tick(terminate: &bool, job_exited: bool, reload: &mut bool) -> (a: TickAction)
    ensures
        a == tick_decision(*terminate, job_exited, *old(reload)),
        *final(reload) == reload_flag_after_tick(*terminate, *old(reload)),
{
    if termination_requested(terminate) {
        TickAction::Shutdown
    } else {
        let reload_now = reload_requested(reload);
        TickAction::Proceed { respawn: job_exited, reload: reload_now }
    }
}

/// A set reload flag is acted on at most once per tick and is false
/// afterwards; a set termination flag shuts the loop down without a reload
/// and leaves the flag as it was.
pub proof fn lemma_reload_is_coalesced(job_exited: bool)
    ensures
        tick_decision(false, job_exited, true) == (TickAction::Proceed {
            respawn: job_exited,
            reload: true,
        }),
        reload_flag_after_tick(false, true) == false,
        forall|reload: bool| #[trigger]
            tick_decision(true, job_exited, reload) == TickAction::Shutdown,
        forall|reload: bool| #[trigger] reload_flag_after_tick(true, reload) == reload,
{
}

/// Records the spawned child of `command`'s recipe as a started job and
/// reports its id for publication. Relies on the caller having spawned
/// exactly `command.create()`.
pub fn start_job(command: &Command, spawned_id: u32) -> (r: (Job, u32))
    ensures
        r.0.child_id() == Some(spawned_id),
        r.1 == spawned_id,
        r.0.command_spec().program@ == "setsid"@,
        r.0.command_spec().args.deep_view() == spawn_args(command@.program, command@.tor_rc),
{
    let recipe = command.create();
    let mut job = Job::new(recipe);
    job.start(spawned_id);
    (job, spawned_id)
}

/// Stops a job: afterwards no child remains; returns the child to signal
/// with SIGTERM and await.
pub fn stop_job(job: &mut Job) -> (id: u32)
    requires
        old(job).is_running(),
    ensures
        !final(job).is_running(),
        Some(id) == old(job).child_id(),
        final(job).command_spec() == old(job).command_spec(),
{
    job.stop()
}

/// Reloads a job in place: the child to signal with SIGHUP; the job and its
/// published id are unchanged.
pub fn reload_job(job: Job) -> (r: (Job, u32))
    requires
        job.is_running(),
    ensures
        r.0 == job,
        Some(r.1) == job.child_id(),
{
    let id = job.reload();
    (job, id)
}

/// Publishes a freshly spawned child's id in the PID file.
pub fn save_pid(pid: &mut Pid, id: u32)
    ensures
        final(pid)@.path == old(pid)@.path,
        final(pid)@.contents == Some(dec_string(id as nat)),
{
    pid.update(id);
}

/// Clears the PID file to the explicit zero sentinel on shutdown.
pub fn delete_pid(pid: &mut Pid)
    ensures
        final(pid)@.path == old(pid)@.path,
        final(pid)@.contents == Some(dec_string(0)),
        spec_read(final(pid)@.contents) == Ok::<Option<u32>, crate::error::SupervisorError>(
            Some(0u32),
        ),
{
    pid.reset();
    proof {
        lemma_reset_then_read();
    }
}

/// The shutdown path of the loop: stop the job, then clear the PID file.
/// Afterwards no child of the supervisor remains and the PID file reads as
/// zero. Returns the child to signal and await.
pub fn shutdown(job: &mut Job, pid: &mut Pid) -> (id: u32)
    requires
        old(job).is_running(),
    ensures
        !final(job).is_running(),
        Some(id) == old(job).child_id(),
        final(pid)@.path == old(pid)@.path,
        final(pid)@.contents == Some(dec_string(0)),
        spec_read(final(pid)@.contents) == Ok::<Option<u32>, crate::error::SupervisorError>(
            Some(0u32),
        ),
{
    let id = stop_job(job);
    delete_pid(pid);
    id
}

} // verus!
