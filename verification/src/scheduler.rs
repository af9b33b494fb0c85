//! The scheduler: owner of the background event loop that supervises one
//! job, and of the two flags the loop polls.
//!
//! The zombie guard: `start` refuses to supervise while the PID file still
//! publishes a process, because a previous supervisor may have died without
//! stopping its child; remediation is manual. The flags are plain booleans
//! here; the caller that shares them between tasks holds them in atomics and
//! mirrors every change.

use crate::command::Command;
use crate::error::SupervisorError;
use vstd::prelude::*;

verus! {

pub struct SchedulerModel {
    pub pid_path: Seq<char>,
    pub reload: bool,
    pub terminate: bool,
    pub running: bool,
}

pub struct Scheduler {
    command: Command,
    pid_path: String,
    reload: bool,
    terminate: bool,
    running: bool,
}

impl View for Scheduler {
    type V = SchedulerModel;

    closed spec fn view(&self) -> SchedulerModel {
        SchedulerModel {
            pid_path: self.pid_path@,
            reload: self.reload,
            terminate: self.terminate,
            running: self.running,
        }
    }
}

impl Scheduler {
    /// The launch recipe the event loop spawns from.
    pub closed spec fn command_spec(&self) -> Command {
        self.command
    }

    /// A stopped scheduler with both flags clear.
    pub fn new(command: Command, pid_path: String) -> (r: Scheduler)
        ensures
            r@.pid_path == pid_path@,
            r@.reload == false,
            r@.terminate == false,
            r@.running == false,
            r.command_spec() == command,
    {
        Scheduler { command, pid_path, reload: false, terminate: false, running: false }
    }

    /// Starts supervising, unless the PID file already publishes a process:
    /// `published_pid` is what the PID file read. A published PID means a
    /// potential zombie child and aborts the start; nothing changes.
    pub fn start(&mut self, published_pid: Option<u32>) -> (r: Result<(), SupervisorError>)
        requires
            !old(self)@.running,
        ensures
            published_pid matches Some(p) ==> r == Err::<(), SupervisorError>(
                SupervisorError::ZombieDetected { pid: p },
            ) && final(self)@ == old(self)@,
            published_pid is None ==> r is Ok && final(self)@ == (SchedulerModel {
                running: true,
                ..old(self)@
            }),
            final(self).command_spec() == old(self).command_spec(),
    {
        match published_pid {
            Some(pid) => Err(SupervisorError::ZombieDetected { pid }),
            None => {
                self.running = true;
                Ok(())
            },
        }
    }

    /// Asks the running event loop to wind down: sets the termination flag
    /// and gives up the supervising state. The caller awaits the loop.
    pub fn stop(&mut self)
        requires
            old(self)@.running,
        ensures
            final(self)@ == (SchedulerModel { terminate: true, running: false, ..old(self)@ }),
            final(self).command_spec() == old(self).command_spec(),
    {
        self.terminate = true;
        self.running = false;
    }

    /// Asks the running event loop to reload the job: the next tick observes
    /// the flag.
    pub fn reload(&mut self)
        requires
            old(self)@.running,
        ensures
            final(self)@ == (SchedulerModel { reload: true, ..old(self)@ }),
            final(self).command_spec() == old(self).command_spec(),
    {
        self.reload = true;
    }

    /// Whether a background event loop is supervising.
    pub fn is_supervising(&self) -> (r: bool)
        ensures
            r == self@.running,
    {
        self.running
    }

    pub fn reload_flag(&self) -> (r: bool)
        ensures
            r == self@.reload,
    {
        self.reload
    }

    pub fn terminate_flag(&self) -> (r: bool)
        ensures
            r == self@.terminate,
    {
        self.terminate
    }

    /// The recipe, for the owner of the real process table.
    pub fn command(&self) -> (r: &Command)
        ensures
            *r == self.command_spec(),
    {
        &self.command
    }

    /// The path of the PID file this scheduler publishes through.
    pub fn pid_path(&self) -> (r: &String)
        ensures
            r@ == self@.pid_path,
    {
        &self.pid_path
    }
}

} // verus!
