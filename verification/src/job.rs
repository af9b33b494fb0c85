//! One supervised child process, as a state machine over its identity.
//!
//! The job is `Idle` (no child) or `Running` (child spawned, id known). The
//! caller that owns the real process table performs the spawn, the signals
//! and the exit wait; the `Job` records the transitions, and its contracts
//! rule out the misuse the supervisor treats as a programming error:
//! starting a running job, or stopping and reloading an idle one.

use crate::command::SpawnRecipe;
use vstd::prelude::*;

verus! {

pub struct Job {
    command: SpawnRecipe,
    child: Option<u32>,
}

impl Job {
    /// The id of the running child, if any.
    pub closed spec fn child_id(&self) -> Option<u32> {
        self.child
    }

    pub open spec fn is_running(&self) -> bool {
        self.child_id() is Some
    }

    /// The recipe this job spawns from.
    pub closed spec fn command_spec(&self) -> SpawnRecipe {
        self.command
    }

    /// A job that has not been started.
    pub fn new(command: SpawnRecipe) -> (r: Job)
        ensures
            !r.is_running(),
            r.command_spec() == command,
    {
        Job { command, child: None }
    }

    /// Records the child that spawning the recipe produced.
    pub fn start(&mut self, id: u32)
        requires
            !old(self).is_running(),
        ensures
            final(self).child_id() == Some(id),
            final(self).command_spec() == old(self).command_spec(),
    {
        self.child = Some(id);
    }

    /// Stops the job: returns the child to signal with SIGTERM and await;
    /// afterwards no child remains.
    pub fn stop(&mut self) -> (id: u32)
        requires
            old(self).is_running(),
        ensures
            !final(self).is_running(),
            Some(id) == old(self).child_id(),
            final(self).command_spec() == old(self).command_spec(),
    {
        let id = match self.child {
            Some(id) => id,
            None => unreached(),
        };
        self.child = None;
        id
    }

    /// Reloads the running job: returns the child to signal with SIGHUP; the
    /// child's identity does not change.
    pub fn reload(&self) -> (id: u32)
        requires
            self.is_running(),
        ensures
            Some(id) == self.child_id(),
    {
        match self.child {
            Some(id) => id,
            None => unreached(),
        }
    }

    /// The process id of the running child, or `None` when idle.
    pub fn id(&self) -> (r: Option<u32>)
        ensures
            r == self.child_id(),
    {
        self.child
    }

    /// The recipe, for the owner of the real process table to spawn from.
    pub fn command(&self) -> (r: &SpawnRecipe)
        ensures
            *r == self.command_spec(),
    {
        &self.command
    }
}

} // verus!
