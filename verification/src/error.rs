//! Typed outcomes for the supervisor's fallible operations.

use crate::text::dec_string;
use crate::text::u64_to_string;
use vstd::prelude::*;
use vstd::string::*;

verus! {

/// The failures the supervisor core can report.
///
/// `OnDiskCorruption`: the PID file held something other than a decimal
/// `u32`; the state is unrecoverable at this layer.
/// `ZombieDetected`: the PID file named a process at scheduler start, so a
/// previous supervisor may have left its child running.
#[derive(Debug, Clone, Copy, PartialEq, Eq, Structural)]
pub enum SupervisorError {
    OnDiskCorruption,
    ZombieDetected { pid: u32 },
}

impl SupervisorError {
    /// The diagnostic for this failure; the zombie diagnostic names the
    /// offending PID and the `tor.pid` file that must be cleaned up.
    pub fn message(&self) -> (r: String)
        ensures
            *self is OnDiskCorruption ==> r@ == "Failed to parse PID."@,
            self matches SupervisorError::ZombieDetected { pid } ==> r@
                == "Failed to start scheduler. Potential zombie process found. This is caused by an unexpected shutdown. Please check PID `"@
                + dec_string(pid as nat)
                + "` is no longer running then delete 'tor.pid'."@,
    {
        match self {
            SupervisorError::OnDiskCorruption => "Failed to parse PID.".to_owned(),
            SupervisorError::ZombieDetected { pid } => {
                let mut r =
                    "Failed to start scheduler. Potential zombie process found. This is caused by an unexpected shutdown. Please check PID `".to_owned();
                let digits = u64_to_string(*pid as u64);
                r.append(digits.as_str());
                r.append("` is no longer running then delete 'tor.pid'.");
                r
            },
        }
    }
}

} // verus!
