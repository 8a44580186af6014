use vstd::prelude::*;

use crate::launch::decimal;
use crate::launch::push_decimal;

verus! {

/// What can go wrong while supervising the backend.
#[derive(Debug)]
pub enum SupervisorError {
    /// The workspace or the packaged executable's location could not be determined.
    Resolution { detail: String },
    /// Spawning the backend failed.
    Launch { command: String, os_error: String },
    /// The packaged executable could not be made executable.
    Permission { path: String, os_error: String },
    /// The termination signal could not be delivered.
    Kill { pid: u32, os_error: String },
    /// The killed process could not be reaped.
    Wait { pid: u32, os_error: String },
}

impl SupervisorError {
    /// The human-readable text of the error.
    pub open spec fn message_spec(&self) -> Seq<char> {
        match self {
            SupervisorError::Resolution { detail } =>
                "Failed to resolve workspace: "@ + detail@,
            SupervisorError::Launch { command, os_error } =>
                "Failed to start backend ("@ + command@ + "): "@ + os_error@,
            SupervisorError::Permission { path, os_error } =>
                "Failed to make "@ + path@ + " executable: "@ + os_error@,
            SupervisorError::Kill { pid, os_error } =>
                "Failed to kill backend process (PID: "@ + decimal(*pid as nat) + "): "@
                    + os_error@,
            SupervisorError::Wait { pid, os_error } =>
                "Failed to wait for backend process (PID: "@ + decimal(*pid as nat) + "): "@
                    + os_error@,
        }
    }

    /// The human-readable text of the error, naming what was attempted and the
    /// underlying system error.
    pub fn message(&self) -> (r: String)
        ensures
            r@ == self.message_spec(),
    {
        let mut r = String::new();
        match self {
            SupervisorError::Resolution { detail } => {
                r.append("Failed to resolve workspace: ");
                r.append(detail.as_str());
            },
            SupervisorError::Launch { command, os_error } => {
                r.append("Failed to start backend (");
                r.append(command.as_str());
                r.append("): ");
                r.append(os_error.as_str());
            },
            SupervisorError::Permission { path, os_error } => {
                r.append("Failed to make ");
                r.append(path.as_str());
                r.append(" executable: ");
                r.append(os_error.as_str());
            },
            SupervisorError::Kill { pid, os_error } => {
                r.append("Failed to kill backend process (PID: ");
                push_decimal(&mut r, *pid);
                r.append("): ");
                r.append(os_error.as_str());
            },
            SupervisorError::Wait { pid, os_error } => {
                r.append("Failed to wait for backend process (PID: ");
                push_decimal(&mut r, *pid);
                r.append("): ");
                r.append(os_error.as_str());
            },
        }
        assert(r@ =~= self.message_spec());
        r
    }
}

} // verus!
