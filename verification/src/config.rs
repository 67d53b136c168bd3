use vstd::prelude::*;
use crate::status::Limits;

verus! {

/// Where a standard stream of the command goes.
#[derive(Debug, Clone, Copy, PartialEq, Eq, Structural)]
pub enum SandboxStdio {
    /// To the stream of the caller's own process.
    Inherit,
    /// Nowhere.
    Null,
    /// To an open file descriptor.
    Fd(i32),
}

/// What to run, and under which caps.
#[derive(Debug, PartialEq, Eq)]
pub struct SandboxConfig {
    /// The command, as handed to the shell.
    pub command: String,
    /// Time limit in milliseconds.
    pub time_limit: u64,
    /// Memory limit in bytes.
    pub memory_limit: u64,
    /// Largest number of tasks.
    pub pids_limit: u16,
    /// The command's standard input.
    pub stdin: SandboxStdio,
    /// The command's standard output.
    pub stdout: SandboxStdio,
    /// The command's standard error.
    pub stderr: SandboxStdio,
}

impl SandboxConfig {
    /// Makes a configuration of its seven parts.
    pub fn new(
        time_limit: u64,
        memory_limit: u64,
        pids_limit: u16,
        command: &str,
        stdin: SandboxStdio,
        stdout: SandboxStdio,
        stderr: SandboxStdio,
    ) -> (config: SandboxConfig)
        ensures
            config.time_limit == time_limit,
            config.memory_limit == memory_limit,
            config.pids_limit == pids_limit,
            config.command@ == command@,
            config.stdin == stdin,
            config.stdout == stdout,
            config.stderr == stderr,
    {
        SandboxConfig {
            time_limit,
            memory_limit,
            pids_limit,
            command: command.to_owned(),
            stdin,
            stdout,
            stderr,
        }
    }

    /// The three caps.
    pub open spec fn caps(self) -> Limits {
        Limits {
            time_limit: self.time_limit,
            memory_limit: self.memory_limit,
            pids_limit: self.pids_limit,
        }
    }

    /// Gives the three caps.
    pub fn limits(&self) -> (limits: Limits)
        ensures
            limits == self.caps(),
    {
        Limits {
            time_limit: self.time_limit,
            memory_limit: self.memory_limit,
            pids_limit: self.pids_limit,
        }
    }
}

} // verus!
