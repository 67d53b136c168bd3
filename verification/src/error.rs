use vstd::prelude::*;

verus! {

/// What a sandbox needs of the host before it can be built.
#[derive(Debug, Clone, Copy, PartialEq, Eq, Structural)]
pub enum Precondition {
    /// The memory controller accounts swap (`cgroup_enable=memory swapaccount=1`).
    SwapAccounting,
    /// The read-only root image exists.
    RootfsDirectory,
    /// The writable upper directory exists.
    WorkDirectory,
    /// The mount point exists.
    SandboxDirectory,
    /// The three directories are three different paths.
    DistinctDirectories,
}

/// Why building or running a sandbox failed.
#[derive(Debug, Clone, Copy, PartialEq, Eq, Structural)]
pub enum SandboxError {
    /// The host or the directories do not meet a precondition.
    PreconditionFailed(Precondition),
    /// The overlay could not be mounted.
    MountFailed,
    /// A control group could not be created, read or written.
    CgroupFailed,
    /// The child could not be started.
    SpawnFailed,
    /// Tasks were left in the control group when the time to kill them ran out.
    KillFailed,
    /// The launcher gave up before the command ran, or the host answered a
    /// request with something that is no answer to it.
    Internal,
}

impl SandboxError {
    /// What the error says, in words.
    pub open spec fn text(self) -> Seq<char> {
        match self {
            SandboxError::PreconditionFailed(Precondition::SwapAccounting) =>
                "Need \"cgroup_enable=memory swapaccount=1\" kernel parameter"@,
            SandboxError::PreconditionFailed(Precondition::RootfsDirectory) =>
                "Rootfs directory Not Found!"@,
            SandboxError::PreconditionFailed(Precondition::WorkDirectory) =>
                "Work directory Not Found!"@,
            SandboxError::PreconditionFailed(Precondition::SandboxDirectory) =>
                "Sandbox directory Not Found!"@,
            SandboxError::PreconditionFailed(Precondition::DistinctDirectories) =>
                "Rootfs, work and sandbox directory must be three different paths"@,
            SandboxError::MountFailed => "Failed to mount the overlay"@,
            SandboxError::CgroupFailed => "Failed to create, read or write a cgroup"@,
            SandboxError::SpawnFailed => "Failed to start the child"@,
            SandboxError::KillFailed => "Failed to kill all task(s)"@,
            SandboxError::Internal => "Failed to run command"@,
        }
    }

    /// Gives what the error says, in words.
    pub fn message(&self) -> (message: &'static str)
        ensures
            message@ == self.text(),
    {
        match self {
            SandboxError::PreconditionFailed(Precondition::SwapAccounting) =>
                "Need \"cgroup_enable=memory swapaccount=1\" kernel parameter",
            SandboxError::PreconditionFailed(Precondition::RootfsDirectory) =>
                "Rootfs directory Not Found!",
            SandboxError::PreconditionFailed(Precondition::WorkDirectory) =>
                "Work directory Not Found!",
            SandboxError::PreconditionFailed(Precondition::SandboxDirectory) =>
                "Sandbox directory Not Found!",
            SandboxError::PreconditionFailed(Precondition::DistinctDirectories) =>
                "Rootfs, work and sandbox directory must be three different paths",
            SandboxError::MountFailed => "Failed to mount the overlay",
            SandboxError::CgroupFailed => "Failed to create, read or write a cgroup",
            SandboxError::SpawnFailed => "Failed to start the child",
            SandboxError::KillFailed => "Failed to kill all task(s)",
            SandboxError::Internal => "Failed to run command",
        }
    }
}

} // verus!
