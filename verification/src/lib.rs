//! The decisions of a process sandbox for judging untrusted programs.
//!
//! A sandbox runs one shell command inside an overlay root, under a bundle of
//! control groups that cap and measure time, memory and process count. This
//! crate holds every decision of that job and none of its system calls: a
//! caller carries out the requests that the state machines here hand out
//! (create a control group, write a control file, spawn, wait, signal) and
//! reports what came of them.
//!
//! A [`Sandbox`] is built in two steps, with the mount in between:
//! [`Sandbox::prepare`] looks at what was found on the host,
//! [`Sandbox::new`] takes the overlay over once it is mounted.
//! [`Sandbox::run`] runs a command to its [`SandboxStatus`], asking the
//! caller's `host` for each [`Request`] in turn. Under it lies the
//! [`Supervisor`]: `request` gives the next request, `step` takes the answer
//! in, `result` gives the outcome once there is nothing more to ask. The
//! killing of a bundle's tasks, [`KillAll`], works in the same way.
//!
//! What holds of every run, whatever the host answers, is proved in [`run`]:
//! a run ends after a bounded number of requests, waits no longer in all than
//! its time limit, the grace and the kill timeout, starts no child before the
//! bundle is ready, leaves no child and no bundle behind, and reports no
//! status that its own numbers do not bear out. What a run comes to on a host
//! on which everything works is proved in [`course`], the order of
//! classification in [`status`].

pub mod cgroup;
pub mod config;
pub mod course;
pub mod error;
pub mod host;
pub mod kill;
pub mod launch;
pub mod run;
pub mod sandbox;
pub mod status;
pub mod supervisor;

pub use cgroup::{SandboxCgroup, KILL_TIMEOUT_MS};
pub use config::{SandboxConfig, SandboxStdio};
pub use error::{Precondition, SandboxError};
pub use host::{
    freezer_state_file_name, Attribute, CgroupWrite, ChildWait, Controller, FreezerState, Request,
    Response,
};
pub use kill::{KillAll, KillStage, POLL_DELAY_MS};
pub use launch::{LaunchPlan, LaunchPlanView, LaunchStep, LaunchStepView, SandboxCommandExt};
pub use sandbox::{swap_accounting_file_name, HostProbe, OverlayMount, Sandbox};
pub use status::{
    ChildExit, Limits, SandboxStatus, SandboxStatusKind, GRACE_MS, LAUNCH_ABORTED,
};
pub use supervisor::{Findings, Phase, SetupStep, Supervisor};
