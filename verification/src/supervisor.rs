use vstd::prelude::*;
use crate::cgroup::{setup_writes, SandboxCgroup, KILL_TIMEOUT_MS};
use crate::error::SandboxError;
use crate::host::{Attribute, CgroupWrite, ChildWait, Request, Response};
use crate::kill::{KillAll, POLL_DELAY_MS};
use crate::launch::LaunchPlan;
use crate::status::{judge, verdict, ChildExit, Limits, SandboxStatus, LAUNCH_ABORTED};

verus! {

/// One of the writes that make a fresh bundle ready, in their order.
#[derive(Debug, Clone, Copy, PartialEq, Eq, Structural)]
pub enum SetupStep {
    /// The memory peak is set to zero.
    ClearPeak,
    /// The processor time is set to zero.
    ClearCpu,
    /// Memory is capped.
    CapMemory,
    /// Memory with swap is capped.
    CapSwap,
    /// The number of tasks is capped.
    CapPids,
}

/// What was seen of a run before its tasks were killed.
#[derive(Debug, Clone, Copy, PartialEq, Eq, Structural)]
pub struct Findings {
    /// The deadline came before the child ended or the bundle emptied.
    pub timed_out: bool,
    /// Processor time of all tasks, in nanoseconds.
    pub cpu_ns: u64,
    /// How the child ended.
    pub exit: ChildExit,
}

/// Where a run stands.
#[derive(Debug, Clone, Copy, PartialEq, Eq)]
pub enum Phase {
    /// The bundle is being created.
    Create,
    /// The bundle is being made ready, one write at a time.
    Program(SetupStep),
    /// The child is being started.
    Spawn,
    /// Waiting on the child, for one poll delay at most.
    Wait {
        /// Milliseconds left until the deadline.
        remaining: u128,
    },
    /// Looking whether the bundle has emptied.
    Poll {
        /// Milliseconds left until the deadline.
        remaining: u128,
    },
    /// The child is being killed and reaped.
    Reap {
        /// The deadline was reached.
        timed_out: bool,
        /// The error that ended the watching, if one did.
        error: Option<SandboxError>,
    },
    /// The processor time is being read.
    Measure {
        /// The deadline was reached.
        timed_out: bool,
        /// How the child ended.
        exit: ChildExit,
    },
    /// Every task left in the bundle is being killed.
    Drain {
        /// Where the killing stands.
        kill: KillAll,
        /// What the run has come to so far.
        found: Result<Findings, SandboxError>,
    },
    /// The memory peak is being read.
    Inspect {
        /// What was seen of the run.
        seen: Findings,
    },
    /// The bundle is being removed.
    Release {
        /// What the run came to.
        result: Result<SandboxStatus, SandboxError>,
    },
    /// The run is over.
    Finished {
        /// What the run came to.
        result: Result<SandboxStatus, SandboxError>,
    },
}

/// One run of a command, from the creation of its control groups to their
/// removal. The supervisor decides; its caller carries out each request and
/// hands the answer to `step`.
#[derive(Debug, PartialEq, Eq)]
pub struct Supervisor {
    /// The caps of the run.
    pub limits: Limits,
    /// The bundle of the run.
    pub cgroup: SandboxCgroup,
    /// How the child is started.
    pub launch: LaunchPlan,
    /// Where the run stands.
    pub phase: Phase,
    /// What the killing of the bundle's tasks came to, once it has ended.
    pub drained: Option<Result<(), SandboxError>>,
    /// Whether the bundle was removed, once that was asked for.
    pub released: Option<bool>,
}

impl SetupStep {
    /// The place of the write among the five.
    pub open spec fn index(self) -> int {
        match self {
            SetupStep::ClearPeak => 0,
            SetupStep::ClearCpu => 1,
            SetupStep::CapMemory => 2,
            SetupStep::CapSwap => 3,
            SetupStep::CapPids => 4,
        }
    }

    /// The write that comes after this one, if one does.
    pub open spec fn following(self) -> Option<SetupStep> {
        match self {
            SetupStep::ClearPeak => Some(SetupStep::ClearCpu),
            SetupStep::ClearCpu => Some(SetupStep::CapMemory),
            SetupStep::CapMemory => Some(SetupStep::CapSwap),
            SetupStep::CapSwap => Some(SetupStep::CapPids),
            SetupStep::CapPids => None,
        }
    }

    /// Gives the write that comes after this one, if one does.
    pub fn next(&self) -> (next: Option<SetupStep>)
        ensures
            next == self.following(),
    {
        match self {
            SetupStep::ClearPeak => Some(SetupStep::ClearCpu),
            SetupStep::ClearCpu => Some(SetupStep::CapMemory),
            SetupStep::CapMemory => Some(SetupStep::CapSwap),
            SetupStep::CapSwap => Some(SetupStep::CapPids),
            SetupStep::CapPids => None,
        }
    }

    /// Gives the write itself, for a bundle under the caps of a run.
    pub fn write(&self, cgroup: &SandboxCgroup, limits: &Limits) -> (write: CgroupWrite)
        ensures
            write == setup_writes(*limits)[self.index()],
    {
        match self {
            SetupStep::ClearPeak => cgroup.clear()[0],
            SetupStep::ClearCpu => cgroup.clear()[1],
            SetupStep::CapMemory => cgroup.set_memory_limit(limits.memory_limit)[0],
            SetupStep::CapSwap => cgroup.set_memory_limit(limits.memory_limit)[1],
            SetupStep::CapPids => cgroup.set_pids_limit(limits.pids_limit),
        }
    }
}

/// How long the next wait on the child is: the poll delay, or what is left
/// until the deadline if that is less.
pub open spec fn wait_ms(remaining: u128) -> u64 {
    if remaining < POLL_DELAY_MS {
        remaining as u64
    } else {
        POLL_DELAY_MS
    }
}

impl Supervisor {
    /// The state in which a run begins.
    pub open spec fn begin(
        limits: Limits,
        cgroup: SandboxCgroup,
        launch: LaunchPlan,
    ) -> Supervisor {
        Supervisor { limits, cgroup, launch, phase: Phase::Create, drained: None, released: None }
    }

    /// This state, moved to another phase.
    pub open spec fn to(self, phase: Phase) -> Supervisor {
        Supervisor { phase, ..self }
    }

    /// Whether the run is over.
    pub open spec fn finished(self) -> bool {
        self.phase is Finished
    }

    /// What the run came to, once it is over.
    pub open spec fn outcome(self) -> Option<Result<SandboxStatus, SandboxError>> {
        match self.phase {
            Phase::Finished { result } => Some(result),
            _ => None,
        }
    }

    /// The request that the caller has to carry out in this state; none once
    /// the run is over.
    pub open spec fn pending(self) -> Option<Request> {
        match self.phase {
            Phase::Create => Some(Request::CreateCgroup),
            Phase::Program(step) => Some(Request::Write(setup_writes(self.limits)[step.index()])),
            Phase::Spawn => Some(Request::Spawn),
            Phase::Wait { remaining } => Some(
                Request::WaitChild { timeout_ms: wait_ms(remaining) },
            ),
            Phase::Poll { .. } => Some(Request::ReadTasks),
            Phase::Reap { .. } => Some(Request::KillChild),
            Phase::Measure { .. } => Some(Request::Read(Attribute::CpuUsage)),
            Phase::Drain { kill, .. } => kill.pending(),
            Phase::Inspect { .. } => Some(Request::Read(Attribute::MemorySwapPeak)),
            Phase::Release { .. } => Some(Request::ReleaseCgroup),
            Phase::Finished { .. } => None,
        }
    }

    /// The phase in which the bundle's tasks are killed, with what the run has
    /// come to so far.
    pub open spec fn draining(found: Result<Findings, SandboxError>) -> Phase {
        Phase::Drain { kill: KillAll::start(KILL_TIMEOUT_MS), found }
    }

    /// The state after the run has met error `e` in this phase. The error
    /// comes out at the end: before that the child, where there is one, is
    /// reaped, the bundle's tasks are killed and the bundle is removed. Only
    /// where no bundle was made is the run over at once.
    pub open spec fn failing(self, e: SandboxError) -> Supervisor {
        match self.phase {
            Phase::Create => self.to(Phase::Finished { result: Err(e) }),
            Phase::Program(_) | Phase::Spawn => self.to(Self::draining(Err(e))),
            Phase::Wait { .. } | Phase::Poll { .. } => self.to(
                Phase::Reap { timed_out: false, error: Some(e) },
            ),
            Phase::Reap { .. } | Phase::Measure { .. } => self.to(Self::draining(Err(e))),
            Phase::Inspect { .. } => self.to(Phase::Release { result: Err(e) }),
            Phase::Drain { .. } | Phase::Release { .. } | Phase::Finished { .. } => self,
        }
    }

    /// The state after the killing of the bundle's tasks has moved to `kill`.
    /// Once the killing has ended, however it went, an error met before comes
    /// to the removal of the bundle; a launcher that gave up is an error of
    /// its own; otherwise the memory peak is read next.
    pub open spec fn drained_with(
        self,
        kill: KillAll,
        found: Result<Findings, SandboxError>,
    ) -> Supervisor {
        if !kill.finished() {
            self.to(Phase::Drain { kill, found })
        } else {
            Supervisor {
                drained: kill.outcome(),
                phase: match found {
                    Err(e) => Phase::Release { result: Err(e) },
                    Ok(seen) => if seen.exit == ChildExit::Exited(LAUNCH_ABORTED) {
                        Phase::Release { result: Err(SandboxError::Internal) }
                    } else {
                        Phase::Inspect { seen }
                    },
                },
                ..self
            }
        }
    }

    /// The state after the pending request, which is not one of the killing
    /// nor the removal of the bundle, was answered with `response`, which is
    /// an answer to it.
    pub open spec fn advanced(self, response: Response) -> Supervisor {
        match self.phase {
            Phase::Create => if response is Failed {
                self.failing(SandboxError::CgroupFailed)
            } else {
                self.to(Phase::Program(SetupStep::ClearPeak))
            },
            Phase::Program(step) => if response is Failed {
                self.failing(SandboxError::CgroupFailed)
            } else {
                match step.following() {
                    Some(next) => self.to(Phase::Program(next)),
                    None => self.to(Phase::Spawn),
                }
            },
            Phase::Spawn => if response is Failed {
                self.failing(SandboxError::SpawnFailed)
            } else {
                self.to(Phase::Wait { remaining: self.limits.deadline_ms() as u128 })
            },
            Phase::Wait { remaining } => match response {
                Response::Child(ChildWait::Running) => self.to(
                    Phase::Poll { remaining: (remaining - wait_ms(remaining)) as u128 },
                ),
                Response::Child(ChildWait::Ended(exit)) => self.to(
                    Phase::Measure { timed_out: false, exit },
                ),
                _ => self.to(Phase::Measure { timed_out: false, exit: ChildExit::Signalled }),
            },
            Phase::Poll { remaining } => match response {
                Response::Tasks { empty } => if empty {
                    self.to(Phase::Reap { timed_out: false, error: None })
                } else if remaining > 0 {
                    self.to(Phase::Wait { remaining })
                } else {
                    self.to(Phase::Reap { timed_out: true, error: None })
                },
                _ => self.failing(SandboxError::CgroupFailed),
            },
            Phase::Reap { timed_out, error } => match error {
                Some(e) => self.to(Self::draining(Err(e))),
                None => self.to(
                    Phase::Measure {
                        timed_out,
                        exit: match response {
                            Response::Child(ChildWait::Ended(exit)) => exit,
                            _ => ChildExit::Signalled,
                        },
                    },
                ),
            },
            Phase::Measure { timed_out, exit } => match response {
                Response::Value(cpu_ns) => self.to(
                    Self::draining(Ok(Findings { timed_out, cpu_ns, exit })),
                ),
                _ => self.failing(SandboxError::CgroupFailed),
            },
            Phase::Inspect { seen } => match response {
                Response::Value(max_memory) => self.to(
                    Phase::Release {
                        result: verdict(
                            self.limits,
                            seen.timed_out,
                            seen.cpu_ns,
                            seen.exit,
                            max_memory,
                        ),
                    },
                ),
                _ => self.failing(SandboxError::CgroupFailed),
            },
            Phase::Drain { .. } | Phase::Release { .. } | Phase::Finished { .. } => self,
        }
    }

    /// The state after `response` came in. A run that is over stays as it is.
    /// While the bundle's tasks are killed, the killing takes the response.
    /// Whatever answers the removal of the bundle ends the run, with the
    /// result that it had. Elsewhere a response that is no answer to the
    /// pending request is the error `Internal`.
    pub open spec fn after(self, response: Response) -> Supervisor {
        match self.phase {
            Phase::Finished { .. } => self,
            Phase::Drain { kill, found } => self.drained_with(kill.after(response), found),
            Phase::Release { result } => Supervisor {
                phase: Phase::Finished { result },
                released: Some(response is Done),
                ..self
            },
            _ => if !self.pending().unwrap().answered_by(response) {
                self.failing(SandboxError::Internal)
            } else {
                self.advanced(response)
            },
        }
    }
}

impl Supervisor {
    /// Begins a run under `limits`, in the bundle `cgroup`, with the child
    /// started as `launch` says.
    pub fn start(limits: Limits, cgroup: SandboxCgroup, launch: LaunchPlan) -> (run: Supervisor)
        ensures
            run == Supervisor::begin(limits, cgroup, launch),
    {
        Supervisor { limits, cgroup, launch, phase: Phase::Create, drained: None, released: None }
    }

    /// Tells whether the run is over.
    pub fn is_finished(&self) -> (yes: bool)
        ensures
            yes == self.finished(),
    {
        matches!(self.phase, Phase::Finished { .. })
    }

    /// Gives what the run came to, once it is over.
    pub fn result(&self) -> (outcome: Option<Result<SandboxStatus, SandboxError>>)
        ensures
            outcome == self.outcome(),
    {
        match self.phase {
            Phase::Finished { result } => Some(result),
            _ => None,
        }
    }

    /// Gives the request to carry out next; none once the run is over.
    pub fn request(&self) -> (request: Option<Request>)
        ensures
            request == self.pending(),
    {
        match self.phase {
            Phase::Create => Some(Request::CreateCgroup),
            Phase::Program(step) => Some(Request::Write(step.write(&self.cgroup, &self.limits))),
            Phase::Spawn => Some(Request::Spawn),
            Phase::Wait { remaining } => {
                let timeout_ms: u64 = if remaining < POLL_DELAY_MS as u128 {
                    remaining as u64
                } else {
                    POLL_DELAY_MS
                };
                Some(Request::WaitChild { timeout_ms })
            },
            Phase::Poll { .. } => Some(self.cgroup.is_empty()),
            Phase::Reap { .. } => Some(Request::KillChild),
            Phase::Measure { .. } => Some(self.cgroup.get_cpu_time()),
            Phase::Drain { kill, .. } => kill.request(),
            Phase::Inspect { .. } => Some(self.cgroup.get_max_memory()),
            Phase::Release { .. } => Some(Request::ReleaseCgroup),
            Phase::Finished { .. } => None,
        }
    }

    fn drain(&mut self, found: Result<Findings, SandboxError>)
        ensures
            *final(self) == old(self).to(Self::draining(found)),
    {
        self.phase = Phase::Drain { kill: self.cgroup.kill_all_tasks(KILL_TIMEOUT_MS), found };
    }

    fn fail(&mut self, e: SandboxError)
        ensures
            *final(self) == old(self).failing(e),
    {
        match self.phase {
            Phase::Create => {
                self.phase = Phase::Finished { result: Err(e) };
            },
            Phase::Program(_) | Phase::Spawn => {
                self.drain(Err(e));
            },
            Phase::Wait { .. } | Phase::Poll { .. } => {
                self.phase = Phase::Reap { timed_out: false, error: Some(e) };
            },
            Phase::Reap { .. } | Phase::Measure { .. } => {
                self.drain(Err(e));
            },
            Phase::Inspect { .. } => {
                self.phase = Phase::Release { result: Err(e) };
            },
            Phase::Drain { .. } | Phase::Release { .. } | Phase::Finished { .. } => {},
        }
    }

    fn drain_on(&mut self, kill: KillAll, found: Result<Findings, SandboxError>)
        ensures
            *final(self) == old(self).drained_with(kill, found),
    {
        match kill.result() {
            None => {
                self.phase = Phase::Drain { kill, found };
            },
            Some(outcome) => {
                self.drained = Some(outcome);
                self.phase = match found {
                    Err(e) => Phase::Release { result: Err(e) },
                    Ok(seen) => match seen.exit {
                        ChildExit::Exited(LAUNCH_ABORTED) => Phase::Release {
                            result: Err(SandboxError::Internal),
                        },
                        _ => Phase::Inspect { seen },
                    },
                };
            },
        }
    }

    fn advance(&mut self, response: Response)
        requires
            old(self).pending() matches Some(request) && request.answered_by(response),
        ensures
            *final(self) == old(self).advanced(response),
    {
        match self.phase {
            Phase::Create => {
                if let Response::Failed = response {
                    self.fail(SandboxError::CgroupFailed);
                } else {
                    self.phase = Phase::Program(SetupStep::ClearPeak);
                }
            },
            Phase::Program(step) => {
                if let Response::Failed = response {
                    self.fail(SandboxError::CgroupFailed);
                } else {
                    self.phase = match step.next() {
                        Some(next) => Phase::Program(next),
                        None => Phase::Spawn,
                    };
                }
            },
            Phase::Spawn => {
                if let Response::Failed = response {
                    self.fail(SandboxError::SpawnFailed);
                } else {
                    self.phase = Phase::Wait { remaining: self.limits.deadline() };
                }
            },
            Phase::Wait { remaining } => {
                self.phase = match response {
                    Response::Child(ChildWait::Running) => {
                        let waited: u128 = if remaining < POLL_DELAY_MS as u128 {
                            remaining
                        } else {
                            POLL_DELAY_MS as u128
                        };
                        Phase::Poll { remaining: remaining - waited }
                    },
                    Response::Child(ChildWait::Ended(exit)) => Phase::Measure {
                        timed_out: false,
                        exit,
                    },
                    _ => Phase::Measure { timed_out: false, exit: ChildExit::Signalled },
                };
            },
            Phase::Poll { remaining } => {
                match response {
                    Response::Tasks { empty } => {
                        self.phase = if empty {
                            Phase::Reap { timed_out: false, error: None }
                        } else if remaining > 0 {
                            Phase::Wait { remaining }
                        } else {
                            Phase::Reap { timed_out: true, error: None }
                        };
                    },
                    _ => {
                        self.fail(SandboxError::CgroupFailed);
                    },
                }
            },
            Phase::Reap { timed_out, error } => {
                match error {
                    Some(e) => {
                        self.drain(Err(e));
                    },
                    None => {
                        let exit = match response {
                            Response::Child(ChildWait::Ended(exit)) => exit,
                            _ => ChildExit::Signalled,
                        };
                        self.phase = Phase::Measure { timed_out, exit };
                    },
                }
            },
            Phase::Measure { timed_out, exit } => {
                match response {
                    Response::Value(cpu_ns) => {
                        self.drain(Ok(Findings { timed_out, cpu_ns, exit }));
                    },
                    _ => {
                        self.fail(SandboxError::CgroupFailed);
                    },
                }
            },
            Phase::Inspect { seen } => {
                match response {
                    Response::Value(max_memory) => {
                        let result = judge(
                            &self.limits,
                            seen.timed_out,
                            seen.cpu_ns,
                            seen.exit,
                            max_memory,
                        );
                        self.phase = Phase::Release { result };
                    },
                    _ => {
                        self.fail(SandboxError::CgroupFailed);
                    },
                }
            },
            Phase::Drain { .. } | Phase::Release { .. } | Phase::Finished { .. } => {},
        }
    }

    /// Takes in the answer to the request that was pending.
    pub fn step(&mut self, response: Response)
        ensures
            *final(self) == old(self).after(response),
    {
        match self.phase {
            Phase::Finished { .. } => {},
            Phase::Drain { kill, found } => {
                let mut kill = kill;
                kill.step(response);
                self.drain_on(kill, found);
            },
            Phase::Release { result } => {
                self.released = Some(matches!(response, Response::Done));
                self.phase = Phase::Finished { result };
            },
            _ => {
                let accepted = match self.request() {
                    Some(request) => request.accepts(&response),
                    None => false,
                };
                if accepted {
                    self.advance(response);
                } else {
                    self.fail(SandboxError::Internal);
                }
            },
        }
    }
}

} // verus!
