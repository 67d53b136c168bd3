use vstd::prelude::*;
use crate::error::SandboxError;

verus! {

/// Slack added to the time limit before a run is cut off, in milliseconds.
pub const GRACE_MS: u64 = 500;

/// Nanoseconds in a millisecond.
pub const NANOS_PER_MILLI: u128 = 1_000_000;

/// Exit code by which the launcher reports that it gave up before the command ran.
pub const LAUNCH_ABORTED: i32 = 101;

/// The caps of one run.
#[derive(Debug, Clone, Copy, PartialEq, Eq, Structural)]
pub struct Limits {
    /// Time limit in milliseconds.
    pub time_limit: u64,
    /// Memory limit in bytes.
    pub memory_limit: u64,
    /// Largest number of tasks.
    pub pids_limit: u16,
}

/// How a run is classified. Where several apply, the first of
/// time, memory, runtime error wins.
#[derive(Debug, Clone, Copy, PartialEq, Eq, Structural)]
pub enum SandboxStatusKind {
    /// More time was used than the limit allows.
    TimeLimitExceeded,
    /// The memory peak lies above the limit.
    MemoryLimitExceeded,
    /// The command ended with a code other than zero, or by a signal.
    RuntimeError,
    /// None of the above.
    Success,
}

/// What a run came to.
#[derive(Debug, Clone, Copy, PartialEq, Eq, Structural)]
pub struct SandboxStatus {
    /// The class of the outcome.
    pub status: SandboxStatusKind,
    /// Time used, in milliseconds.
    pub used_time: u128,
    /// Peak of memory and swap, in bytes.
    pub max_memory: u64,
    /// The command's exit code, or -1 where it has none.
    pub return_code: i32,
}

/// How the child ended.
#[derive(Debug, Clone, Copy, PartialEq, Eq, Structural)]
pub enum ChildExit {
    /// It exited with this code.
    Exited(i32),
    /// It was killed by a signal, or could not be waited on.
    Signalled,
}

impl Limits {
    /// The time limit in nanoseconds.
    pub open spec fn time_limit_ns(self) -> int {
        self.time_limit * NANOS_PER_MILLI
    }

    /// Milliseconds after which a run is cut off: the time limit and the grace.
    pub open spec fn deadline_ms(self) -> int {
        self.time_limit + GRACE_MS
    }

    /// The deadline in nanoseconds.
    pub open spec fn deadline_ns(self) -> int {
        self.deadline_ms() * NANOS_PER_MILLI
    }

    /// Milliseconds after which a run is cut off.
    pub fn deadline(&self) -> (ms: u128)
        ensures
            ms == self.deadline_ms(),
    {
        self.time_limit as u128 + GRACE_MS as u128
    }

    /// Milliseconds after which the process between the supervisor and the
    /// command kills the command on its own account: twice the deadline, so
    /// that a supervisor that is alive always comes first.
    pub fn backstop(&self) -> (ms: u128)
        ensures
            ms == 2 * self.deadline_ms(),
    {
        2 * self.deadline()
    }
}

/// The time, in nanoseconds, that a run is charged with: the processor time of
/// all its tasks, and no less than the deadline where the run was cut off there.
pub open spec fn charged_ns(limits: Limits, timed_out: bool, cpu_ns: u64) -> int {
    if timed_out && cpu_ns < limits.deadline_ns() {
        limits.deadline_ns()
    } else {
        cpu_ns as int
    }
}

/// The return code reported for a child: its exit code, or -1 where it has none.
pub open spec fn return_code_of(exit: ChildExit) -> int {
    match exit {
        ChildExit::Exited(code) => code as int,
        ChildExit::Signalled => -1,
    }
}

/// The class of a run that was charged `used_ns` nanoseconds, peaked at
/// `max_memory` bytes and returned `return_code`.
pub open spec fn kind_of(
    limits: Limits,
    used_ns: int,
    max_memory: u64,
    return_code: int,
) -> SandboxStatusKind {
    if used_ns > limits.time_limit_ns() {
        SandboxStatusKind::TimeLimitExceeded
    } else if max_memory > limits.memory_limit {
        SandboxStatusKind::MemoryLimitExceeded
    } else if return_code != 0 {
        SandboxStatusKind::RuntimeError
    } else {
        SandboxStatusKind::Success
    }
}

/// The status of a run from its three measurements.
pub open spec fn status_of(
    limits: Limits,
    used_ns: int,
    max_memory: u64,
    return_code: int,
) -> SandboxStatus {
    SandboxStatus {
        status: kind_of(limits, used_ns, max_memory, return_code),
        used_time: (used_ns / (NANOS_PER_MILLI as int)) as u128,
        max_memory,
        return_code: return_code as i32,
    }
}

/// What a run comes to, from what was seen of it: whether it was cut off at
/// the deadline, the processor time of its tasks, how the child ended, and the
/// memory peak. A child that left with `LAUNCH_ABORTED` never ran the command,
/// and the run has no status.
pub open spec fn verdict(
    limits: Limits,
    timed_out: bool,
    cpu_ns: u64,
    exit: ChildExit,
    max_memory: u64,
) -> Result<SandboxStatus, SandboxError> {
    if exit == ChildExit::Exited(LAUNCH_ABORTED) {
        Err(SandboxError::Internal)
    } else {
        Ok(
            status_of(
                limits,
                charged_ns(limits, timed_out, cpu_ns),
                max_memory,
                return_code_of(exit),
            ),
        )
    }
}

/// Computes the time a run is charged with, in nanoseconds.
pub fn charged_time(limits: &Limits, timed_out: bool, cpu_ns: u64) -> (used_ns: u128)
    ensures
        used_ns == charged_ns(*limits, timed_out, cpu_ns),
{
    let deadline_ns: u128 = limits.deadline() * NANOS_PER_MILLI;
    let cpu: u128 = cpu_ns as u128;
    if timed_out && cpu < deadline_ns {
        deadline_ns
    } else {
        cpu
    }
}

impl ChildExit {
    /// Gives the return code that stands for the child's end: its exit code,
    /// or -1 where it has none.
    pub fn code(&self) -> (code: i32)
        ensures
            code == return_code_of(*self),
    {
        match self {
            ChildExit::Exited(code) => *code,
            ChildExit::Signalled => -1,
        }
    }
}

/// Reads the return code off the child's end, and tells a launcher that gave
/// up apart from a command that ran.
pub fn return_code(exit: ChildExit) -> (code: Result<i32, SandboxError>)
    ensures
        code == (if exit == ChildExit::Exited(LAUNCH_ABORTED) {
            Err::<i32, SandboxError>(SandboxError::Internal)
        } else {
            Ok(return_code_of(exit) as i32)
        }),
{
    let code = exit.code();
    match exit {
        ChildExit::Exited(LAUNCH_ABORTED) => Err(SandboxError::Internal),
        _ => Ok(code),
    }
}

/// Classifies a run from its three measurements.
pub fn classify(limits: &Limits, used_ns: u128, max_memory: u64, return_code: i32) -> (status:
    SandboxStatus)
    ensures
        status == status_of(*limits, used_ns as int, max_memory, return_code as int),
{
    let limit_ns: u128 = limits.time_limit as u128 * NANOS_PER_MILLI;
    let kind = if used_ns > limit_ns {
        SandboxStatusKind::TimeLimitExceeded
    } else if max_memory > limits.memory_limit {
        SandboxStatusKind::MemoryLimitExceeded
    } else if return_code != 0 {
        SandboxStatusKind::RuntimeError
    } else {
        SandboxStatusKind::Success
    };
    SandboxStatus { status: kind, used_time: used_ns / NANOS_PER_MILLI, max_memory, return_code }
}

/// Gives the outcome of a run from what was seen of it.
pub fn judge(
    limits: &Limits,
    timed_out: bool,
    cpu_ns: u64,
    exit: ChildExit,
    max_memory: u64,
) -> (outcome: Result<SandboxStatus, SandboxError>)
    ensures
        outcome == verdict(*limits, timed_out, cpu_ns, exit, max_memory),
{
    match return_code(exit) {
        Ok(code) => Ok(classify(limits, charged_time(limits, timed_out, cpu_ns), max_memory, code)),
        Err(e) => Err(e),
    }
}

/// Whether a status says no more than its own numbers bear out under the
/// caps: the time reported reaches the limit where it says that time was
/// exceeded, and stays within it elsewhere; the peak lies above the limit
/// where it says that memory was exceeded, and within it for a runtime error
/// and a success; the return code is zero for a success only.
pub open spec fn borne_out(limits: Limits, status: SandboxStatus) -> bool {
    match status.status {
        SandboxStatusKind::TimeLimitExceeded => status.used_time >= limits.time_limit,
        SandboxStatusKind::MemoryLimitExceeded => status.max_memory > limits.memory_limit
            && status.used_time <= limits.time_limit,
        SandboxStatusKind::RuntimeError => status.return_code != 0 && status.max_memory
            <= limits.memory_limit && status.used_time <= limits.time_limit,
        SandboxStatusKind::Success => status.return_code == 0 && status.max_memory
            <= limits.memory_limit && status.used_time <= limits.time_limit,
    }
}

/// A command that exits with code zero before the deadline, having used no
/// more time and no more memory than its limits, is a success with return
/// code zero.
pub proof fn clean_exit_is_success(limits: Limits, cpu_ns: u64, max_memory: u64)
    requires
        cpu_ns <= limits.time_limit_ns(),
        max_memory <= limits.memory_limit,
    ensures
        verdict(limits, false, cpu_ns, ChildExit::Exited(0), max_memory) == Ok::<
            SandboxStatus,
            SandboxError,
        >(
            SandboxStatus {
                status: SandboxStatusKind::Success,
                used_time: (cpu_ns / 1_000_000) as u128,
                max_memory,
                return_code: 0,
            },
        ),
{
}

/// A command whose tasks used more processor time than the time limit and the
/// grace together has exceeded the time limit, whatever else is true of it,
/// and the time reported is no less than the limit. The one exception is a
/// child that never ran the command.
pub proof fn beyond_deadline_is_time_limit(
    limits: Limits,
    timed_out: bool,
    cpu_ns: u64,
    exit: ChildExit,
    max_memory: u64,
)
    requires
        cpu_ns > limits.deadline_ns(),
        exit != ChildExit::Exited(LAUNCH_ABORTED),
    ensures
        verdict(limits, timed_out, cpu_ns, exit, max_memory) matches Ok(status)
            && status.status == SandboxStatusKind::TimeLimitExceeded && status.used_time
            >= limits.time_limit,
{
}

/// A run that was cut off at the deadline has exceeded the time limit,
/// however little processor time its tasks used, and is charged with the
/// deadline at least.
pub proof fn cut_off_is_time_limit(limits: Limits, cpu_ns: u64, exit: ChildExit, max_memory: u64)
    requires
        exit != ChildExit::Exited(LAUNCH_ABORTED),
    ensures
        verdict(limits, true, cpu_ns, exit, max_memory) matches Ok(status) && status.status
            == SandboxStatusKind::TimeLimitExceeded && status.used_time >= limits.deadline_ms(),
{
}

/// A command whose memory peak lies above the memory limit has exceeded the
/// memory limit, and the peak reported is the one seen, provided that it
/// stayed within the time limit: time comes first.
pub proof fn beyond_memory_is_memory_limit(
    limits: Limits,
    timed_out: bool,
    cpu_ns: u64,
    exit: ChildExit,
    max_memory: u64,
)
    requires
        max_memory > limits.memory_limit,
        charged_ns(limits, timed_out, cpu_ns) <= limits.time_limit_ns(),
        exit != ChildExit::Exited(LAUNCH_ABORTED),
    ensures
        verdict(limits, timed_out, cpu_ns, exit, max_memory) matches Ok(status)
            && status.status == SandboxStatusKind::MemoryLimitExceeded && status.max_memory
            == max_memory && status.max_memory > limits.memory_limit,
{
}

/// A command that exits with a code other than zero, within the time limit
/// and the memory limit, is a runtime error with that code. The one code for
/// which this does not hold is the one by which the launcher says that the
/// command never ran.
pub proof fn failing_exit_is_runtime_error(
    limits: Limits,
    timed_out: bool,
    cpu_ns: u64,
    code: i32,
    max_memory: u64,
)
    requires
        code != 0,
        code != LAUNCH_ABORTED,
        charged_ns(limits, timed_out, cpu_ns) <= limits.time_limit_ns(),
        max_memory <= limits.memory_limit,
    ensures
        verdict(limits, timed_out, cpu_ns, ChildExit::Exited(code), max_memory) matches Ok(status)
            && status.status == SandboxStatusKind::RuntimeError && status.return_code == code,
{
}

/// Where several classes apply, time comes before memory, memory before a
/// runtime error, and success is what is left: a status is of a class exactly
/// when that class applies and none before it does.
pub proof fn status_priority(limits: Limits, used_ns: int, max_memory: u64, return_code: int)
    ensures
        ({
            let kind = kind_of(limits, used_ns, max_memory, return_code);
            let time = used_ns > limits.time_limit_ns();
            let memory = max_memory > limits.memory_limit;
            let failed = return_code != 0;
            &&& kind == SandboxStatusKind::TimeLimitExceeded <==> time
            &&& kind == SandboxStatusKind::MemoryLimitExceeded <==> !time && memory
            &&& kind == SandboxStatusKind::RuntimeError <==> !time && !memory && failed
            &&& kind == SandboxStatusKind::Success <==> !time && !memory && !failed
        }),
{
}

/// Every verdict that is a status is borne out by its own numbers.
pub proof fn verdict_is_borne_out(
    limits: Limits,
    timed_out: bool,
    cpu_ns: u64,
    exit: ChildExit,
    max_memory: u64,
)
    ensures
        verdict(limits, timed_out, cpu_ns, exit, max_memory) matches Ok(status) ==> borne_out(
            limits,
            status,
        ),
{
}

} // verus!
