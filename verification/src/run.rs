use vstd::prelude::*;
use crate::cgroup::{setup_writes, KILL_TIMEOUT_MS};
use crate::error::SandboxError;
use crate::host::{Attribute, ChildWait, Request, Response};
use crate::kill::{
    kill_step_counts_down, kill_step_keeps_wf, polls, waiting_of, KillAll, POLL_DELAY_MS,
};
use crate::status::{borne_out, verdict, verdict_is_borne_out, ChildExit, SandboxStatus};
use crate::supervisor::{Phase, SetupStep, Supervisor};

verus! {

impl Supervisor {
    /// Whether the state is one that a run can be in. The watching goes on
    /// only while there is time left, and never has more left than the
    /// deadline gives. The killing is well formed, not yet finished, and has
    /// no more time than a run gives it. What the killing came to is known
    /// from the moment it has ended, and whether the bundle was removed, from
    /// the moment the run is over; a run that is over without either never
    /// had a bundle.
    pub open spec fn wf(self) -> bool {
        &&& match self.phase {
            Phase::Wait { remaining } => 0 < remaining <= self.limits.deadline_ms(),
            Phase::Poll { remaining } => remaining <= self.limits.deadline_ms(),
            Phase::Drain { kill, .. } => kill.wf() && !kill.finished() && kill.remaining
                <= KILL_TIMEOUT_MS,
            _ => true,
        }
        &&& match self.phase {
            Phase::Inspect { .. } | Phase::Release { .. } => self.drained is Some
                && self.released is None,
            Phase::Finished { result } => (self.drained is Some <==> self.released is Some) && (
            self.drained is None ==> result is Err),
            _ => self.drained is None && self.released is None,
        }
    }

    /// A bound on the number of requests that a run in this state still makes.
    pub open spec fn steps_left(self) -> nat {
        match self.phase {
            Phase::Create => (36 + 2 * polls(self.limits.deadline_ms())) as nat,
            Phase::Program(step) => (35 - step.index() + 2 * polls(
                self.limits.deadline_ms(),
            )) as nat,
            Phase::Spawn => (30 + 2 * polls(self.limits.deadline_ms())) as nat,
            Phase::Wait { remaining } => (29 + 2 * polls(remaining as int)) as nat,
            Phase::Poll { remaining } => (30 + 2 * polls(remaining as int)) as nat,
            Phase::Reap { .. } => 29,
            Phase::Measure { .. } => 28,
            Phase::Drain { kill, .. } => kill.steps_left() + 2,
            Phase::Inspect { .. } => 2,
            Phase::Release { .. } => 1,
            Phase::Finished { .. } => 0,
        }
    }

    /// The milliseconds of waiting, on the child or asleep, that a run in this
    /// state may still ask for.
    pub open spec fn waiting_left(self) -> nat {
        match self.phase {
            Phase::Create | Phase::Program(_) | Phase::Spawn => (self.limits.deadline_ms()
                + KILL_TIMEOUT_MS) as nat,
            Phase::Wait { remaining } => (remaining + KILL_TIMEOUT_MS) as nat,
            Phase::Poll { remaining } => (remaining + KILL_TIMEOUT_MS) as nat,
            Phase::Reap { .. } | Phase::Measure { .. } => KILL_TIMEOUT_MS as nat,
            Phase::Drain { kill, .. } => kill.remaining as nat,
            Phase::Inspect { .. } | Phase::Release { .. } | Phase::Finished { .. } => 0,
        }
    }

    /// The state after the responses came in, one after the other.
    pub open spec fn after_all(self, responses: Seq<Response>) -> Supervisor
        decreases responses.len(),
    {
        if responses.len() == 0 {
            self
        } else {
            self.after_all(responses.drop_last()).after(responses.last())
        }
    }

    /// The milliseconds of waiting, on the child or asleep, asked for while
    /// the responses came in.
    pub open spec fn waited(self, responses: Seq<Response>) -> nat
        decreases responses.len(),
    {
        if responses.len() == 0 {
            0
        } else {
            self.waited(responses.drop_last()) + waiting_of(
                self.after_all(responses.drop_last()).pending(),
            )
        }
    }

    /// Whether a status that the run has come to is the verdict on something
    /// that can be seen of a run.
    pub open spec fn judged(self) -> bool {
        match self.phase {
            Phase::Release { result: Ok(status) } | Phase::Finished { result: Ok(status) } =>
                exists|timed_out: bool, cpu_ns: u64, exit: ChildExit, max_memory: u64|
                    #[trigger] verdict(self.limits, timed_out, cpu_ns, exit, max_memory) == Ok::<
                        SandboxStatus,
                        SandboxError,
                    >(status),
            _ => true,
        }
    }
}

/// A run begins in a state that a run can be in.
pub proof fn run_begins_wf(run: Supervisor)
    requires
        run.phase is Create,
        run.drained is None,
        run.released is None,
    ensures
        run.wf(),
        run.judged(),
        run.steps_left() == 36 + 2 * polls(run.limits.deadline_ms()),
        run.waiting_left() == run.limits.deadline_ms() + KILL_TIMEOUT_MS,
{
}

/// A run asks for nothing more exactly when it is over.
pub proof fn run_pending_until_finished(run: Supervisor)
    requires
        run.wf(),
    ensures
        run.pending() is None <==> run.finished(),
        run.outcome() is Some <==> run.finished(),
{
}

/// Nothing that a run asks for makes its caller wait for longer than the poll
/// delay: not the wait on the child, not a sleep.
pub proof fn run_waits_briefly(run: Supervisor)
    ensures
        waiting_of(run.pending()) <= POLL_DELAY_MS,
{
}

/// The memory peak is read only after the killing of the bundle's tasks has
/// ended, so that nothing adds to the peak once it is read.
pub proof fn run_reads_peak_after_killing(run: Supervisor)
    requires
        run.wf(),
        run.pending() == Some(Request::Read(Attribute::MemorySwapPeak)),
    ensures
        run.drained is Some,
{
}

/// Whatever the response, a run stays in a state that a run can be in.
pub proof fn run_step_keeps_wf(run: Supervisor, response: Response)
    requires
        run.wf(),
    ensures
        run.after(response).wf(),
        run.after(response).limits == run.limits,
        run.after(response).cgroup == run.cgroup,
        run.after(response).launch == run.launch,
{
    if let Phase::Drain { kill, .. } = run.phase {
        kill_step_keeps_wf(kill, response);
    }
}

/// Every response brings a run that is not over nearer to its end.
pub proof fn run_step_counts_down(run: Supervisor, response: Response)
    requires
        run.wf(),
        !run.finished(),
    ensures
        run.after(response).steps_left() < run.steps_left(),
{
    if let Phase::Drain { kill, .. } = run.phase {
        kill_step_counts_down(kill, response);
    }
}

/// What a request makes its caller wait is taken off what the run may still
/// ask for.
pub proof fn run_step_spends_waiting(run: Supervisor, response: Response)
    requires
        run.wf(),
    ensures
        waiting_of(run.pending()) + run.after(response).waiting_left() <= run.waiting_left(),
{
}

/// A status, once the run has one, is the verdict on what the run saw, and
/// stays what it is.
pub proof fn run_step_keeps_judged(run: Supervisor, response: Response)
    requires
        run.judged(),
    ensures
        run.after(response).judged(),
{
    if let Phase::Inspect { seen } = run.phase {
        if let Response::Value(max_memory) = response {
            let result = verdict(run.limits, seen.timed_out, seen.cpu_ns, seen.exit, max_memory);
            assert(run.after(response).phase == Phase::Release { result });
        }
    }
}

/// A run takes the bundle for drained on one answer only: a task list that is
/// empty. So a run that reports the killing as done has seen the bundle empty.
pub proof fn run_drains_on_empty(run: Supervisor, response: Response)
    requires
        run.wf(),
        run.drained is None,
        run.after(response).drained == Some(Ok::<(), SandboxError>(())),
    ensures
        run.pending() == Some(Request::ReadTasks),
        response == (Response::Tasks { empty: true }),
{
}

/// While responses come in, a run stays well formed and under the same caps;
/// what is left of its steps goes down by one with each response until it is
/// over; and the waiting asked for so far, with what may still be asked for,
/// stays within what the run began with.
pub proof fn run_goes_on(run: Supervisor, responses: Seq<Response>)
    requires
        run.wf(),
        run.judged(),
    ensures
        run.after_all(responses).wf(),
        run.after_all(responses).judged(),
        run.after_all(responses).limits == run.limits,
        run.after_all(responses).cgroup == run.cgroup,
        run.after_all(responses).launch == run.launch,
        run.after_all(responses).finished() || run.after_all(responses).steps_left()
            + responses.len() <= run.steps_left(),
        run.waited(responses) + run.after_all(responses).waiting_left() <= run.waiting_left(),
    decreases responses.len(),
{
    if responses.len() > 0 {
        let before = run.after_all(responses.drop_last());
        run_goes_on(run, responses.drop_last());
        run_step_keeps_wf(before, responses.last());
        run_step_keeps_judged(before, responses.last());
        run_step_spends_waiting(before, responses.last());
        if !before.finished() {
            run_step_counts_down(before, responses.last());
        }
    }
}

/// A run is over after `36 + 2 * ceil(deadline / 100)` responses, whatever
/// they are: no child, no fork bomb and no failing host keeps it going.
pub proof fn run_ends(run: Supervisor, responses: Seq<Response>)
    requires
        run.phase is Create,
        run.drained is None,
        run.released is None,
        responses.len() >= 36 + 2 * polls(run.limits.deadline_ms()),
    ensures
        run.after_all(responses).finished(),
{
    run_begins_wf(run);
    run_goes_on(run, responses);
}

/// Whatever the responses, a run asks for no more waiting in all than its
/// deadline and the time it gives the killing of its tasks: the time limit,
/// the grace and the kill timeout.
pub proof fn run_waits_within_deadline(run: Supervisor, responses: Seq<Response>)
    requires
        run.phase is Create,
        run.drained is None,
        run.released is None,
    ensures
        run.waited(responses) <= run.limits.deadline_ms() + KILL_TIMEOUT_MS,
{
    run_begins_wf(run);
    run_goes_on(run, responses);
}

/// A status that a run ends with is the verdict on a run that was seen to take
/// some time, to end in some way and to peak at some memory; so what holds of
/// every verdict holds of every status that a run reports.
pub proof fn run_status_is_verdict(
    run: Supervisor,
    responses: Seq<Response>,
    status: SandboxStatus,
)
    requires
        run.phase is Create,
        run.drained is None,
        run.released is None,
        run.after_all(responses).outcome() == Some(Ok::<SandboxStatus, SandboxError>(status)),
    ensures
        exists|timed_out: bool, cpu_ns: u64, exit: ChildExit, max_memory: u64|
            #[trigger] verdict(run.limits, timed_out, cpu_ns, exit, max_memory) == Ok::<
                SandboxStatus,
                SandboxError,
            >(status),
{
    run_begins_wf(run);
    run_goes_on(run, responses);
}

/// A status that a run ends with is borne out by its own numbers: it says
/// that a limit was exceeded only where the number reported exceeds it, and
/// reports a success only under every cap and with return code zero.
pub proof fn run_status_is_borne_out(
    run: Supervisor,
    responses: Seq<Response>,
    status: SandboxStatus,
)
    requires
        run.phase is Create,
        run.drained is None,
        run.released is None,
        run.after_all(responses).outcome() == Some(Ok::<SandboxStatus, SandboxError>(status)),
    ensures
        borne_out(run.limits, status),
{
    run_status_is_verdict(run, responses, status);
    let (timed_out, cpu_ns, exit, max_memory) = choose|
        timed_out: bool,
        cpu_ns: u64,
        exit: ChildExit,
        max_memory: u64,
    |
        #[trigger] verdict(run.limits, timed_out, cpu_ns, exit, max_memory) == Ok::<
            SandboxStatus,
            SandboxError,
        >(status);
    verdict_is_borne_out(run.limits, timed_out, cpu_ns, exit, max_memory);
}

/// Once the bundle of a run was created, the run is not over before the
/// killing of the bundle's tasks has ended and the removal of the bundle was
/// asked for, whether the run comes to a status or to an error. Where the
/// bundle could not be created, the run is over at once, with an error.
pub proof fn run_cleans_up(run: Supervisor, responses: Seq<Response>)
    requires
        run.phase is Create,
        run.drained is None,
        run.released is None,
        run.after_all(responses).finished(),
    ensures
        responses.len() > 0,
        responses[0] == Response::Done ==> run.after_all(responses).drained is Some
            && run.after_all(responses).released is Some,
        responses[0] != Response::Done ==> run.after_all(responses).outcome() == Some(
            Err::<SandboxStatus, SandboxError>(
                if responses[0] == Response::Failed {
                    SandboxError::CgroupFailed
                } else {
                    SandboxError::Internal
                },
            ),
        ) && run.after_all(responses).drained is None,
{
    run_begins_wf(run);
    run_after_creation(run, responses);
}

/// With no response yet a run is where it began. If the first response
/// confirms that the bundle was created, the run never comes back to creating
/// it, and is over only with the killing ended and the removal asked for. If
/// not, the run is over with an error, and stays so.
pub proof fn run_after_creation(run: Supervisor, responses: Seq<Response>)
    requires
        run.phase is Create,
        run.drained is None,
        run.released is None,
    ensures
        responses.len() == 0 ==> run.after_all(responses) == run,
        responses.len() > 0 && responses[0] == Response::Done ==> !(run.after_all(
            responses,
        ).phase is Create) && (run.after_all(responses).finished() ==> run.after_all(
            responses,
        ).drained is Some && run.after_all(responses).released is Some),
        responses.len() > 0 && responses[0] != Response::Done ==> run.after_all(responses)
            == run.to(
            Phase::Finished {
                result: Err(
                    if responses[0] == Response::Failed {
                        SandboxError::CgroupFailed
                    } else {
                        SandboxError::Internal
                    },
                ),
            },
        ),
    decreases responses.len(),
{
    if responses.len() > 0 {
        let shorter = responses.drop_last();
        let before = run.after_all(shorter);
        run_begins_wf(run);
        run_goes_on(run, shorter);
        run_after_creation(run, shorter);
        if shorter.len() > 0 {
            assert(shorter[0] == responses[0]);
        }
    }
}

/// The phase of a run that has had nothing but `n` confirmations: the first
/// for the creation of the bundle, the next five for the writes that make it
/// ready.
pub open spec fn setup_phase(n: int) -> Phase {
    if n <= 0 {
        Phase::Create
    } else if n == 1 {
        Phase::Program(SetupStep::ClearPeak)
    } else if n == 2 {
        Phase::Program(SetupStep::ClearCpu)
    } else if n == 3 {
        Phase::Program(SetupStep::CapMemory)
    } else if n == 4 {
        Phase::Program(SetupStep::CapSwap)
    } else if n == 5 {
        Phase::Program(SetupStep::CapPids)
    } else {
        Phase::Spawn
    }
}

/// The child is started only after the host has confirmed six things, one
/// after the other: that the bundle was created, that its memory peak and its
/// processor time were set to zero, and that memory, memory with swap, and
/// the number of tasks were capped. So no run starts with the counters of
/// another, and no command runs without its caps.
pub proof fn run_sets_up_before_spawn(run: Supervisor, responses: Seq<Response>)
    requires
        run.phase is Create,
        run.drained is None,
        run.released is None,
        run.after_all(responses).pending() == Some(Request::Spawn),
    ensures
        responses =~= Seq::new(6, |i: int| Response::Done),
        run.pending() == Some(Request::CreateCgroup),
        forall|i: int|
            0 <= i < 5 ==> #[trigger] run.after_all(responses.take(i + 1)).pending() == Some(
                Request::Write(setup_writes(run.limits)[i]),
            ),
{
    run_begins_wf(run);
    run_goes_on(run, responses);
    run_setting_up(run, responses);
    assert forall|i: int| 0 <= i < 5 implies #[trigger] run.after_all(
        responses.take(i + 1),
    ).pending() == Some(Request::Write(setup_writes(run.limits)[i])) by {
        run_set_up(run, responses.take(i + 1));
        run_begins_wf(run);
        run_goes_on(run, responses.take(i + 1));
    }
}

/// While a run makes its bundle ready, every response so far was a
/// confirmation, and the run is as far as their number says.
pub proof fn run_setting_up(run: Supervisor, responses: Seq<Response>)
    requires
        run.phase is Create,
        run.drained is None,
        run.released is None,
        run.after_all(responses).phase is Create || run.after_all(responses).phase is Program
            || run.after_all(responses).phase is Spawn,
    ensures
        responses.len() <= 6,
        run.after_all(responses).phase == setup_phase(responses.len() as int),
        forall|i: int| 0 <= i < responses.len() ==> responses[i] == Response::Done,
    decreases responses.len(),
{
    if responses.len() > 0 {
        let shorter = responses.drop_last();
        let before = run.after_all(shorter);
        run_begins_wf(run);
        run_goes_on(run, shorter);
        assert(before.phase is Create || before.phase is Program || before.phase is Spawn);
        run_setting_up(run, shorter);
        assert forall|i: int| 0 <= i < responses.len() implies responses[i]
            == Response::Done by {
            if i < shorter.len() {
                assert(shorter[i] == responses[i]);
            }
        }
    }
}

/// A run that has had nothing but confirmations, six at most, is as far with
/// its bundle as their number says.
pub proof fn run_set_up(run: Supervisor, responses: Seq<Response>)
    requires
        run.phase is Create,
        run.drained is None,
        run.released is None,
        responses.len() <= 6,
        forall|i: int| 0 <= i < responses.len() ==> responses[i] == Response::Done,
    ensures
        run.after_all(responses).phase == setup_phase(responses.len() as int),
    decreases responses.len(),
{
    if responses.len() > 0 {
        let shorter = responses.drop_last();
        run_set_up(run, shorter);
        run_begins_wf(run);
        run_goes_on(run, shorter);
    }
}

/// Whether the child was reaped, or given up as lost, while the responses
/// came in: a wait on it found it ended or failed, or the request to kill
/// and reap it was made.
pub open spec fn reaped(run: Supervisor, responses: Seq<Response>) -> bool {
    exists|i: int|
        0 <= i < responses.len() && match (#[trigger] run.after_all(responses.take(i))).pending() {
            Some(Request::KillChild) => true,
            Some(Request::WaitChild { .. }) => responses[i] is Failed
                || responses[i] matches Response::Child(ChildWait::Ended(_)),
            _ => false,
        }
}

/// Whether the host has confirmed that the child was started: the first seven
/// responses are confirmations.
pub open spec fn spawned(responses: Seq<Response>) -> bool {
    responses.len() >= 7 && forall|i: int| 0 <= i < 7 ==> responses[i] == Response::Done
}

/// No run ends with its child left behind: once the child was started, the
/// run is not over before a wait has found the child ended, or the child was
/// killed and reaped, whatever else goes wrong on the way.
pub proof fn run_reaps_its_child(run: Supervisor, responses: Seq<Response>)
    requires
        run.phase is Create,
        run.drained is None,
        run.released is None,
        spawned(responses),
        run.after_all(responses).finished(),
    ensures
        reaped(run, responses),
{
    run_watching_or_reaped(run, responses);
}

/// Once the child was started, a run either still watches or reaps it, or has
/// reaped it.
pub proof fn run_watching_or_reaped(run: Supervisor, responses: Seq<Response>)
    requires
        run.phase is Create,
        run.drained is None,
        run.released is None,
        spawned(responses),
    ensures
        run.after_all(responses).phase is Wait || run.after_all(responses).phase is Poll
            || run.after_all(responses).phase is Reap || reaped(run, responses),
    decreases responses.len(),
{
    let shorter = responses.drop_last();
    let before = run.after_all(shorter);
    run_begins_wf(run);
    run_goes_on(run, shorter);
    if responses.len() == 7 {
        run_set_up(run, shorter);
    } else {
        assert forall|i: int| 0 <= i < 7 implies shorter[i] == Response::Done by {
            assert(shorter[i] == responses[i]);
        }
        run_watching_or_reaped(run, shorter);
        if reaped(run, shorter) {
            let i = choose|i: int|
                0 <= i < shorter.len() && match (#[trigger] run.after_all(
                    shorter.take(i),
                )).pending() {
                    Some(Request::KillChild) => true,
                    Some(Request::WaitChild { .. }) => shorter[i] is Failed
                        || shorter[i] matches Response::Child(ChildWait::Ended(_)),
                    _ => false,
                };
            assert(responses.take(i) =~= shorter.take(i));
            assert(responses[i] == shorter[i]);
        } else {
            let last = responses.len() - 1;
            assert(responses.take(last) =~= shorter);
        }
    }
}

} // verus!
