use vstd::prelude::*;
use crate::error::SandboxError;
use crate::host::{ChildWait, Response};
use crate::kill::{polls, POLL_DELAY_MS};
use crate::run::{run_begins_wf, run_goes_on, run_set_up};
use crate::status::{
    clean_exit_is_success, cut_off_is_time_limit, verdict, ChildExit, SandboxStatus,
    SandboxStatusKind, LAUNCH_ABORTED,
};
use crate::supervisor::{Phase, Supervisor};

verus! {

/// The answers of a host that confirms `n` requests, one after the other.
pub open spec fn confirmed(n: nat) -> Seq<Response> {
    Seq::new(n, |i: int| Response::Done)
}

/// The answers of a host on which, for `n` rounds, the child runs on and the
/// bundle holds tasks.
pub open spec fn running(n: nat) -> Seq<Response>
    decreases n,
{
    if n == 0 {
        Seq::empty()
    } else {
        running((n - 1) as nat).push(Response::Child(ChildWait::Running)).push(
            Response::Tasks { empty: false },
        )
    }
}

/// The answers of a host that finds the child ended with `exit`, reads
/// `cpu_ns` as processor time, finds the bundle empty, reads `max_memory` as
/// memory peak and removes the bundle.
pub open spec fn closing(exit: ChildExit, cpu_ns: u64, max_memory: u64) -> Seq<Response> {
    seq![
        Response::Child(ChildWait::Ended(exit)),
        Response::Value(cpu_ns),
        Response::Tasks { empty: true },
        Response::Value(max_memory),
        Response::Done,
    ]
}

/// Answers that come in two parts bring a run where the second part brings
/// it from where the first has brought it.
pub proof fn run_in_two_parts(run: Supervisor, first: Seq<Response>, then: Seq<Response>)
    ensures
        run.after_all(first + then) == run.after_all(first).after_all(then),
    decreases then.len(),
{
    if then.len() == 0 {
        assert(first + then =~= first);
    } else {
        assert((first + then).drop_last() =~= first + then.drop_last());
        run_in_two_parts(run, first, then.drop_last());
    }
}

/// One more answer brings a run one step on.
pub proof fn run_one_more(run: Supervisor, answers: Seq<Response>, answer: Response)
    ensures
        run.after_all(answers.push(answer)) == run.after_all(answers).after(answer),
{
    assert(answers.push(answer).drop_last() =~= answers);
}

/// On a host on which everything works, a run has its bundle ready and its
/// child started after seven confirmations, and the whole deadline before it.
pub proof fn run_gets_started(run: Supervisor)
    requires
        run.phase is Create,
        run.drained is None,
        run.released is None,
    ensures
        run.after_all(confirmed(7)) == run.to(
            Phase::Wait { remaining: run.limits.deadline_ms() as u128 },
        ),
{
    let six = confirmed(6);
    run_set_up(run, six);
    run_begins_wf(run);
    run_goes_on(run, six);
    assert(confirmed(7) =~= six.push(Response::Done));
    run_one_more(run, six, Response::Done);
}

/// While the child runs on and the bundle holds tasks, a run waits on, one
/// poll delay after the other, for as long as the deadline is not reached.
pub proof fn run_watches_on(run: Supervisor, remaining: u128, n: nat)
    requires
        run.phase == (Phase::Wait { remaining }),
        n * POLL_DELAY_MS < remaining,
    ensures
        run.after_all(running(n)) == run.to(
            Phase::Wait { remaining: (remaining - n * POLL_DELAY_MS) as u128 },
        ),
    decreases n,
{
    if n > 0 {
        let before = running((n - 1) as nat);
        let waited = before.push(Response::Child(ChildWait::Running));
        run_watches_on(run, remaining, (n - 1) as nat);
        run_one_more(run, before, Response::Child(ChildWait::Running));
        run_one_more(run, waited, Response::Tasks { empty: false });
    }
}

/// A child that runs on in a bundle that holds tasks is cut off when the
/// deadline is reached: after as many waits as it takes to use the deadline
/// up, the run turns to killing the child, and notes the timeout.
pub proof fn run_is_cut_off(run: Supervisor, remaining: u128)
    requires
        run.phase == (Phase::Wait { remaining }),
        remaining > 0,
    ensures
        run.after_all(running(polls(remaining as int) as nat)) == run.to(
            Phase::Reap { timed_out: true, error: None },
        ),
{
    let n = (polls(remaining as int) - 1) as nat;
    let before = running(n);
    let waited = before.push(Response::Child(ChildWait::Running));
    run_watches_on(run, remaining, n);
    run_one_more(run, before, Response::Child(ChildWait::Running));
    run_one_more(run, waited, Response::Tasks { empty: false });
}

/// A command that ends by itself before the deadline, on a host on which
/// everything works, gets the verdict on a run that was not cut off: whatever
/// the number of rounds that it ran for, the run is judged by the child's
/// end, the processor time and the memory peak alone.
pub proof fn run_of_a_command_that_ends(
    run: Supervisor,
    rounds: nat,
    exit: ChildExit,
    cpu_ns: u64,
    max_memory: u64,
)
    requires
        run.phase is Create,
        run.drained is None,
        run.released is None,
        rounds * POLL_DELAY_MS < run.limits.deadline_ms(),
        exit != ChildExit::Exited(LAUNCH_ABORTED),
    ensures
        run.after_all(confirmed(7) + running(rounds) + closing(exit, cpu_ns, max_memory)).outcome()
            == Some(verdict(run.limits, false, cpu_ns, exit, max_memory)),
{
    let deadline = run.limits.deadline_ms() as u128;
    let started = run.after_all(confirmed(7));
    let watched = started.after_all(running(rounds));
    run_gets_started(run);
    run_watches_on(started, deadline, rounds);
    run_in_two_parts(run, confirmed(7), running(rounds));
    run_in_two_parts(run, confirmed(7) + running(rounds), closing(exit, cpu_ns, max_memory));
    run_ending(watched, exit, cpu_ns, max_memory);
}

/// What a run comes to when the child is found ended while the run waits on
/// it, on a host on which everything works and the bundle is found empty.
pub proof fn run_ending(run: Supervisor, exit: ChildExit, cpu_ns: u64, max_memory: u64)
    requires
        run.phase is Wait,
        run.drained is None,
        run.released is None,
        exit != ChildExit::Exited(LAUNCH_ABORTED),
    ensures
        run.after_all(closing(exit, cpu_ns, max_memory)).outcome() == Some(
            verdict(run.limits, false, cpu_ns, exit, max_memory),
        ),
{
    let a = closing(exit, cpu_ns, max_memory);
    assert(a.take(0) =~= Seq::empty());
    assert(run.after_all(a.take(0)) == run);
    run_one_more(run, a.take(0), a[0]);
    assert(a.take(1) =~= a.take(0).push(a[0]));
    run_one_more(run, a.take(1), a[1]);
    assert(a.take(2) =~= a.take(1).push(a[1]));
    run_one_more(run, a.take(2), a[2]);
    assert(a.take(3) =~= a.take(2).push(a[2]));
    run_one_more(run, a.take(3), a[3]);
    assert(a.take(4) =~= a.take(3).push(a[3]));
    run_one_more(run, a.take(4), a[4]);
    assert(a =~= a.take(4).push(a[4]));
}

/// What a run comes to when the child is killed and reaped, on a host on
/// which everything works and the bundle is found empty.
pub proof fn run_reaping(
    run: Supervisor,
    timed_out: bool,
    exit: ChildExit,
    cpu_ns: u64,
    max_memory: u64,
)
    requires
        run.phase == (Phase::Reap { timed_out, error: None }),
        run.drained is None,
        run.released is None,
        exit != ChildExit::Exited(LAUNCH_ABORTED),
    ensures
        run.after_all(closing(exit, cpu_ns, max_memory)).outcome() == Some(
            verdict(run.limits, timed_out, cpu_ns, exit, max_memory),
        ),
{
    let a = closing(exit, cpu_ns, max_memory);
    assert(a.take(0) =~= Seq::empty());
    assert(run.after_all(a.take(0)) == run);
    run_one_more(run, a.take(0), a[0]);
    assert(a.take(1) =~= a.take(0).push(a[0]));
    run_one_more(run, a.take(1), a[1]);
    assert(a.take(2) =~= a.take(1).push(a[1]));
    run_one_more(run, a.take(2), a[2]);
    assert(a.take(3) =~= a.take(2).push(a[2]));
    run_one_more(run, a.take(3), a[3]);
    assert(a.take(4) =~= a.take(3).push(a[3]));
    run_one_more(run, a.take(4), a[4]);
    assert(a =~= a.take(4).push(a[4]));
}

/// A command that runs on until the deadline, in a bundle that holds tasks,
/// on a host on which everything works, gets the verdict on a run that was
/// cut off, whatever the child's end, the processor time and the memory peak
/// turn out to be once the child is killed.
pub proof fn run_of_a_command_that_stays(
    run: Supervisor,
    exit: ChildExit,
    cpu_ns: u64,
    max_memory: u64,
)
    requires
        run.phase is Create,
        run.drained is None,
        run.released is None,
        exit != ChildExit::Exited(LAUNCH_ABORTED),
    ensures
        run.after_all(
            confirmed(7) + running(polls(run.limits.deadline_ms()) as nat) + closing(
                exit,
                cpu_ns,
                max_memory,
            ),
        ).outcome() == Some(verdict(run.limits, true, cpu_ns, exit, max_memory)),
{
    let deadline = run.limits.deadline_ms() as u128;
    let rounds = polls(run.limits.deadline_ms()) as nat;
    let started = run.after_all(confirmed(7));
    let watched = started.after_all(running(rounds));
    run_gets_started(run);
    run_is_cut_off(started, deadline);
    run_in_two_parts(run, confirmed(7), running(rounds));
    run_in_two_parts(run, confirmed(7) + running(rounds), closing(exit, cpu_ns, max_memory));
    run_reaping(watched, true, exit, cpu_ns, max_memory);
}

/// A command that exits with code zero before the deadline, having used no
/// more processor time and no more memory than its limits, is run to a
/// success with return code zero.
pub proof fn run_of_a_clean_command_succeeds(
    run: Supervisor,
    rounds: nat,
    cpu_ns: u64,
    max_memory: u64,
)
    requires
        run.phase is Create,
        run.drained is None,
        run.released is None,
        rounds * POLL_DELAY_MS < run.limits.deadline_ms(),
        cpu_ns <= run.limits.time_limit_ns(),
        max_memory <= run.limits.memory_limit,
    ensures
        run.after_all(
            confirmed(7) + running(rounds) + closing(ChildExit::Exited(0), cpu_ns, max_memory),
        ).outcome() == Some(
            Ok::<SandboxStatus, SandboxError>(
                SandboxStatus {
                    status: SandboxStatusKind::Success,
                    used_time: (cpu_ns / 1_000_000) as u128,
                    max_memory,
                    return_code: 0,
                },
            ),
        ),
{
    run_of_a_command_that_ends(run, rounds, ChildExit::Exited(0), cpu_ns, max_memory);
    clean_exit_is_success(run.limits, cpu_ns, max_memory);
}

/// A command that runs on until the deadline is run to the status that the
/// time limit was exceeded, with no less time reported than the deadline.
pub proof fn run_of_a_command_that_stays_exceeds_time(
    run: Supervisor,
    exit: ChildExit,
    cpu_ns: u64,
    max_memory: u64,
)
    requires
        run.phase is Create,
        run.drained is None,
        run.released is None,
        exit != ChildExit::Exited(LAUNCH_ABORTED),
    ensures
        run.after_all(
            confirmed(7) + running(polls(run.limits.deadline_ms()) as nat) + closing(
                exit,
                cpu_ns,
                max_memory,
            ),
        ).outcome() matches Some(Ok(status)) && status.status
            == SandboxStatusKind::TimeLimitExceeded && status.used_time
            >= run.limits.deadline_ms(),
{
    run_of_a_command_that_stays(run, exit, cpu_ns, max_memory);
    cut_off_is_time_limit(run.limits, cpu_ns, exit, max_memory);
}

} // verus!
