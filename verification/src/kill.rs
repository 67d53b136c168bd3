use vstd::prelude::*;
use crate::error::SandboxError;
use crate::host::{FreezerState, Request, Response};

verus! {

/// Milliseconds between two looks at a control group.
pub const POLL_DELAY_MS: u64 = 100;

/// Where the killing of a bundle's tasks stands.
#[derive(Debug, Clone, Copy, PartialEq, Eq, Structural)]
pub enum KillStage {
    /// Finding out whether there is any task at all.
    Probe,
    /// Telling the freezer to freeze.
    Freeze,
    /// Reading whether the freezer has frozen.
    AwaitFrozen,
    /// Sleeping before the freezer is read again.
    FreezePause,
    /// Sending the kill signal to every task.
    Signal,
    /// Telling the freezer to thaw, so that the signals arrive.
    Thaw,
    /// Reading whether the tasks are gone.
    AwaitEmpty,
    /// Sleeping before the task list is read again.
    EmptyPause,
    /// The bundle was seen empty.
    Killed,
    /// The killing was given up.
    Failed(SandboxError),
}

/// The killing of every task in a bundle: freeze, signal, thaw, wait. Without
/// the freeze a fork bomb makes tasks faster than they can be listed and killed.
#[derive(Debug, Clone, Copy, PartialEq, Eq, Structural)]
pub struct KillAll {
    /// Where the killing stands.
    pub stage: KillStage,
    /// Milliseconds left for waiting, for the freeze and the emptying together.
    pub remaining: u64,
}

impl KillAll {
    /// The state in which a killing begins.
    pub open spec fn start(timeout_ms: u64) -> KillAll {
        KillAll { stage: KillStage::Probe, remaining: timeout_ms }
    }

    /// Whether the killing has come to an end.
    pub open spec fn finished(self) -> bool {
        self.stage is Killed || self.stage is Failed
    }

    /// How long the next sleep is: the poll delay, or what is left if that is less.
    pub open spec fn pause(self) -> u64 {
        if self.remaining < POLL_DELAY_MS {
            self.remaining
        } else {
            POLL_DELAY_MS
        }
    }

    /// The request that the caller has to carry out in this state; none once
    /// the killing is finished.
    pub open spec fn pending(self) -> Option<Request> {
        match self.stage {
            KillStage::Probe => Some(Request::ReadTasks),
            KillStage::Freeze => Some(Request::SetFreezer(FreezerState::Frozen)),
            KillStage::AwaitFrozen => Some(Request::ReadFreezer),
            KillStage::FreezePause => Some(Request::Sleep { ms: self.pause() }),
            KillStage::Signal => Some(Request::SignalAll),
            KillStage::Thaw => Some(Request::SetFreezer(FreezerState::Thawed)),
            KillStage::AwaitEmpty => Some(Request::ReadTasks),
            KillStage::EmptyPause => Some(Request::Sleep { ms: self.pause() }),
            KillStage::Killed => None,
            KillStage::Failed(_) => None,
        }
    }

    /// This state, moved to another stage.
    pub open spec fn at(self, stage: KillStage) -> KillAll {
        KillAll { stage, remaining: self.remaining }
    }

    /// The state after the pending sleep: the time slept is taken off what is
    /// left, and where nothing is left the waiting is over.
    pub open spec fn slept(self, again: KillStage, over: KillStage) -> KillAll {
        let left = (self.remaining - self.pause()) as u64;
        KillAll { stage: if left > 0 { again } else { over }, remaining: left }
    }

    /// The state after the pending request was carried out and answered with
    /// `response`, which is an answer to it and no failure.
    pub open spec fn advanced(self, response: Response) -> KillAll {
        match self.stage {
            KillStage::Probe => if response matches Response::Tasks { empty: true } {
                self.at(KillStage::Killed)
            } else {
                self.at(KillStage::Freeze)
            },
            KillStage::Freeze => if self.remaining > 0 {
                self.at(KillStage::AwaitFrozen)
            } else {
                self.at(KillStage::Signal)
            },
            KillStage::AwaitFrozen => if response matches Response::Frozen(true) {
                self.at(KillStage::Signal)
            } else {
                self.at(KillStage::FreezePause)
            },
            KillStage::FreezePause => self.slept(KillStage::AwaitFrozen, KillStage::Signal),
            KillStage::Signal => self.at(KillStage::Thaw),
            KillStage::Thaw => if self.remaining > 0 {
                self.at(KillStage::AwaitEmpty)
            } else {
                self.at(KillStage::Failed(SandboxError::KillFailed))
            },
            KillStage::AwaitEmpty => if response matches Response::Tasks { empty: true } {
                self.at(KillStage::Killed)
            } else {
                self.at(KillStage::EmptyPause)
            },
            KillStage::EmptyPause => self.slept(
                KillStage::AwaitEmpty,
                KillStage::Failed(SandboxError::KillFailed),
            ),
            KillStage::Killed => self,
            KillStage::Failed(_) => self,
        }
    }

    /// The state after `response` came in. A finished killing stays as it is.
    /// A response that is no answer to the pending request ends the killing
    /// with `Internal`, a failure of the host with `CgroupFailed`.
    pub open spec fn after(self, response: Response) -> KillAll {
        match self.pending() {
            None => self,
            Some(request) => if !request.answered_by(response) {
                self.at(KillStage::Failed(SandboxError::Internal))
            } else if response is Failed {
                self.at(KillStage::Failed(SandboxError::CgroupFailed))
            } else {
                self.advanced(response)
            },
        }
    }

    /// What the killing came to, once it is finished.
    pub open spec fn outcome(self) -> Option<Result<(), SandboxError>> {
        match self.stage {
            KillStage::Killed => Some(Ok(())),
            KillStage::Failed(e) => Some(Err(e)),
            _ => None,
        }
    }

    /// Tells whether the killing has come to an end.
    pub fn is_finished(&self) -> (yes: bool)
        ensures
            yes == self.finished(),
    {
        matches!(self.stage, KillStage::Killed | KillStage::Failed(_))
    }

    /// Gives what the killing came to, once it is finished.
    pub fn result(&self) -> (outcome: Option<Result<(), SandboxError>>)
        ensures
            outcome == self.outcome(),
    {
        match self.stage {
            KillStage::Killed => Some(Ok(())),
            KillStage::Failed(e) => Some(Err(e)),
            _ => None,
        }
    }

    fn next_pause(&self) -> (ms: u64)
        ensures
            ms == self.pause(),
    {
        if self.remaining < POLL_DELAY_MS {
            self.remaining
        } else {
            POLL_DELAY_MS
        }
    }

    /// Gives the request to carry out next; none once the killing is finished.
    pub fn request(&self) -> (request: Option<Request>)
        ensures
            request == self.pending(),
    {
        match self.stage {
            KillStage::Probe => Some(Request::ReadTasks),
            KillStage::Freeze => Some(Request::SetFreezer(FreezerState::Frozen)),
            KillStage::AwaitFrozen => Some(Request::ReadFreezer),
            KillStage::FreezePause => Some(Request::Sleep { ms: self.next_pause() }),
            KillStage::Signal => Some(Request::SignalAll),
            KillStage::Thaw => Some(Request::SetFreezer(FreezerState::Thawed)),
            KillStage::AwaitEmpty => Some(Request::ReadTasks),
            KillStage::EmptyPause => Some(Request::Sleep { ms: self.next_pause() }),
            KillStage::Killed => None,
            KillStage::Failed(_) => None,
        }
    }

    fn sleep_done(&mut self, again: KillStage, over: KillStage)
        ensures
            *final(self) == old(self).slept(again, over),
    {
        let left: u64 = self.remaining - self.next_pause();
        self.remaining = left;
        self.stage = if left > 0 {
            again
        } else {
            over
        };
    }

    /// Takes in the answer to the request that was pending.
    pub fn step(&mut self, response: Response)
        ensures
            *final(self) == old(self).after(response),
    {
        let request = match self.request() {
            Some(request) => request,
            None => {
                return ;
            },
        };
        if !request.accepts(&response) {
            self.stage = KillStage::Failed(SandboxError::Internal);
            return ;
        }
        if let Response::Failed = response {
            self.stage = KillStage::Failed(SandboxError::CgroupFailed);
            return ;
        }
        match self.stage {
            KillStage::Probe => {
                self.stage = if let Response::Tasks { empty: true } = response {
                    KillStage::Killed
                } else {
                    KillStage::Freeze
                };
            },
            KillStage::Freeze => {
                self.stage = if self.remaining > 0 {
                    KillStage::AwaitFrozen
                } else {
                    KillStage::Signal
                };
            },
            KillStage::AwaitFrozen => {
                self.stage = if let Response::Frozen(true) = response {
                    KillStage::Signal
                } else {
                    KillStage::FreezePause
                };
            },
            KillStage::FreezePause => {
                self.sleep_done(KillStage::AwaitFrozen, KillStage::Signal);
            },
            KillStage::Signal => {
                self.stage = KillStage::Thaw;
            },
            KillStage::Thaw => {
                self.stage = if self.remaining > 0 {
                    KillStage::AwaitEmpty
                } else {
                    KillStage::Failed(SandboxError::KillFailed)
                };
            },
            KillStage::AwaitEmpty => {
                self.stage = if let Response::Tasks { empty: true } = response {
                    KillStage::Killed
                } else {
                    KillStage::EmptyPause
                };
            },
            KillStage::EmptyPause => {
                self.sleep_done(KillStage::AwaitEmpty, KillStage::Failed(SandboxError::KillFailed));
            },
            KillStage::Killed => {},
            KillStage::Failed(_) => {},
        }
    }
}

/// The milliseconds that a request makes its caller wait: those of a sleep or
/// of a wait on the child, none for any other request.
pub open spec fn waiting_of(request: Option<Request>) -> nat {
    match request {
        Some(Request::Sleep { ms }) => ms as nat,
        Some(Request::WaitChild { timeout_ms }) => timeout_ms as nat,
        _ => 0,
    }
}

/// How many sleeps of one poll delay it takes to use up `remaining` milliseconds.
pub open spec fn polls(remaining: int) -> int {
    (remaining + POLL_DELAY_MS - 1) / (POLL_DELAY_MS as int)
}

impl KillAll {
    /// Whether the state is one that a killing can be in: it reads and sleeps
    /// only while there is time left.
    pub open spec fn wf(self) -> bool {
        (self.stage is AwaitFrozen || self.stage is FreezePause || self.stage is AwaitEmpty
            || self.stage is EmptyPause) ==> self.remaining > 0
    }

    /// A bound on the number of requests that a killing in this state still makes.
    pub open spec fn steps_left(self) -> nat {
        let rounds = 2 * polls(self.remaining as int);
        match self.stage {
            KillStage::Probe => (rounds + 5) as nat,
            KillStage::Freeze => (rounds + 4) as nat,
            KillStage::AwaitFrozen => (rounds + 3) as nat,
            KillStage::FreezePause => (rounds + 2) as nat,
            KillStage::Signal => (rounds + 2) as nat,
            KillStage::Thaw => (rounds + 1) as nat,
            KillStage::AwaitEmpty => rounds as nat,
            KillStage::EmptyPause => (rounds - 1) as nat,
            KillStage::Killed => 0,
            KillStage::Failed(_) => 0,
        }
    }

    /// The state after the responses came in, one after the other.
    pub open spec fn after_all(self, responses: Seq<Response>) -> KillAll
        decreases responses.len(),
    {
        if responses.len() == 0 {
            self
        } else {
            self.after_all(responses.drop_last()).after(responses.last())
        }
    }

    /// The milliseconds of sleep asked for while the responses came in.
    pub open spec fn sleep_total(self, responses: Seq<Response>) -> nat
        decreases responses.len(),
    {
        if responses.len() == 0 {
            0
        } else {
            self.sleep_total(responses.drop_last()) + waiting_of(
                self.after_all(responses.drop_last()).pending(),
            )
        }
    }
}

/// A killing asks for nothing more exactly when it is finished.
pub proof fn kill_pending_until_finished(kill: KillAll)
    ensures
        kill.pending() is None <==> kill.finished(),
        kill.outcome() is Some <==> kill.finished(),
{
}

/// No sleep that a killing asks for is longer than the poll delay.
pub proof fn kill_sleeps_briefly(kill: KillAll)
    ensures
        waiting_of(kill.pending()) <= POLL_DELAY_MS,
{
}

/// Whatever the response, a killing stays in a state that a killing can be in.
pub proof fn kill_step_keeps_wf(kill: KillAll, response: Response)
    requires
        kill.wf(),
    ensures
        kill.after(response).wf(),
{
}

/// Every response brings a killing that is not finished nearer to its end.
pub proof fn kill_step_counts_down(kill: KillAll, response: Response)
    requires
        kill.wf(),
        !kill.finished(),
    ensures
        kill.after(response).steps_left() < kill.steps_left(),
{
}

/// A killing ends well on one answer only: a task list that is empty.
pub proof fn kill_ends_on_empty(kill: KillAll, response: Response)
    requires
        !kill.finished(),
        kill.after(response).stage is Killed,
    ensures
        kill.pending() == Some(Request::ReadTasks),
        response == (Response::Tasks { empty: true }),
{
}

/// The kill signal goes out once the freezer reads as frozen, or once the time
/// to wait for that is used up, and not before.
pub proof fn kill_signals_frozen(kill: KillAll, response: Response)
    requires
        kill.wf(),
        !(kill.stage is Signal),
        kill.after(response).stage is Signal,
    ensures
        response == Response::Frozen(true) || kill.after(response).remaining == 0,
{
}

/// A killing is finished after as many responses as `steps_left` says, whatever
/// they are: for a timeout of `t` milliseconds, `2 * ceil(t / 100) + 5`.
pub proof fn kill_ends(timeout_ms: u64, responses: Seq<Response>)
    requires
        responses.len() >= KillAll::start(timeout_ms).steps_left(),
    ensures
        KillAll::start(timeout_ms).after_all(responses).finished(),
        KillAll::start(timeout_ms).steps_left() == 2 * polls(timeout_ms as int) + 5,
{
    kill_runs_down(KillAll::start(timeout_ms), responses);
}

/// While responses come in, a killing stays well formed, and what is left of
/// its steps goes down by one with each response until it is finished.
pub proof fn kill_runs_down(kill: KillAll, responses: Seq<Response>)
    requires
        kill.wf(),
    ensures
        kill.after_all(responses).wf(),
        kill.after_all(responses).finished() || kill.after_all(responses).steps_left()
            + responses.len() <= kill.steps_left(),
    decreases responses.len(),
{
    if responses.len() > 0 {
        let before = kill.after_all(responses.drop_last());
        kill_runs_down(kill, responses.drop_last());
        kill_step_keeps_wf(before, responses.last());
        if !before.finished() {
            kill_step_counts_down(before, responses.last());
        }
    }
}

/// Whatever the responses, a killing that began with a timeout of
/// `timeout_ms` milliseconds asks for no more sleep than that in all.
pub proof fn kill_sleeps_within_timeout(timeout_ms: u64, responses: Seq<Response>)
    ensures
        KillAll::start(timeout_ms).sleep_total(responses) <= timeout_ms,
{
    kill_sleep_budget(KillAll::start(timeout_ms), responses);
}

/// The sleep asked for so far and the time that a killing has left never add
/// up to more than the time it began with.
pub proof fn kill_sleep_budget(kill: KillAll, responses: Seq<Response>)
    ensures
        kill.sleep_total(responses) <= kill.remaining,
        !kill.after_all(responses).finished() ==> kill.sleep_total(responses) + kill.after_all(
            responses,
        ).remaining <= kill.remaining,
    decreases responses.len(),
{
    if responses.len() > 0 {
        kill_sleep_budget(kill, responses.drop_last());
    }
}

/// Before a killing reads the freezer, sends a signal or thaws, it has seen a
/// task list that is not empty and has had the freezer told to freeze.
pub proof fn kill_freezes_first(timeout_ms: u64, responses: Seq<Response>)
    requires
        ({
            let stage = KillAll::start(timeout_ms).after_all(responses).stage;
            !(stage is Probe) && !(stage is Freeze) && !(stage is Killed) && !(stage is Failed)
        }),
    ensures
        responses.len() >= 2,
        responses[0] == (Response::Tasks { empty: false }),
        responses[1] == Response::Done,
        KillAll::start(timeout_ms).pending() == Some(Request::ReadTasks),
        KillAll::start(timeout_ms).after(responses[0]).pending() == Some(
            Request::SetFreezer(FreezerState::Frozen),
        ),
    decreases responses.len(),
{
    let start = KillAll::start(timeout_ms);
    if responses.len() > 0 {
        let shorter = responses.drop_last();
        let before = start.after_all(shorter);
        if before.stage is Probe {
            kill_still_probing(timeout_ms, shorter);
        } else if before.stage is Freeze {
            kill_just_froze(timeout_ms, shorter);
            assert(responses[0] == shorter[0]);
            assert(responses[1] == responses.last());
        } else {
            kill_freezes_first(timeout_ms, shorter);
            assert(responses[0] == shorter[0]);
            assert(responses[1] == shorter[1]);
        }
    }
}

/// A killing that still looks for tasks has had no response yet.
pub proof fn kill_still_probing(timeout_ms: u64, responses: Seq<Response>)
    requires
        KillAll::start(timeout_ms).after_all(responses).stage is Probe,
    ensures
        responses.len() == 0,
    decreases responses.len(),
{
    if responses.len() > 0 {
        let before = KillAll::start(timeout_ms).after_all(responses.drop_last());
        if before.stage is Probe {
            kill_still_probing(timeout_ms, responses.drop_last());
        }
    }
}

/// A killing that is about to freeze has had one response: a task list that
/// is not empty.
pub proof fn kill_just_froze(timeout_ms: u64, responses: Seq<Response>)
    requires
        KillAll::start(timeout_ms).after_all(responses).stage is Freeze,
    ensures
        responses.len() == 1,
        responses[0] == (Response::Tasks { empty: false }),
    decreases responses.len(),
{
    if responses.len() > 0 {
        let before = KillAll::start(timeout_ms).after_all(responses.drop_last());
        if before.stage is Probe {
            kill_still_probing(timeout_ms, responses.drop_last());
        } else if before.stage is Freeze {
            kill_just_froze(timeout_ms, responses.drop_last());
        }
    }
}

/// The answers of a host on which, for `n` rounds, a read finds `not_yet`
/// and the sleep after it goes by.
pub open spec fn pausing(not_yet: Response, n: nat) -> Seq<Response>
    decreases n,
{
    if n == 0 {
        Seq::empty()
    } else {
        pausing(not_yet, (n - 1) as nat).push(not_yet).push(Response::Done)
    }
}

/// The answers of a host whose freezer works: there are tasks; the freezer
/// takes the order and reads as frozen after `freezing` rounds; the signal
/// goes out and the freezer thaws; after `dying` more rounds the tasks are gone.
pub open spec fn freezer_at_work(freezing: nat, dying: nat) -> Seq<Response> {
    seq![Response::Tasks { empty: false }, Response::Done] + pausing(
        Response::Frozen(false),
        freezing,
    ) + seq![Response::Frozen(true), Response::Done, Response::Done] + pausing(
        Response::Tasks { empty: false },
        dying,
    ) + seq![Response::Tasks { empty: true }]
}

/// Answers that come in two parts bring a killing where the second part
/// brings it from where the first has brought it.
pub proof fn kill_in_two_parts(kill: KillAll, first: Seq<Response>, then: Seq<Response>)
    ensures
        kill.after_all(first + then) == kill.after_all(first).after_all(then),
    decreases then.len(),
{
    if then.len() == 0 {
        assert(first + then =~= first);
    } else {
        assert((first + then).drop_last() =~= first + then.drop_last());
        kill_in_two_parts(kill, first, then.drop_last());
    }
}

/// One more answer brings a killing one step on.
pub proof fn kill_one_more(kill: KillAll, answers: Seq<Response>, answer: Response)
    ensures
        kill.after_all(answers.push(answer)) == kill.after_all(answers).after(answer),
{
    assert(answers.push(answer).drop_last() =~= answers);
}

/// While the freezer does not read as frozen, or while tasks are left, a
/// killing reads and sleeps in turn, and each round costs it one poll delay
/// of its time.
pub proof fn kill_pauses(kill: KillAll, n: nat)
    requires
        kill.stage is AwaitFrozen || kill.stage is AwaitEmpty,
        n * POLL_DELAY_MS < kill.remaining,
    ensures
        kill.after_all(
            pausing(
                if kill.stage is AwaitFrozen {
                    Response::Frozen(false)
                } else {
                    Response::Tasks { empty: false }
                },
                n,
            ),
        ) == (KillAll {
            stage: kill.stage,
            remaining: (kill.remaining - n * POLL_DELAY_MS) as u64,
        }),
    decreases n,
{
    if n > 0 {
        let not_yet = if kill.stage is AwaitFrozen {
            Response::Frozen(false)
        } else {
            Response::Tasks { empty: false }
        };
        let before = pausing(not_yet, (n - 1) as nat);
        kill_pauses(kill, (n - 1) as nat);
        kill_one_more(kill, before, not_yet);
        kill_one_more(kill, before.push(not_yet), Response::Done);
    }
}

/// On a host whose freezer works, the tasks of a bundle are killed: if the
/// freezer reads as frozen and the tasks are gone before the time for both
/// runs out, the killing ends well, with the bundle seen empty. This holds
/// however fast the tasks fork, for a frozen task forks no more.
pub proof fn kill_succeeds_where_the_freezer_works(timeout_ms: u64, freezing: nat, dying: nat)
    requires
        (freezing + dying) * POLL_DELAY_MS < timeout_ms,
    ensures
        KillAll::start(timeout_ms).after_all(freezer_at_work(freezing, dying)).outcome() == Some(
            Ok::<(), SandboxError>(()),
        ),
{
    let start = KillAll::start(timeout_ms);
    let found = seq![Response::Tasks { empty: false }, Response::Done];
    let frozen = seq![Response::Frozen(true), Response::Done, Response::Done];
    let gone = seq![Response::Tasks { empty: true }];
    let part1 = found;
    let part2 = part1 + pausing(Response::Frozen(false), freezing);
    let part3 = part2 + frozen;
    let part4 = part3 + pausing(Response::Tasks { empty: false }, dying);

    assert(found =~= Seq::<Response>::empty().push(found[0]).push(found[1]));
    kill_one_more(start, Seq::empty(), found[0]);
    kill_one_more(start, Seq::empty().push(found[0]), found[1]);
    let s1 = start.after_all(part1);
    assert(s1 == KillAll { stage: KillStage::AwaitFrozen, remaining: timeout_ms });

    kill_in_two_parts(start, part1, pausing(Response::Frozen(false), freezing));
    kill_pauses(s1, freezing);
    let s2 = start.after_all(part2);

    assert(frozen =~= Seq::<Response>::empty().push(frozen[0]).push(frozen[1]).push(frozen[2]));
    kill_one_more(s2, Seq::empty(), frozen[0]);
    kill_one_more(s2, Seq::empty().push(frozen[0]), frozen[1]);
    kill_one_more(s2, Seq::empty().push(frozen[0]).push(frozen[1]), frozen[2]);
    kill_in_two_parts(start, part2, frozen);
    let s3 = start.after_all(part3);
    assert(s3.stage is AwaitEmpty);

    kill_in_two_parts(start, part3, pausing(Response::Tasks { empty: false }, dying));
    kill_pauses(s3, dying);
    let s4 = start.after_all(part4);

    assert(gone =~= Seq::<Response>::empty().push(gone[0]));
    kill_one_more(s4, Seq::empty(), gone[0]);
    kill_in_two_parts(start, part4, gone);
}

} // verus!
