use vstd::prelude::*;
use crate::cgroup::{SandboxCgroup, KILL_TIMEOUT_MS};
use crate::kill::polls;
use crate::config::SandboxConfig;
use crate::error::{Precondition, SandboxError};
use crate::host::{Request, Response};
use crate::launch::{sandboxed_launch, LaunchPlan, LaunchPlanView, SandboxCommandExt};
use crate::run::{
    run_begins_wf, run_goes_on, run_pending_until_finished, run_status_is_borne_out,
    run_step_counts_down, run_step_keeps_wf,
};
use crate::status::{borne_out, SandboxStatus};
use crate::supervisor::{Phase, Supervisor};

verus! {

/// What was found on the host before a sandbox is built.
#[derive(Debug, Clone, Copy, PartialEq, Eq, Structural)]
pub struct HostProbe {
    /// The file named by `swap_accounting_file_name` exists.
    pub swap_accounting: bool,
    /// The root image exists.
    pub rootfs_directory: bool,
    /// The upper directory exists.
    pub work_directory: bool,
    /// The mount point exists.
    pub sandbox_directory: bool,
}

/// An overlay mount: `lower` is seen at `target`, read-only; what is written
/// at `target` lands in `upper`. The overlay keeps its own scratch files in
/// `target` as well.
#[derive(Debug, PartialEq, Eq)]
pub struct OverlayMount {
    /// The read-only lower layer.
    pub lower: String,
    /// The writable upper layer.
    pub upper: String,
    /// The mount point, and the overlay's work directory.
    pub target: String,
}

/// A mounted root in which commands are run, one after the other.
#[derive(Debug, PartialEq, Eq)]
pub struct Sandbox {
    /// The mount point.
    pub sandbox_directory: String,
    /// The writable upper directory. What is in it hides what the root image
    /// has under the same name.
    pub work_directory: String,
    /// The root image.
    pub rootfs_directory: String,
    /// Whether the overlay is mounted.
    pub mounted: bool,
}

/// The file whose existence shows that the memory controller accounts swap.
pub open spec fn swap_accounting_file() -> Seq<char> {
    "/sys/fs/cgroup/memory/memory.memsw.usage_in_bytes"@
}

/// Gives the file whose existence shows that the memory controller accounts swap.
pub fn swap_accounting_file_name() -> (name: &'static str)
    ensures
        name@ == swap_accounting_file(),
{
    "/sys/fs/cgroup/memory/memory.memsw.usage_in_bytes"
}

/// Whether three paths are three different paths.
pub open spec fn distinct(rootfs: Seq<char>, work: Seq<char>, sandbox: Seq<char>) -> bool {
    rootfs != work && rootfs != sandbox && work != sandbox
}

/// The first precondition that is not met, in the order in which they are
/// looked at: swap accounting, the root image, the upper directory, the mount
/// point, and that the three are different paths.
pub open spec fn unmet(
    host: HostProbe,
    rootfs: Seq<char>,
    work: Seq<char>,
    sandbox: Seq<char>,
) -> Option<Precondition> {
    if !host.swap_accounting {
        Some(Precondition::SwapAccounting)
    } else if !host.rootfs_directory {
        Some(Precondition::RootfsDirectory)
    } else if !host.work_directory {
        Some(Precondition::WorkDirectory)
    } else if !host.sandbox_directory {
        Some(Precondition::SandboxDirectory)
    } else if !distinct(rootfs, work, sandbox) {
        Some(Precondition::DistinctDirectories)
    } else {
        None
    }
}

/// Whether `c` is a decimal digit or one of the letters `a` to `f`.
pub open spec fn is_lower_hex(c: char) -> bool {
    ('0' <= c && c <= '9') || ('a' <= c && c <= 'f')
}

/// Whether `name` is a UUID in its usual written form: 36 characters, hyphens
/// after the 8th, 12th, 16th and 20th digit, every other character a
/// lower-case hexadecimal digit.
pub open spec fn is_hyphenated_uuid(name: Seq<char>) -> bool {
    &&& name.len() == 36
    &&& forall|i: int|
        0 <= i < 36 ==> if i == 8 || i == 13 || i == 18 || i == 23 {
            name[i] == '-'
        } else {
            is_lower_hex(#[trigger] name[i])
        }
}

/// Draws a random UUID with `uuid::Uuid::new_v4` and writes it out with its
/// `Display` impl. The contract is taken on trust from that crate: what is
/// written is the hyphenated lower-case form. That two names differ is likely,
/// and is not claimed. The call panics where the operating system has no
/// random bytes to give.
#[verifier::external_body]
fn fresh_cgroup_name() -> (name: String)
    ensures
        is_hyphenated_uuid(name@),
{
    uuid::Uuid::new_v4().to_string()
}

impl OverlayMount {
    /// The directory in which the overlay keeps its scratch files: the mount
    /// point itself.
    pub fn workdir(&self) -> (dir: &str)
        ensures
            dir@ == self.target@,
    {
        self.target.as_str()
    }
}

impl Sandbox {
    /// Looks at what was found on the host and, where every precondition is
    /// met, says which overlay to mount.
    pub fn prepare(
        rootfs_directory: &str,
        work_directory: &str,
        sandbox_directory: &str,
        host: &HostProbe,
    ) -> (mount: Result<OverlayMount, SandboxError>)
        ensures
            match unmet(*host, rootfs_directory@, work_directory@, sandbox_directory@) {
                Some(precondition) => mount == Err::<OverlayMount, SandboxError>(
                    SandboxError::PreconditionFailed(precondition),
                ),
                None => mount matches Ok(m) && m.lower@ == rootfs_directory@ && m.upper@
                    == work_directory@ && m.target@ == sandbox_directory@,
            },
    {
        if !host.swap_accounting {
            return Err(SandboxError::PreconditionFailed(Precondition::SwapAccounting));
        }
        if !host.rootfs_directory {
            return Err(SandboxError::PreconditionFailed(Precondition::RootfsDirectory));
        }
        if !host.work_directory {
            return Err(SandboxError::PreconditionFailed(Precondition::WorkDirectory));
        }
        if !host.sandbox_directory {
            return Err(SandboxError::PreconditionFailed(Precondition::SandboxDirectory));
        }
        let lower: String = rootfs_directory.to_owned();
        let upper: String = work_directory.to_owned();
        let target: String = sandbox_directory.to_owned();
        if lower == upper || lower == target || upper == target {
            return Err(SandboxError::PreconditionFailed(Precondition::DistinctDirectories));
        }
        Ok(OverlayMount { lower, upper, target })
    }

    /// What comes of an overlay once it was tried to mount it: a mounted
    /// sandbox on its three directories where that worked, the error where it
    /// did not.
    pub open spec fn built(mount: OverlayMount, mounted: bool) -> Result<Sandbox, SandboxError> {
        if mounted {
            Ok(
                Sandbox {
                    sandbox_directory: mount.target,
                    work_directory: mount.upper,
                    rootfs_directory: mount.lower,
                    mounted: true,
                },
            )
        } else {
            Err(SandboxError::MountFailed)
        }
    }

    /// The sandbox after it was given up: the same directories, not mounted.
    pub open spec fn removed(self) -> Sandbox {
        Sandbox { mounted: false, ..self }
    }

    /// Takes over the overlay once the caller has tried to mount it: a
    /// sandbox where that worked, the error where it did not.
    pub fn new(mount: OverlayMount, mounted: bool) -> (sandbox: Result<Sandbox, SandboxError>)
        ensures
            sandbox == Self::built(mount, mounted),
    {
        if mounted {
            Ok(
                Sandbox {
                    sandbox_directory: mount.target,
                    work_directory: mount.upper,
                    rootfs_directory: mount.lower,
                    mounted: true,
                },
            )
        } else {
            Err(SandboxError::MountFailed)
        }
    }

    /// Gives the sandbox up. The result says whether the caller has to
    /// unmount the overlay: it has, the first time; after that the sandbox is
    /// no longer mounted, and giving it up again asks for nothing.
    pub fn remove(&mut self) -> (unmount: bool)
        ensures
            unmount == old(self).mounted,
            *final(self) == old(self).removed(),
    {
        let unmount = self.mounted;
        self.mounted = false;
        unmount
    }

    /// The plan by which the sandbox starts the command of `config`.
    pub fn launch(&self, config: &SandboxConfig) -> (plan: LaunchPlan)
        ensures
            plan@ == sandboxed_launch(
                self.sandbox_directory@,
                config.command@,
                config.stdin,
                config.stdout,
                config.stderr,
            ),
    {
        let mut plan = LaunchPlan::new("sh");
        plan.arg("-c").arg(config.command.as_str());
        plan.unshare().cgroups();
        plan.chroot(self.sandbox_directory.clone()).chdir("/".to_owned());
        plan.stdin(config.stdin).stdout(config.stdout).stderr(config.stderr);
        proof {
            assert(plan@ =~~= sandboxed_launch(
                self.sandbox_directory@,
                config.command@,
                config.stdin,
                config.stdout,
                config.stderr,
            ));
        }
        plan
    }
}

/// A sandbox that was built and is given up at once asks for its overlay to
/// be unmounted; given up once more, it asks for nothing and stays as it is.
/// So the unmount is asked for once for every mount, however often the
/// sandbox is given up.
pub proof fn remove_unmounts_once(mount: OverlayMount)
    ensures
        Sandbox::built(mount, true) matches Ok(sandbox) && sandbox.mounted
            && !sandbox.removed().mounted && sandbox.removed().removed() == sandbox.removed(),
        Sandbox::built(mount, false) is Err,
{
}

/// Where every precondition is met, the overlay to mount has the three
/// directories as its layers, and they are three different paths.
pub proof fn prepared_is_distinct(
    host: HostProbe,
    rootfs: Seq<char>,
    work: Seq<char>,
    sandbox: Seq<char>,
)
    requires
        unmet(host, rootfs, work, sandbox) is None,
    ensures
        host.swap_accounting && host.rootfs_directory && host.work_directory
            && host.sandbox_directory,
        distinct(rootfs, work, sandbox),
{
}

impl Supervisor {
    /// Whether this is the state in which a run of `config` begins in a sandbox
    /// mounted at `root`, under a bundle called `name`.
    pub open spec fn begins(self, root: Seq<char>, config: SandboxConfig, name: Seq<char>) -> bool {
        &&& self.limits == config.caps()
        &&& self.cgroup.name@ == name
        &&& self.launch@ == sandboxed_launch(
            root,
            config.command@,
            config.stdin,
            config.stdout,
            config.stderr,
        )
        &&& self.phase == Phase::Create
        &&& self.drained is None
        &&& self.released is None
    }
}

/// Whether `answers` are what `host` gave, one after the other, to the
/// requests that the run made from `begin` on.
pub open spec fn answered_in_turn<H: Fn(&Supervisor, Request) -> Response>(
    host: H,
    begin: Supervisor,
    answers: Seq<Response>,
) -> bool {
    forall|i: int|
        0 <= i < answers.len() ==> (#[trigger] begin.after_all(answers.take(i))).pending() is Some
            && call_ensures(
            host,
            (
                &begin.after_all(answers.take(i)),
                begin.after_all(answers.take(i)).pending().unwrap(),
            ),
            answers[i],
        )
}

impl Sandbox {
    /// Begins a run of `config` under a bundle called `cgroup_name`. A sandbox
    /// that was given up runs nothing.
    pub fn start_named(&self, config: SandboxConfig, cgroup_name: &str) -> (run: Result<
        Supervisor,
        SandboxError,
    >)
        ensures
            !self.mounted ==> run == Err::<Supervisor, SandboxError>(SandboxError::Internal),
            self.mounted ==> (run matches Ok(r) && r.begins(
                self.sandbox_directory@,
                config,
                cgroup_name@,
            )),
    {
        if !self.mounted {
            return Err(SandboxError::Internal);
        }
        let launch = self.launch(&config);
        Ok(Supervisor::start(config.limits(), SandboxCgroup::new(cgroup_name), launch))
    }

    /// Begins a run of `config` under a bundle with a name of its own, drawn
    /// at random.
    pub fn start(&self, config: SandboxConfig) -> (run: Result<Supervisor, SandboxError>)
        ensures
            !self.mounted ==> run == Err::<Supervisor, SandboxError>(SandboxError::Internal),
            self.mounted ==> (run matches Ok(r) && is_hyphenated_uuid(r.cgroup.name@) && r.begins(
                self.sandbox_directory@,
                config,
                r.cgroup.name@,
            )),
    {
        if !self.mounted {
            return Err(SandboxError::Internal);
        }
        let name = fresh_cgroup_name();
        self.start_named(config, name.as_str())
    }

    /// Runs the command of `config` in the sandbox, with `host` to carry out
    /// each request, and gives what the run came to. The sandbox is the same
    /// after the run as before, and can run the next command.
    pub fn run<H: Fn(&Supervisor, Request) -> Response>(
        &self,
        config: SandboxConfig,
        host: H,
    ) -> (outcome: Result<SandboxStatus, SandboxError>)
        requires
            forall|run: &Supervisor, request: Request| call_requires(host, (run, request)),
        ensures
            !self.mounted ==> outcome == Err::<SandboxStatus, SandboxError>(SandboxError::Internal),
            self.mounted ==> exists|begin: Supervisor, answers: Seq<Response>|
                {
                    &&& is_hyphenated_uuid(begin.cgroup.name@)
                    &&& begin.begins(self.sandbox_directory@, config, begin.cgroup.name@)
                    &&& answered_in_turn(host, begin, answers)
                    &&& #[trigger] begin.after_all(answers).outcome() == Some(outcome)
                    &&& answers.len() <= 36 + 2 * polls(config.caps().deadline_ms())
                    &&& begin.waited(answers) <= config.caps().deadline_ms() + KILL_TIMEOUT_MS
                },
            outcome matches Ok(status) ==> borne_out(config.caps(), status),
    {
        let mut run = match self.start(config) {
            Ok(run) => run,
            Err(e) => {
                return Err(e);
            },
        };
        let ghost begin = run;
        let ghost mut answers = Seq::<Response>::empty();
        proof {
            run_begins_wf(run);
        }
        while !run.is_finished()
            invariant
                begin.wf(),
                begin.judged(),
                run.wf(),
                run == begin.after_all(answers),
                answered_in_turn(host, begin, answers),
                run.steps_left() + answers.len() <= begin.steps_left(),
                forall|run: &Supervisor, request: Request| call_requires(host, (run, request)),
            decreases run.steps_left(),
        {
            proof {
                run_pending_until_finished(run);
            }
            let request = run.request().unwrap();
            let response = host(&run, request);
            proof {
                run_step_keeps_wf(run, response);
                run_step_counts_down(run, response);
                let longer = answers.push(response);
                assert(longer.drop_last() =~= answers);
                assert forall|i: int| 0 <= i < longer.len() implies (#[trigger] begin.after_all(
                    longer.take(i),
                )).pending() is Some && call_ensures(
                    host,
                    (
                        &begin.after_all(longer.take(i)),
                        begin.after_all(longer.take(i)).pending().unwrap(),
                    ),
                    longer[i],
                ) by {
                    if i < answers.len() {
                        assert(longer.take(i) =~= answers.take(i));
                    } else {
                        assert(longer.take(i) =~= answers);
                    }
                }
                answers = longer;
            }
            run.step(response);
        }
        proof {
            run_pending_until_finished(run);
            run_goes_on(begin, answers);
            if let Some(Ok(status)) = run.outcome() {
                run_status_is_borne_out(begin, answers, status);
            }
        }
        run.result().unwrap()
    }
}

} // verus!
