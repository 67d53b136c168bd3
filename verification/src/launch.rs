use vstd::prelude::*;
use crate::config::SandboxStdio;
use crate::host::Controller;

verus! {

/// Something that is done to the child before it becomes the command.
#[derive(Debug, PartialEq, Eq)]
pub enum LaunchStep {
    /// Give the command a PID namespace of its own, in which it is process 1
    /// and sees no process of the host.
    Unshare,
    /// Join the bundle's control group in one controller.
    Attach(Controller),
    /// Make a directory the root directory.
    Chroot(String),
    /// Make a directory the working directory.
    Chdir(String),
}

/// A launch step, with its directory as a sequence of characters.
pub enum LaunchStepView {
    /// Give the command a PID namespace of its own.
    Unshare,
    /// Join the bundle's control group in one controller.
    Attach(Controller),
    /// Make a directory the root directory.
    Chroot(Seq<char>),
    /// Make a directory the working directory.
    Chdir(Seq<char>),
}

impl View for LaunchStep {
    type V = LaunchStepView;

    open spec fn view(&self) -> LaunchStepView {
        match self {
            LaunchStep::Unshare => LaunchStepView::Unshare,
            LaunchStep::Attach(c) => LaunchStepView::Attach(*c),
            LaunchStep::Chroot(dir) => LaunchStepView::Chroot(dir@),
            LaunchStep::Chdir(dir) => LaunchStepView::Chdir(dir@),
        }
    }
}

/// How to start the child: a program with its arguments and streams, and the
/// steps to take, in their order, before the program is executed. A step that
/// fails ends the child before the program runs.
#[derive(Debug, PartialEq, Eq)]
pub struct LaunchPlan {
    /// The program to execute.
    pub program: String,
    /// Its arguments.
    pub args: Vec<String>,
    /// The steps before it.
    pub steps: Vec<LaunchStep>,
    /// Its standard input.
    pub stdin: SandboxStdio,
    /// Its standard output.
    pub stdout: SandboxStdio,
    /// Its standard error.
    pub stderr: SandboxStdio,
}

/// A launch plan as plain values.
#[verifier::ext_equal]
pub struct LaunchPlanView {
    /// The program to execute.
    pub program: Seq<char>,
    /// Its arguments.
    pub args: Seq<Seq<char>>,
    /// The steps before it.
    pub steps: Seq<LaunchStepView>,
    /// Its standard input.
    pub stdin: SandboxStdio,
    /// Its standard output.
    pub stdout: SandboxStdio,
    /// Its standard error.
    pub stderr: SandboxStdio,
}

impl View for LaunchPlan {
    type V = LaunchPlanView;

    open spec fn view(&self) -> LaunchPlanView {
        LaunchPlanView {
            program: self.program@,
            args: self.args@.map_values(|a: String| a@),
            steps: self.steps@.map_values(|s: LaunchStep| s@),
            stdin: self.stdin,
            stdout: self.stdout,
            stderr: self.stderr,
        }
    }
}

/// The confinement steps of a launch: whatever starts a child can be told to
/// change the child's root directory and its working directory on the way.
pub trait SandboxCommandExt: Sized {
    /// The steps that were asked for so far, in their order.
    spec fn launch_steps(&self) -> Seq<LaunchStepView>;

    /// Makes `dir` the root directory of the child. It comes after every step
    /// that needs the host's own file system.
    fn chroot(&mut self, dir: String) -> (ext: &mut Self)
        ensures
            ext.launch_steps() == old(self).launch_steps().push(LaunchStepView::Chroot(dir@)),
            *final(self) == *final(ext),
    ;

    /// Makes `dir` the working directory of the child. After `chroot`, `dir`
    /// is a path under the new root.
    fn chdir(&mut self, dir: String) -> (ext: &mut Self)
        ensures
            ext.launch_steps() == old(self).launch_steps().push(LaunchStepView::Chdir(dir@)),
            *final(self) == *final(ext),
    ;
}

impl LaunchPlan {
    /// A plan that executes `program` with no argument, after no step, with
    /// the caller's own streams.
    pub fn new(program: &str) -> (plan: LaunchPlan)
        ensures
            plan@ =~~= (LaunchPlanView {
                program: program@,
                args: Seq::empty(),
                steps: Seq::empty(),
                stdin: SandboxStdio::Inherit,
                stdout: SandboxStdio::Inherit,
                stderr: SandboxStdio::Inherit,
            }),
    {
        LaunchPlan {
            program: program.to_owned(),
            args: Vec::new(),
            steps: Vec::new(),
            stdin: SandboxStdio::Inherit,
            stdout: SandboxStdio::Inherit,
            stderr: SandboxStdio::Inherit,
        }
    }
}

impl LaunchPlanView {
    /// This plan with one more step at the end.
    pub open spec fn with_step(self, step: LaunchStepView) -> LaunchPlanView {
        LaunchPlanView { steps: self.steps.push(step), ..self }
    }

    /// Whether the plan joins the control group of `controller`.
    pub open spec fn attaches(self, controller: Controller) -> bool {
        self.steps.contains(LaunchStepView::Attach(controller))
    }

    /// Whether every step that joins a control group or enters a namespace
    /// comes before every step that changes the root directory. Once the root
    /// has changed, the host's control files are out of reach.
    pub open spec fn confines_last(self) -> bool {
        forall|i: int, j: int|
            0 <= i < self.steps.len() && 0 <= j < self.steps.len() && (self.steps[i] is Attach
                || self.steps[i] is Unshare) && self.steps[j] is Chroot ==> i < j
    }

    /// Whether the child, when the program starts, is a member of all four
    /// controllers, lives in a new PID namespace, and has `root` as its root
    /// directory and as its working directory, all steps in an order that works.
    pub open spec fn confined_to(self, root: Seq<char>) -> bool {
        &&& self.confines_last()
        &&& self.steps.contains(LaunchStepView::Unshare)
        &&& self.attaches(Controller::Memory)
        &&& self.attaches(Controller::Pids)
        &&& self.attaches(Controller::Freezer)
        &&& self.attaches(Controller::Cpuacct)
        &&& self.steps.len() >= 2
        &&& self.steps[self.steps.len() - 2] == LaunchStepView::Chroot(root)
        &&& self.steps[self.steps.len() - 1] == LaunchStepView::Chdir("/"@)
    }
}

/// The plan by which a sandbox starts a command: the child enters a new PID
/// namespace, joins the four control groups, makes `root` its root directory
/// and goes to the top of it; then it becomes `sh -c command`.
pub open spec fn sandboxed_launch(
    root: Seq<char>,
    command: Seq<char>,
    stdin: SandboxStdio,
    stdout: SandboxStdio,
    stderr: SandboxStdio,
) -> LaunchPlanView {
    LaunchPlanView {
        program: "sh"@,
        args: seq!["-c"@, command],
        steps: seq![
            LaunchStepView::Unshare,
            LaunchStepView::Attach(Controller::Memory),
            LaunchStepView::Attach(Controller::Pids),
            LaunchStepView::Attach(Controller::Freezer),
            LaunchStepView::Attach(Controller::Cpuacct),
            LaunchStepView::Chroot(root),
            LaunchStepView::Chdir("/"@),
        ],
        stdin,
        stdout,
        stderr,
    }
}

/// The plan by which a sandbox starts a command confines the child to the
/// sandbox's root, whatever the root and the command are: control groups and
/// namespace come first, then the root changes, and only then the shell runs.
pub proof fn sandboxed_launch_confines(
    root: Seq<char>,
    command: Seq<char>,
    stdin: SandboxStdio,
    stdout: SandboxStdio,
    stderr: SandboxStdio,
)
    ensures
        sandboxed_launch(root, command, stdin, stdout, stderr).confined_to(root),
        sandboxed_launch(root, command, stdin, stdout, stderr).program == "sh"@,
        sandboxed_launch(root, command, stdin, stdout, stderr).args == seq!["-c"@, command],
{
    let plan = sandboxed_launch(root, command, stdin, stdout, stderr);
    assert(plan.steps[0] == LaunchStepView::Unshare);
    assert(plan.steps[1] == LaunchStepView::Attach(Controller::Memory));
    assert(plan.steps[2] == LaunchStepView::Attach(Controller::Pids));
    assert(plan.steps[3] == LaunchStepView::Attach(Controller::Freezer));
    assert(plan.steps[4] == LaunchStepView::Attach(Controller::Cpuacct));
    assert(plan.steps[5] == LaunchStepView::Chroot(root));
    assert(plan.steps[6] == LaunchStepView::Chdir("/"@));
}

impl LaunchPlan {
    /// Adds an argument of the program.
    pub fn arg(&mut self, arg: &str) -> (plan: &mut Self)
        ensures
            plan@ =~~= (LaunchPlanView { args: old(self)@.args.push(arg@), ..old(self)@ }),
            *final(self) == *final(plan),
    {
        self.args.push(arg.to_owned());
        self
    }

    /// Gives the command a PID namespace of its own, in which it cannot see
    /// or signal the host's processes.
    pub fn unshare(&mut self) -> (plan: &mut Self)
        ensures
            plan@ =~~= old(self)@.with_step(LaunchStepView::Unshare),
            *final(self) == *final(plan),
    {
        self.steps.push(LaunchStep::Unshare);
        self
    }

    /// Lets the child join the bundle's control group in each of the four
    /// controllers.
    pub fn cgroups(&mut self) -> (plan: &mut Self)
        ensures
            plan@ =~~= old(self)@.with_step(LaunchStepView::Attach(Controller::Memory)).with_step(
                LaunchStepView::Attach(Controller::Pids),
            ).with_step(LaunchStepView::Attach(Controller::Freezer)).with_step(
                LaunchStepView::Attach(Controller::Cpuacct),
            ),
            *final(self) == *final(plan),
    {
        self.steps.push(LaunchStep::Attach(Controller::Memory));
        self.steps.push(LaunchStep::Attach(Controller::Pids));
        self.steps.push(LaunchStep::Attach(Controller::Freezer));
        self.steps.push(LaunchStep::Attach(Controller::Cpuacct));
        self
    }

    /// Says where the program's standard input comes from.
    pub fn stdin(&mut self, stdin: SandboxStdio) -> (plan: &mut Self)
        ensures
            plan@ =~~= (LaunchPlanView { stdin, ..old(self)@ }),
            *final(self) == *final(plan),
    {
        self.stdin = stdin;
        self
    }

    /// Says where the program's standard output goes.
    pub fn stdout(&mut self, stdout: SandboxStdio) -> (plan: &mut Self)
        ensures
            plan@ =~~= (LaunchPlanView { stdout, ..old(self)@ }),
            *final(self) == *final(plan),
    {
        self.stdout = stdout;
        self
    }

    /// Says where the program's standard error goes.
    pub fn stderr(&mut self, stderr: SandboxStdio) -> (plan: &mut Self)
        ensures
            plan@ =~~= (LaunchPlanView { stderr, ..old(self)@ }),
            *final(self) == *final(plan),
    {
        self.stderr = stderr;
        self
    }
}

impl SandboxCommandExt for LaunchPlan {
    open spec fn launch_steps(&self) -> Seq<LaunchStepView> {
        self@.steps
    }

    fn chroot(&mut self, dir: String) -> (plan: &mut Self)
        ensures
            plan@ =~~= old(self)@.with_step(LaunchStepView::Chroot(dir@)),
    {
        self.steps.push(LaunchStep::Chroot(dir));
        self
    }

    fn chdir(&mut self, dir: String) -> (plan: &mut Self)
        ensures
            plan@ =~~= old(self)@.with_step(LaunchStepView::Chdir(dir@)),
    {
        self.steps.push(LaunchStep::Chdir(dir));
        self
    }
}

} // verus!
