use nova_sandbox::sandbox::swap_accounting_file_name;
use nova_sandbox::{
    Controller, HostProbe, LaunchPlan, LaunchStep, OverlayMount, Phase, Precondition, Request,
    Response, Sandbox, SandboxCommandExt, SandboxConfig, SandboxError, SandboxStdio,
};

const ALL: HostProbe = HostProbe {
    swap_accounting: true,
    rootfs_directory: true,
    work_directory: true,
    sandbox_directory: true,
};

fn sandbox() -> Sandbox {
    let mount = Sandbox::prepare("/srv/rootfs", "/tmp/work", "/tmp/root", &ALL).unwrap();
    Sandbox::new(mount, true).unwrap()
}

fn config(command: &str) -> SandboxConfig {
    SandboxConfig::new(
        1000,
        8 * 1024 * 1024,
        5,
        command,
        SandboxStdio::Null,
        SandboxStdio::Inherit,
        SandboxStdio::Fd(7),
    )
}

#[test]
fn config_keeps_its_parts() {
    let config = config("echo 'Hello, World!'");
    assert_eq!(config.time_limit, 1000);
    assert_eq!(config.memory_limit, 8 * 1024 * 1024);
    assert_eq!(config.pids_limit, 5);
    assert_eq!(config.command, "echo 'Hello, World!'");
    assert_eq!(config.stdin, SandboxStdio::Null);
    assert_eq!(config.stdout, SandboxStdio::Inherit);
    assert_eq!(config.stderr, SandboxStdio::Fd(7));
    let limits = config.limits();
    assert_eq!((limits.time_limit, limits.memory_limit, limits.pids_limit), (1000, 8 << 20, 5));
}

#[test]
fn swap_accounting_is_told_by_a_file_of_the_memory_controller() {
    assert_eq!(
        swap_accounting_file_name(),
        "/sys/fs/cgroup/memory/memory.memsw.usage_in_bytes"
    );
}

#[test]
fn prepared_overlay_has_the_three_directories() {
    let mount = Sandbox::prepare("/srv/rootfs", "/tmp/work", "/tmp/root", &ALL).unwrap();
    assert_eq!(mount.lower, "/srv/rootfs");
    assert_eq!(mount.upper, "/tmp/work");
    assert_eq!(mount.target, "/tmp/root");
    assert_eq!(mount.workdir(), "/tmp/root");
}

#[test]
fn first_unmet_precondition_is_the_error() {
    let prepare = |host: HostProbe| {
        Sandbox::prepare("/srv/rootfs", "/tmp/work", "/tmp/root", &host).unwrap_err()
    };
    assert_eq!(
        prepare(HostProbe { swap_accounting: false, ..ALL }),
        SandboxError::PreconditionFailed(Precondition::SwapAccounting)
    );
    assert_eq!(
        prepare(HostProbe { rootfs_directory: false, ..ALL }),
        SandboxError::PreconditionFailed(Precondition::RootfsDirectory)
    );
    assert_eq!(
        prepare(HostProbe { work_directory: false, ..ALL }),
        SandboxError::PreconditionFailed(Precondition::WorkDirectory)
    );
    assert_eq!(
        prepare(HostProbe { sandbox_directory: false, ..ALL }),
        SandboxError::PreconditionFailed(Precondition::SandboxDirectory)
    );
    let nothing = HostProbe {
        swap_accounting: false,
        rootfs_directory: false,
        work_directory: false,
        sandbox_directory: false,
    };
    assert_eq!(prepare(nothing), SandboxError::PreconditionFailed(Precondition::SwapAccounting));
    assert_eq!(
        prepare(HostProbe { swap_accounting: true, ..nothing }),
        SandboxError::PreconditionFailed(Precondition::RootfsDirectory)
    );
    assert_eq!(
        prepare(HostProbe { work_directory: false, sandbox_directory: false, ..ALL }),
        SandboxError::PreconditionFailed(Precondition::WorkDirectory)
    );
}

#[test]
fn directories_must_be_three_different_paths() {
    let same = SandboxError::PreconditionFailed(Precondition::DistinctDirectories);
    assert_eq!(Sandbox::prepare("/a", "/a", "/c", &ALL).unwrap_err(), same);
    assert_eq!(Sandbox::prepare("/a", "/b", "/a", &ALL).unwrap_err(), same);
    assert_eq!(Sandbox::prepare("/a", "/b", "/b", &ALL).unwrap_err(), same);
    assert_eq!(Sandbox::prepare("/a", "/a", "/a", &ALL).unwrap_err(), same);
    assert!(Sandbox::prepare("/a", "/b", "/c", &ALL).is_ok());
    // A directory that is missing is said first.
    assert_eq!(
        Sandbox::prepare("/a", "/a", "/a", &HostProbe { work_directory: false, ..ALL })
            .unwrap_err(),
        SandboxError::PreconditionFailed(Precondition::WorkDirectory)
    );
}

#[test]
fn sandbox_takes_over_a_mounted_overlay() {
    let sandbox = sandbox();
    assert_eq!(sandbox.rootfs_directory, "/srv/rootfs");
    assert_eq!(sandbox.work_directory, "/tmp/work");
    assert_eq!(sandbox.sandbox_directory, "/tmp/root");
    assert!(sandbox.mounted);
}

#[test]
fn overlay_that_was_not_mounted_is_a_mount_error() {
    let mount = Sandbox::prepare("/srv/rootfs", "/tmp/work", "/tmp/root", &ALL).unwrap();
    assert_eq!(Sandbox::new(mount, false), Err(SandboxError::MountFailed));
    let other = OverlayMount {
        lower: String::from("/l"),
        upper: String::from("/u"),
        target: String::from("/t"),
    };
    assert_eq!(Sandbox::new(other, false).unwrap_err(), SandboxError::MountFailed);
}

#[test]
fn removing_asks_for_one_unmount() {
    let mut sandbox = sandbox();
    assert!(sandbox.remove());
    assert!(!sandbox.mounted);
    assert_eq!(sandbox.sandbox_directory, "/tmp/root");
    assert!(!sandbox.remove());
    assert!(!sandbox.remove());
    assert!(!sandbox.mounted);
    assert_eq!(sandbox.rootfs_directory, "/srv/rootfs");
    assert_eq!(sandbox.work_directory, "/tmp/work");
}

#[test]
fn removed_sandbox_runs_nothing() {
    let mut sandbox = sandbox();
    sandbox.remove();
    let asked = std::cell::Cell::new(0);
    let outcome = sandbox.run(config("echo ok"), |_run, _request| {
        asked.set(asked.get() + 1);
        Response::Done
    });
    assert_eq!(outcome, Err(SandboxError::Internal));
    assert_eq!(asked.get(), 0);
    assert_eq!(sandbox.start(config("echo ok")).unwrap_err(), SandboxError::Internal);
    assert_eq!(
        sandbox.start_named(config("echo ok"), "bundle").unwrap_err(),
        SandboxError::Internal
    );
}

#[test]
fn launch_plan_confines_the_shell() {
    let plan = sandbox().launch(&config("echo 'Hello, World!'"));
    assert_eq!(plan.program, "sh");
    assert_eq!(plan.args, vec![String::from("-c"), String::from("echo 'Hello, World!'")]);
    assert_eq!(
        plan.steps,
        vec![
            LaunchStep::Unshare,
            LaunchStep::Attach(Controller::Memory),
            LaunchStep::Attach(Controller::Pids),
            LaunchStep::Attach(Controller::Freezer),
            LaunchStep::Attach(Controller::Cpuacct),
            LaunchStep::Chroot(String::from("/tmp/root")),
            LaunchStep::Chdir(String::from("/")),
        ]
    );
    assert_eq!(plan.stdin, SandboxStdio::Null);
    assert_eq!(plan.stdout, SandboxStdio::Inherit);
    assert_eq!(plan.stderr, SandboxStdio::Fd(7));
}

#[test]
fn launch_plan_is_built_step_by_step() {
    let mut plan = LaunchPlan::new("true");
    assert_eq!(plan.program, "true");
    assert!(plan.args.is_empty());
    assert!(plan.steps.is_empty());
    assert_eq!(
        (plan.stdin, plan.stdout, plan.stderr),
        (SandboxStdio::Inherit, SandboxStdio::Inherit, SandboxStdio::Inherit)
    );
    plan.arg("a").arg("b");
    plan.chdir(String::from("/x")).chroot(String::from("/y")).unshare();
    plan.stdout(SandboxStdio::Null).stderr(SandboxStdio::Fd(2)).stdin(SandboxStdio::Fd(0));
    assert_eq!(plan.args, vec![String::from("a"), String::from("b")]);
    assert_eq!(
        plan.steps,
        vec![
            LaunchStep::Chdir(String::from("/x")),
            LaunchStep::Chroot(String::from("/y")),
            LaunchStep::Unshare,
        ]
    );
    plan.cgroups();
    assert_eq!(plan.steps.len(), 7);
    assert_eq!(plan.steps[3], LaunchStep::Attach(Controller::Memory));
    assert_eq!(plan.steps[6], LaunchStep::Attach(Controller::Cpuacct));
    assert_eq!(
        (plan.stdin, plan.stdout, plan.stderr),
        (SandboxStdio::Fd(0), SandboxStdio::Null, SandboxStdio::Fd(2))
    );
}

#[test]
fn run_starts_under_the_caps_of_its_config() {
    let run = sandbox().start_named(config("ls"), "bundle").unwrap();
    assert_eq!(run.phase, Phase::Create);
    assert_eq!(run.cgroup.name, "bundle");
    assert_eq!(run.limits, config("ls").limits());
    assert_eq!(run.launch, sandbox().launch(&config("ls")));
}

fn is_hyphenated_uuid(name: &str) -> bool {
    name.len() == 36
        && name.chars().enumerate().all(|(i, c)| match i {
            8 | 13 | 18 | 23 => c == '-',
            _ => c.is_ascii_digit() || ('a'..='f').contains(&c),
        })
}

#[test]
fn every_run_has_a_bundle_of_its_own() {
    let sandbox = sandbox();
    let mut names = Vec::new();
    for _ in 0..64 {
        let run = sandbox.start(config("ls")).unwrap();
        assert!(is_hyphenated_uuid(&run.cgroup.name), "{}", run.cgroup.name);
        // A random UUID says so in its thirteenth digit.
        assert_eq!(run.cgroup.name.as_bytes()[14], b'4');
        assert_eq!(run.request(), Some(Request::CreateCgroup));
        names.push(run.cgroup.name);
    }
    names.sort();
    names.dedup();
    assert_eq!(names.len(), 64);
}

#[test]
fn run_hands_the_host_its_bundle_and_its_plan() {
    let sandbox = sandbox();
    let seen = std::cell::RefCell::new(Vec::new());
    let outcome = sandbox.run(config("ls"), |run, request| {
        seen.borrow_mut().push((run.cgroup.name.clone(), run.launch.args.clone(), request));
        Response::Failed
    });
    assert_eq!(outcome, Err(SandboxError::CgroupFailed));
    let seen = seen.borrow();
    assert_eq!(seen.len(), 1);
    assert!(is_hyphenated_uuid(&seen[0].0));
    assert_eq!(seen[0].1, vec![String::from("-c"), String::from("ls")]);
    assert_eq!(seen[0].2, Request::CreateCgroup);
}

#[test]
fn errors_say_what_went_wrong() {
    assert_eq!(
        SandboxError::PreconditionFailed(Precondition::SwapAccounting).message(),
        "Need \"cgroup_enable=memory swapaccount=1\" kernel parameter"
    );
    assert_eq!(
        SandboxError::PreconditionFailed(Precondition::RootfsDirectory).message(),
        "Rootfs directory Not Found!"
    );
    assert_eq!(
        SandboxError::PreconditionFailed(Precondition::WorkDirectory).message(),
        "Work directory Not Found!"
    );
    assert_eq!(
        SandboxError::PreconditionFailed(Precondition::SandboxDirectory).message(),
        "Sandbox directory Not Found!"
    );
    assert_eq!(
        SandboxError::PreconditionFailed(Precondition::DistinctDirectories).message(),
        "Rootfs, work and sandbox directory must be three different paths"
    );
    assert_eq!(SandboxError::MountFailed.message(), "Failed to mount the overlay");
    assert_eq!(
        SandboxError::CgroupFailed.message(),
        "Failed to create, read or write a cgroup"
    );
    assert_eq!(SandboxError::SpawnFailed.message(), "Failed to start the child");
    assert_eq!(SandboxError::KillFailed.message(), "Failed to kill all task(s)");
    assert_eq!(SandboxError::Internal.message(), "Failed to run command");
}
