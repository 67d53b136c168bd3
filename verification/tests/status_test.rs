use nova_sandbox::{
    Attribute, ChildExit, ChildWait, FreezerState, HostProbe, Request, Response, Sandbox,
    SandboxConfig, SandboxStatus, SandboxStatusKind, SandboxStdio,
};
use std::cell::{Cell, RefCell};

/// A host that plays one command on a clock of its own. Nothing here touches
/// the machine: the child, the control groups and the time are numbers.
struct Played {
    /// Milliseconds after which the child ends by itself, if it does.
    ends_after_ms: Option<u64>,
    /// How the child ends where it ends by itself.
    exit: ChildExit,
    /// Processor time that the command adds to the bundle's counter.
    cpu_ns: u64,
    /// Memory peak that the command adds to the bundle's counter.
    peak: u64,
    /// Whether tasks stay in the bundle after the child has ended.
    lingers: bool,
    clock: Cell<u64>,
    tasks: Cell<bool>,
    frozen: Cell<bool>,
    signalled: Cell<bool>,
    cpu_counter: Cell<u64>,
    peak_counter: Cell<u64>,
    created: Cell<u32>,
    released: Cell<u32>,
    asked: RefCell<Vec<Request>>,
}

impl Played {
    fn new(ends_after_ms: Option<u64>, exit: ChildExit, cpu_ns: u64, peak: u64) -> Played {
        Played {
            ends_after_ms,
            exit,
            cpu_ns,
            peak,
            lingers: false,
            clock: Cell::new(0),
            tasks: Cell::new(false),
            frozen: Cell::new(false),
            signalled: Cell::new(false),
            // What an earlier command left in the counters.
            cpu_counter: Cell::new(7_000_000_000),
            peak_counter: Cell::new(900 * 1024 * 1024),
            created: Cell::new(0),
            released: Cell::new(0),
            asked: RefCell::new(Vec::new()),
        }
    }

    fn answer(&self, request: Request) -> Response {
        self.asked.borrow_mut().push(request);
        match request {
            Request::CreateCgroup => {
                self.created.set(self.created.get() + 1);
                Response::Done
            }
            Request::Write(write) => {
                match write.attribute {
                    Attribute::CpuUsage => self.cpu_counter.set(write.value as u64),
                    Attribute::MemorySwapPeak => self.peak_counter.set(write.value as u64),
                    _ => {}
                }
                Response::Done
            }
            Request::Spawn => {
                self.tasks.set(true);
                self.cpu_counter.set(self.cpu_counter.get() + self.cpu_ns);
                self.peak_counter.set(self.peak_counter.get().max(self.peak));
                Response::Done
            }
            Request::WaitChild { timeout_ms } => {
                let until = self.clock.get() + timeout_ms;
                match self.ends_after_ms {
                    Some(end) if end <= until => {
                        self.clock.set(end.max(self.clock.get()));
                        if !self.lingers {
                            self.tasks.set(false);
                        }
                        Response::Child(ChildWait::Ended(self.exit))
                    }
                    _ => {
                        self.clock.set(until);
                        Response::Child(ChildWait::Running)
                    }
                }
            }
            Request::ReadTasks => Response::Tasks { empty: !self.tasks.get() },
            Request::KillChild => {
                if !self.lingers {
                    self.tasks.set(false);
                }
                Response::Child(ChildWait::Ended(ChildExit::Signalled))
            }
            Request::Read(Attribute::CpuUsage) => Response::Value(self.cpu_counter.get()),
            Request::Read(Attribute::MemorySwapPeak) => Response::Value(self.peak_counter.get()),
            Request::Read(_) => Response::Failed,
            Request::SetFreezer(FreezerState::Frozen) => {
                self.frozen.set(true);
                Response::Done
            }
            Request::SetFreezer(FreezerState::Thawed) => {
                self.frozen.set(false);
                if self.signalled.get() {
                    self.tasks.set(false);
                }
                Response::Done
            }
            Request::ReadFreezer => Response::Frozen(self.frozen.get()),
            Request::SignalAll => {
                // A signal reaches every task only while none can fork.
                if self.frozen.get() {
                    self.signalled.set(true);
                }
                Response::Done
            }
            Request::Sleep { ms } => {
                self.clock.set(self.clock.get() + ms);
                Response::Done
            }
            Request::ReleaseCgroup => {
                self.released.set(self.released.get() + 1);
                Response::Done
            }
        }
    }
}

fn mounted(name: &str) -> Sandbox {
    let host = HostProbe {
        swap_accounting: true,
        rootfs_directory: true,
        work_directory: true,
        sandbox_directory: true,
    };
    let work = format!("/tmp/{}-work", name);
    let target = format!("/tmp/{}-root", name);
    let mount =
        Sandbox::prepare("/work/package/debs/debian-rootfs", &work, &target, &host).unwrap();
    Sandbox::new(mount, true).unwrap()
}

fn run_sandbox(command: &str, test_id: &str, played: &Played) -> SandboxStatus {
    let sandbox = mounted(test_id);
    sandbox
        .run(
            SandboxConfig {
                time_limit: 5000,
                memory_limit: 256 * 1024 * 1024,
                pids_limit: 8,
                command: command.to_string(),
                stdin: SandboxStdio::Null,
                stdout: SandboxStdio::Null,
                stderr: SandboxStdio::Inherit,
            },
            |_run, request| played.answer(request),
        )
        .unwrap()
}

fn compiled(test_id: &str, command: &str) {
    let compiler = Played::new(Some(900), ChildExit::Exited(0), 850_000_000, 120 * 1024 * 1024);
    let status = run_sandbox(command, test_id, &compiler);
    if let SandboxStatusKind::Success = status.status {
    } else {
        panic!("Failed to compile test: {:?}", status);
    }
}

#[test]
fn tle() {
    compiled("tle", "g++ ./tle.cpp -o tle.run");
    let spinning = Played::new(None, ChildExit::Exited(0), 5_490_000_000, 2 * 1024 * 1024);
    let status = run_sandbox("./tle.run", "tle", &spinning);
    if let SandboxStatusKind::TimeLimitExceeded = status.status {
    } else {
        panic!("Failed to exec program: {:?}", status);
    }
    assert_eq!(status.used_time, 5500);
    assert!(status.used_time >= 5000);
}

#[test]
fn mle() {
    compiled("mle", "g++ ./mle.cpp -o mle.run");
    let greedy = Played::new(Some(300), ChildExit::Signalled, 290_000_000, 512 * 1024 * 1024);
    let status = run_sandbox("./mle.run", "mle", &greedy);
    if let SandboxStatusKind::MemoryLimitExceeded = status.status {
    } else {
        panic!("Failed to exec program: {:?}", status);
    }
    assert_eq!(status.max_memory, 512 * 1024 * 1024);
}

#[test]
fn re() {
    compiled("re", "g++ ./re.cpp -o re.run");
    let crashing = Played::new(Some(10), ChildExit::Exited(139), 9_000_000, 2 * 1024 * 1024);
    let status = run_sandbox("./re.run", "re", &crashing);
    if let SandboxStatusKind::RuntimeError = status.status {
    } else {
        panic!("Failed to exec program: {:?}", status);
    }
    assert_eq!(status.return_code, 139);
}

#[test]
fn fork_bomb() {
    let mut bomb = Played::new(None, ChildExit::Exited(0), 40_000_000_000, 30 * 1024 * 1024);
    bomb.lingers = true;
    let status = run_sandbox(":() { :|:& };:", "fork_bomb", &bomb);
    assert!(matches!(
        status.status,
        SandboxStatusKind::TimeLimitExceeded | SandboxStatusKind::RuntimeError
    ));
    // The run is over, the bundle is empty and gone, and no more time was
    // spent waiting than the time limit, the grace and the kill timeout.
    assert!(!bomb.tasks.get());
    assert_eq!(bomb.released.get(), 1);
    assert!(bomb.clock.get() <= 5000 + 500 + 1000);
    let asked = bomb.asked.borrow();
    let freeze = asked.iter().position(|r| *r == Request::SetFreezer(FreezerState::Frozen));
    let signal = asked.iter().position(|r| *r == Request::SignalAll);
    let thaw = asked.iter().position(|r| *r == Request::SetFreezer(FreezerState::Thawed));
    assert!(freeze.unwrap() < signal.unwrap());
    assert!(signal.unwrap() < thaw.unwrap());
}
