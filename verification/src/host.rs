use vstd::prelude::*;
use crate::status::ChildExit;

verus! {

/// The four controllers that a bundle of control groups is made of.
#[derive(Debug, Clone, Copy, PartialEq, Eq, Structural)]
pub enum Controller {
    /// Memory and swap.
    Memory,
    /// Number of tasks.
    Pids,
    /// Stops and resumes every task of the group.
    Freezer,
    /// Processor time.
    Cpuacct,
}

/// A numeric control file of the bundle.
#[derive(Debug, Clone, Copy, PartialEq, Eq, Structural)]
pub enum Attribute {
    /// Hard cap on memory.
    MemoryLimit,
    /// Hard cap on memory and swap together.
    MemorySwapLimit,
    /// Peak of memory and swap since it was last set to zero.
    MemorySwapPeak,
    /// Processor time of all tasks, in nanoseconds.
    CpuUsage,
    /// Largest number of tasks.
    PidsMax,
}

/// A state that the freezer can be told to take.
#[derive(Debug, Clone, Copy, PartialEq, Eq, Structural)]
pub enum FreezerState {
    /// Every task is stopped.
    Frozen,
    /// Every task runs.
    Thawed,
}

/// One write to a control file.
#[derive(Debug, Clone, Copy, PartialEq, Eq, Structural)]
pub struct CgroupWrite {
    /// The file.
    pub attribute: Attribute,
    /// The number written.
    pub value: u128,
}

/// What the child was found to be doing.
#[derive(Debug, Clone, Copy, PartialEq, Eq, Structural)]
pub enum ChildWait {
    /// It has not ended.
    Running,
    /// It has ended, and was reaped.
    Ended(ChildExit),
}

/// What a state machine asks its caller to do next.
#[derive(Debug, Clone, Copy, PartialEq, Eq, Structural)]
pub enum Request {
    /// Create the control group in each of the four controllers.
    CreateCgroup,
    /// Write a number to a control file.
    Write(CgroupWrite),
    /// Read a number from a control file.
    Read(Attribute),
    /// Read the freezer's task list.
    ReadTasks,
    /// Tell the freezer to take a state.
    SetFreezer(FreezerState),
    /// Read the freezer's state.
    ReadFreezer,
    /// Send the kill signal to every task that the freezer lists.
    SignalAll,
    /// Sleep.
    Sleep {
        /// For so many milliseconds.
        ms: u64,
    },
    /// Start the child as the launch plan says.
    Spawn,
    /// Wait for the child to end.
    WaitChild {
        /// For at most so many milliseconds.
        timeout_ms: u64,
    },
    /// Kill the child and reap it.
    KillChild,
    /// Remove the control group from each controller.
    ReleaseCgroup,
}

/// What came of a request.
#[derive(Debug, Clone, Copy, PartialEq, Eq, Structural)]
pub enum Response {
    /// It was carried out.
    Done,
    /// The host could not carry it out.
    Failed,
    /// The number read.
    Value(u64),
    /// The task list was read.
    Tasks {
        /// It lists no task.
        empty: bool,
    },
    /// The freezer's state was read, and is or is not `FROZEN`.
    Frozen(bool),
    /// The child was waited for.
    Child(ChildWait),
}

impl Controller {
    /// The name of the controller's hierarchy.
    pub open spec fn subsystem(self) -> Seq<char> {
        match self {
            Controller::Memory => "memory"@,
            Controller::Pids => "pids"@,
            Controller::Freezer => "freezer"@,
            Controller::Cpuacct => "cpuacct"@,
        }
    }

    /// Gives the name of the controller's hierarchy.
    pub fn name(&self) -> (name: &'static str)
        ensures
            name@ == self.subsystem(),
    {
        match self {
            Controller::Memory => "memory",
            Controller::Pids => "pids",
            Controller::Freezer => "freezer",
            Controller::Cpuacct => "cpuacct",
        }
    }
}

impl Attribute {
    /// The controller that owns the file.
    pub open spec fn owner(self) -> Controller {
        match self {
            Attribute::MemoryLimit => Controller::Memory,
            Attribute::MemorySwapLimit => Controller::Memory,
            Attribute::MemorySwapPeak => Controller::Memory,
            Attribute::CpuUsage => Controller::Cpuacct,
            Attribute::PidsMax => Controller::Pids,
        }
    }

    /// The file's name in the controller's directory.
    pub open spec fn file(self) -> Seq<char> {
        match self {
            Attribute::MemoryLimit => "memory.limit_in_bytes"@,
            Attribute::MemorySwapLimit => "memory.memsw.limit_in_bytes"@,
            Attribute::MemorySwapPeak => "memory.memsw.max_usage_in_bytes"@,
            Attribute::CpuUsage => "cpuacct.usage"@,
            Attribute::PidsMax => "pids.max"@,
        }
    }

    /// Gives the controller that owns the file.
    pub fn controller(&self) -> (c: Controller)
        ensures
            c == self.owner(),
    {
        match self {
            Attribute::MemoryLimit => Controller::Memory,
            Attribute::MemorySwapLimit => Controller::Memory,
            Attribute::MemorySwapPeak => Controller::Memory,
            Attribute::CpuUsage => Controller::Cpuacct,
            Attribute::PidsMax => Controller::Pids,
        }
    }

    /// Gives the file's name in the controller's directory.
    pub fn file_name(&self) -> (name: &'static str)
        ensures
            name@ == self.file(),
    {
        match self {
            Attribute::MemoryLimit => "memory.limit_in_bytes",
            Attribute::MemorySwapLimit => "memory.memsw.limit_in_bytes",
            Attribute::MemorySwapPeak => "memory.memsw.max_usage_in_bytes",
            Attribute::CpuUsage => "cpuacct.usage",
            Attribute::PidsMax => "pids.max",
        }
    }
}

impl FreezerState {
    /// The word that stands for the state in the freezer's state file.
    pub open spec fn word(self) -> Seq<char> {
        match self {
            FreezerState::Frozen => "FROZEN"@,
            FreezerState::Thawed => "THAWED"@,
        }
    }

    /// Gives the word to write to the freezer's state file.
    pub fn text(&self) -> (text: &'static str)
        ensures
            text@ == self.word(),
    {
        match self {
            FreezerState::Frozen => "FROZEN",
            FreezerState::Thawed => "THAWED",
        }
    }

    /// Tells whether the freezer's state file, read as `text`, reports this state.
    pub fn reported_by(&self, text: &str) -> (yes: bool)
        ensures
            yes == (text@ == self.word()),
    {
        let read: String = text.to_owned();
        let word: String = self.text().to_owned();
        read == word
    }
}

/// The name of the freezer's state file.
pub open spec fn freezer_state_file() -> Seq<char> {
    "freezer.state"@
}

/// Gives the name of the freezer's state file.
pub fn freezer_state_file_name() -> (name: &'static str)
    ensures
        name@ == freezer_state_file(),
{
    "freezer.state"
}

impl Request {
    /// Whether `response` is an answer that this request can get. A request to
    /// the control groups or to start the child may fail; sleeping does not; a
    /// wait that fails stands for a child that cannot be waited on.
    pub open spec fn answered_by(self, response: Response) -> bool {
        match self {
            Request::CreateCgroup
            | Request::Write(_)
            | Request::SetFreezer(_)
            | Request::SignalAll
            | Request::Spawn
            | Request::ReleaseCgroup => response is Done || response is Failed,
            Request::Read(_) => response is Value || response is Failed,
            Request::ReadTasks => response is Tasks || response is Failed,
            Request::ReadFreezer => response is Frozen || response is Failed,
            Request::Sleep { .. } => response is Done,
            Request::WaitChild { .. } => response is Child || response is Failed,
            Request::KillChild => response matches Response::Child(ChildWait::Ended(_))
                || response is Failed,
        }
    }

    /// Tells whether `response` is an answer that this request can get.
    pub fn accepts(&self, response: &Response) -> (yes: bool)
        ensures
            yes == self.answered_by(*response),
    {
        match self {
            Request::CreateCgroup
            | Request::Write(_)
            | Request::SetFreezer(_)
            | Request::SignalAll
            | Request::Spawn
            | Request::ReleaseCgroup => matches!(response, Response::Done | Response::Failed),
            Request::Read(_) => matches!(response, Response::Value(_) | Response::Failed),
            Request::ReadTasks => matches!(response, Response::Tasks { .. } | Response::Failed),
            Request::ReadFreezer => matches!(response, Response::Frozen(_) | Response::Failed),
            Request::Sleep { .. } => matches!(response, Response::Done),
            Request::WaitChild { .. } => matches!(response, Response::Child(_) | Response::Failed),
            Request::KillChild => matches!(
                response,
                Response::Child(ChildWait::Ended(_)) | Response::Failed
            ),
        }
    }
}

} // verus!
