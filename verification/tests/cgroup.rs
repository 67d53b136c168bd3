use nova_sandbox::host::freezer_state_file_name;
use nova_sandbox::{
    Attribute, CgroupWrite, Controller, FreezerState, KillAll, KillStage, Request, SandboxCgroup,
    KILL_TIMEOUT_MS, POLL_DELAY_MS,
};

const MIB: u64 = 1024 * 1024;

#[test]
fn bundle_keeps_its_name() {
    let cgroup = SandboxCgroup::new("0b1c9a0e-6f5d-4d0b-9a43-0d2f6a1c7e55");
    assert_eq!(cgroup.name, "0b1c9a0e-6f5d-4d0b-9a43-0d2f6a1c7e55");
}

#[test]
fn memory_limit_is_applied_doubled() {
    let cgroup = SandboxCgroup::new("a");
    assert_eq!(
        cgroup.set_memory_limit(8 * MIB),
        vec![
            CgroupWrite { attribute: Attribute::MemoryLimit, value: 16 * MIB as u128 },
            CgroupWrite { attribute: Attribute::MemorySwapLimit, value: 16 * MIB as u128 },
        ]
    );
    assert_eq!(cgroup.set_memory_limit(0)[0].value, 0);
    assert_eq!(cgroup.set_memory_limit(1)[1].value, 2);
}

#[test]
fn doubled_memory_limit_does_not_wrap() {
    let cgroup = SandboxCgroup::new("a");
    let writes = cgroup.set_memory_limit(u64::MAX);
    assert_eq!(writes[0].value, 36_893_488_147_419_103_230u128);
    assert_eq!(writes[1].value, 36_893_488_147_419_103_230u128);
}

#[test]
fn clear_sets_both_counters_to_zero() {
    let cgroup = SandboxCgroup::new("a");
    assert_eq!(
        cgroup.clear(),
        vec![
            CgroupWrite { attribute: Attribute::MemorySwapPeak, value: 0 },
            CgroupWrite { attribute: Attribute::CpuUsage, value: 0 },
        ]
    );
}

#[test]
fn pids_limit_is_written_as_it_is() {
    let cgroup = SandboxCgroup::new("a");
    assert_eq!(
        cgroup.set_pids_limit(5),
        CgroupWrite { attribute: Attribute::PidsMax, value: 5 }
    );
    assert_eq!(cgroup.set_pids_limit(u16::MAX).value, 65535);
}

#[test]
fn reads_go_to_the_right_files() {
    let cgroup = SandboxCgroup::new("a");
    assert_eq!(cgroup.is_empty(), Request::ReadTasks);
    assert_eq!(cgroup.get_cpu_time(), Request::Read(Attribute::CpuUsage));
    assert_eq!(cgroup.get_max_memory(), Request::Read(Attribute::MemorySwapPeak));
}

#[test]
fn attributes_name_their_files_and_controllers() {
    let all = [
        (Attribute::MemoryLimit, Controller::Memory, "memory.limit_in_bytes"),
        (Attribute::MemorySwapLimit, Controller::Memory, "memory.memsw.limit_in_bytes"),
        (Attribute::MemorySwapPeak, Controller::Memory, "memory.memsw.max_usage_in_bytes"),
        (Attribute::CpuUsage, Controller::Cpuacct, "cpuacct.usage"),
        (Attribute::PidsMax, Controller::Pids, "pids.max"),
    ];
    for (attribute, controller, file) in all {
        assert_eq!(attribute.controller(), controller);
        assert_eq!(attribute.file_name(), file);
    }
}

#[test]
fn controllers_have_their_names() {
    assert_eq!(Controller::Memory.name(), "memory");
    assert_eq!(Controller::Pids.name(), "pids");
    assert_eq!(Controller::Freezer.name(), "freezer");
    assert_eq!(Controller::Cpuacct.name(), "cpuacct");
}

#[test]
fn freezer_states_have_their_words() {
    assert_eq!(freezer_state_file_name(), "freezer.state");
    assert_eq!(FreezerState::Frozen.text(), "FROZEN");
    assert_eq!(FreezerState::Thawed.text(), "THAWED");
}

#[test]
fn freezer_state_is_told_by_its_word_only() {
    assert!(FreezerState::Frozen.reported_by("FROZEN"));
    assert!(!FreezerState::Frozen.reported_by("FREEZING"));
    assert!(!FreezerState::Frozen.reported_by("THAWED"));
    assert!(!FreezerState::Frozen.reported_by("frozen"));
    assert!(!FreezerState::Frozen.reported_by("FROZEN\n"));
    assert!(!FreezerState::Frozen.reported_by(""));
    assert!(FreezerState::Thawed.reported_by("THAWED"));
    assert!(!FreezerState::Thawed.reported_by("FROZEN"));
}

#[test]
fn killing_begins_by_looking_for_tasks() {
    let cgroup = SandboxCgroup::new("a");
    let kill = cgroup.kill_all_tasks(1000);
    assert_eq!(kill, KillAll { stage: KillStage::Probe, remaining: 1000 });
    assert_eq!(kill.request(), Some(Request::ReadTasks));
    assert!(!kill.is_finished());
    assert_eq!(kill.result(), None);
}

#[test]
fn delays_are_a_tenth_of_a_second_and_a_second() {
    assert_eq!(POLL_DELAY_MS, 100);
    assert_eq!(KILL_TIMEOUT_MS, 1000);
}
