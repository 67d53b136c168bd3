use nova_sandbox::status::{charged_time, classify, judge, return_code};
use nova_sandbox::{
    ChildExit, Limits, SandboxError, SandboxStatus, SandboxStatusKind, GRACE_MS, LAUNCH_ABORTED,
};

const MIB: u64 = 1024 * 1024;

fn limits() -> Limits {
    Limits { time_limit: 1000, memory_limit: 8 * MIB, pids_limit: 5 }
}

#[test]
fn deadline_is_limit_and_grace() {
    assert_eq!(GRACE_MS, 500);
    assert_eq!(limits().deadline(), 1500);
    assert_eq!(Limits { time_limit: 0, memory_limit: 0, pids_limit: 0 }.deadline(), 500);
}

#[test]
fn deadline_of_the_largest_limit_does_not_wrap() {
    let limits = Limits { time_limit: u64::MAX, memory_limit: 0, pids_limit: 0 };
    assert_eq!(limits.deadline(), 18_446_744_073_709_551_615u128 + 500);
    assert_eq!(limits.backstop(), 2 * (18_446_744_073_709_551_615u128 + 500));
    // Cut off at the deadline, the run is charged with the deadline.
    assert_eq!(
        charged_time(&limits, true, 0),
        (18_446_744_073_709_551_615u128 + 500) * 1_000_000
    );
}

#[test]
fn backstop_is_twice_the_deadline() {
    assert_eq!(limits().backstop(), 3000);
}

#[test]
fn charged_time_is_cpu_time_unless_cut_off() {
    assert_eq!(charged_time(&limits(), false, 123_456_789), 123_456_789);
    assert_eq!(charged_time(&limits(), false, 0), 0);
    assert_eq!(charged_time(&limits(), false, 9_000_000_000), 9_000_000_000);
}

#[test]
fn charged_time_is_the_larger_of_deadline_and_cpu_time_when_cut_off() {
    assert_eq!(charged_time(&limits(), true, 3_000_000), 1_500_000_000);
    assert_eq!(charged_time(&limits(), true, 1_499_999_999), 1_500_000_000);
    assert_eq!(charged_time(&limits(), true, 1_500_000_000), 1_500_000_000);
    assert_eq!(charged_time(&limits(), true, 1_500_000_001), 1_500_000_001);
    assert_eq!(charged_time(&limits(), true, 7_000_000_000), 7_000_000_000);
}

#[test]
fn return_code_is_the_exit_code() {
    assert_eq!(return_code(ChildExit::Exited(0)), Ok(0));
    assert_eq!(return_code(ChildExit::Exited(255)), Ok(255));
    assert_eq!(return_code(ChildExit::Exited(-7)), Ok(-7));
    assert_eq!(return_code(ChildExit::Exited(100)), Ok(100));
    assert_eq!(return_code(ChildExit::Exited(102)), Ok(102));
}

#[test]
fn return_code_of_a_signalled_child_is_minus_one() {
    assert_eq!(return_code(ChildExit::Signalled), Ok(-1));
}

#[test]
fn launcher_that_gave_up_is_an_internal_error() {
    assert_eq!(LAUNCH_ABORTED, 101);
    assert_eq!(return_code(ChildExit::Exited(101)), Err(SandboxError::Internal));
    assert_eq!(
        judge(&limits(), false, 1_000_000, ChildExit::Exited(101), MIB),
        Err(SandboxError::Internal)
    );
    // Not even a timeout or a memory peak makes a status of it.
    assert_eq!(
        judge(&limits(), true, 9_000_000_000, ChildExit::Exited(101), 64 * MIB),
        Err(SandboxError::Internal)
    );
}

#[test]
fn classify_reports_whole_milliseconds() {
    let status = classify(&limits(), 999_999_999, MIB, 0);
    assert_eq!(
        status,
        SandboxStatus {
            status: SandboxStatusKind::Success,
            used_time: 999,
            max_memory: MIB,
            return_code: 0,
        }
    );
    assert_eq!(classify(&limits(), 999_999, MIB, 0).used_time, 0);
    assert_eq!(classify(&limits(), 1_000_000, MIB, 0).used_time, 1);
}

#[test]
fn time_limit_is_exceeded_above_the_limit_only() {
    assert_eq!(classify(&limits(), 1_000_000_000, MIB, 0).status, SandboxStatusKind::Success);
    let over = classify(&limits(), 1_000_000_001, MIB, 0);
    assert_eq!(over.status, SandboxStatusKind::TimeLimitExceeded);
    // One nanosecond over the limit is the limit in whole milliseconds.
    assert_eq!(over.used_time, 1000);
}

#[test]
fn memory_limit_is_exceeded_above_the_limit_only() {
    assert_eq!(classify(&limits(), 0, 8 * MIB, 0).status, SandboxStatusKind::Success);
    let over = classify(&limits(), 0, 8 * MIB + 1, 0);
    assert_eq!(over.status, SandboxStatusKind::MemoryLimitExceeded);
    assert_eq!(over.max_memory, 8 * MIB + 1);
}

#[test]
fn clean_exit_under_all_limits_is_success() {
    let outcome = judge(&limits(), false, 2_400_000, ChildExit::Exited(0), MIB);
    assert_eq!(
        outcome,
        Ok(SandboxStatus {
            status: SandboxStatusKind::Success,
            used_time: 2,
            max_memory: MIB,
            return_code: 0,
        })
    );
}

#[test]
fn cpu_time_beyond_the_deadline_is_time_limit_exceeded() {
    for timed_out in [false, true] {
        for exit in [ChildExit::Exited(0), ChildExit::Exited(3), ChildExit::Signalled] {
            for peak in [MIB, 64 * MIB] {
                let status = judge(&limits(), timed_out, 1_500_000_001, exit, peak).unwrap();
                assert_eq!(status.status, SandboxStatusKind::TimeLimitExceeded);
                assert_eq!(status.used_time, 1500);
                assert!(status.used_time >= 1000);
            }
        }
    }
}

#[test]
fn cut_off_run_is_time_limit_exceeded() {
    let status = judge(&limits(), true, 0, ChildExit::Signalled, 0).unwrap();
    assert_eq!(
        status,
        SandboxStatus {
            status: SandboxStatusKind::TimeLimitExceeded,
            used_time: 1500,
            max_memory: 0,
            return_code: -1,
        }
    );
}

#[test]
fn peak_beyond_the_memory_limit_is_memory_limit_exceeded() {
    for exit in [ChildExit::Exited(0), ChildExit::Exited(1), ChildExit::Signalled] {
        let status = judge(&limits(), false, 400_000_000, exit, 16 * MIB).unwrap();
        assert_eq!(status.status, SandboxStatusKind::MemoryLimitExceeded);
        assert_eq!(status.max_memory, 16 * MIB);
        assert!(status.max_memory > 8 * MIB);
    }
}

#[test]
fn failing_exit_is_runtime_error_with_its_code() {
    for code in [1, 2, 100, 102, 139, 255, -1, i32::MIN, i32::MAX] {
        let status = judge(&limits(), false, 1_000_000, ChildExit::Exited(code), MIB).unwrap();
        assert_eq!(status.status, SandboxStatusKind::RuntimeError);
        assert_eq!(status.return_code, code);
    }
    let killed = judge(&limits(), false, 1_000_000, ChildExit::Signalled, MIB).unwrap();
    assert_eq!(killed.status, SandboxStatusKind::RuntimeError);
    assert_eq!(killed.return_code, -1);
}

#[test]
fn time_comes_before_memory_before_runtime_error() {
    let all = classify(&limits(), 2_000_000_000, 64 * MIB, 1);
    assert_eq!(all.status, SandboxStatusKind::TimeLimitExceeded);
    let time_and_memory = classify(&limits(), 2_000_000_000, 64 * MIB, 0);
    assert_eq!(time_and_memory.status, SandboxStatusKind::TimeLimitExceeded);
    let time_and_code = classify(&limits(), 2_000_000_000, MIB, 1);
    assert_eq!(time_and_code.status, SandboxStatusKind::TimeLimitExceeded);
    let memory_and_code = classify(&limits(), 1_000_000, 64 * MIB, 1);
    assert_eq!(memory_and_code.status, SandboxStatusKind::MemoryLimitExceeded);
    let code = classify(&limits(), 1_000_000, MIB, 1);
    assert_eq!(code.status, SandboxStatusKind::RuntimeError);
    let none = classify(&limits(), 1_000_000, MIB, 0);
    assert_eq!(none.status, SandboxStatusKind::Success);
    // Whatever the class, the three numbers are reported as they were seen.
    assert_eq!((all.used_time, all.max_memory, all.return_code), (2000, 64 * MIB, 1));
}

#[test]
fn zero_limits_leave_room_for_nothing() {
    let none = Limits { time_limit: 0, memory_limit: 0, pids_limit: 0 };
    assert_eq!(classify(&none, 0, 0, 0).status, SandboxStatusKind::Success);
    assert_eq!(classify(&none, 1, 0, 0).status, SandboxStatusKind::TimeLimitExceeded);
    assert_eq!(classify(&none, 0, 1, 0).status, SandboxStatusKind::MemoryLimitExceeded);
}
