use monitor::status::{
    decimal_text, get_exit_code, ChildStatus, ExitReason, SupervisionOutcome, EXIT_FINISHED,
    EXIT_INTERNAL_ERROR, EXIT_SIGNALED_TO_STOP, EXIT_TIMED_OUT,
};

#[test]
fn normal_exit_keeps_its_code() {
    assert_eq!(get_exit_code(ChildStatus::Exited(0)), Some(0));
    assert_eq!(get_exit_code(ChildStatus::Exited(7)), Some(7));
    assert_eq!(get_exit_code(ChildStatus::Exited(255)), Some(255));
    assert_eq!(get_exit_code(ChildStatus::Exited(u32::MAX)), Some(u32::MAX));
}

#[test]
fn signal_death_is_offset_by_128() {
    assert_eq!(get_exit_code(ChildStatus::Signaled(9)), Some(137));
    assert_eq!(get_exit_code(ChildStatus::Signaled(15)), Some(143));
    assert_eq!(get_exit_code(ChildStatus::Signaled(0)), Some(128));
    assert_eq!(get_exit_code(ChildStatus::Signaled(255)), Some(383));
}

#[test]
fn unknown_status_has_no_code() {
    assert_eq!(get_exit_code(ChildStatus::Other(0)), None);
    assert_eq!(get_exit_code(ChildStatus::Other(-5)), None);
    assert_eq!(get_exit_code(ChildStatus::Undetermined), None);
}

#[test]
fn decoding_twice_gives_the_same_code() {
    let statuses = [
        ChildStatus::Exited(3),
        ChildStatus::Signaled(11),
        ChildStatus::Other(77),
        ChildStatus::Undetermined,
    ];
    for status in statuses {
        assert_eq!(get_exit_code(status), get_exit_code(status));
        if let Some(code) = get_exit_code(status) {
            assert_eq!(get_exit_code(ChildStatus::Exited(code)), Some(code));
        }
    }
}

#[test]
fn exit_status_of_each_reason() {
    assert_eq!(ExitReason::Finished.exit_status(), 0);
    assert_eq!(ExitReason::TimedOut.exit_status(), 138);
    assert_eq!(ExitReason::SignaledToStop.exit_status(), 130);
    assert_eq!(ExitReason::InternalError.exit_status(), -1);
    assert_eq!(EXIT_FINISHED, 0);
    assert_eq!(EXIT_TIMED_OUT, 138);
    assert_eq!(EXIT_SIGNALED_TO_STOP, 130);
    assert_eq!(EXIT_INTERNAL_ERROR, -1);
}

#[test]
fn exit_statuses_are_distinct() {
    let all = [
        ExitReason::Finished.exit_status(),
        ExitReason::TimedOut.exit_status(),
        ExitReason::SignaledToStop.exit_status(),
        ExitReason::InternalError.exit_status(),
    ];
    for first in 0..all.len() {
        for second in (first + 1)..all.len() {
            assert_ne!(all[first], all[second]);
        }
    }
}

#[test]
fn failed_outcome_has_no_code() {
    let outcome = SupervisionOutcome::failed();
    assert_eq!(outcome.exit_reason, ExitReason::InternalError);
    assert_eq!(outcome.child_exit_code, None);
    assert_eq!(outcome.report_line(), None);
    assert_eq!(outcome.process_exit_status(), -1);
}

#[test]
fn finished_outcome_reports_the_code_and_exits_with_zero() {
    let outcome =
        SupervisionOutcome { exit_reason: ExitReason::Finished, child_exit_code: Some(7) };
    assert_eq!(outcome.report_line(), Some(String::from("7")));
    assert_eq!(outcome.process_exit_status(), 0);
}

#[test]
fn timed_out_outcome_reports_the_kill_code() {
    let outcome =
        SupervisionOutcome { exit_reason: ExitReason::TimedOut, child_exit_code: Some(137) };
    assert_eq!(outcome.report_line(), Some(String::from("137")));
    assert_eq!(outcome.process_exit_status(), 138);
}

#[test]
fn decimal_text_matches_the_standard_rendering() {
    for number in [0u32, 1, 9, 10, 11, 99, 100, 101, 137, 143, 255, 383, 1000, 65535, u32::MAX] {
        assert_eq!(decimal_text(number), format!("{}", number));
    }
}
