//! Tests for the test harness and the exit protocol.

use blog_os::{
    exit_code_value, test_panic_handler, test_runner, InitGuard, Marker, QemuExitCode, Testable,
    TestCase, TestOutcome, EXIT_PORT,
};
use blog_os::interrupts::Disposition;

fn case(name: &str, outcome: TestOutcome) -> TestCase {
    TestCase { name: name.to_string(), outcome }
}

#[test]
fn all_pass_emits_ok_per_test_in_order() {
    let tests = vec![
        case("trivial_assertion", TestOutcome::Passed),
        case("breakpoint_exception", TestOutcome::Passed),
        case("stack_overflow", TestOutcome::Passed),
    ];
    let report = test_runner(&tests);
    assert_eq!(
        report.markers,
        vec![
            Marker::Preamble { count: 3 },
            Marker::Announce { test_index: 0 },
            Marker::TestOk,
            Marker::Announce { test_index: 1 },
            Marker::TestOk,
            Marker::Announce { test_index: 2 },
            Marker::TestOk,
        ]
    );
    assert_eq!(report.exit, QemuExitCode::Success);
    assert_eq!(report.executed, 3);
}

#[test]
fn empty_run_succeeds() {
    let tests: Vec<TestCase> = vec![];
    let report = test_runner(&tests);
    assert_eq!(report.markers, vec![Marker::Preamble { count: 0 }]);
    assert_eq!(report.exit, QemuExitCode::Success);
    assert_eq!(report.executed, 0);
}

#[test]
fn panic_marks_failure_and_stops_the_run() {
    let tests = vec![
        case("first", TestOutcome::Passed),
        case("second", TestOutcome::Panicked),
        case("third", TestOutcome::Passed),
    ];
    let report = test_runner(&tests);
    assert_eq!(
        report.markers,
        vec![
            Marker::Preamble { count: 3 },
            Marker::Announce { test_index: 0 },
            Marker::TestOk,
            Marker::Announce { test_index: 1 },
            Marker::TestFailed,
        ]
    );
    assert_eq!(report.exit, QemuExitCode::Failed);
    assert_eq!(report.executed, 2);
}

#[test]
fn panic_in_first_test_runs_nothing_else() {
    let tests = vec![
        case("explodes", TestOutcome::Panicked),
        case("never_reached", TestOutcome::Passed),
    ];
    let report = test_runner(&tests);
    assert_eq!(
        report.markers,
        vec![
            Marker::Preamble { count: 2 },
            Marker::Announce { test_index: 0 },
            Marker::TestFailed,
        ]
    );
    assert_eq!(report.exit, QemuExitCode::Failed);
    assert_eq!(report.executed, 1);
}

#[test]
fn panic_handler_signals_failure_and_halts() {
    let response = test_panic_handler();
    assert_eq!(response.marker, Marker::TestFailed);
    assert_eq!(response.exit, QemuExitCode::Failed);
    assert_eq!(response.disposition, Disposition::Halt);
}

#[test]
fn running_a_case_reports_its_outcome() {
    assert_eq!(case("passes", TestOutcome::Passed).run(), TestOutcome::Passed);
    assert_eq!(case("panics", TestOutcome::Panicked).run(), TestOutcome::Panicked);
}

#[test]
fn init_guard_admits_only_the_first_claim() {
    let mut guard = InitGuard::new();
    assert!(!guard.initialized);
    assert!(guard.claim());
    assert!(!guard.claim());
    assert!(guard.initialized);
}

#[test]
fn exit_codes_on_the_wire() {
    assert_eq!(exit_code_value(QemuExitCode::Success), 0x10);
    assert_eq!(exit_code_value(QemuExitCode::Failed), 0x11);
    assert_eq!(EXIT_PORT, 0xf4);
}
