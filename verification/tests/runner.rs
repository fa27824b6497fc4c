use kvbench::report::{format_u64, report_line};
use kvbench::runner::{
    phase_label, render_report, run_fast_map_benchmark, run_map_benchmark, Phase, PhaseOutcome,
    PhaseResult, RunState, Runner,
};
use kvbench::workload::Fraction;

#[test]
fn format_decimal_exact() {
    assert_eq!(format_u64(0), "0");
    assert_eq!(format_u64(7), "7");
    assert_eq!(format_u64(10), "10");
    assert_eq!(format_u64(12345), "12345");
    assert_eq!(format_u64(u64::MAX), "18446744073709551615");
}

#[test]
fn report_line_exact() {
    assert_eq!(
        report_line("HashMap", "initial population", 1500),
        "HashMap: initial population took 1500us"
    );
}

#[test]
fn phase_labels() {
    assert_eq!(phase_label(Phase::Populate), "initial population");
    assert_eq!(phase_label(Phase::MixedWrite), "mixed writes");
    assert_eq!(phase_label(Phase::ReadBack), "read back");
    assert_eq!(phase_label(Phase::FlushSync), "flush");
}

#[test]
fn render_report_lines() {
    let results = vec![
        PhaseResult { phase: Phase::Populate, micros: 12 },
        PhaseResult { phase: Phase::ReadBack, micros: 3 },
    ];
    let lines = render_report("Sled", &results);
    assert_eq!(lines.len(), 2);
    assert_eq!(lines[0], "Sled: initial population took 12us");
    assert_eq!(lines[1], "Sled: read back took 3us");
}

#[test]
fn full_run_with_flush() {
    let mut r = Runner::new(true);
    assert_eq!(r.state, RunState::At(Phase::Setup));
    r.step(PhaseOutcome::Success(0));
    assert_eq!(r.state, RunState::At(Phase::Populate));
    r.step(PhaseOutcome::Success(11));
    assert_eq!(r.state, RunState::At(Phase::MixedWrite));
    r.step(PhaseOutcome::Success(22));
    assert_eq!(r.state, RunState::At(Phase::ReadBack));
    r.step(PhaseOutcome::Success(33));
    assert_eq!(r.state, RunState::At(Phase::FlushSync));
    r.step(PhaseOutcome::Success(44));
    assert_eq!(r.state, RunState::At(Phase::Teardown));
    r.step(PhaseOutcome::Success(0));
    assert_eq!(r.state, RunState::Completed);
    assert_eq!(
        r.results,
        vec![
            PhaseResult { phase: Phase::Populate, micros: 11 },
            PhaseResult { phase: Phase::MixedWrite, micros: 22 },
            PhaseResult { phase: Phase::ReadBack, micros: 33 },
            PhaseResult { phase: Phase::FlushSync, micros: 44 },
        ]
    );
}

#[test]
fn full_run_without_flush_skips_flush() {
    let mut r = Runner::new(false);
    r.step(PhaseOutcome::Success(0));
    r.step(PhaseOutcome::Success(1));
    r.step(PhaseOutcome::Success(2));
    r.step(PhaseOutcome::Success(3));
    assert_eq!(r.state, RunState::At(Phase::Teardown));
    r.step(PhaseOutcome::Success(0));
    assert_eq!(r.state, RunState::Completed);
    assert_eq!(r.results.len(), 3);
}

#[test]
fn failed_open_yields_failed_run_and_harness_continues() {
    // A backend whose open fails ends in `Failed` with nothing recorded.
    let mut failed = Runner::new(false);
    failed.step(PhaseOutcome::Failure);
    assert_eq!(failed.state, RunState::Failed);
    assert_eq!(failed.results.len(), 0);
    // The harness goes on: the next backend's run is unaffected.
    let next = run_map_benchmark(10, 10, Fraction::new(1, 2));
    assert_eq!(next.state, RunState::Completed);
}

#[test]
fn mid_phase_failure_still_tears_down() {
    let mut r = Runner::new(true);
    r.step(PhaseOutcome::Success(0));
    r.step(PhaseOutcome::Success(5));
    r.step(PhaseOutcome::Failure);
    assert_eq!(r.state, RunState::At(Phase::Teardown));
    r.step(PhaseOutcome::Success(0));
    assert_eq!(r.state, RunState::Failed);
    // Only the phase that succeeded was recorded.
    assert_eq!(r.results, vec![PhaseResult { phase: Phase::Populate, micros: 5 }]);
}

#[test]
fn teardown_failure_is_never_fatal() {
    let mut r = Runner::new(false);
    r.step(PhaseOutcome::Success(0));
    r.step(PhaseOutcome::Success(1));
    r.step(PhaseOutcome::Success(2));
    r.step(PhaseOutcome::Success(3));
    r.step(PhaseOutcome::Failure);
    assert_eq!(r.state, RunState::Completed);
}

#[test]
fn map_benchmark_completes_with_three_phases() {
    let r = run_map_benchmark(100, 50, Fraction::new(19, 20));
    assert_eq!(r.state, RunState::Completed);
    assert_eq!(r.results.len(), 3);
    assert_eq!(r.results[0].phase, Phase::Populate);
    assert_eq!(r.results[1].phase, Phase::MixedWrite);
    assert_eq!(r.results[2].phase, Phase::ReadBack);
}

#[test]
fn fast_map_benchmark_completes_with_three_phases() {
    let r = run_fast_map_benchmark(100, 50, Fraction::new(19, 20));
    assert_eq!(r.state, RunState::Completed);
    assert_eq!(r.results.len(), 3);
    assert_eq!(r.results[0].phase, Phase::Populate);
    assert_eq!(r.results[1].phase, Phase::MixedWrite);
    assert_eq!(r.results[2].phase, Phase::ReadBack);
}

#[test]
fn zero_size_benchmark_completes() {
    let r = run_map_benchmark(0, 0, Fraction::new(0, 1));
    assert_eq!(r.state, RunState::Completed);
    assert_eq!(r.results.len(), 3);
}
