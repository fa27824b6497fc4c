//! The benchmark runner: one backend's run as a strictly sequential
//! phase sequence, advanced by the outcome of each performed phase, and
//! the verified whole runs against the in-memory backends.

use crate::adapter::{BackendConfig, DurabilityMode, StorageBackend};
use crate::clock::{clock_now, micros_since};
use crate::fastmap::FastMapBackend;
use crate::report::{line_model, report_line};
use crate::store::MapBackend;
use crate::workload::{
    dataset_keys, generate_initial, generate_update_mix, Fraction, DATA_SIZE, INITIAL_DATA_SIZE,
};
use vstd::prelude::*;

verus! {

/// One step of a backend's run, in its fixed order.
#[derive(Clone, Copy, PartialEq, Eq, Structural, Debug)]
pub enum Phase {
    Setup,
    Populate,
    MixedWrite,
    ReadBack,
    FlushSync,
    Teardown,
}

/// Where a run stands: at the phase to perform next, or finished.
#[derive(Clone, Copy, PartialEq, Eq, Structural, Debug)]
pub enum RunState {
    At(Phase),
    Completed,
    Failed,
}

/// The measured duration of one completed phase, owned by the runner
/// for the lifetime of one backend's run.
#[derive(Clone, Copy, PartialEq, Eq, Structural, Debug)]
pub struct PhaseResult {
    pub phase: Phase,
    pub micros: u64,
}

/// What performing a phase came to: its wall-clock duration in
/// microseconds on success, or a failure.
#[derive(Clone, Copy, PartialEq, Eq, Structural, Debug)]
pub enum PhaseOutcome {
    Success(u64),
    Failure,
}

/// One backend's benchmark run. The phase order is fixed: setup,
/// initial population, mixed write, read back, flush where the backend
/// declares that capability, teardown. A setup failure ends the run at
/// once; a mid-phase failure skips to teardown and marks the run
/// failed; a teardown failure is never fatal by itself.
pub struct Runner {
    pub state: RunState,
    pub mid_run_failure: bool,
    pub has_flush: bool,
    pub results: Vec<PhaseResult>,
}

impl Runner {
    /// Whether the run has ended, in either terminal state.
    pub open spec fn is_terminal(self) -> bool {
        self.state == RunState::Completed || self.state == RunState::Failed
    }

    /// The state that follows when the phase at hand succeeds.
    pub open spec fn next_on_success(self) -> RunState {
        match self.state {
            RunState::At(Phase::Setup) => RunState::At(Phase::Populate),
            RunState::At(Phase::Populate) => RunState::At(Phase::MixedWrite),
            RunState::At(Phase::MixedWrite) => RunState::At(Phase::ReadBack),
            RunState::At(Phase::ReadBack) => if self.has_flush {
                RunState::At(Phase::FlushSync)
            } else {
                RunState::At(Phase::Teardown)
            },
            RunState::At(Phase::FlushSync) => RunState::At(Phase::Teardown),
            RunState::At(Phase::Teardown) => if self.mid_run_failure {
                RunState::Failed
            } else {
                RunState::Completed
            },
            _ => self.state,
        }
    }

    /// The state that follows when the phase at hand fails. Setup
    /// failure is terminal; a failure in a measured phase still runs
    /// teardown; a teardown failure never changes the verdict.
    pub open spec fn next_on_failure(self) -> RunState {
        match self.state {
            RunState::At(Phase::Setup) => RunState::Failed,
            RunState::At(Phase::Teardown) => if self.mid_run_failure {
                RunState::Failed
            } else {
                RunState::Completed
            },
            RunState::At(_) => RunState::At(Phase::Teardown),
            _ => self.state,
        }
    }

    /// The state that follows the given outcome.
    pub open spec fn next_state(self, outcome: PhaseOutcome) -> RunState {
        match outcome {
            PhaseOutcome::Success(_) => self.next_on_success(),
            PhaseOutcome::Failure => self.next_on_failure(),
        }
    }

    /// Whether the run is marked failed after the given outcome.
    pub open spec fn next_failure_mark(self, outcome: PhaseOutcome) -> bool {
        match outcome {
            PhaseOutcome::Success(_) => self.mid_run_failure,
            PhaseOutcome::Failure => match self.state {
                RunState::At(Phase::Setup) => self.mid_run_failure,
                RunState::At(Phase::Teardown) => self.mid_run_failure,
                RunState::At(_) => true,
                _ => self.mid_run_failure,
            },
        }
    }

    /// The results recorded after the given outcome: a success at a
    /// measured phase appends its duration; setup, teardown and
    /// failures record nothing.
    pub open spec fn next_results(self, outcome: PhaseOutcome) -> Seq<PhaseResult> {
        match (self.state, outcome) {
            (RunState::At(p), PhaseOutcome::Success(d)) => if p == Phase::Setup || p
                == Phase::Teardown {
                self.results@
            } else {
                self.results@.push(PhaseResult { phase: p, micros: d })
            },
            _ => self.results@,
        }
    }

    /// A run about to begin: at setup, nothing recorded. `has_flush`
    /// says whether the backend declares a distinct flush capability.
    pub fn new(has_flush: bool) -> (r: Runner)
        ensures
            r.state == RunState::At(Phase::Setup),
            r.mid_run_failure == false,
            r.has_flush == has_flush,
            r.results@.len() == 0,
    {
        Runner { state: RunState::At(Phase::Setup), mid_run_failure: false, has_flush, results: Vec::new() }
    }

    /// Advances the run by the outcome of the phase at hand.
    pub fn step(&mut self, outcome: PhaseOutcome)
        requires
            !old(self).is_terminal(),
        ensures
            final(self).has_flush == old(self).has_flush,
            final(self).state == old(self).next_state(outcome),
            final(self).mid_run_failure == old(self).next_failure_mark(outcome),
            final(self).results@ == old(self).next_results(outcome),
    {
        match outcome {
            PhaseOutcome::Success(d) => {
                match self.state {
                    RunState::At(Phase::Setup) => {
                        self.state = RunState::At(Phase::Populate);
                    },
                    RunState::At(Phase::Populate) => {
                        self.results.push(PhaseResult { phase: Phase::Populate, micros: d });
                        self.state = RunState::At(Phase::MixedWrite);
                    },
                    RunState::At(Phase::MixedWrite) => {
                        self.results.push(PhaseResult { phase: Phase::MixedWrite, micros: d });
                        self.state = RunState::At(Phase::ReadBack);
                    },
                    RunState::At(Phase::ReadBack) => {
                        self.results.push(PhaseResult { phase: Phase::ReadBack, micros: d });
                        if self.has_flush {
                            self.state = RunState::At(Phase::FlushSync);
                        } else {
                            self.state = RunState::At(Phase::Teardown);
                        }
                    },
                    RunState::At(Phase::FlushSync) => {
                        self.results.push(PhaseResult { phase: Phase::FlushSync, micros: d });
                        self.state = RunState::At(Phase::Teardown);
                    },
                    RunState::At(Phase::Teardown) => {
                        if self.mid_run_failure {
                            self.state = RunState::Failed;
                        } else {
                            self.state = RunState::Completed;
                        }
                    },
                    _ => {
                    },
                }
            },
            PhaseOutcome::Failure => {
                match self.state {
                    RunState::At(Phase::Setup) => {
                        self.state = RunState::Failed;
                    },
                    RunState::At(Phase::Teardown) => {
                        if self.mid_run_failure {
                            self.state = RunState::Failed;
                        } else {
                            self.state = RunState::Completed;
                        }
                    },
                    RunState::At(_) => {
                        self.mid_run_failure = true;
                        self.state = RunState::At(Phase::Teardown);
                    },
                    _ => {
                    },
                }
            },
        }
    }
}

/// Where a state stands in the fixed phase order; both terminal states
/// come after every phase.
pub open spec fn stage_index(s: RunState) -> int {
    match s {
        RunState::At(Phase::Setup) => 0,
        RunState::At(Phase::Populate) => 1,
        RunState::At(Phase::MixedWrite) => 2,
        RunState::At(Phase::ReadBack) => 3,
        RunState::At(Phase::FlushSync) => 4,
        RunState::At(Phase::Teardown) => 5,
        RunState::Completed => 6,
        RunState::Failed => 6,
    }
}

/// A run is strictly sequential: whatever the outcome, every step moves
/// the run strictly forward in the phase order, never back and never in
/// place, so any run ends after at most six steps.
pub proof fn lemma_run_advances(r: Runner, outcome: PhaseOutcome)
    requires
        !r.is_terminal(),
    ensures
        stage_index(r.next_state(outcome)) > stage_index(r.state),
{
}

/// The phase description used in report lines.
pub open spec fn spec_phase_label(p: Phase) -> Seq<char> {
    match p {
        Phase::Setup => "setup"@,
        Phase::Populate => "initial population"@,
        Phase::MixedWrite => "mixed writes"@,
        Phase::ReadBack => "read back"@,
        Phase::FlushSync => "flush"@,
        Phase::Teardown => "teardown"@,
    }
}

/// Renders a phase description.
pub fn phase_label(p: Phase) -> (r: &'static str)
    ensures
        r@ == spec_phase_label(p),
{
    match p {
        Phase::Setup => "setup",
        Phase::Populate => "initial population",
        Phase::MixedWrite => "mixed writes",
        Phase::ReadBack => "read back",
        Phase::FlushSync => "flush",
        Phase::Teardown => "teardown",
    }
}

/// One report line per recorded phase, in recording order.
pub fn render_report(name: &str, results: &Vec<PhaseResult>) -> (lines: Vec<String>)
    ensures
        lines@.len() == results@.len(),
        forall|i: int|
            0 <= i < results@.len() ==> (#[trigger] lines@[i])@ == line_model(
                name@,
                spec_phase_label(results@[i].phase),
                results@[i].micros as nat,
            ),
{
    let mut lines: Vec<String> = Vec::new();
    let mut i: usize = 0;
    while i < results.len()
        invariant
            i <= results@.len(),
            lines@.len() == i,
            forall|j: int|
                0 <= j < i ==> (#[trigger] lines@[j])@ == line_model(
                    name@,
                    spec_phase_label(results@[j].phase),
                    results@[j].micros as nat,
                ),
        decreases results@.len() - i,
    {
        let r = results[i];
        lines.push(report_line(name, phase_label(r.phase), r.micros));
        i = i + 1;
    }
    lines
}

/// An opacity barrier for the read-back phase: the read results are
/// handed to an opaque consumer so the measured reads cannot be
/// optimized away.
///
/// Relies on `std::hint::black_box`: it returns its argument unchanged
/// and has no other effect.
#[verifier::external_body]
pub fn consume_reads(values: &Vec<Option<u64>>) {
    let _ = std::hint::black_box(values);
}

/// The configuration profile every in-memory backend is opened with.
fn in_memory_config() -> (c: BackendConfig) {
    BackendConfig::new(0, DurabilityMode::NoSync, 0)
}

/// One full benchmark run against backend `B`: setup, initial
/// population with `initial_size` random pairs, a mixed batch of
/// `operation_size` pairs, a read back of the mixed batch's keys, a
/// flush where the backend declares that capability, and teardown.
/// Under a configuration that owes a successful open, the run completes
/// and records exactly the measured phases, in phase order.
pub fn run_benchmark<B: StorageBackend>(
    config: &BackendConfig,
    initial_size: usize,
    operation_size: usize,
    update_fraction: Fraction,
) -> (r: Runner)
    requires
        update_fraction.valid(),
        1 <= initial_size || !update_fraction.is_positive(),
        B::open_succeeds(*config),
    ensures
        r.state == RunState::Completed,
        r.results@.len() == (if B::declares_flush() { 4int } else { 3int }),
        r.results@[0].phase == Phase::Populate,
        r.results@[1].phase == Phase::MixedWrite,
        r.results@[2].phase == Phase::ReadBack,
        B::declares_flush() ==> r.results@[3].phase == Phase::FlushSync,
{
    let mut runner = Runner::new(B::has_flush());
    let mut backend = match B::open(config) {
        Ok(h) => h,
        Err(_) => {
            proof {
                assert(false);
            }
            return runner;
        },
    };
    runner.step(PhaseOutcome::Success(0));
    let initial_data = generate_initial(initial_size);
    let started = clock_now();
    backend.write_batch(&initial_data);
    runner.step(PhaseOutcome::Success(micros_since(&started)));
    let mixed_data = match generate_update_mix(&initial_data, operation_size, update_fraction) {
        Ok(d) => d,
        Err(_) => {
            proof {
                assert(false);
            }
            return runner;
        },
    };
    let started = clock_now();
    backend.write_batch(&mixed_data);
    runner.step(PhaseOutcome::Success(micros_since(&started)));
    let keys = dataset_keys(&mixed_data);
    let started = clock_now();
    let values = backend.read_many(&keys);
    let elapsed = micros_since(&started);
    consume_reads(&values);
    runner.step(PhaseOutcome::Success(elapsed));
    if B::has_flush() {
        let started = clock_now();
        backend.flush();
        runner.step(PhaseOutcome::Success(micros_since(&started)));
    }
    backend.close();
    runner.step(PhaseOutcome::Success(0));
    runner
}

/// One full benchmark run against the standard in-memory map backend.
pub fn run_map_benchmark(initial_size: usize, operation_size: usize, update_fraction: Fraction)
    -> (r: Runner)
    requires
        update_fraction.valid(),
        1 <= initial_size || !update_fraction.is_positive(),
    ensures
        r.state == RunState::Completed,
        r.results@.len() == 3,
        r.results@[0].phase == Phase::Populate,
        r.results@[1].phase == Phase::MixedWrite,
        r.results@[2].phase == Phase::ReadBack,
{
    run_benchmark::<MapBackend>(&in_memory_config(), initial_size, operation_size, update_fraction)
}

/// One full benchmark run against the hashbrown-backed store.
pub fn run_fast_map_benchmark(initial_size: usize, operation_size: usize, update_fraction: Fraction)
    -> (r: Runner)
    requires
        update_fraction.valid(),
        1 <= initial_size || !update_fraction.is_positive(),
    ensures
        r.state == RunState::Completed,
        r.results@.len() == 3,
        r.results@[0].phase == Phase::Populate,
        r.results@[1].phase == Phase::MixedWrite,
        r.results@[2].phase == Phase::ReadBack,
{
    run_benchmark::<FastMapBackend>(
        &in_memory_config(),
        initial_size,
        operation_size,
        update_fraction,
    )
}

/// Whether `lines` is the report of a completed in-memory run under
/// `name`: one line per measured phase, in phase order, each carrying
/// some measured duration.
pub open spec fn is_in_memory_report(lines: Seq<String>, name: Seq<char>) -> bool {
    &&& lines.len() == 3
    &&& exists|d: nat| lines[0]@ == line_model(name, spec_phase_label(Phase::Populate), d)
    &&& exists|d: nat| lines[1]@ == line_model(name, spec_phase_label(Phase::MixedWrite), d)
    &&& exists|d: nat| lines[2]@ == line_model(name, spec_phase_label(Phase::ReadBack), d)
}

/// The standard-map benchmark at the fixed sizes of the suite: one
/// report line per measured phase.
pub fn benchmark_hashmap() -> (lines: Vec<String>)
    ensures
        is_in_memory_report(lines@, "HashMap"@),
{
    let runner = run_map_benchmark(INITIAL_DATA_SIZE, DATA_SIZE, Fraction::new(19, 20));
    let lines = render_report("HashMap", &runner.results);
    proof {
        assert(lines@[0]@ == line_model(
            "HashMap"@,
            spec_phase_label(Phase::Populate),
            runner.results@[0].micros as nat,
        ));
        assert(lines@[1]@ == line_model(
            "HashMap"@,
            spec_phase_label(Phase::MixedWrite),
            runner.results@[1].micros as nat,
        ));
        assert(lines@[2]@ == line_model(
            "HashMap"@,
            spec_phase_label(Phase::ReadBack),
            runner.results@[2].micros as nat,
        ));
    }
    lines
}

/// The hashbrown benchmark at the fixed sizes of the suite: one report
/// line per measured phase.
pub fn benchmark_hashmap_noncrypto() -> (lines: Vec<String>)
    ensures
        is_in_memory_report(lines@, "HashMap non-crypto"@),
{
    let runner = run_fast_map_benchmark(INITIAL_DATA_SIZE, DATA_SIZE, Fraction::new(19, 20));
    let lines = render_report("HashMap non-crypto", &runner.results);
    proof {
        assert(lines@[0]@ == line_model(
            "HashMap non-crypto"@,
            spec_phase_label(Phase::Populate),
            runner.results@[0].micros as nat,
        ));
        assert(lines@[1]@ == line_model(
            "HashMap non-crypto"@,
            spec_phase_label(Phase::MixedWrite),
            runner.results@[1].micros as nat,
        ));
        assert(lines@[2]@ == line_model(
            "HashMap non-crypto"@,
            spec_phase_label(Phase::ReadBack),
            runner.results@[2].micros as nat,
        ));
    }
    lines
}

} // verus!
