//! The program's main loop as a state machine.
//!
//! Each period the loop checks whether it is still to run, then reads the
//! temperature of every GPU in turn and commands its fans, then sleeps. Reading
//! and commanding the hardware, and sleeping, are done by the caller; this module
//! decides what comes next from what the last step reported. Every way out of the
//! loop passes through `Shutdown`, where the default fan policies are restored on
//! all GPUs before the program exits.
use vstd::prelude::*;

verus! {

/// One step of the main loop.
#[derive(Clone, Copy, Debug, PartialEq, Eq, Structural)]
pub enum LoopStep {
    /// Check whether termination was requested.
    CheckRunning,
    /// Read the temperature of GPU `i`.
    ReadTemperature(usize),
    /// Evaluate the fan controller of GPU `i` and set its fan speed.
    SetFanSpeed(usize),
    /// Wait one update period.
    Sleep,
    /// Restore the default fan policy of every GPU and exit, with an error when
    /// `failed`.
    Shutdown { failed: bool },
}

/// A step names only GPUs that exist.
pub open spec fn step_in_range(step: LoopStep, n_gpus: nat) -> bool {
    match step {
        LoopStep::ReadTemperature(i) => i < n_gpus,
        LoopStep::SetFanSpeed(i) => i < n_gpus,
        _ => true,
    }
}

/// The step that follows `step`. `ok` is what the step reported: for
/// `CheckRunning`, that the program is still to run; for a read or a set, that
/// the hardware call succeeded. A failed hardware call shuts the program down
/// with an error, a termination request shuts it down cleanly, and `Shutdown` is
/// final.
pub open spec fn after(step: LoopStep, ok: bool, n_gpus: nat) -> LoopStep {
    match step {
        LoopStep::CheckRunning => if ok {
            LoopStep::ReadTemperature(0)
        } else {
            LoopStep::Shutdown { failed: false }
        },
        LoopStep::ReadTemperature(i) => if ok {
            LoopStep::SetFanSpeed(i)
        } else {
            LoopStep::Shutdown { failed: true }
        },
        LoopStep::SetFanSpeed(i) => if !ok {
            LoopStep::Shutdown { failed: true }
        } else if i + 1 < n_gpus {
            LoopStep::ReadTemperature((i + 1) as usize)
        } else {
            LoopStep::Sleep
        },
        LoopStep::Sleep => LoopStep::CheckRunning,
        LoopStep::Shutdown { failed } => LoopStep::Shutdown { failed },
    }
}

/// The step the loop starts with.
pub fn first_step() -> (step: LoopStep)
    ensures
        step == LoopStep::CheckRunning,
{
    LoopStep::CheckRunning
}

/// Decides the next step of the loop from the current one and what it reported.
pub fn next_step(step: LoopStep, ok: bool, n_gpus: usize) -> (next: LoopStep)
    requires
        n_gpus > 0,
        step_in_range(step, n_gpus as nat),
    ensures
        next == after(step, ok, n_gpus as nat),
        step_in_range(next, n_gpus as nat),
{
    match step {
        LoopStep::CheckRunning => {
            if ok {
                LoopStep::ReadTemperature(0)
            } else {
                LoopStep::Shutdown { failed: false }
            }
        },
        LoopStep::ReadTemperature(i) => {
            if ok {
                LoopStep::SetFanSpeed(i)
            } else {
                LoopStep::Shutdown { failed: true }
            }
        },
        LoopStep::SetFanSpeed(i) => {
            if !ok {
                LoopStep::Shutdown { failed: true }
            } else if i + 1 < n_gpus {
                LoopStep::ReadTemperature(i + 1)
            } else {
                LoopStep::Sleep
            }
        },
        LoopStep::Sleep => LoopStep::CheckRunning,
        LoopStep::Shutdown { failed } => LoopStep::Shutdown { failed },
    }
}

/// The step reached from `start` after `k` steps that all report success.
pub open spec fn run_ok(start: LoopStep, k: int, n_gpus: nat) -> LoopStep
    decreases k,
{
    if k <= 0 {
        start
    } else {
        after(run_ok(start, k - 1, n_gpus), true, n_gpus)
    }
}

/// Every GPU is controlled in every period: while the program runs and the
/// hardware answers, one period reads and commands GPU 0, 1, ..., n - 1 in turn,
/// then sleeps and checks again whether to run.
pub proof fn lemma_period_visits_every_gpu(n_gpus: usize)
    requires
        n_gpus > 0,
    ensures
        forall|i: usize|
            i < n_gpus ==> #[trigger] run_ok(LoopStep::CheckRunning, 2 * i + 1, n_gpus as nat)
                == LoopStep::ReadTemperature(i) && run_ok(
                LoopStep::CheckRunning,
                2 * i + 2,
                n_gpus as nat,
            ) == LoopStep::SetFanSpeed(i),
        run_ok(LoopStep::CheckRunning, 2 * n_gpus + 1, n_gpus as nat) == LoopStep::Sleep,
        run_ok(LoopStep::CheckRunning, 2 * n_gpus + 2, n_gpus as nat) == LoopStep::CheckRunning,
{
    let n = n_gpus as nat;
    assert forall|i: usize| i < n_gpus implies #[trigger] run_ok(
        LoopStep::CheckRunning,
        2 * i + 1,
        n,
    ) == LoopStep::ReadTemperature(i) && run_ok(LoopStep::CheckRunning, 2 * i + 2, n)
        == LoopStep::SetFanSpeed(i) by {
        lemma_visit(n_gpus, i);
    }
    let last = (n_gpus - 1) as usize;
    lemma_visit(n_gpus, last);
    assert(2 * last + 2 == 2 * n_gpus);
    assert(run_ok(LoopStep::CheckRunning, 2 * n_gpus + 1, n) == after(
        run_ok(LoopStep::CheckRunning, 2 * n_gpus, n),
        true,
        n,
    ));
    assert(run_ok(LoopStep::CheckRunning, 2 * n_gpus + 2, n) == after(
        run_ok(LoopStep::CheckRunning, 2 * n_gpus + 1, n),
        true,
        n,
    ));
}

proof fn lemma_visit(n_gpus: usize, i: usize)
    requires
        i < n_gpus,
    ensures
        run_ok(LoopStep::CheckRunning, 2 * i + 1, n_gpus as nat) == LoopStep::ReadTemperature(i),
        run_ok(LoopStep::CheckRunning, 2 * i + 2, n_gpus as nat) == LoopStep::SetFanSpeed(i),
    decreases i,
{
    let n = n_gpus as nat;
    if i == 0 {
        assert(run_ok(LoopStep::CheckRunning, 0, n) == LoopStep::CheckRunning);
        assert(run_ok(LoopStep::CheckRunning, 1, n) == LoopStep::ReadTemperature(0));
    } else {
        let j = (i - 1) as usize;
        lemma_visit(n_gpus, j);
        assert(2 * j + 2 + 1 == 2 * i + 1);
        assert(run_ok(LoopStep::CheckRunning, 2 * i + 1, n) == after(
            run_ok(LoopStep::CheckRunning, 2 * j + 2, n),
            true,
            n,
        ));
    }
    assert(run_ok(LoopStep::CheckRunning, 2 * i + 2, n) == after(
        run_ok(LoopStep::CheckRunning, 2 * i + 1, n),
        true,
        n,
    ));
}

/// The loop winds down only through `Shutdown`, where the default fan policies
/// are restored: a failed read or set leads there with an error, a termination
/// request at the head of the loop leads there without one, and once there the
/// loop stays there.
pub proof fn lemma_every_exit_restores(step: LoopStep, ok: bool, n_gpus: nat)
    ensures
        ((step is ReadTemperature || step is SetFanSpeed) && !ok) ==> (after(step, ok, n_gpus)
            == LoopStep::Shutdown { failed: true }),
        (step == LoopStep::CheckRunning && !ok) ==> (after(step, ok, n_gpus)
            == LoopStep::Shutdown { failed: false }),
        (step is Shutdown) ==> (after(step, ok, n_gpus) == step),
        ((after(step, ok, n_gpus) is Shutdown) && !(step is Shutdown)) ==> !ok,
{
}

} // verus!
