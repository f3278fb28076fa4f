use gpu_setfan::control_loop::{first_step, next_step, LoopStep};

#[test]
fn loop_starts_by_checking_termination() {
    assert_eq!(first_step(), LoopStep::CheckRunning);
}

#[test]
fn one_period_visits_every_gpu_in_order() {
    let n = 3;
    let mut step = first_step();
    let mut seen = Vec::new();
    for _ in 0..(2 * n + 2) {
        step = next_step(step, true, n);
        seen.push(step);
    }
    assert_eq!(
        seen,
        vec![
            LoopStep::ReadTemperature(0),
            LoopStep::SetFanSpeed(0),
            LoopStep::ReadTemperature(1),
            LoopStep::SetFanSpeed(1),
            LoopStep::ReadTemperature(2),
            LoopStep::SetFanSpeed(2),
            LoopStep::Sleep,
            LoopStep::CheckRunning,
        ]
    );
}

#[test]
fn single_gpu_period() {
    assert_eq!(next_step(LoopStep::SetFanSpeed(0), true, 1), LoopStep::Sleep);
    assert_eq!(next_step(LoopStep::Sleep, true, 1), LoopStep::CheckRunning);
    assert_eq!(next_step(LoopStep::Sleep, false, 1), LoopStep::CheckRunning);
}

#[test]
fn failed_read_shuts_down_with_error() {
    assert_eq!(
        next_step(LoopStep::ReadTemperature(1), false, 2),
        LoopStep::Shutdown { failed: true }
    );
}

#[test]
fn failed_set_shuts_down_with_error() {
    assert_eq!(
        next_step(LoopStep::SetFanSpeed(0), false, 2),
        LoopStep::Shutdown { failed: true }
    );
}

#[test]
fn termination_request_shuts_down_cleanly() {
    assert_eq!(
        next_step(LoopStep::CheckRunning, false, 2),
        LoopStep::Shutdown { failed: false }
    );
}

#[test]
fn shutdown_is_final() {
    for ok in [false, true] {
        for failed in [false, true] {
            assert_eq!(
                next_step(LoopStep::Shutdown { failed }, ok, 4),
                LoopStep::Shutdown { failed }
            );
        }
    }
}
