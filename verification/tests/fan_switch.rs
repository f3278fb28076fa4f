use gpu_setfan::hysteresis::{FanCommand, FanSwitch, Reading};

fn reading(below_fan_on: bool, at_or_below_fan_off: bool) -> Reading {
    Reading { below_fan_on, at_or_below_fan_off }
}

const COLD: Reading = Reading { below_fan_on: true, at_or_below_fan_off: true };
const BAND: Reading = Reading { below_fan_on: true, at_or_below_fan_off: false };
const HOT: Reading = Reading { below_fan_on: false, at_or_below_fan_off: false };

#[test]
fn fans_start_off() {
    let s = FanSwitch::new();
    assert!(s.fans_off());
}

#[test]
fn fans_stay_off_below_fan_on() {
    let mut s = FanSwitch::new();
    assert_eq!(s.eval(COLD), FanCommand::Off);
    assert_eq!(s.eval(BAND), FanCommand::Off);
    assert!(s.fans_off());
}

#[test]
fn fans_switch_on_at_fan_on_and_restart_controller() {
    let mut s = FanSwitch::new();
    assert_eq!(s.eval(HOT), FanCommand::Control { restart: true });
    assert!(!s.fans_off());
    assert_eq!(s.eval(HOT), FanCommand::Control { restart: false });
}

#[test]
fn running_fans_stay_on_in_band() {
    let mut s = FanSwitch::new();
    s.eval(HOT);
    assert_eq!(s.eval(BAND), FanCommand::Control { restart: false });
    assert_eq!(s.eval(BAND), FanCommand::Control { restart: false });
    assert!(!s.fans_off());
}

#[test]
fn running_fans_switch_off_at_fan_off() {
    let mut s = FanSwitch::new();
    s.eval(HOT);
    assert_eq!(s.eval(COLD), FanCommand::Off);
    assert!(s.fans_off());
    // back in the band: they stay off until fan-on is reached again
    assert_eq!(s.eval(BAND), FanCommand::Off);
    assert_eq!(s.eval(HOT), FanCommand::Control { restart: true });
}

#[test]
fn steady_reading_does_not_cycle() {
    for r in [COLD, BAND, HOT] {
        for start_hot in [false, true] {
            let mut s = FanSwitch::new();
            if start_hot {
                s.eval(HOT);
            }
            let first = s.eval(r);
            let state = s.fans_off();
            let second = s.eval(r);
            assert_eq!(s.fans_off(), state);
            assert_ne!(second, FanCommand::Control { restart: true });
            if first == FanCommand::Off {
                assert_eq!(second, FanCommand::Off);
            }
        }
    }
}

#[test]
fn inconsistent_thresholds_flip_every_reading() {
    // at or below fan-off and at or above fan-on at once: only possible when
    // fan-off is not below fan-on
    let r = reading(false, true);
    let mut s = FanSwitch::new();
    assert_eq!(s.eval(r), FanCommand::Control { restart: true });
    assert_eq!(s.eval(r), FanCommand::Off);
    assert_eq!(s.eval(r), FanCommand::Control { restart: true });
}

#[test]
fn running_fans_ride_out_readings_above_fan_off() {
    let mut s = FanSwitch::new();
    s.eval(HOT);
    for r in [BAND, HOT, BAND, BAND, HOT, BAND] {
        assert_ne!(s.eval(r), FanCommand::Off);
    }
    assert!(!s.fans_off());
}

#[test]
fn idle_fans_ignore_readings_below_fan_on() {
    let mut s = FanSwitch::new();
    for r in [COLD, BAND, BAND, COLD, BAND] {
        assert_eq!(s.eval(r), FanCommand::Off);
    }
    assert!(s.fans_off());
}
