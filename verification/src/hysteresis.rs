//! On/off switching of the fans with hysteresis.
//!
//! The fans start off. They are switched on once a reading reaches the fan-on
//! temperature, and switched off again once a reading falls to the fan-off
//! temperature. While they run, a PI controller chooses their speed; it starts
//! afresh on the reading that switches them on.
//!
//! The temperatures themselves are floating-point values compared outside this
//! library; a `Reading` carries the two comparisons that the switching depends on.
use vstd::prelude::*;

verus! {

/// Where one temperature reading lies relative to the two switching thresholds.
#[derive(Clone, Copy, Debug, PartialEq, Eq, Structural)]
pub struct Reading {
    /// The temperature is strictly below the fan-on temperature.
    pub below_fan_on: bool,
    /// The temperature is at or below the fan-off temperature.
    pub at_or_below_fan_off: bool,
}

/// What one evaluation asks of the fans.
#[derive(Clone, Copy, Debug, PartialEq, Eq, Structural)]
pub enum FanCommand {
    /// Fans off: speed 0%.
    Off,
    /// Fans on, at the speed chosen by the PI controller; `restart` is set on the
    /// reading that switched the fans on, where the controller starts afresh.
    Control { restart: bool },
}

/// A reading is consistent when the fan-off temperature lies below the fan-on
/// temperature, as a validated configuration guarantees: a temperature at or
/// below fan-off is then also below fan-on.
pub open spec fn consistent(r: Reading) -> bool {
    r.at_or_below_fan_off ==> r.below_fan_on
}

/// Whether the fans are off after a reading, given whether they were off before:
/// off fans stay off while the reading is below fan-on, running fans keep running
/// while the reading is above fan-off.
pub open spec fn next_off(off: bool, r: Reading) -> bool {
    if off {
        r.below_fan_on
    } else {
        r.at_or_below_fan_off
    }
}

/// The command issued for a reading, given whether the fans were off before it.
pub open spec fn command_for(off: bool, r: Reading) -> FanCommand {
    if next_off(off, r) {
        FanCommand::Off
    } else {
        FanCommand::Control { restart: off }
    }
}

/// The on/off state of the fans of one GPU.
#[derive(Clone, Copy, Debug)]
pub struct FanSwitch {
    fans_off: bool,
}

impl View for FanSwitch {
    /// Whether the fans are off.
    type V = bool;

    closed spec fn view(&self) -> bool {
        self.fans_off
    }
}

impl FanSwitch {
    /// A switch with the fans off, as at the start of the program.
    pub fn new() -> (s: Self)
        ensures
            s@,
    {
        FanSwitch { fans_off: true }
    }

    /// Whether the fans are off.
    pub fn fans_off(&self) -> (b: bool)
        ensures
            b == self@,
    {
        self.fans_off
    }

    /// Updates the switch for one reading and says what the fans are to do.
    pub fn eval(&mut self, reading: Reading) -> (cmd: FanCommand)
        ensures
            final(self)@ == next_off(old(self)@, reading),
            cmd == command_for(old(self)@, reading),
            (cmd == FanCommand::Off) <==> final(self)@,
    {
        if self.fans_off && reading.below_fan_on {
            return FanCommand::Off;
        }
        if !self.fans_off && reading.at_or_below_fan_off {
            self.fans_off = true;
            return FanCommand::Off;
        }
        if self.fans_off {
            self.fans_off = false;
            return FanCommand::Control { restart: true };
        }
        FanCommand::Control { restart: false }
    }
}

/// Switching happens only at the thresholds: fans that were off are switched on
/// exactly when the reading is at or above fan-on, and running fans are switched
/// off exactly when the reading is at or below fan-off; the controller restarts
/// exactly when the fans are switched on.
pub proof fn lemma_switching_at_thresholds(off: bool, r: Reading)
    ensures
        (off && !next_off(off, r)) <==> (off && !r.below_fan_on),
        (!off && next_off(off, r)) <==> (!off && r.at_or_below_fan_off),
        (command_for(off, r) == FanCommand::Control { restart: true }) <==> (off && !next_off(off, r)),
{
}

/// A reading strictly between the two thresholds never changes the state of the
/// fans.
pub proof fn lemma_band_keeps_state(off: bool, r: Reading)
    requires
        r.below_fan_on,
        !r.at_or_below_fan_off,
    ensures
        next_off(off, r) == off,
{
}

/// No on/off cycling at a steady temperature: when fan-off lies below fan-on, a
/// second identical reading leaves the state as the first one left it, and does
/// not restart the controller.
pub proof fn lemma_steady_reading_settles(off: bool, r: Reading)
    requires
        consistent(r),
    ensures
        next_off(next_off(off, r), r) == next_off(off, r),
        command_for(next_off(off, r), r) != (FanCommand::Control { restart: true }),
{
}

/// Whether the fans are off after a series of readings, starting from `off`.
pub open spec fn off_after(off: bool, readings: Seq<Reading>) -> bool
    decreases readings.len(),
{
    if readings.len() == 0 {
        off
    } else {
        next_off(off_after(off, readings.drop_last()), readings.last())
    }
}

/// Running fans keep running through any series of readings none of which is at
/// or below fan-off.
pub proof fn lemma_running_fans_stay_on(readings: Seq<Reading>)
    requires
        forall|i: int| 0 <= i < readings.len() ==> !(#[trigger] readings[i]).at_or_below_fan_off,
    ensures
        !off_after(false, readings),
    decreases readings.len(),
{
    if readings.len() > 0 {
        let rest = readings.drop_last();
        assert forall|i: int| 0 <= i < rest.len() implies !(#[trigger] rest[i]).at_or_below_fan_off by {
            assert(rest[i] == readings[i]);
        }
        lemma_running_fans_stay_on(rest);
        assert(!readings[readings.len() - 1].at_or_below_fan_off);
    }
}

/// Fans that are off stay off through any series of readings all of which are
/// below fan-on.
pub proof fn lemma_idle_fans_stay_off(readings: Seq<Reading>)
    requires
        forall|i: int| 0 <= i < readings.len() ==> (#[trigger] readings[i]).below_fan_on,
    ensures
        off_after(true, readings),
    decreases readings.len(),
{
    if readings.len() > 0 {
        let rest = readings.drop_last();
        assert forall|i: int| 0 <= i < rest.len() implies (#[trigger] rest[i]).below_fan_on by {
            assert(rest[i] == readings[i]);
        }
        lemma_idle_fans_stay_off(rest);
        assert(readings[readings.len() - 1].below_fan_on);
    }
}

} // verus!
