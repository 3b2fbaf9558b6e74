//! The low-battery alert: a two-state machine that, on a tick where the
//! battery is low and discharging, takes over the display for a fixed number
//! of steps, alternating a banner and a filler message.
use vstd::prelude::*;
use crate::battery::{is_discharging, BatteryError, BatteryReading};
use crate::text::{decimal, push_char, push_decimal, push_text};

verus! {

/// A charge strictly below this percentage is low.
pub const LOW_BATTERY_THRESHOLD: u64 = 20;

/// The number of steps an alert lasts.
pub const ALERT_STEPS: u64 = 4;

/// Seconds to wait after each step of an alert.
pub const ALERT_PAUSE_SECS: u64 = 1;

/// The number of `=` on each side of the banner.
pub const BANNER_RULE: u64 = 30;

/// Where the monitor stands.
#[derive(Debug, Clone, Copy, PartialEq, Eq, Structural)]
pub enum AlertState {
    Normal,
    /// Taking over the display; `done` steps have been shown.
    Alerting { done: u64 },
}

/// Whether a tick's battery sample starts an alert.
pub open spec fn triggers(percent: u64, discharging: bool) -> bool {
    percent < LOW_BATTERY_THRESHOLD && discharging
}

/// The state that a tick starts in.
pub open spec fn start_state(percent: u64, discharging: bool) -> AlertState {
    if triggers(percent, discharging) {
        AlertState::Alerting { done: 0 }
    } else {
        AlertState::Normal
    }
}

/// The state after one step.
pub open spec fn next_state(s: AlertState) -> AlertState {
    match s {
        AlertState::Normal => AlertState::Normal,
        AlertState::Alerting { done } => if done + 1 >= ALERT_STEPS {
            AlertState::Normal
        } else {
            AlertState::Alerting { done: (done + 1) as u64 }
        },
    }
}

/// The state after `n` steps.
pub open spec fn steps(s: AlertState, n: nat) -> AlertState
    decreases n,
{
    if n == 0 {
        s
    } else {
        steps(next_state(s), (n - 1) as nat)
    }
}

/// `n` copies of `c`.
pub open spec fn run_of(c: char, n: nat) -> Seq<char> {
    Seq::new(n, |i: int| c)
}

/// The banner: a rule of `=`, ` !!! Low Battery !!! (<percent>%) `, and a rule of `=`.
pub open spec fn banner_text(percent: u64) -> Seq<char> {
    run_of('=', BANNER_RULE as nat) + " !!! Low Battery !!! ("@ + decimal(percent as nat) + "%) "@
        + run_of('=', BANNER_RULE as nat)
}

/// The message shown at step `k` of an alert: the banner at even steps, a filler at odd ones.
pub open spec fn message_at(percent: u64, k: nat) -> Seq<char> {
    if k % 2 == 0 {
        banner_text(percent)
    } else {
        "hey!"@
    }
}

fn push_run(s: &mut String, c: char, n: u64)
    ensures
        final(s)@ == old(s)@ + run_of(c, n as nat),
{
    let mut i: u64 = 0;
    while i < n
        invariant
            i <= n,
            s@ == old(s)@ + run_of(c, i as nat),
        decreases n - i,
    {
        push_char(s, c);
        i = i + 1;
        assert(s@ =~= old(s)@ + run_of(c, i as nat));
    }
}

/// The banner shown at even steps of an alert.
pub fn banner(percent: u64) -> (r: String)
    ensures
        r@ == banner_text(percent),
{
    let mut s = String::new();
    push_run(&mut s, '=', BANNER_RULE);
    push_text(&mut s, " !!! Low Battery !!! (");
    push_decimal(&mut s, percent);
    push_text(&mut s, "%) ");
    push_run(&mut s, '=', BANNER_RULE);
    assert(s@ =~= banner_text(percent));
    s
}

/// The monitor for one tick: its state and the percentage that its banner shows.
pub struct AlertMonitor {
    pub state: AlertState,
    pub percent: u64,
}

impl AlertMonitor {
    /// Starts a tick: alerting when the charge is below the threshold and the
    /// battery discharges, normal otherwise.
    pub fn begin(percent: u64, discharging: bool) -> (r: Self)
        ensures
            r.state == start_state(percent, discharging),
            r.percent == percent,
    {
        if percent < LOW_BATTERY_THRESHOLD && discharging {
            AlertMonitor { state: AlertState::Alerting { done: 0 }, percent }
        } else {
            AlertMonitor { state: AlertState::Normal, percent }
        }
    }

    /// Takes one step: while alerting, gives the message to show and advances,
    /// returning to normal after the last step; when normal, gives nothing.
    pub fn step(&mut self) -> (r: Option<String>)
        ensures
            final(self).state == next_state(old(self).state),
            final(self).percent == old(self).percent,
            r is Some <==> old(self).state is Alerting,
            r matches Some(m) ==> m@ == message_at(old(self).percent, old(self).state->done as nat),
    {
        match self.state {
            AlertState::Normal => None,
            AlertState::Alerting { done } => {
                let m = if done % 2 == 0 {
                    banner(self.percent)
                } else {
                    String::from_str("hey!")
                };
                if done >= ALERT_STEPS - 1 {
                    self.state = AlertState::Normal;
                } else {
                    self.state = AlertState::Alerting { done: done + 1 };
                }
                Some(m)
            },
        }
    }
}

/// The messages that a tick's alert shows, in order: four when the charge is
/// below the threshold and the battery discharges, alternating banner and
/// filler; none otherwise.
pub fn alert_messages(percent: u64, discharging: bool) -> (r: Vec<String>)
    ensures
        r@.len() == if triggers(percent, discharging) {
            ALERT_STEPS as nat
        } else {
            0
        },
        forall|k: int| 0 <= k < r@.len() ==> (#[trigger] r@[k])@ == message_at(percent, k as nat),
{
    let mut mon = AlertMonitor::begin(percent, discharging);
    let mut out: Vec<String> = Vec::new();
    loop
        invariant
            mon.percent == percent,
            triggers(percent, discharging) ==> out@.len() <= ALERT_STEPS,
            !triggers(percent, discharging) ==> out@.len() == 0 && mon.state is Normal,
            triggers(percent, discharging) && out@.len() < ALERT_STEPS ==> mon.state == (AlertState::Alerting { done: out@.len() as u64 }),
            triggers(percent, discharging) && out@.len() == ALERT_STEPS ==> mon.state is Normal,
            forall|k: int| 0 <= k < out@.len() ==> (#[trigger] out@[k])@ == message_at(percent, k as nat),
        ensures
            out@.len() == if triggers(percent, discharging) {
                ALERT_STEPS as nat
            } else {
                0
            },
            forall|k: int| 0 <= k < out@.len() ==> (#[trigger] out@[k])@ == message_at(percent, k as nat),
        decreases ALERT_STEPS - out@.len(),
    {
        match mon.step() {
            Some(m) => out.push(m),
            None => break,
        }
    }
    out
}

/// The messages of a tick's alert for its battery sample: those of
/// `alert_messages` for a reading, none when the battery could not be read.
pub fn alert_for(reading: &Result<BatteryReading, BatteryError>) -> (r: Vec<String>)
    ensures
        reading matches Err(_) ==> r@.len() == 0,
        reading matches Ok(b) ==> {
            &&& r@.len() == if triggers(b.percent, b.status@ == "Discharging"@) {
                ALERT_STEPS as nat
            } else {
                0
            }
            &&& forall|k: int| 0 <= k < r@.len() ==> (#[trigger] r@[k])@ == message_at(b.percent, k as nat)
        },
{
    match reading {
        Ok(b) => alert_messages(b.percent, is_discharging(b.status.as_str())),
        Err(_) => Vec::new(),
    }
}

/// At or above the threshold no tick alerts: the monitor stays normal
/// however many steps are taken, whatever the battery's direction.
pub proof fn lemma_no_alert_at_or_above_threshold(percent: u64, discharging: bool, n: nat)
    requires
        percent >= LOW_BATTERY_THRESHOLD,
    ensures
        steps(start_state(percent, discharging), n) == AlertState::Normal,
    decreases n,
{
    if n > 0 {
        lemma_no_alert_at_or_above_threshold(percent, discharging, (n - 1) as nat);
        lemma_normal_stays(n);
    }
}

proof fn lemma_normal_stays(n: nat)
    ensures
        steps(AlertState::Normal, n) == AlertState::Normal,
    decreases n,
{
    if n > 0 {
        lemma_normal_stays((n - 1) as nat);
    }
}

/// A low, discharging battery starts an alert that is still running after each
/// of the first three steps and is back to normal after exactly four.
pub proof fn lemma_alert_lasts_four_steps(percent: u64)
    requires
        percent < LOW_BATTERY_THRESHOLD,
    ensures
        forall|k: nat| k < ALERT_STEPS ==> (#[trigger] steps(start_state(percent, true), k)) is Alerting,
        steps(start_state(percent, true), ALERT_STEPS as nat) == AlertState::Normal,
{
    let s = start_state(percent, true);
    reveal_with_fuel(steps, 5);
    assert(steps(s, 0) is Alerting);
    assert(steps(s, 1) is Alerting);
    assert(steps(s, 2) is Alerting);
    assert(steps(s, 3) is Alerting);
}

} // verus!
