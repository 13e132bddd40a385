//! Tests of the janitor's sweep schedule: first sweep after one full
//! period, delay-style rescheduling, no catch-up bursts.

use dewpoint::janitor::Janitor;
use dewpoint::weather::UnixTimestamp;

const PERIOD: i64 = 4 * 60 * 60;

#[test]
fn first_sweep_is_due_one_full_period_after_start() {
    let mut j = Janitor::new(&UnixTimestamp::new(1_000), PERIOD);
    assert!(!j.tick(&UnixTimestamp::new(1_000)));
    assert!(!j.tick(&UnixTimestamp::new(1_000 + PERIOD - 1)));
    assert!(j.tick(&UnixTimestamp::new(1_000 + PERIOD)));
}

#[test]
fn each_sweep_reschedules_one_period_later() {
    let mut j = Janitor::new(&UnixTimestamp::new(0), PERIOD);
    assert!(j.tick(&UnixTimestamp::new(PERIOD)));
    assert!(!j.tick(&UnixTimestamp::new(2 * PERIOD - 1)));
    assert!(j.tick(&UnixTimestamp::new(2 * PERIOD)));
}

#[test]
fn missed_ticks_do_not_burst() {
    let mut j = Janitor::new(&UnixTimestamp::new(0), PERIOD);
    // The process was busy: the tick fires long after it was due.
    let late = 3 * PERIOD + 17;
    assert!(j.tick(&UnixTimestamp::new(late)));
    // No backlog: the next sweep is one full period after the late tick,
    // not at the old boundaries.
    assert!(!j.tick(&UnixTimestamp::new(late + 1)));
    assert!(!j.tick(&UnixTimestamp::new(late + PERIOD - 1)));
    assert!(j.tick(&UnixTimestamp::new(late + PERIOD)));
}

#[test]
fn due_reports_without_rescheduling() {
    let j = Janitor::new(&UnixTimestamp::new(0), PERIOD);
    assert!(!j.due(&UnixTimestamp::new(PERIOD - 1)));
    assert!(j.due(&UnixTimestamp::new(PERIOD)));
    assert!(j.due(&UnixTimestamp::new(PERIOD)));
}
