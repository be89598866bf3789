use waitforit::schedule::{after_tick, pause};
use waitforit::wait::NANOS_PER_SECOND;
use waitforit::{Action, Reading, Scheduler, Step, Wait, Waits};

#[test]
fn pause_is_the_rest_of_the_interval() {
    assert_eq!(pause(1_000, 0), Some(1_000));
    assert_eq!(pause(1_000, 1), Some(999));
    assert_eq!(pause(1_000, 999), Some(1));
}

#[test]
fn no_pause_after_a_slow_tick() {
    assert_eq!(pause(1_000, 1_000), None);
    assert_eq!(pause(1_000, 1_001), None);
    assert_eq!(pause(1_000, u64::MAX), None);
    assert_eq!(pause(0, 0), None);
}

#[test]
fn action_after_a_tick() {
    assert_eq!(after_tick(true, 1_000, 10), Action::Finish);
    assert_eq!(after_tick(true, 1_000, 5_000), Action::Finish);
    assert_eq!(after_tick(false, 1_000, 10), Action::Sleep(990));
    assert_eq!(after_tick(false, 1_000, 5_000), Action::Poll);
}

#[test]
fn scheduler_measures_the_tick() {
    let mut scheduler = Scheduler::new(1_000);
    assert_eq!(
        scheduler,
        Scheduler { interval: 1_000, tick_start: 0, satisfied: false }
    );
    scheduler.start_tick(5_000);
    assert_eq!(scheduler.end_tick(false, 5_300), Action::Sleep(700));
    scheduler.start_tick(6_000);
    assert_eq!(scheduler.end_tick(false, 7_000), Action::Poll);
    scheduler.start_tick(7_000);
    assert_eq!(scheduler.end_tick(false, 9_999), Action::Poll);
    // A clock that went back: the tick took no time.
    scheduler.start_tick(10_000);
    assert_eq!(scheduler.end_tick(false, 9_000), Action::Sleep(1_000));
}

#[test]
fn scheduler_stays_satisfied() {
    let mut scheduler = Scheduler::new(1_000);
    scheduler.start_tick(0);
    assert_eq!(scheduler.end_tick(true, 10), Action::Finish);
    assert!(scheduler.satisfied);
    scheduler.start_tick(20);
    assert_eq!(scheduler.end_tick(false, 30), Action::Finish);
    assert!(scheduler.satisfied);
}

/// Waits on a simulated clock: every probe takes `latency`, and `world`
/// says what a probe reads at a given time. Gives the time at which the
/// wait returned and the number of ticks.
fn simulate(
    mut waits: Waits,
    interval: u64,
    latency: u64,
    world: &dyn Fn(u64, usize) -> Reading,
) -> (u64, usize) {
    let mut clock: u64 = 0;
    let mut ticks: usize = 0;
    let mut scheduler = Scheduler::new(interval);
    loop {
        scheduler.start_tick(clock);
        ticks += 1;
        let mut step = waits.begin();
        let met = loop {
            match step {
                Step::Done(met) => break met,
                Step::Probe(leaf) => {
                    clock += latency;
                    step = waits.feed(leaf, world(clock, leaf));
                }
            }
        };
        match scheduler.end_tick(met, clock) {
            Action::Finish => return (clock, ticks),
            Action::Sleep(time) => clock += time,
            Action::Poll => {}
        }
    }
}

#[test]
fn file_that_appears_after_five_seconds() {
    let second = NANOS_PER_SECOND;
    let waits = Waits::single(Wait::path_exists("/tmp/flag"));
    let world = |now: u64, _leaf: usize| Reading::Existence(now >= 5 * second);
    let (returned, ticks) = simulate(waits, second, 1_000, &world);
    assert!(returned >= 5 * second);
    assert!(returned < 6 * second);
    assert_eq!(returned, 5 * second + 1_000);
    assert_eq!(ticks, 6);
}

#[test]
fn two_seconds_elapse() {
    let second = NANOS_PER_SECOND;
    let waits = Waits::single(Wait::elapsed(0, 2 * second));
    let world = |now: u64, _leaf: usize| Reading::Clock(now);
    let (returned, ticks) = simulate(waits, second, 1_000, &world);
    assert!(returned >= 2 * second);
    assert!(returned <= 3 * second);
    assert_eq!(ticks, 3);
}

#[test]
fn slow_probe_leaves_no_time_to_sleep() {
    let second = NANOS_PER_SECOND;
    let waits = Waits::single(Wait::elapsed(0, 10 * second));
    let world = |now: u64, _leaf: usize| Reading::Clock(now);
    // Every tick takes three intervals, so tick follows tick at once.
    let (returned, ticks) = simulate(waits, second, 3 * second, &world);
    assert_eq!(returned, 12 * second);
    assert_eq!(ticks, 4);
}

#[test]
fn deadline_beside_a_condition() {
    let second = NANOS_PER_SECOND;
    let waits = Waits::single(Wait::path_exists("/never"))
        .or(Waits::single(Wait::elapsed(0, 3 * second)));
    let world = |now: u64, leaf: usize| {
        if leaf == 0 {
            Reading::Existence(false)
        } else {
            Reading::Clock(now)
        }
    };
    let (returned, _) = simulate(waits, second, 0, &world);
    assert_eq!(returned, 3 * second);
}
