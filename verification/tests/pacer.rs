// Pacing by a wall clock that the tests hold in their hands.

use std::cell::Cell;
use std::rc::Rc;
use xdevs::atomic::{Atomic, AtomicSimulator};
use xdevs::pacer::{
    budget, deadline, virtual_time, wait_event, Clock, InputHandler, Pace, WaitEvent,
};
use xdevs::port::Port;
use xdevs::simulator::{Config, Discard, SimError, Simulator, WaitUntil};
use xdevs::time::Time;

const MILLISECOND: u64 = 1_000_000;

struct SharedClock {
    now: Rc<Cell<u64>>,
}

impl Clock for SharedClock {
    fn now(&mut self) -> u64 {
        self.now.get()
    }
}

// Sleeps for the whole wait, and `late` nanoseconds more.
struct Sleep {
    now: Rc<Cell<u64>>,
    late: u64,
    slept: Vec<u64>,
}

impl<I> InputHandler<I> for Sleep {
    fn handle(&mut self, duration: u64, _input: &mut I) {
        self.slept.push(duration);
        self.now.set(self.now.get() + duration + self.late);
    }
}

// Returns after `after` nanoseconds with a message.
struct Knock {
    now: Rc<Cell<u64>>,
    after: u64,
    knocked: bool,
}

impl InputHandler<Port<u32, 1>> for Knock {
    fn handle(&mut self, duration: u64, input: &mut Port<u32, 1>) {
        if !self.knocked && self.after < duration {
            self.knocked = true;
            self.now.set(self.now.get() + self.after);
            input.add_value(9).unwrap();
        } else {
            self.now.set(self.now.get() + duration);
        }
    }
}

struct BeatState {
    sigma: Time,
    period: Time,
    beats: u32,
    knocks: Vec<Time>,
}

// Beats every `period`; a knock restarts the period.
struct Beat;

impl Atomic for Beat {
    type State = BeatState;
    type Input = Port<u32, 1>;
    type Output = Port<u32, 1>;

    fn spec_ta(state: &BeatState) -> Time {
        state.sigma
    }

    fn start(_state: &mut BeatState) {}

    fn stop(_state: &mut BeatState) {}

    fn delta_int(state: &mut BeatState) {
        state.beats += 1;
        state.sigma = state.period;
    }

    fn delta_ext(state: &mut BeatState, e: Time, _x: &Port<u32, 1>) {
        state.knocks.push(e);
        state.sigma = state.period;
    }

    fn delta_conf(state: &mut BeatState, x: &Port<u32, 1>) {
        Self::default_delta_conf(state, x)
    }

    fn lambda(state: &BeatState, output: &mut Port<u32, 1>) {
        let _ = output.add_value(state.beats);
    }

    fn ta(state: &BeatState) -> Time {
        state.sigma
    }
}

fn beat(period: u64) -> Simulator<AtomicSimulator<Beat>> {
    let state = BeatState {
        sigma: Time::new(period),
        period: Time::new(period),
        beats: 0,
        knocks: Vec::new(),
    };
    Simulator::new(AtomicSimulator::new(Port::new(), Port::new(), state))
}

#[test]
fn deadline_scales_the_span() {
    assert_eq!(deadline(100, Time::new(5), 10), 150);
    assert_eq!(deadline(100, Time::zero(), 10), 100);
    assert_eq!(deadline(100, Time::new(5), 0), 100);
    assert_eq!(deadline(0, Time::new(3_000), MILLISECOND), 3_000_000_000);
}

#[test]
fn deadline_that_is_too_far_never_comes() {
    assert_eq!(deadline(100, Time::infinity(), 1), u64::MAX);
    assert_eq!(deadline(100, Time::infinity(), 0), 100);
    assert_eq!(deadline(u64::MAX - 10, Time::new(5), 2), u64::MAX);
    assert_eq!(deadline(u64::MAX - 11, Time::new(5), 2), u64::MAX - 1);
    assert_eq!(deadline(u64::MAX, Time::zero(), 0), u64::MAX);
    assert_eq!(deadline(1, Time::new(u64::MAX - 1), u64::MAX), u64::MAX);
}

#[test]
fn budget_is_what_is_left_until_the_deadline() {
    assert_eq!(budget(150, 120), Some(30));
    assert_eq!(budget(150, 150), Some(0));
    assert_eq!(budget(150, 151), None);
}

#[test]
fn virtual_time_of_an_early_return() {
    assert_eq!(virtual_time(75, 10, Time::new(2), Time::new(9)), Time::new(7));
    assert_eq!(virtual_time(79, 10, Time::new(2), Time::new(9)), Time::new(7));
    assert_eq!(virtual_time(5, 10, Time::new(2), Time::new(9)), Time::new(2));
    assert_eq!(virtual_time(500, 10, Time::new(2), Time::new(9)), Time::new(9));
    assert_eq!(virtual_time(500, 0, Time::new(2), Time::new(9)), Time::new(9));
    assert_eq!(virtual_time(500, 1, Time::new(2), Time::infinity()), Time::new(500));
}

#[test]
fn settle_in_time() {
    let config = Config::new(Time::zero(), Time::new(10), 10, Some(5));
    let mut pace = Pace::new(&config, 1_000);
    assert_eq!(pace.start_rt, 1_000);
    assert_eq!(pace.last_rt, 1_000);
    let next_rt = pace.next_rt(Time::zero(), Time::new(3));
    assert_eq!(next_rt, 1_030);
    assert_eq!(pace.settle(next_rt, 1_035, Time::zero(), Time::new(3)), Ok(Time::new(3)));
    // In step up to the deadline, not up to the reading of the clock.
    assert_eq!(pace.last_rt, 1_030);
    assert_eq!(pace.next_rt(Time::new(3), Time::new(4)), 1_040);
}

#[test]
fn settle_too_late() {
    let config = Config::new(Time::zero(), Time::new(10), 10, Some(5));
    let mut pace = Pace::new(&config, 1_000);
    assert_eq!(
        pace.settle(1_030, 1_036, Time::zero(), Time::new(3)),
        Err(SimError::JitterExceeded { drift: 6 })
    );
    assert_eq!(pace.last_rt, 1_000);
    let config = Config::new(Time::zero(), Time::new(10), 10, None);
    let mut pace = Pace::new(&config, 1_000);
    assert_eq!(pace.settle(1_030, 9_000_000, Time::zero(), Time::new(3)), Ok(Time::new(3)));
}

#[test]
fn settle_early() {
    let config = Config::new(Time::zero(), Time::new(10), 10, Some(5));
    let mut pace = Pace::new(&config, 1_000);
    pace.settle(1_030, 1_030, Time::zero(), Time::new(3)).unwrap();
    assert_eq!(pace.settle(1_060, 1_050, Time::new(3), Time::new(6)), Ok(Time::new(5)));
    assert_eq!(pace.last_rt, 1_050);
    // A clock that tells a time before the pacing began.
    assert_eq!(pace.settle(1_060, 900, Time::new(3), Time::new(6)), Ok(Time::new(3)));
    assert_eq!(pace.last_rt, 900);
}

#[test]
fn unpaced_waits_answer_the_awaited_time() {
    let config = Config::new(Time::zero(), Time::new(10), 0, None);
    let mut pace = Pace::new(&config, 1_000);
    assert_eq!(pace.settle(1_000, 5_000, Time::new(3), Time::new(6)), Ok(Time::new(6)));
    assert_eq!(pace.settle(1_000, 10, Time::new(3), Time::new(6)), Ok(Time::new(6)));
}

#[test]
fn real_time_run_takes_the_time_of_the_simulation() {
    let now = Rc::new(Cell::new(5_000));
    let config = Config::new(Time::zero(), Time::new(3_000), MILLISECOND, None);
    let clock = SharedClock { now: now.clone() };
    let sleep = Sleep { now: now.clone(), late: 40, slept: Vec::new() };
    let mut hook = wait_event(&config, clock, sleep);
    assert_eq!(hook.pace.start_rt, 5_000);
    let mut simulator = beat(1_000);
    assert_eq!(simulator.simulate_rt(&config, &mut hook, &mut Discard, 100), Ok(()));
    assert_eq!(simulator.model.state.beats, 3);
    // Three seconds of wall-clock time, and the time that the last sleep overslept.
    assert_eq!(now.get(), 5_000 + 3_000 * MILLISECOND + 40);
    assert_eq!(
        hook.input_handler.slept,
        vec![1_000 * MILLISECOND, 1_000 * MILLISECOND - 40, 1_000 * MILLISECOND - 40]
    );
    assert_eq!(hook.pace.last_rt, 5_000 + 3_000 * MILLISECOND);
}

#[test]
fn a_wait_that_returns_late_ends_the_run() {
    let now = Rc::new(Cell::new(0));
    let config = Config::new(Time::zero(), Time::new(3_000), MILLISECOND, Some(1_000));
    let clock = SharedClock { now: now.clone() };
    let sleep = Sleep { now: now.clone(), late: 100 * MILLISECOND, slept: Vec::new() };
    let mut hook = wait_event(&config, clock, sleep);
    let mut simulator = beat(1_000);
    assert_eq!(
        simulator.simulate_rt(&config, &mut hook, &mut Discard, 100),
        Err(SimError::JitterExceeded { drift: 100 * MILLISECOND })
    );
    assert_eq!(hook.input_handler.slept.len(), 1);
    assert_eq!(simulator.model.state.beats, 0);
    assert_eq!(simulator.clock, Time::zero());
}

#[test]
fn jitter_within_the_bound_is_let_pass() {
    let now = Rc::new(Cell::new(0));
    let config = Config::new(Time::zero(), Time::new(3_000), MILLISECOND, Some(1_000));
    let clock = SharedClock { now: now.clone() };
    let sleep = Sleep { now: now.clone(), late: 1_000, slept: Vec::new() };
    let mut hook = wait_event(&config, clock, sleep);
    let mut simulator = beat(1_000);
    assert_eq!(simulator.simulate_rt(&config, &mut hook, &mut Discard, 100), Ok(()));
    assert_eq!(simulator.model.state.beats, 3);
}

#[test]
fn an_external_event_ends_the_wait_early() {
    let now = Rc::new(Cell::new(0));
    let config = Config::new(Time::zero(), Time::new(3_000), MILLISECOND, None);
    let clock = SharedClock { now: now.clone() };
    let knock = Knock { now: now.clone(), after: 250 * MILLISECOND + 7, knocked: false };
    let mut hook = wait_event(&config, clock, knock);
    let mut simulator = beat(1_000);
    assert_eq!(simulator.simulate_rt(&config, &mut hook, &mut Discard, 100), Ok(()));
    // The knock comes a quarter of a second into the run.
    assert_eq!(simulator.model.state.knocks, vec![Time::new(250)]);
    // Beats at 1.25 s and 2.25 s.
    assert_eq!(simulator.model.state.beats, 2);
    assert_eq!(simulator.clock, Time::new(3_000));
}

#[test]
fn a_paced_run_at_scale_zero_is_the_run_in_virtual_time() {
    let config = Config::new(Time::zero(), Time::new(3_000), 0, None);
    let mut virtual_run = beat(700);
    assert_eq!(virtual_run.simulate_vt(&config, 100), Ok(()));

    let now = Rc::new(Cell::new(123));
    let clock = SharedClock { now: now.clone() };
    let sleep = Sleep { now: now.clone(), late: 0, slept: Vec::new() };
    let mut hook: WaitEvent<SharedClock, Sleep> = wait_event(&config, clock, sleep);
    let mut paced = beat(700);
    assert_eq!(paced.simulate_rt(&config, &mut hook, &mut Discard, 100), Ok(()));

    assert_eq!(now.get(), 123);
    assert_eq!(paced.clock, virtual_run.clock);
    assert_eq!(paced.model.state.beats, virtual_run.model.state.beats);
    assert_eq!(paced.model.state.beats, 4);
    assert_eq!(paced.model.state.sigma, virtual_run.model.state.sigma);
    assert_eq!(paced.model.component.t_last, virtual_run.model.component.t_last);
    assert_eq!(paced.model.component.t_next, virtual_run.model.component.t_next);
}

#[test]
fn the_hook_answers_what_the_pacing_settles() {
    let now = Rc::new(Cell::new(1_000));
    let config = Config::new(Time::zero(), Time::new(10), 10, None);
    let clock = SharedClock { now: now.clone() };
    let sleep = Sleep { now: now.clone(), late: 0, slept: Vec::new() };
    let mut hook = wait_event(&config, clock, sleep);
    let mut input: Port<u32, 1> = Port::new();
    assert_eq!(hook.wait_until(Time::zero(), Time::new(3), &mut input), Ok(Time::new(3)));
    assert_eq!(now.get(), 1_030);
    // The deadline has passed before the wait begins: no sleep.
    now.set(1_100);
    assert_eq!(hook.wait_until(Time::new(3), Time::new(5), &mut input), Ok(Time::new(5)));
    assert_eq!(hook.input_handler.slept, vec![30]);
    assert_eq!(hook.pace.last_rt, 1_050);
}
