// The driver, step by step and with hooks.

use xdevs::atomic::{Atomic, AtomicSimulator};
use xdevs::port::Port;
use xdevs::simulator::{
    Config, Discard, Immediate, PropagateOutput, SimError, Simulator, WaitUntil,
};
use xdevs::time::Time;

struct TickerState {
    sigma: Time,
    period: Time,
    ticks: u32,
    inputs: Vec<(Time, u32)>,
}

// Emits the number of its ticks every `period`; input does not disturb it.
struct Ticker;

impl Atomic for Ticker {
    type State = TickerState;
    type Input = Port<u32, 2>;
    type Output = Port<u32, 1>;

    fn spec_ta(state: &TickerState) -> Time {
        state.sigma
    }

    fn start(state: &mut TickerState) {
        state.sigma = state.period;
    }

    fn stop(_state: &mut TickerState) {}

    fn delta_int(state: &mut TickerState) {
        state.ticks += 1;
        state.sigma = state.period;
    }

    fn delta_ext(state: &mut TickerState, e: Time, x: &Port<u32, 2>) {
        state.sigma = state.sigma.minus(e);
        for v in x.get_values() {
            state.inputs.push((e, *v));
        }
    }

    fn delta_conf(state: &mut TickerState, x: &Port<u32, 2>) {
        Self::default_delta_conf(state, x)
    }

    fn lambda(state: &TickerState, output: &mut Port<u32, 1>) {
        let _ = output.add_value(state.ticks + 1);
    }

    fn ta(state: &TickerState) -> Time {
        state.sigma
    }
}

fn ticker(period: u64) -> Simulator<AtomicSimulator<Ticker>> {
    let state = TickerState {
        sigma: Time::infinity(),
        period: Time::new(period),
        ticks: 0,
        inputs: Vec::new(),
    };
    Simulator::new(AtomicSimulator::new(Port::new(), Port::new(), state))
}

struct Collector {
    seen: Vec<u32>,
}

impl PropagateOutput<Port<u32, 1>> for Collector {
    fn propagate_output(&mut self, output: &Port<u32, 1>) {
        self.seen.extend_from_slice(output.get_values());
    }
}

// Answers the times of a script, and puts a message into the input bag
// where the script has one.
struct Script {
    answers: Vec<(Time, Option<u32>)>,
    asked: Vec<(Time, Time)>,
}

impl WaitUntil<Port<u32, 2>> for Script {
    fn wait_until(
        &mut self,
        t_from: Time,
        t_until: Time,
        input: &mut Port<u32, 2>,
    ) -> Result<Time, SimError> {
        self.asked.push((t_from, t_until));
        if self.answers.is_empty() {
            return Ok(t_until);
        }
        let (t, message) = self.answers.remove(0);
        if let Some(message) = message {
            input.add_value(message).unwrap();
        }
        Ok(t)
    }
}

struct Failing;

impl WaitUntil<Port<u32, 2>> for Failing {
    fn wait_until(
        &mut self,
        _t_from: Time,
        _t_until: Time,
        _input: &mut Port<u32, 2>,
    ) -> Result<Time, SimError> {
        Err(SimError::JitterExceeded { drift: 17 })
    }
}

#[test]
fn default_configuration() {
    let config = Config::default();
    assert_eq!(config.t_start, Time::zero());
    assert!(config.t_stop.is_infinite());
    assert_eq!(config.time_scale, 1);
    assert_eq!(config.max_jitter, None);
    let config = Config::new(Time::new(1), Time::new(2), 3, Some(4));
    assert_eq!(config.t_start, Time::new(1));
    assert_eq!(config.t_stop, Time::new(2));
    assert_eq!(config.time_scale, 3);
    assert_eq!(config.max_jitter, Some(4));
}

#[test]
fn a_run_step_by_step() {
    let mut simulator = ticker(5);
    assert_eq!(simulator.clock, Time::zero());
    let config = Config::new(Time::new(2), Time::new(10), 0, None);
    assert_eq!(simulator.begin(&config), Time::new(7));
    assert_eq!(simulator.clock, Time::new(2));
    assert_eq!(simulator.next_wait(&config), Some(Time::new(7)));

    assert_eq!(simulator.collect(Time::new(7)), Ok(true));
    assert_eq!(simulator.model.component.output.get_values(), &[1]);
    assert_eq!(simulator.transition(), Ok(Time::new(12)));
    assert_eq!(simulator.clock, Time::new(7));
    assert!(simulator.model.component.output.is_empty());

    // The next event is after the end of the run.
    assert_eq!(simulator.next_wait(&config), Some(Time::new(10)));
    assert_eq!(simulator.collect(Time::new(10)), Ok(false));
    assert_eq!(simulator.transition(), Ok(Time::new(12)));
    assert_eq!(simulator.model.component.t_last, Time::new(7));
    assert_eq!(simulator.next_wait(&config), None);

    simulator.finish(&config);
    assert_eq!(simulator.model.component.t_last, Time::new(10));
    assert!(simulator.model.component.t_next.is_infinite());
    assert_eq!(simulator.model.state.ticks, 1);
}

#[test]
fn advance_shows_the_messages_between_output_and_transition() {
    let mut simulator = ticker(5);
    let config = Config::new(Time::zero(), Time::new(20), 0, None);
    simulator.begin(&config);
    let mut collector = Collector { seen: Vec::new() };
    assert_eq!(simulator.advance(Time::new(3), &mut collector), Ok(()));
    assert!(collector.seen.is_empty());
    assert_eq!(simulator.model.state.ticks, 0);
    assert_eq!(simulator.advance(Time::new(5), &mut collector), Ok(()));
    assert_eq!(collector.seen, vec![1]);
    assert_eq!(simulator.model.state.ticks, 1);
    assert_eq!(simulator.model.component.t_next, Time::new(10));
}

#[test]
fn rounds_until_the_clock_reaches_the_end() {
    let mut simulator = ticker(4);
    let config = Config::new(Time::zero(), Time::new(10), 0, None);
    simulator.begin(&config);
    let mut rounds = 0;
    while simulator.round(&config, &mut Immediate, &mut Discard).unwrap() {
        rounds += 1;
    }
    // At 4 and 8, and at 10 where nothing happens.
    assert_eq!(rounds, 3);
    assert_eq!(simulator.clock, Time::new(10));
    assert_eq!(simulator.model.state.ticks, 2);
    assert_eq!(simulator.round(&config, &mut Immediate, &mut Discard), Ok(false));
}

#[test]
fn virtual_time_never_goes_back_nor_past_the_end() {
    let mut simulator = ticker(3);
    let config = Config::new(Time::new(1), Time::new(11), 0, None);
    simulator.begin(&config);
    let mut clocks = vec![simulator.clock];
    while simulator.round(&config, &mut Immediate, &mut Discard).unwrap() {
        clocks.push(simulator.clock);
    }
    assert_eq!(
        clocks,
        vec![Time::new(1), Time::new(4), Time::new(7), Time::new(10), Time::new(11)]
    );
}

#[test]
fn simulation_in_virtual_time() {
    let mut simulator = ticker(4);
    let config = Config::new(Time::zero(), Time::new(10), 0, None);
    assert_eq!(simulator.simulate_vt(&config, 3), Ok(()));
    assert_eq!(simulator.model.state.ticks, 2);
    assert_eq!(simulator.model.component.t_last, Time::new(10));
    assert!(simulator.model.component.t_next.is_infinite());
}

#[test]
fn simulation_without_steps() {
    let mut simulator = ticker(4);
    let config = Config::new(Time::zero(), Time::new(10), 0, None);
    assert_eq!(simulator.simulate_vt(&config, 0), Err(SimError::OutOfSteps));
    assert_eq!(simulator.model.component.t_next, Time::new(4));
    let config = Config::new(Time::new(5), Time::new(5), 0, None);
    assert_eq!(simulator.simulate_vt(&config, 0), Ok(()));
    assert_eq!(simulator.model.component.t_last, Time::new(5));
}

#[test]
fn a_model_that_lets_no_time_pass_runs_out_of_steps() {
    let mut simulator = ticker(0);
    let config = Config::new(Time::zero(), Time::new(10), 0, None);
    assert_eq!(simulator.simulate_vt(&config, 500), Err(SimError::OutOfSteps));
    assert_eq!(simulator.clock, Time::zero());
    assert_eq!(simulator.model.state.ticks, 500);
}

#[test]
fn simulation_to_infinity_ends_when_the_model_is_passive() {
    let mut simulator = ticker(u64::MAX);
    let config = Config::default();
    assert_eq!(simulator.simulate_vt(&config, 10), Ok(()));
    assert_eq!(simulator.clock, Time::infinity());
}

#[test]
fn a_hook_that_returns_at_once_gives_the_run_in_virtual_time() {
    let config = Config::new(Time::zero(), Time::new(30), 0, None);
    let mut virtual_run = ticker(4);
    assert_eq!(virtual_run.simulate_vt(&config, 100), Ok(()));

    let mut paced = ticker(4);
    let mut hook = Script { answers: Vec::new(), asked: Vec::new() };
    let mut collector = Collector { seen: Vec::new() };
    assert_eq!(paced.simulate_rt(&config, &mut hook, &mut collector, 100), Ok(()));

    assert_eq!(paced.clock, virtual_run.clock);
    assert_eq!(paced.model.state.ticks, virtual_run.model.state.ticks);
    assert_eq!(paced.model.state.sigma, virtual_run.model.state.sigma);
    assert_eq!(paced.model.component.t_last, virtual_run.model.component.t_last);
    assert_eq!(paced.model.component.t_next, virtual_run.model.component.t_next);
    assert_eq!(collector.seen, vec![1, 2, 3, 4, 5, 6, 7]);
    assert_eq!(hook.asked[0], (Time::zero(), Time::new(4)));
    assert_eq!(hook.asked[7], (Time::new(28), Time::new(30)));
    assert_eq!(hook.asked.len(), 8);
}

#[test]
fn early_return_with_input_makes_an_external_transition() {
    let config = Config::new(Time::zero(), Time::new(10), 0, None);
    let mut simulator = ticker(4);
    let mut hook = Script { answers: vec![(Time::new(3), Some(77))], asked: Vec::new() };
    let mut collector = Collector { seen: Vec::new() };
    assert_eq!(simulator.simulate_rt(&config, &mut hook, &mut collector, 100), Ok(()));
    assert_eq!(simulator.model.state.inputs, vec![(Time::new(3), 77)]);
    // The event of the model stays where it was.
    assert_eq!(hook.asked[1], (Time::new(3), Time::new(4)));
    assert_eq!(collector.seen, vec![1, 2]);
}

#[test]
fn early_return_without_input_changes_nothing() {
    let config = Config::new(Time::zero(), Time::new(10), 0, None);
    let mut simulator = ticker(4);
    let mut hook = Script {
        answers: vec![(Time::new(1), None), (Time::new(2), None)],
        asked: Vec::new(),
    };
    assert_eq!(simulator.simulate_rt(&config, &mut hook, &mut Discard, 100), Ok(()));
    assert_eq!(hook.asked[0], (Time::zero(), Time::new(4)));
    assert_eq!(hook.asked[1], (Time::new(1), Time::new(4)));
    assert_eq!(hook.asked[2], (Time::new(2), Time::new(4)));
    assert!(simulator.model.state.inputs.is_empty());
    assert_eq!(simulator.model.state.ticks, 2);
}

#[test]
fn input_that_meets_the_event_makes_one_confluent_transition() {
    let config = Config::new(Time::zero(), Time::new(6), 0, None);
    let mut simulator = ticker(4);
    let mut hook = Script { answers: vec![(Time::new(4), Some(5))], asked: Vec::new() };
    assert_eq!(simulator.simulate_rt(&config, &mut hook, &mut Discard, 100), Ok(()));
    assert_eq!(simulator.model.state.ticks, 1);
    assert_eq!(simulator.model.state.inputs, vec![(Time::zero(), 5)]);
}

#[test]
fn an_error_of_the_hook_ends_the_run() {
    let config = Config::new(Time::zero(), Time::new(6), 0, None);
    let mut simulator = ticker(4);
    assert_eq!(
        simulator.simulate_rt(&config, &mut Failing, &mut Discard, 100),
        Err(SimError::JitterExceeded { drift: 17 })
    );
    assert_eq!(simulator.clock, Time::zero());
    assert_eq!(simulator.model.component.t_next, Time::new(4));
}
