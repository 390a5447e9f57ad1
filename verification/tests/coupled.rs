// Coupled nodes made of small emitters.

use xdevs::atomic::{Atomic, AtomicSimulator};
use xdevs::coupled::{Components, Coupled, CoupledSimulator};
use xdevs::port::{couple, Port, PortFull};
use xdevs::simulator::{Config, SimError, Simulator};
use xdevs::time::Time;
use xdevs::traits::{AbstractSimulator, Component};

struct EmitterState {
    sigma: Time,
    period: Time,
    value: u32,
    received: Vec<u32>,
}

// Emits `value` every `period`, into a port of one.
struct Emitter;

impl Atomic for Emitter {
    type State = EmitterState;
    type Input = Port<u32, 4>;
    type Output = Port<u32, 1>;

    fn spec_ta(state: &EmitterState) -> Time {
        state.sigma
    }

    fn start(_state: &mut EmitterState) {}

    fn stop(_state: &mut EmitterState) {}

    fn delta_int(state: &mut EmitterState) {
        state.sigma = state.period;
    }

    fn delta_ext(state: &mut EmitterState, e: Time, x: &Port<u32, 4>) {
        state.sigma = state.sigma.minus(e);
        state.received.extend_from_slice(x.get_values());
    }

    fn delta_conf(state: &mut EmitterState, x: &Port<u32, 4>) {
        Self::default_delta_conf(state, x)
    }

    fn lambda(state: &EmitterState, output: &mut Port<u32, 1>) {
        let _ = output.add_value(state.value);
    }

    fn ta(state: &EmitterState) -> Time {
        state.sigma
    }
}

fn emitter(first: u64, period: u64, value: u32) -> AtomicSimulator<Emitter> {
    let state = EmitterState {
        sigma: Time::new(first),
        period: Time::new(period),
        value,
        received: Vec::new(),
    };
    AtomicSimulator::new(Port::new(), Port::new(), state)
}

// Two emitters: both feed the output of the node, the input of the node
// feeds the first, and each feeds the other and itself.
struct Pair;

impl Coupled for Pair {
    type Input = Port<u32, 1>;
    type Output = Port<u32, 4>;
    type Components = (AtomicSimulator<Emitter>, (AtomicSimulator<Emitter>, ()));

    fn propagate_eoc(
        components: &Self::Components,
        output: &mut Port<u32, 4>,
    ) -> Result<(), PortFull> {
        let (a, (b, ())) = components;
        couple(&a.component.output, output)?;
        couple(&b.component.output, output)
    }

    fn propagate_xic(
        input: &Port<u32, 1>,
        components: &mut Self::Components,
    ) -> Result<(), PortFull> {
        let (a, (b, ())) = components;
        couple(input, &mut a.component.input)?;
        couple(&a.component.output, &mut b.component.input)?;
        couple(&b.component.output, &mut a.component.input)?;
        couple(&a.component.output, &mut a.component.input)
    }
}

fn pair(first_a: u64, first_b: u64) -> CoupledSimulator<Pair> {
    CoupledSimulator::new(
        Port::new(),
        Port::new(),
        (emitter(first_a, 10, 1), (emitter(first_b, 10, 2), ())),
    )
}

// An emitter whose messages go to an output port of the node that is too
// small for two of them.
struct Narrow;

impl Coupled for Narrow {
    type Input = ();
    type Output = Port<u32, 1>;
    type Components = (AtomicSimulator<Emitter>, (AtomicSimulator<Emitter>, ()));

    fn propagate_eoc(
        components: &Self::Components,
        output: &mut Port<u32, 1>,
    ) -> Result<(), PortFull> {
        let (a, (b, ())) = components;
        couple(&a.component.output, output)?;
        couple(&b.component.output, output)
    }

    fn propagate_xic(_input: &(), _components: &mut Self::Components) -> Result<(), PortFull> {
        Ok(())
    }
}

#[test]
fn no_children_have_no_events() {
    let mut none = ();
    assert_eq!(Components::start(&mut none, Time::new(3)), Time::infinity());
    assert_eq!(Components::lambda(&mut none, Time::new(3)), Ok(()));
    assert_eq!(Components::delta(&mut none, Time::new(3)), Ok(Time::infinity()));
    Components::stop(&mut none, Time::new(3));
}

#[test]
fn children_are_driven_as_one() {
    let mut children = (emitter(7, 10, 1), (emitter(4, 10, 2), ()));
    assert_eq!(Components::start(&mut children, Time::new(1)), Time::new(5));
    assert_eq!(children.0.component.t_next, Time::new(8));
    assert_eq!(children.1 .0.component.t_next, Time::new(5));
    assert_eq!(Components::lambda(&mut children, Time::new(5)), Ok(()));
    assert!(children.0.component.output.is_empty());
    assert_eq!(children.1 .0.component.output.get_values(), &[2]);
    assert_eq!(Components::delta(&mut children, Time::new(5)), Ok(Time::new(8)));
    assert_eq!(children.1 .0.component.t_next, Time::new(15));
    Components::stop(&mut children, Time::new(9));
    assert!(children.0.component.t_next.is_infinite());
    assert_eq!(children.1 .0.component.t_last, Time::new(9));
}

#[test]
fn start_takes_the_earliest_event_of_the_children() {
    let mut node = pair(7, 4);
    assert_eq!(node.start(Time::new(1)), Time::new(5));
    assert_eq!(node.get_t_last(), Time::new(1));
    assert_eq!(node.get_t_next(), Time::new(5));
}

#[test]
fn lambda_before_the_event_is_idle() {
    let mut node = pair(7, 4);
    node.start(Time::zero());
    assert_eq!(node.lambda(Time::new(3)), Ok(()));
    assert!(node.component.output.is_empty());
    assert!(node.components.1 .0.component.output.is_empty());
}

#[test]
fn lambda_carries_the_external_output_couplings() {
    let mut node = pair(4, 4);
    node.start(Time::zero());
    assert_eq!(node.lambda(Time::new(4)), Ok(()));
    assert_eq!(node.component.output.get_values(), &[1, 2]);
    assert_eq!(node.components.0.component.output.get_values(), &[1]);
}

#[test]
fn lambda_twice_doubles_the_messages_of_the_external_output_couplings() {
    let mut node = pair(4, 4);
    node.start(Time::zero());
    node.lambda(Time::new(4)).unwrap();
    // The ports of the children are full: what they hold stays as it is.
    assert_eq!(node.lambda(Time::new(4)), Ok(()));
    assert_eq!(node.component.output.get_values(), &[1, 2, 1, 2]);
}

#[test]
fn delta_carries_input_and_internal_couplings_before_the_transitions() {
    let mut node = pair(4, 9);
    node.start(Time::zero());
    node.component.input.add_value(50).unwrap();
    node.lambda(Time::new(4)).unwrap();
    assert_eq!(node.delta(Time::new(4)), Ok(Time::new(9)));
    let (a, (b, ())) = &node.components;
    // The first child: its own event and three messages, in one transition.
    assert_eq!(a.state.received, vec![50, 1]);
    assert_eq!(a.component.t_next, Time::new(14));
    // The second child: the message of the first, before its own event.
    assert_eq!(b.state.received, vec![1]);
    assert_eq!(b.component.t_last, Time::new(4));
    assert_eq!(b.component.t_next, Time::new(9));
    assert!(a.component.input.is_empty());
    assert!(a.component.output.is_empty());
    assert!(node.component.input.is_empty());
    assert!(node.component.output.is_empty());
    assert_eq!(node.component.t_last, Time::new(4));
    assert_eq!(node.component.t_next, Time::new(9));
}

#[test]
fn stop_stops_the_children() {
    let mut node = pair(4, 9);
    node.start(Time::zero());
    node.stop(Time::new(30));
    assert_eq!(node.component.t_last, Time::new(30));
    assert!(node.component.t_next.is_infinite());
    assert!(node.components.0.component.t_next.is_infinite());
    assert_eq!(node.components.1 .0.component.t_last, Time::new(30));
    assert_eq!(node.lambda(Time::new(31)), Ok(()));
    assert!(node.component.output.is_empty());
}

#[test]
fn coupling_into_a_full_port_is_fatal() {
    let mut node: CoupledSimulator<Narrow> =
        CoupledSimulator::new((), Port::new(), (emitter(4, 10, 1), (emitter(4, 10, 2), ())));
    node.start(Time::zero());
    assert_eq!(node.lambda(Time::new(4)), Err(PortFull));
    assert_eq!(node.component.output.get_values(), &[1]);
}

#[test]
fn simulation_ends_with_the_overflow() {
    let node: CoupledSimulator<Narrow> =
        CoupledSimulator::new((), Port::new(), (emitter(4, 10, 1), (emitter(4, 10, 2), ())));
    let mut simulator = Simulator::new(node);
    let config = Config::new(Time::zero(), Time::new(100), 0, None);
    assert_eq!(simulator.simulate_vt(&config, 1000), Err(SimError::PortFull));
    assert_eq!(simulator.clock, Time::new(4));
}

#[test]
fn internal_coupling_into_a_full_port_is_fatal() {
    let mut node = pair(4, 4);
    node.start(Time::zero());
    node.components.0.component.input.add_values(&[9, 9, 9]).unwrap();
    node.lambda(Time::new(4)).unwrap();
    // Room for one message is left where the couplings bring two.
    assert_eq!(node.delta(Time::new(4)), Err(PortFull));
}
