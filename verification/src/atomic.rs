//! Atomic models, and the simulator that drives one.

use crate::component::Component as Header;
use crate::port::PortFull;
use crate::time::Time;
use crate::traits::{AbstractSimulator, Bag, Component, PartialAtomic};
use vstd::prelude::*;

verus! {

/// Interface for DEVS atomic models. All DEVS atomic models must implement this trait.
///
/// A model may say what each of its functions does to the state by giving
/// the matching relation; a relation that is left out allows any outcome.
/// The kernel's contracts are stated over these relations.
pub trait Atomic: Sized {
    /// The data type used to represent the state of the model.
    type State;

    /// Input event bag of the model.
    type Input: Bag;

    /// Output event bag of the model.
    type Output: Bag;

    /// What `start` may do to the state.
    open spec fn spec_start(pre: Self::State, post: Self::State) -> bool {
        true
    }

    /// What `stop` may do to the state.
    open spec fn spec_stop(pre: Self::State, post: Self::State) -> bool {
        true
    }

    /// What an internal transition may do to the state.
    open spec fn spec_delta_int(pre: Self::State, post: Self::State) -> bool {
        true
    }

    /// What an external transition may do to the state, `e` after the last
    /// transition and with the messages `x`.
    open spec fn spec_delta_ext(
        pre: Self::State,
        e: Time,
        x: Self::Input,
        post: Self::State,
    ) -> bool {
        true
    }

    /// What a confluent transition may do to the state, with the messages `x`.
    open spec fn spec_delta_conf(pre: Self::State, x: Self::Input, post: Self::State) -> bool {
        true
    }

    /// What the output function may add to the output bag.
    open spec fn spec_lambda(state: Self::State, pre: Self::Output, post: Self::Output) -> bool {
        true
    }

    /// The time that a model in state `state` lets pass until its next
    /// internal event; +∞ when it is passive.
    spec fn spec_ta(state: &Self::State) -> Time;

    /// Method for performing any operation before simulating.
    fn start(state: &mut Self::State)
        ensures
            Self::spec_start(*old(state), *final(state)),
    ;

    /// Method for performing any operation after simulating.
    fn stop(state: &mut Self::State)
        ensures
            Self::spec_stop(*old(state), *final(state)),
    ;

    /// Internal transition function. It modifies the state of the model when an internal event happens.
    fn delta_int(state: &mut Self::State)
        ensures
            Self::spec_delta_int(*old(state), *final(state)),
    ;

    /// External transition function. It modifies the state of the model when an external event happens.
    /// The time elapsed since the last state transition is `e`.
    fn delta_ext(state: &mut Self::State, e: Time, x: &Self::Input)
        ensures
            Self::spec_delta_ext(*old(state), e, *x, *final(state)),
    ;

    /// Confluent transition function. It modifies the state of the model when an external and an
    /// internal event occur simultaneously. [`Atomic::default_delta_conf`] is the usual choice.
    fn delta_conf(state: &mut Self::State, x: &Self::Input)
        ensures
            Self::spec_delta_conf(*old(state), *x, *final(state)),
    ;

    /// The default confluent transition: it calls [`Atomic::delta_int`] and
    /// [`Atomic::delta_ext`] with `e = 0`, in that order.
    fn default_delta_conf(state: &mut Self::State, x: &Self::Input)
        ensures
            exists|mid: Self::State| #[trigger]
                Self::spec_delta_int(*old(state), mid) && Self::spec_delta_ext(
                    mid,
                    Time { ticks: 0 },
                    *x,
                    *final(state),
                ),
    {
        Self::delta_int(state);
        Self::delta_ext(state, Time::zero(), x);
    }

    /// Output function. It triggers output events when an internal event is about to happen.
    fn lambda(state: &Self::State, output: &mut Self::Output)
        ensures
            Self::spec_lambda(*state, *old(output), *final(output)),
    ;

    /// Time advance function. It returns the time until the next internal event happens.
    fn ta(state: &Self::State) -> (span: Time)
        ensures
            span == Self::spec_ta(state),
    ;
}

/// The transition that an atomic model undergoes at one instant.
#[derive(Clone, Copy, Debug, PartialEq, Eq, Structural)]
pub enum Transition {
    /// No input and no event due: the model is left alone.
    Idle,
    /// The scheduled event is due and no input has arrived.
    Internal,
    /// Input has arrived before the scheduled event is due.
    External,
    /// Input has arrived just as the scheduled event is due.
    Confluent,
}

/// The transition of a model at one instant, by whether its input bag holds
/// messages and whether its scheduled event is due.
pub open spec fn spec_select_transition(has_input: bool, imminent: bool) -> Transition {
    match (has_input, imminent) {
        (false, false) => Transition::Idle,
        (false, true) => Transition::Internal,
        (true, false) => Transition::External,
        (true, true) => Transition::Confluent,
    }
}

/// Chooses the transition of a model at one instant, from whether its input
/// bag holds messages and whether its scheduled event is due. Input that
/// meets a due event makes one confluent transition, never an internal and an
/// external one in a row.
#[verifier::when_used_as_spec(spec_select_transition)]
pub fn select_transition(has_input: bool, imminent: bool) -> (tr: Transition)
    ensures
        tr == spec_select_transition(has_input, imminent),
        has_input && imminent <==> tr == Transition::Confluent,
{
    if has_input {
        if imminent {
            Transition::Confluent
        } else {
            Transition::External
        }
    } else if imminent {
        Transition::Internal
    } else {
        Transition::Idle
    }
}

/// An atomic node: the header that every node carries and the state of the
/// model `A`, driven through the functions of `A`.
pub struct AtomicSimulator<A: Atomic> {
    pub component: Header<A::Input, A::Output>,
    pub state: A::State,
}

impl<A: Atomic> AtomicSimulator<A> {
    /// A node in state `state` that has not been started.
    pub fn new(input: A::Input, output: A::Output, state: A::State) -> (node: Self)
        ensures
            node.component.input == input,
            node.component.output == output,
            node.component.t_last.ticks == 0,
            node.component.t_next.is_infinite(),
            node.state == state,
    {
        Self { component: Header::new(input, output), state }
    }

    /// The node has undergone a transition at `t`: its output bag is empty
    /// and its next event is scheduled `ta` after `t`.
    pub open spec fn settled(self, t: Time) -> bool {
        &&& self.component.output.empty()
        &&& self.component.t_last == t
        &&& self.component.t_next == t.plus(A::spec_ta(&self.state))
    }
}

impl<A: Atomic> Component for AtomicSimulator<A> {
    type Input = A::Input;

    type Output = A::Output;

    open spec fn t_last(&self) -> Time {
        self.component.t_last
    }

    open spec fn t_next(&self) -> Time {
        self.component.t_next
    }

    open spec fn input(&self) -> A::Input {
        self.component.input
    }

    open spec fn output(&self) -> A::Output {
        self.component.output
    }

    open spec fn with_t_last(self, t_last: Time) -> Self {
        Self { component: Header { t_last, ..self.component }, ..self }
    }

    open spec fn with_t_next(self, t_next: Time) -> Self {
        Self { component: Header { t_next, ..self.component }, ..self }
    }

    open spec fn with_input(self, input: A::Input) -> Self {
        Self { component: Header { input, ..self.component }, ..self }
    }

    open spec fn with_output(self, output: A::Output) -> Self {
        Self { component: Header { output, ..self.component }, ..self }
    }

    proof fn lemma_with_input_same(self) {
    }

    fn get_t_last(&self) -> (t: Time) {
        self.component.t_last
    }

    fn set_t_last(&mut self, t_last: Time) {
        self.component.t_last = t_last;
    }

    fn get_t_next(&self) -> (t: Time) {
        self.component.t_next
    }

    fn set_t_next(&mut self, t_next: Time) {
        self.component.t_next = t_next;
    }

    fn get_input(&self) -> (x: &A::Input) {
        &self.component.input
    }

    fn get_input_mut(&mut self) -> (x: &mut A::Input) {
        &mut self.component.input
    }

    fn get_output(&self) -> (y: &A::Output) {
        &self.component.output
    }

    fn get_output_mut(&mut self) -> (y: &mut A::Output) {
        &mut self.component.output
    }
}

impl<A: Atomic> PartialAtomic for AtomicSimulator<A> {
    type State = A::State;
}

impl<A: Atomic> AbstractSimulator for AtomicSimulator<A> {
    open spec fn spec_start(pre: Self, t_start: Time, post: Self) -> bool {
        &&& A::spec_start(pre.state, post.state)
        &&& post.component.input == pre.component.input
        &&& post.component.output == pre.component.output
        &&& post.component.t_last == t_start
        &&& post.component.t_next == t_start.plus(A::spec_ta(&post.state))
    }

    open spec fn spec_stop(pre: Self, t_stop: Time, post: Self) -> bool {
        &&& A::spec_stop(pre.state, post.state)
        &&& post.component.input == pre.component.input
        &&& post.component.output == pre.component.output
        &&& post.component.t_last == t_stop
        &&& post.component.t_next.is_infinite()
    }

    open spec fn spec_lambda(pre: Self, t: Time, post: Self, ok: bool) -> bool {
        &&& ok
        &&& post.state == pre.state
        &&& post.component.input == pre.component.input
        &&& post.component.t_last == pre.component.t_last
        &&& post.component.t_next == pre.component.t_next
        &&& if t.reached(pre.component.t_next) {
            A::spec_lambda(pre.state, pre.component.output, post.component.output)
        } else {
            post.component.output == pre.component.output
        }
    }

    open spec fn spec_delta(pre: Self, t: Time, post: Self, ok: bool) -> bool {
        &&& ok
        &&& match select_transition(!pre.component.input.empty(), t.reached(pre.component.t_next)) {
            Transition::Idle => post == pre,
            Transition::Internal => {
                &&& A::spec_delta_int(pre.state, post.state)
                &&& post.component.input == pre.component.input
                &&& post.settled(t)
            },
            Transition::External => {
                &&& A::spec_delta_ext(
                    pre.state,
                    t.minus(pre.component.t_last),
                    pre.component.input,
                    post.state,
                )
                &&& post.component.input.empty()
                &&& post.settled(t)
            },
            Transition::Confluent => {
                &&& A::spec_delta_conf(pre.state, pre.component.input, post.state)
                &&& post.component.input.empty()
                &&& post.settled(t)
            },
        }
    }

    proof fn lemma_start(pre: Self, t_start: Time, post: Self) {
    }

    proof fn lemma_stop(pre: Self, t_stop: Time, post: Self) {
    }

    proof fn lemma_lambda(pre: Self, t: Time, post: Self, ok: bool) {
    }

    proof fn lemma_delta(pre: Self, t: Time, post: Self) {
    }

    fn start(&mut self, t_start: Time) -> (t_next: Time) {
        A::start(&mut self.state);
        let t_next = t_start.plus(A::ta(&self.state));
        self.component.set_sim_t(t_start, t_next);
        t_next
    }

    fn stop(&mut self, t_stop: Time) {
        A::stop(&mut self.state);
        self.component.set_sim_t(t_stop, Time::infinity());
    }

    fn lambda(&mut self, t: Time) -> (r: Result<(), PortFull>) {
        if t.reached(self.component.t_next) {
            A::lambda(&self.state, &mut self.component.output);
        }
        Ok(())
    }

    fn delta(&mut self, t: Time) -> (r: Result<Time, PortFull>) {
        let has_input = !self.component.input.is_empty();
        match select_transition(has_input, t.reached(self.component.t_next)) {
            Transition::Idle => {
                return Ok(self.component.t_next);
            },
            Transition::Internal => {
                A::delta_int(&mut self.state);
            },
            Transition::External => {
                let e = t.minus(self.component.t_last);
                A::delta_ext(&mut self.state, e, &self.component.input);
                self.component.input.clear();
            },
            Transition::Confluent => {
                A::delta_conf(&mut self.state, &self.component.input);
                self.component.input.clear();
            },
        }
        self.component.output.clear();
        let t_next = t.plus(A::ta(&self.state));
        self.component.set_sim_t(t, t_next);
        Ok(t_next)
    }
}

/// Time advance equality: a transition at `t` that does not leave the
/// model alone cannot fail, clears both bags, and schedules the next event
/// `ta` of the new state after `t`.
pub proof fn law_time_advance<A: Atomic>(
    pre: AtomicSimulator<A>,
    t: Time,
    post: AtomicSimulator<A>,
    ok: bool,
)
    requires
        AtomicSimulator::spec_delta(pre, t, post, ok),
        !pre.component.input.empty() || t.reached(pre.component.t_next),
    ensures
        ok,
        post.component.t_last == t,
        post.component.t_next == t.plus(A::spec_ta(&post.state)),
        post.component.input.empty(),
        post.component.output.empty(),
{
}

/// Confluent tie-break: input that meets a due event makes one confluent
/// transition; input that comes before makes an external one, after the
/// time elapsed since the last transition; a due event without input makes
/// an internal one; and nothing happens otherwise.
pub proof fn law_tie_break<A: Atomic>(
    pre: AtomicSimulator<A>,
    t: Time,
    post: AtomicSimulator<A>,
    ok: bool,
)
    requires
        AtomicSimulator::spec_delta(pre, t, post, ok),
    ensures
        !pre.component.input.empty() && t.reached(pre.component.t_next) ==> A::spec_delta_conf(
            pre.state,
            pre.component.input,
            post.state,
        ),
        !pre.component.input.empty() && !t.reached(pre.component.t_next) ==> A::spec_delta_ext(
            pre.state,
            t.minus(pre.component.t_last),
            pre.component.input,
            post.state,
        ),
        pre.component.input.empty() && t.reached(pre.component.t_next) ==> A::spec_delta_int(
            pre.state,
            post.state,
        ),
        pre.component.input.empty() && !t.reached(pre.component.t_next) ==> post == pre,
{
}

} // verus!
