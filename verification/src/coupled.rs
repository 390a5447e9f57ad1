//! Coupled models: nodes made of other nodes and of the couplings between
//! their ports.

use crate::component::Component as Header;
use crate::port::PortFull;
use crate::time::Time;
use crate::traits::{AbstractSimulator, Bag, Component};
use vstd::prelude::*;

verus! {

/// The children of a coupled node, driven as one.
///
/// `()` is the empty list of children and `(head, tail)` puts a node before
/// a list, so that `(a, (b, (c, ())))` holds three children.
pub trait Components: Sized {
    /// The earliest next event of the children; +∞ when there is none.
    spec fn t_next(&self) -> Time;

    /// How `start(t_start)` may take the children from `pre` to `post`.
    spec fn spec_start(pre: Self, t_start: Time, post: Self) -> bool;

    /// How `stop(t_stop)` may take the children from `pre` to `post`.
    spec fn spec_stop(pre: Self, t_stop: Time, post: Self) -> bool;

    /// How `lambda(t)` may take the children from `pre` to `post`. Without
    /// `ok`, a child failed and those behind it were left alone.
    spec fn spec_lambda(pre: Self, t: Time, post: Self, ok: bool) -> bool;

    /// How `delta(t)` may take the children from `pre` to `post`. Without
    /// `ok`, a child failed and those behind it were left alone.
    spec fn spec_delta(pre: Self, t: Time, post: Self, ok: bool) -> bool;

    /// Children that have been started have no event scheduled before.
    proof fn lemma_start(pre: Self, t_start: Time, post: Self)
        requires
            Self::spec_start(pre, t_start, post),
        ensures
            post.t_next().ticks >= t_start.ticks,
    ;

    /// Children that have been stopped have no event scheduled.
    proof fn lemma_stop(pre: Self, t_stop: Time, post: Self)
        requires
            Self::spec_stop(pre, t_stop, post),
        ensures
            post.t_next().is_infinite(),
    ;

    /// A transition at `t` leaves the children with no event scheduled
    /// before `t`.
    proof fn lemma_delta(pre: Self, t: Time, post: Self)
        requires
            Self::spec_delta(pre, t, post, true),
        ensures
            post.t_next().ticks >= t.ticks,
    ;

    /// Starts every child and returns the earliest of their next events.
    fn start(&mut self, t_start: Time) -> (t_next: Time)
        ensures
            Self::spec_start(*old(self), t_start, *final(self)),
            t_next == final(self).t_next(),
            t_next.ticks >= t_start.ticks,
    ;

    /// Stops every child.
    fn stop(&mut self, t_stop: Time)
        ensures
            Self::spec_stop(*old(self), t_stop, *final(self)),
            final(self).t_next().is_infinite(),
    ;

    /// Runs the output function of every child, first to last, up to the
    /// first that fails.
    fn lambda(&mut self, t: Time) -> (r: Result<(), PortFull>)
        ensures
            Self::spec_lambda(*old(self), t, *final(self), r is Ok),
    ;

    /// Runs the transition of every child, first to last, up to the first
    /// that fails, and returns the earliest of their next events.
    fn delta(&mut self, t: Time) -> (r: Result<Time, PortFull>)
        ensures
            Self::spec_delta(*old(self), t, *final(self), r is Ok),
            r matches Ok(t_next) ==> t_next == final(self).t_next() && t_next.ticks >= t.ticks,
    ;
}

impl Components for () {
    open spec fn t_next(&self) -> Time {
        Time { ticks: u64::MAX }
    }

    open spec fn spec_start(pre: Self, t_start: Time, post: Self) -> bool {
        true
    }

    open spec fn spec_stop(pre: Self, t_stop: Time, post: Self) -> bool {
        true
    }

    open spec fn spec_lambda(pre: Self, t: Time, post: Self, ok: bool) -> bool {
        ok
    }

    open spec fn spec_delta(pre: Self, t: Time, post: Self, ok: bool) -> bool {
        ok
    }

    proof fn lemma_start(pre: Self, t_start: Time, post: Self) {
    }

    proof fn lemma_stop(pre: Self, t_stop: Time, post: Self) {
    }

    proof fn lemma_delta(pre: Self, t: Time, post: Self) {
    }

    fn start(&mut self, t_start: Time) -> (t_next: Time) {
        Time::infinity()
    }

    fn stop(&mut self, t_stop: Time) {
    }

    fn lambda(&mut self, t: Time) -> (r: Result<(), PortFull>) {
        Ok(())
    }

    fn delta(&mut self, t: Time) -> (r: Result<Time, PortFull>) {
        Ok(Time::infinity())
    }
}

impl<H: AbstractSimulator, T: Components> Components for (H, T) {
    open spec fn t_next(&self) -> Time {
        self.0.t_next().min(self.1.t_next())
    }

    open spec fn spec_start(pre: Self, t_start: Time, post: Self) -> bool {
        &&& H::spec_start(pre.0, t_start, post.0)
        &&& T::spec_start(pre.1, t_start, post.1)
    }

    open spec fn spec_stop(pre: Self, t_stop: Time, post: Self) -> bool {
        &&& H::spec_stop(pre.0, t_stop, post.0)
        &&& T::spec_stop(pre.1, t_stop, post.1)
    }

    open spec fn spec_lambda(pre: Self, t: Time, post: Self, ok: bool) -> bool {
        if ok {
            &&& H::spec_lambda(pre.0, t, post.0, true)
            &&& T::spec_lambda(pre.1, t, post.1, true)
        } else {
            ||| H::spec_lambda(pre.0, t, post.0, false) && post.1 == pre.1
            ||| H::spec_lambda(pre.0, t, post.0, true) && T::spec_lambda(pre.1, t, post.1, false)
        }
    }

    open spec fn spec_delta(pre: Self, t: Time, post: Self, ok: bool) -> bool {
        if ok {
            &&& H::spec_delta(pre.0, t, post.0, true)
            &&& T::spec_delta(pre.1, t, post.1, true)
        } else {
            ||| H::spec_delta(pre.0, t, post.0, false) && post.1 == pre.1
            ||| H::spec_delta(pre.0, t, post.0, true) && T::spec_delta(pre.1, t, post.1, false)
        }
    }

    proof fn lemma_start(pre: Self, t_start: Time, post: Self) {
        H::lemma_start(pre.0, t_start, post.0);
        T::lemma_start(pre.1, t_start, post.1);
    }

    proof fn lemma_stop(pre: Self, t_stop: Time, post: Self) {
        H::lemma_stop(pre.0, t_stop, post.0);
        T::lemma_stop(pre.1, t_stop, post.1);
    }

    proof fn lemma_delta(pre: Self, t: Time, post: Self) {
        H::lemma_delta(pre.0, t, post.0);
        T::lemma_delta(pre.1, t, post.1);
    }

    fn start(&mut self, t_start: Time) -> (t_next: Time) {
        let head = self.0.start(t_start);
        let tail = self.1.start(t_start);
        head.min(tail)
    }

    fn stop(&mut self, t_stop: Time) {
        self.0.stop(t_stop);
        self.1.stop(t_stop);
    }

    fn lambda(&mut self, t: Time) -> (r: Result<(), PortFull>) {
        match self.0.lambda(t) {
            Ok(()) => self.1.lambda(t),
            Err(e) => Err(e),
        }
    }

    fn delta(&mut self, t: Time) -> (r: Result<Time, PortFull>) {
        match self.0.delta(t) {
            Ok(head) => match self.1.delta(t) {
                Ok(tail) => Ok(head.min(tail)),
                Err(e) => Err(e),
            },
            Err(e) => Err(e),
        }
    }
}

/// Interface for DEVS coupled models: the bags of the node, its children,
/// and the couplings between their ports.
///
/// A model may say what its couplings carry by giving the two relations; a
/// relation that is left out allows any outcome.
pub trait Coupled: Sized {
    /// Input event bag of the model.
    type Input: Bag;

    /// Output event bag of the model.
    type Output: Bag;

    /// The children of the model.
    type Components: Components;

    /// What the external output couplings may add to the output bag `pre`
    /// of the node, from the output bags of its children. Without `ok`, a
    /// coupling found its destination too full.
    open spec fn spec_eoc(
        components: Self::Components,
        pre: Self::Output,
        post: Self::Output,
        ok: bool,
    ) -> bool {
        true
    }

    /// What the external input couplings and the internal couplings may add
    /// to the input bags of the children, from the input bag of the node and
    /// the output bags of the children. Without `ok`, a coupling found its
    /// destination too full.
    open spec fn spec_xic(
        input: Self::Input,
        pre: Self::Components,
        post: Self::Components,
        ok: bool,
    ) -> bool {
        true
    }

    /// Carries messages along every external output coupling: from an
    /// output port of a child to an output port of the node.
    fn propagate_eoc(components: &Self::Components, output: &mut Self::Output) -> (r: Result<
        (),
        PortFull,
    >)
        ensures
            Self::spec_eoc(*components, *old(output), *final(output), r is Ok),
    ;

    /// Carries messages along every external input coupling, from an input
    /// port of the node to an input port of a child, and along every
    /// internal coupling, from an output port of a child to an input port of
    /// a child.
    fn propagate_xic(input: &Self::Input, components: &mut Self::Components) -> (r: Result<
        (),
        PortFull,
    >)
        ensures
            Self::spec_xic(*input, *old(components), *final(components), r is Ok),
    ;
}

/// A coupled node: the header that every node carries and the children of
/// the model `C`, coupled as `C` says.
pub struct CoupledSimulator<C: Coupled> {
    pub component: Header<C::Input, C::Output>,
    pub components: C::Components,
}

impl<C: Coupled> CoupledSimulator<C> {
    /// A node with the children `components` that has not been started.
    pub fn new(input: C::Input, output: C::Output, components: C::Components) -> (node: Self)
        ensures
            node.component.input == input,
            node.component.output == output,
            node.component.t_last.ticks == 0,
            node.component.t_next.is_infinite(),
            node.components == components,
    {
        Self { component: Header::new(input, output), components }
    }

    /// The times and the input bag of the node are the same in `self` and `other`.
    pub open spec fn same_schedule(self, other: Self) -> bool {
        &&& self.component.input == other.component.input
        &&& self.component.t_last == other.component.t_last
        &&& self.component.t_next == other.component.t_next
    }

    /// The node has undergone a transition at `t`: its bags are empty and
    /// its next event is the earliest of its children's.
    pub open spec fn settled(self, t: Time) -> bool {
        &&& self.component.input.empty()
        &&& self.component.output.empty()
        &&& self.component.t_last == t
        &&& self.component.t_next == self.components.t_next()
    }
}

impl<C: Coupled> Component for CoupledSimulator<C> {
    type Input = C::Input;

    type Output = C::Output;

    open spec fn t_last(&self) -> Time {
        self.component.t_last
    }

    open spec fn t_next(&self) -> Time {
        self.component.t_next
    }

    open spec fn input(&self) -> C::Input {
        self.component.input
    }

    open spec fn output(&self) -> C::Output {
        self.component.output
    }

    open spec fn with_t_last(self, t_last: Time) -> Self {
        Self { component: Header { t_last, ..self.component }, ..self }
    }

    open spec fn with_t_next(self, t_next: Time) -> Self {
        Self { component: Header { t_next, ..self.component }, ..self }
    }

    open spec fn with_input(self, input: C::Input) -> Self {
        Self { component: Header { input, ..self.component }, ..self }
    }

    open spec fn with_output(self, output: C::Output) -> Self {
        Self { component: Header { output, ..self.component }, ..self }
    }

    proof fn lemma_with_input_same(self) {
    }

    fn get_t_last(&self) -> (t: Time) {
        self.component.t_last
    }

    fn set_t_last(&mut self, t_last: Time) {
        self.component.t_last = t_last;
    }

    fn get_t_next(&self) -> (t: Time) {
        self.component.t_next
    }

    fn set_t_next(&mut self, t_next: Time) {
        self.component.t_next = t_next;
    }

    fn get_input(&self) -> (x: &C::Input) {
        &self.component.input
    }

    fn get_input_mut(&mut self) -> (x: &mut C::Input) {
        &mut self.component.input
    }

    fn get_output(&self) -> (y: &C::Output) {
        &self.component.output
    }

    fn get_output_mut(&mut self) -> (y: &mut C::Output) {
        &mut self.component.output
    }
}

impl<C: Coupled> AbstractSimulator for CoupledSimulator<C> {
    open spec fn spec_start(pre: Self, t_start: Time, post: Self) -> bool {
        &&& C::Components::spec_start(pre.components, t_start, post.components)
        &&& post.component.input == pre.component.input
        &&& post.component.output == pre.component.output
        &&& post.component.t_last == t_start
        &&& post.component.t_next == post.components.t_next()
    }

    open spec fn spec_stop(pre: Self, t_stop: Time, post: Self) -> bool {
        &&& C::Components::spec_stop(pre.components, t_stop, post.components)
        &&& post.component.input == pre.component.input
        &&& post.component.output == pre.component.output
        &&& post.component.t_last == t_stop
        &&& post.component.t_next.is_infinite()
    }

    open spec fn spec_lambda(pre: Self, t: Time, post: Self, ok: bool) -> bool {
        &&& post.same_schedule(pre)
        &&& if !t.reached(pre.component.t_next) {
            ok && post == pre
        } else if ok {
            &&& C::Components::spec_lambda(pre.components, t, post.components, true)
            &&& C::spec_eoc(post.components, pre.component.output, post.component.output, true)
        } else {
            ||| {
                &&& C::Components::spec_lambda(pre.components, t, post.components, false)
                &&& post.component.output == pre.component.output
            }
            ||| {
                &&& C::Components::spec_lambda(pre.components, t, post.components, true)
                &&& C::spec_eoc(
                    post.components,
                    pre.component.output,
                    post.component.output,
                    false,
                )
            }
        }
    }

    open spec fn spec_delta(pre: Self, t: Time, post: Self, ok: bool) -> bool {
        if ok {
            &&& exists|mid: C::Components| #[trigger]
                C::spec_xic(pre.component.input, pre.components, mid, true)
                    && C::Components::spec_delta(mid, t, post.components, true)
            &&& post.settled(t)
        } else {
            &&& post.component == pre.component
            &&& {
                ||| C::spec_xic(pre.component.input, pre.components, post.components, false)
                ||| exists|mid: C::Components| #[trigger]
                    C::spec_xic(pre.component.input, pre.components, mid, true)
                        && C::Components::spec_delta(mid, t, post.components, false)
            }
        }
    }

    proof fn lemma_start(pre: Self, t_start: Time, post: Self) {
        C::Components::lemma_start(pre.components, t_start, post.components);
    }

    proof fn lemma_stop(pre: Self, t_stop: Time, post: Self) {
    }

    proof fn lemma_lambda(pre: Self, t: Time, post: Self, ok: bool) {
    }

    proof fn lemma_delta(pre: Self, t: Time, post: Self) {
        let mid = choose|mid: C::Components| #[trigger]
            C::spec_xic(pre.component.input, pre.components, mid, true)
                && C::Components::spec_delta(mid, t, post.components, true);
        C::Components::lemma_delta(mid, t, post.components);
    }

    fn start(&mut self, t_start: Time) -> (t_next: Time) {
        let t_next = self.components.start(t_start);
        self.component.set_sim_t(t_start, t_next);
        t_next
    }

    fn stop(&mut self, t_stop: Time) {
        self.components.stop(t_stop);
        self.component.set_sim_t(t_stop, Time::infinity());
    }

    fn lambda(&mut self, t: Time) -> (r: Result<(), PortFull>) {
        if t.reached(self.component.t_next) {
            match self.components.lambda(t) {
                Ok(()) => C::propagate_eoc(&self.components, &mut self.component.output),
                Err(e) => Err(e),
            }
        } else {
            Ok(())
        }
    }

    fn delta(&mut self, t: Time) -> (r: Result<Time, PortFull>) {
        match C::propagate_xic(&self.component.input, &mut self.components) {
            Ok(()) => {
                match self.components.delta(t) {
                    Ok(t_next) => {
                        self.component.clear_ports();
                        self.component.set_sim_t(t, t_next);
                        Ok(t_next)
                    },
                    Err(e) => Err(e),
                }
            },
            Err(e) => Err(e),
        }
    }
}

/// Input clearance: after a transition at `t` both bags of a coupled node
/// are empty, the node was last updated at `t`, and its next event is the
/// earliest of its children's, not before `t`.
pub proof fn law_coupled_clearance<C: Coupled>(
    pre: CoupledSimulator<C>,
    t: Time,
    post: CoupledSimulator<C>,
)
    requires
        CoupledSimulator::spec_delta(pre, t, post, true),
    ensures
        post.component.input.empty(),
        post.component.output.empty(),
        post.component.t_last == t,
        post.component.t_next == post.components.t_next(),
        post.component.t_next.ticks >= t.ticks,
{
    CoupledSimulator::lemma_delta(pre, t, post);
}

} // verus!
