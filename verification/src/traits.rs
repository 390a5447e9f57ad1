//! The interfaces that every component of a model offers to the kernel.

use crate::port::PortFull;
use crate::time::Time;
use vstd::prelude::*;

verus! {

/// A set of ports: the input or the output of one component.
pub trait Bag {
    /// Every port of the bag is empty.
    spec fn empty(&self) -> bool;

    /// Returns `true` if the ports are empty.
    fn is_empty(&self) -> (b: bool)
        ensures
            b == self.empty(),
    ;

    /// Clears the ports, removing all values.
    fn clear(&mut self)
        ensures
            final(self).empty(),
    ;
}

/// The bag without ports.
impl Bag for () {
    open spec fn empty(&self) -> bool {
        true
    }

    fn is_empty(&self) -> (b: bool) {
        true
    }

    fn clear(&mut self)
        ensures
            *final(self) == *old(self),
    {
    }
}

/// Two bags side by side; nested pairs make a bag of any number of ports.
impl<A: Bag, B: Bag> Bag for (A, B) {
    open spec fn empty(&self) -> bool {
        self.0.empty() && self.1.empty()
    }

    fn is_empty(&self) -> (b: bool) {
        self.0.is_empty() && self.1.is_empty()
    }

    fn clear(&mut self) {
        self.0.clear();
        self.1.clear();
    }
}

/// What every node of a model carries: its two bags, the time of its last
/// transition and the time of its next scheduled one.
pub trait Component: Sized {
    /// Input event bag of the model.
    type Input: Bag;

    /// Output event bag of the model.
    type Output: Bag;

    /// The last time the component was updated.
    spec fn t_last(&self) -> Time;

    /// The next time the component will be updated.
    spec fn t_next(&self) -> Time;

    /// The input event bag.
    spec fn input(&self) -> Self::Input;

    /// The output event bag.
    spec fn output(&self) -> Self::Output;

    /// The same node, last updated at `t_last`.
    spec fn with_t_last(self, t_last: Time) -> Self;

    /// The same node, with its next update at `t_next`.
    spec fn with_t_next(self, t_next: Time) -> Self;

    /// The same node, with `input` for its input event bag.
    spec fn with_input(self, input: Self::Input) -> Self;

    /// The same node, with `output` for its output event bag.
    spec fn with_output(self, output: Self::Output) -> Self;

    /// Putting back the input bag that is there changes nothing.
    proof fn lemma_with_input_same(self)
        ensures
            self.with_input(self.input()) == self,
    ;

    /// Returns the last time the component was updated.
    fn get_t_last(&self) -> (t: Time)
        ensures
            t == self.t_last(),
    ;

    /// Sets the last time the component was updated.
    fn set_t_last(&mut self, t_last: Time)
        ensures
            *final(self) == old(self).with_t_last(t_last),
            final(self).t_last() == t_last,
            final(self).t_next() == old(self).t_next(),
            final(self).input() == old(self).input(),
            final(self).output() == old(self).output(),
    ;

    /// Returns the next time the component will be updated.
    fn get_t_next(&self) -> (t: Time)
        ensures
            t == self.t_next(),
    ;

    /// Sets the next time the component will be updated.
    fn set_t_next(&mut self, t_next: Time)
        ensures
            *final(self) == old(self).with_t_next(t_next),
            final(self).t_next() == t_next,
            final(self).t_last() == old(self).t_last(),
            final(self).input() == old(self).input(),
            final(self).output() == old(self).output(),
    ;

    /// Returns a reference to the model's input event bag.
    fn get_input(&self) -> (x: &Self::Input)
        ensures
            *x == self.input(),
    ;

    /// Returns a mutable reference to the model's input event bag.
    fn get_input_mut(&mut self) -> (x: &mut Self::Input)
        ensures
            *x == old(self).input(),
            *final(self) == old(self).with_input(*final(x)),
            final(self).input() == *final(x),
            final(self).output() == old(self).output(),
            final(self).t_last() == old(self).t_last(),
            final(self).t_next() == old(self).t_next(),
    ;

    /// Returns a reference to the model's output event bag.
    fn get_output(&self) -> (y: &Self::Output)
        ensures
            *y == self.output(),
    ;

    /// Returns a mutable reference to the model's output event bag.
    fn get_output_mut(&mut self) -> (y: &mut Self::Output)
        ensures
            *y == old(self).output(),
            *final(self) == old(self).with_output(*final(y)),
            final(self).output() == *final(y),
            final(self).input() == old(self).input(),
            final(self).t_last() == old(self).t_last(),
            final(self).t_next() == old(self).t_next(),
    ;

    /// Clears the input bag, removing all values.
    fn clear_input(&mut self)
        ensures
            exists|input: Self::Input| input.empty() && *final(self) == old(self).with_input(input),
            final(self).input().empty(),
            final(self).output() == old(self).output(),
            final(self).t_last() == old(self).t_last(),
            final(self).t_next() == old(self).t_next(),
    {
        self.get_input_mut().clear()
    }

    /// Clears the output bag, removing all values.
    fn clear_output(&mut self)
        ensures
            exists|output: Self::Output|
                output.empty() && *final(self) == old(self).with_output(output),
            final(self).output().empty(),
            final(self).input() == old(self).input(),
            final(self).t_last() == old(self).t_last(),
            final(self).t_next() == old(self).t_next(),
    {
        self.get_output_mut().clear()
    }
}

/// Partial interface for DEVS atomic models: a node that carries a state.
pub trait PartialAtomic: Component {
    /// The data type used to represent the state of the model.
    type State;
}

/// The uniform control protocol of the kernel. Atomic and coupled nodes alike
/// are driven through these four operations.
///
/// Each operation is described by a relation between the node before and
/// after it, which every kind of node defines for itself. Besides, the
/// contracts state what holds of every node.
pub trait AbstractSimulator: Component {
    /// How `start(t_start)` may take a node from `pre` to `post`.
    spec fn spec_start(pre: Self, t_start: Time, post: Self) -> bool;

    /// How `stop(t_stop)` may take a node from `pre` to `post`.
    spec fn spec_stop(pre: Self, t_stop: Time, post: Self) -> bool;

    /// How `lambda(t)` may take a node from `pre` to `post`; `ok` tells
    /// whether every message found room.
    spec fn spec_lambda(pre: Self, t: Time, post: Self, ok: bool) -> bool;

    /// How `delta(t)` may take a node from `pre` to `post`; `ok` tells
    /// whether every message found room.
    spec fn spec_delta(pre: Self, t: Time, post: Self, ok: bool) -> bool;

    /// A node that has been started was last updated then, and has no
    /// event scheduled before.
    proof fn lemma_start(pre: Self, t_start: Time, post: Self)
        requires
            Self::spec_start(pre, t_start, post),
        ensures
            post.t_last() == t_start,
            post.t_next().ticks >= t_start.ticks,
    ;

    /// A node that has been stopped was last updated then, and has no event
    /// scheduled.
    proof fn lemma_stop(pre: Self, t_stop: Time, post: Self)
        requires
            Self::spec_stop(pre, t_stop, post),
        ensures
            post.t_last() == t_stop,
            post.t_next().is_infinite(),
    ;

    /// The output functions leave the times and the input bag of a node as
    /// they are, and the whole of a node whose event is not due.
    proof fn lemma_lambda(pre: Self, t: Time, post: Self, ok: bool)
        requires
            Self::spec_lambda(pre, t, post, ok),
        ensures
            post.input() == pre.input(),
            post.t_last() == pre.t_last(),
            post.t_next() == pre.t_next(),
            !t.reached(pre.t_next()) ==> ok && post == pre,
    ;

    /// A transition at `t` leaves a node with an empty input bag and no
    /// event scheduled before `t`. Unless it left the node as it was, the
    /// node was last updated at `t`. An output bag that was empty still is.
    proof fn lemma_delta(pre: Self, t: Time, post: Self)
        requires
            Self::spec_delta(pre, t, post, true),
        ensures
            post.t_next().ticks >= t.ticks,
            post.t_last() == t || post == pre,
            post.input().empty(),
            pre.output().empty() ==> post.output().empty(),
    ;

    /// It starts the simulation, setting the initial time to t_start.
    /// It returns the time for the next state transition of the inner DEVS model.
    fn start(&mut self, t_start: Time) -> (t_next: Time)
        ensures
            Self::spec_start(*old(self), t_start, *final(self)),
            t_next == final(self).t_next(),
            t_next.ticks >= t_start.ticks,
            final(self).t_last() == t_start,
    ;

    /// It stops the simulation, setting the last time to t_stop.
    fn stop(&mut self, t_stop: Time)
        ensures
            Self::spec_stop(*old(self), t_stop, *final(self)),
            final(self).t_last() == t_stop,
            final(self).t_next().is_infinite(),
    ;

    /// Executes output functions and propagates messages according to EOCs.
    /// A node that is not imminent at `t` is left as it is. The messages of
    /// an imminent node are added to its output bag; `Err` tells that a
    /// coupling found its destination port too full.
    fn lambda(&mut self, t: Time) -> (r: Result<(), PortFull>)
        ensures
            Self::spec_lambda(*old(self), t, *final(self), r is Ok),
            !t.reached(old(self).t_next()) ==> r is Ok && *final(self) == *old(self),
            final(self).input() == old(self).input(),
            final(self).t_last() == old(self).t_last(),
            final(self).t_next() == old(self).t_next(),
    ;

    /// Propagates messages according to ICs and EICs and executes model transition functions.
    /// It also clears all the input and output ports.
    /// Finally, it returns the time for the next state transition of the inner DEVS model.
    /// `Err` tells that a coupling found its destination port too full.
    fn delta(&mut self, t: Time) -> (r: Result<Time, PortFull>)
        ensures
            Self::spec_delta(*old(self), t, *final(self), r is Ok),
            r matches Ok(t_next) ==> {
                &&& t_next == final(self).t_next()
                &&& t_next.ticks >= t.ticks
                &&& final(self).t_last() == t || *final(self) == *old(self)
                &&& final(self).input().empty()
                &&& old(self).output().empty() ==> final(self).output().empty()
            },
    ;
}

/// Passivation: a node that has been stopped has no event scheduled, and
/// its output functions change nothing at any finite time.
pub proof fn law_passivation<M: AbstractSimulator>(
    pre: M,
    t_stop: Time,
    stopped: M,
    t: Time,
    post: M,
    ok: bool,
)
    requires
        M::spec_stop(pre, t_stop, stopped),
        M::spec_lambda(stopped, t, post, ok),
        t.is_finite(),
    ensures
        stopped.t_next().is_infinite(),
        ok,
        post == stopped,
{
    M::lemma_stop(pre, t_stop, stopped);
    M::lemma_lambda(stopped, t, post, ok);
}

/// Input clearance: after a transition the input bag of a node is empty,
/// and so is its output bag if it was empty before or the node has not
/// been left as it was.
pub proof fn law_clearance<M: AbstractSimulator>(pre: M, t: Time, post: M)
    requires
        M::spec_delta(pre, t, post, true),
    ensures
        post.input().empty(),
        pre.output().empty() ==> post.output().empty(),
{
    M::lemma_delta(pre, t, post);
}

/// The last update of a node is never after its next event: that holds once
/// the node has been started or stopped, and a transition keeps it so.
pub proof fn law_timely<M: AbstractSimulator>(pre: M, t: Time, post: M)
    requires
        M::spec_start(pre, t, post) || M::spec_stop(pre, t, post) || (M::spec_delta(
            pre,
            t,
            post,
            true,
        ) && pre.t_last().ticks <= pre.t_next().ticks),
    ensures
        post.t_last().ticks <= post.t_next().ticks,
{
    if M::spec_start(pre, t, post) {
        M::lemma_start(pre, t, post);
    } else if M::spec_stop(pre, t, post) {
        M::lemma_stop(pre, t, post);
    } else {
        M::lemma_delta(pre, t, post);
    }
}

} // verus!
