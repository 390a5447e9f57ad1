//! The book-keeping that every node of a model carries.

use crate::time::Time;
use crate::traits::Bag;
use vstd::prelude::*;

verus! {

/// The header of a node: its input and output bags, the time of its last
/// transition and the time of its next scheduled one.
pub struct Component<X: Bag, Y: Bag> {
    pub input: X,
    pub output: Y,
    pub t_last: Time,
    pub t_next: Time,
}

impl<X: Bag, Y: Bag> Component<X, Y> {
    /// The header of a node that has not been started: last updated at the
    /// origin of time, with no event scheduled.
    pub fn new(input: X, output: Y) -> (c: Self)
        ensures
            c.input == input,
            c.output == output,
            c.t_last.ticks == 0,
            c.t_next.is_infinite(),
    {
        Self { input, output, t_last: Time::zero(), t_next: Time::infinity() }
    }

    /// Sets the last and next times the component experienced an event.
    pub fn set_sim_t(&mut self, t_last: Time, t_next: Time)
        ensures
            final(self).t_last == t_last,
            final(self).t_next == t_next,
            final(self).input == old(self).input,
            final(self).output == old(self).output,
    {
        self.t_last = t_last;
        self.t_next = t_next;
    }

    /// Clears all the input and output ports.
    pub fn clear_ports(&mut self)
        ensures
            final(self).input.empty(),
            final(self).output.empty(),
            final(self).t_last == old(self).t_last,
            final(self).t_next == old(self).t_next,
    {
        self.input.clear();
        self.output.clear();
    }

    /// Returns true if the input port is empty.
    pub fn is_input_empty(&self) -> (b: bool)
        ensures
            b == self.input.empty(),
    {
        self.input.is_empty()
    }
}

} // verus!
