//! Ports: the bounded message bags through which components exchange values.

use crate::traits::Bag;
use vstd::prelude::*;

verus! {

/// `dst` holds, place for place, a clone of each value of `src`.
pub open spec fn clones_of<T: Clone>(src: Seq<T>, dst: Seq<T>) -> bool {
    &&& dst.len() == src.len()
    &&& forall|i: int| 0 <= i < src.len() ==> cloned::<T>(src[i], #[trigger] dst[i])
}

/// `post` is `pre` followed by a clone of each value of `src`, in order.
pub open spec fn spec_delivered<T: Clone>(src: Seq<T>, pre: Seq<T>, post: Seq<T>) -> bool {
    &&& post.len() == pre.len() + src.len()
    &&& post.take(pre.len() as int) == pre
    &&& clones_of(src, post.skip(pre.len() as int))
}

/// Raised when a coupling cannot deliver its messages because they do not
/// fit into what is left of the destination port.
#[derive(Clone, Copy, Debug, PartialEq, Eq, Structural)]
pub struct PortFull;

/// A bag of at most `N` messages of type `T`.
///
/// The view of a port is the sequence of the messages it holds, oldest first.
#[derive(Debug)]
pub struct Port<T: Clone, const N: usize> {
    items: Vec<T>,
}

impl<T: Clone, const N: usize> View for Port<T, N> {
    type V = Seq<T>;

    closed spec fn view(&self) -> Seq<T> {
        self.items@
    }
}

impl<T: Clone, const N: usize> Port<T, N> {
    #[verifier::type_invariant]
    spec fn within_capacity(&self) -> bool {
        self.items@.len() <= N
    }

    /// Creates a new empty port.
    pub fn new() -> (port: Self)
        ensures
            port@ == Seq::<T>::empty(),
    {
        Port { items: Vec::new() }
    }

    /// Returns `true` if the port is empty.
    pub fn is_empty(&self) -> (b: bool)
        ensures
            b == (self@.len() == 0),
    {
        self.items.len() == 0
    }

    /// Returns `true` if the port is full.
    pub fn is_full(&self) -> (b: bool)
        ensures
            b == (self@.len() == N),
            self@.len() <= N,
    {
        proof {
            use_type_invariant(self);
        }
        self.items.len() == N
    }

    /// Returns the number of messages in the port.
    pub fn len(&self) -> (n: usize)
        ensures
            n == self@.len(),
            n <= N,
    {
        proof {
            use_type_invariant(self);
        }
        self.items.len()
    }

    /// Clears the port, removing all messages.
    pub fn clear(&mut self)
        ensures
            final(self)@ == Seq::<T>::empty(),
    {
        let mut items: Vec<T> = Vec::new();
        core::mem::swap(&mut self.items, &mut items);
        items.clear();
        core::mem::swap(&mut self.items, &mut items);
    }

    /// Adds a message to the port. A full port is left as it is and hands
    /// the message back.
    pub fn add_value(&mut self, item: T) -> (r: Result<(), T>)
        ensures
            old(self)@.len() < N ==> r is Ok && final(self)@ == old(self)@.push(item),
            old(self)@.len() >= N ==> r == Err::<(), T>(item) && final(self)@ == old(self)@,
    {
        proof {
            use_type_invariant(&*self);
        }
        if self.items.len() < N {
            let mut items: Vec<T> = Vec::new();
            core::mem::swap(&mut self.items, &mut items);
            items.push(item);
            core::mem::swap(&mut self.items, &mut items);
            Ok(())
        } else {
            Err(item)
        }
    }

    /// Adds clones of all the messages of `items`, in order, or none of them
    /// if they do not all fit.
    pub fn add_values(&mut self, items: &[T]) -> (r: Result<(), ()>)
        ensures
            r is Ok <==> old(self)@.len() + items@.len() <= N,
            r is Ok ==> spec_delivered(items@, old(self)@, final(self)@),
            r is Err ==> final(self)@ == old(self)@,
    {
        proof {
            use_type_invariant(&*self);
        }
        if items.len() > N - self.items.len() {
            Err(())
        } else {
            let mut held: Vec<T> = Vec::new();
            core::mem::swap(&mut self.items, &mut held);
            let ghost before = held@;
            held.extend_from_slice(items);
            proof {
                assert(held@.take(before.len() as int) =~= before);
            }
            core::mem::swap(&mut self.items, &mut held);
            Ok(())
        }
    }

    /// Returns the messages of the port, oldest first.
    pub fn get_values(&self) -> (values: &[T])
        ensures
            values@ == self@,
    {
        self.items.as_slice()
    }
}

impl<T: Clone, const N: usize> Default for Port<T, N> {
    fn default() -> (port: Self)
        ensures
            port@ == Seq::<T>::empty(),
    {
        Self::new()
    }
}

impl<T: Clone, const N: usize> Bag for Port<T, N> {
    open spec fn empty(&self) -> bool {
        self@.len() == 0
    }

    fn is_empty(&self) -> (b: bool) {
        self.items.len() == 0
    }

    fn clear(&mut self)
        ensures
            final(self)@ == Seq::<T>::empty(),
    {
        Port::clear(self)
    }
}

/// Carries the messages of `src` along one coupling: clones of all of them
/// are added to `dst`, which must have room for them all. When it has not,
/// `dst` is left as it is and the coupling fails.
pub fn couple<T: Clone, const N: usize, const M: usize>(
    src: &Port<T, N>,
    dst: &mut Port<T, M>,
) -> (r: Result<(), PortFull>)
    ensures
        r is Ok <==> old(dst)@.len() + src@.len() <= M,
        r is Ok ==> spec_delivered(src@, old(dst)@, final(dst)@),
        r is Err ==> final(dst)@ == old(dst)@,
{
    match dst.add_values(src.get_values()) {
        Ok(()) => Ok(()),
        Err(()) => Err(PortFull),
    }
}

/// A coupling is a pure copy: carried twice from a source that has not
/// changed in between, it leaves its messages twice behind what the
/// destination held. In a destination that was empty every message of the
/// source is then found twice.
pub proof fn law_coupling_twice<T: Clone>(src: Seq<T>, pre: Seq<T>, once: Seq<T>, twice: Seq<T>)
    requires
        spec_delivered(src, pre, once),
        spec_delivered(src, once, twice),
    ensures
        twice.len() == pre.len() + 2 * src.len(),
        twice.take(pre.len() as int) == pre,
        clones_of(src, twice.subrange(pre.len() as int, (pre.len() + src.len()) as int)),
        clones_of(src, twice.skip((pre.len() + src.len()) as int)),
{
    let n = pre.len() as int;
    let m = src.len() as int;
    let first = twice.subrange(n, n + m);
    assert forall|i: int| 0 <= i < m implies cloned::<T>(src[i], #[trigger] first[i]) by {
        assert(once.skip(n)[i] == once[n + i]);
    }
}

} // verus!
