//! A Parallel DEVS simulation kernel.
//!
//! A model is a tree of nodes. Its leaves are atomic models, which carry a
//! state and the functions that change it; the other nodes are coupled
//! models, which carry nodes and the couplings between their ports. The
//! kernel drives every node through the same four operations and moves the
//! clock of the run from one event to the next.
//!
//! - [`time`]: virtual time, counted in ticks.
//! - [`port`]: bounded bags of messages, and the coupling of two of them.
//! - [`traits`]: what every node offers: its bags, its times, and the four
//!   operations on it.
//! - [`component`]: the book-keeping that every node carries.
//! - [`atomic`] and [`coupled`]: the two kinds of node.
//! - [`simulator`]: the driver of a run, in virtual or in real time.
//! - [`pacer`]: the pacing of a real-time run by a wall clock.
//! - [`topology`]: the description of a model, and the checks on it.

pub mod atomic;
pub mod component;
pub mod coupled;
pub mod pacer;
pub mod port;
pub mod simulator;
pub mod time;
pub mod topology;
pub mod traits;
