//! The driver: it takes a model from `t_start` to `t_stop`, one event after
//! another, in virtual time or paced by a hook that waits in real time.

use crate::port::PortFull;
use crate::time::Time;
use crate::traits::{AbstractSimulator, Bag, Component};
use vstd::prelude::*;

verus! {

/// Configuration for the DEVS simulator.
#[derive(Debug, Clone, Copy)]
pub struct Config {
    /// The start time of the simulation.
    pub t_start: Time,
    /// The stop time of the simulation.
    pub t_stop: Time,
    /// The time scale factor for the simulation: the nanoseconds of
    /// wall-clock time that one tick of virtual time takes.
    ///
    /// Where a tick stands for a nanosecond, 1 runs the simulation in real
    /// time, a greater scale runs it slower and 0 as fast as it goes.
    pub time_scale: u64,
    /// The maximum jitter allowed in the simulation, in nanoseconds.
    ///
    /// If `None`, jitter is not checked. If `Some(duration)`, a real-time run
    /// fails when the wall-clock time drift exceeds this duration.
    pub max_jitter: Option<u64>,
}

impl Config {
    /// Creates a new `Config` with the specified parameters.
    pub fn new(t_start: Time, t_stop: Time, time_scale: u64, max_jitter: Option<u64>) -> (config:
        Self)
        ensures
            config.t_start == t_start,
            config.t_stop == t_stop,
            config.time_scale == time_scale,
            config.max_jitter == max_jitter,
    {
        Self { t_start, t_stop, time_scale, max_jitter }
    }
}

impl Default for Config {
    /// Default configuration runs from time 0 to infinity, with a
    /// time scale of 1 and no maximum jitter.
    fn default() -> (config: Self)
        ensures
            config.t_start.ticks == 0,
            config.t_stop.is_infinite(),
            config.time_scale == 1,
            config.max_jitter is None,
    {
        Self::new(Time::zero(), Time::infinity(), 1, None)
    }
}

/// Why a run came to an end before `t_stop`.
#[derive(Clone, Copy, Debug, PartialEq, Eq, Structural)]
pub enum SimError {
    /// A coupling found its destination port too full for its messages.
    PortFull,
    /// The wall clock was found this many nanoseconds behind the run, more
    /// than the configuration allows.
    JitterExceeded { drift: u64 },
    /// The run was given fewer steps than it takes to reach `t_stop`.
    OutOfSteps,
}

/// What a real-time run does between two transitions: it waits, and takes in
/// what arrives from outside meanwhile.
///
/// A hook may say what it does by giving `spec_wait`; left out, the relation
/// allows any outcome.
pub trait WaitUntil<I>: Sized {
    /// How a wait from `t_from` up to `t_until` may take the hook from `pre`
    /// to `post` and the input bag from `x` to `y`, with the answer `r`.
    open spec fn spec_wait(
        pre: Self,
        t_from: Time,
        t_until: Time,
        x: I,
        post: Self,
        y: I,
        r: Result<Time, SimError>,
    ) -> bool {
        true
    }

    /// Called between state transitions, with the current time, the time of
    /// the next state transition and the input ports of the model. It
    /// returns the time that it has waited up to: `t_until`, or an earlier
    /// time if it has put messages into `input`. It must not return a time
    /// before `t_from` or after `t_until`. An error ends the run.
    fn wait_until(&mut self, t_from: Time, t_until: Time, input: &mut I) -> (r: Result<
        Time,
        SimError,
    >)
        ensures
            Self::spec_wait(*old(self), t_from, t_until, *old(input), *final(self), *final(input), r),
    ;
}

/// What a real-time run does with the messages that the model emits.
///
/// A hook may say what it does by giving `spec_propagate`; left out, the
/// relation allows any outcome.
pub trait PropagateOutput<O>: Sized {
    /// How being shown the output bag `output` may take the hook from `pre`
    /// to `post`.
    open spec fn spec_propagate(pre: Self, output: O, post: Self) -> bool {
        true
    }

    /// Called after the output functions, with the output ports of the model.
    fn propagate_output(&mut self, output: &O)
        ensures
            Self::spec_propagate(*old(self), *output, *final(self)),
    ;
}

/// The hook of a run in virtual time: it waits for nothing and takes in
/// nothing.
#[derive(Clone, Copy, Debug, PartialEq, Eq, Structural)]
pub struct Immediate;

impl<I> WaitUntil<I> for Immediate {
    open spec fn spec_wait(
        pre: Self,
        t_from: Time,
        t_until: Time,
        x: I,
        post: Self,
        y: I,
        r: Result<Time, SimError>,
    ) -> bool {
        y == x && r == Ok::<Time, SimError>(t_until)
    }

    fn wait_until(&mut self, t_from: Time, t_until: Time, input: &mut I) -> (r: Result<
        Time,
        SimError,
    >) {
        Ok(t_until)
    }
}

/// The output hook that lets the messages go.
#[derive(Clone, Copy, Debug, PartialEq, Eq, Structural)]
pub struct Discard;

impl<O> PropagateOutput<O> for Discard {
    fn propagate_output(&mut self, output: &O) {
    }
}

/// A DEVS simulator: a model and the clock of its run.
pub struct Simulator<M: AbstractSimulator> {
    /// The model under simulation.
    pub model: M,
    /// The virtual time that the run has reached.
    pub clock: Time,
}

impl<M: AbstractSimulator> Simulator<M> {
    /// Creates a new `Simulator` with the given DEVS model.
    pub fn new(model: M) -> (sim: Self)
        ensures
            sim.model == model,
            sim.clock.ticks == 0,
    {
        Self { model, clock: Time::zero() }
    }

    /// The clock has not passed the next event of the model.
    pub open spec fn on_schedule(self) -> bool {
        self.clock.ticks <= self.model.t_next().ticks
    }

    /// How `begin` may take a simulator from `pre` to `post`.
    pub open spec fn spec_begin(pre: Self, config: Config, post: Self) -> bool {
        &&& M::spec_start(pre.model, config.t_start, post.model)
        &&& post.clock == config.t_start
        &&& post.on_schedule()
    }

    /// Opens a run: the clock is set to `t_start` and the model is started.
    /// Returns the time of the first event of the model.
    pub fn begin(&mut self, config: &Config) -> (t_next: Time)
        ensures
            Self::spec_begin(*old(self), *config, *final(self)),
            t_next == final(self).model.t_next(),
    {
        self.clock = config.t_start;
        self.model.start(config.t_start)
    }

    /// The time up to which a run at `self` waits next: the next event of
    /// the model or `t_stop`, whichever comes first; `None` once the clock
    /// has reached `t_stop`.
    pub open spec fn spec_next_wait(self, config: Config) -> Option<Time> {
        if self.clock.ticks < config.t_stop.ticks {
            Some(self.model.t_next().min(config.t_stop))
        } else {
            None
        }
    }

    /// Tells whether the run goes on and, if so, up to which time it waits next.
    pub fn next_wait(&self, config: &Config) -> (t_until: Option<Time>)
        ensures
            t_until == self.spec_next_wait(*config),
    {
        if self.clock.ticks < config.t_stop.ticks {
            Some(self.model.get_t_next().min(config.t_stop))
        } else {
            None
        }
    }

    /// How `collect(t)` may take a simulator from `pre` to `post`: the clock
    /// moves to `t`, and a model whose event is due runs its output
    /// functions.
    pub open spec fn spec_collect(pre: Self, t: Time, post: Self, ok: bool) -> bool {
        &&& post.clock == t
        &&& post.model.t_next() == pre.model.t_next()
        &&& post.model.input() == pre.model.input()
        &&& if t.reached(pre.model.t_next()) {
            M::spec_lambda(pre.model, t, post.model, ok)
        } else {
            ok && post.model == pre.model
        }
    }

    /// Moves the clock to `t`, the time that the wait has led to, and lets
    /// the model emit its messages if its event is due. Returns whether it
    /// was: the output bag of the model then holds the messages of this
    /// instant.
    pub fn collect(&mut self, t: Time) -> (r: Result<bool, PortFull>)
        ensures
            Self::spec_collect(*old(self), t, *final(self), r is Ok),
            r matches Ok(due) ==> due == t.reached(old(self).model.t_next()),
    {
        self.clock = t;
        if t.reached(self.model.get_t_next()) {
            match self.model.lambda(t) {
                Ok(()) => Ok(true),
                Err(e) => Err(e),
            }
        } else {
            Ok(false)
        }
    }

    /// How `transition` may take a simulator from `pre` to `post`: a model
    /// whose event is due or that has found input undergoes its transition
    /// at the time of the clock, and any other is left alone.
    pub open spec fn spec_transition(pre: Self, post: Self, ok: bool) -> bool {
        &&& post.clock == pre.clock
        &&& ok ==> post.on_schedule()
        &&& if pre.clock.reached(pre.model.t_next()) || !pre.model.input().empty() {
            M::spec_delta(pre.model, pre.clock, post.model, ok)
        } else {
            ok && post.model == pre.model
        }
    }

    /// Lets the model undergo its transition at the time of the clock, if
    /// its event is due or input has arrived; a wait that ended early
    /// without input changes nothing. Returns the time of the next event of
    /// the model.
    pub fn transition(&mut self) -> (r: Result<Time, PortFull>)
        ensures
            Self::spec_transition(*old(self), *final(self), r is Ok),
            r matches Ok(t_next) ==> t_next == final(self).model.t_next(),
    {
        let t_next = self.model.get_t_next();
        if self.clock.reached(t_next) || !self.model.get_input().is_empty() {
            self.model.delta(self.clock)
        } else {
            Ok(t_next)
        }
    }

    /// How `advance(t)` may take a simulator from `pre` to `post` and the
    /// output hook from `hook` to `hook_post`: by `collect(t)`, then, if the
    /// event of the model was due, by showing the hook the output bag, then
    /// by `transition`. Without `ok`, `collect` or `transition` failed and
    /// the run was left there.
    pub open spec fn spec_advance<P: PropagateOutput<M::Output>>(
        pre: Self,
        hook: P,
        t: Time,
        post: Self,
        hook_post: P,
        ok: bool,
    ) -> bool {
        ||| !ok && Self::spec_collect(pre, t, post, false) && hook_post == hook
        ||| exists|mid: Self|
            {
                &&& #[trigger] Self::spec_collect(pre, t, mid, true)
                &&& if t.reached(pre.model.t_next()) {
                    P::spec_propagate(hook, mid.model.output(), hook_post)
                } else {
                    hook_post == hook
                }
                &&& Self::spec_transition(mid, post, ok)
            }
    }

    /// Takes the run to `t`, the time that the wait has led to: the model
    /// emits its messages if its event is due, `propagate_output` is shown
    /// them, and the model undergoes its transition.
    pub fn advance<P: PropagateOutput<M::Output>>(
        &mut self,
        t: Time,
        propagate_output: &mut P,
    ) -> (r: Result<(), PortFull>)
        ensures
            Self::spec_advance(
                *old(self),
                *old(propagate_output),
                t,
                *final(self),
                *final(propagate_output),
                r is Ok,
            ),
    {
        match self.collect(t) {
            Ok(due) => {
                if due {
                    propagate_output.propagate_output(self.model.get_output());
                }
                match self.transition() {
                    Ok(_) => Ok(()),
                    Err(e) => Err(e),
                }
            },
            Err(e) => Err(e),
        }
    }

    /// The simulator `self` once its model has been handed the input bag `x`.
    pub open spec fn given(self, x: M::Input) -> Self {
        Simulator { model: self.model.with_input(x), clock: self.clock }
    }

    /// Lets `wait_until` wait from the time of the clock up to `t_until`,
    /// and takes the run to the time that it answers.
    pub fn wait_and_advance<W: WaitUntil<M::Input>, P: PropagateOutput<M::Output>>(
        &mut self,
        t_until: Time,
        wait_until: &mut W,
        propagate_output: &mut P,
    ) -> (r: Result<(), SimError>)
        ensures
            Run::spec_wait_and_advance(
                Run::of(*old(self), *old(wait_until), *old(propagate_output)),
                t_until,
                Run::of(*final(self), *final(wait_until), *final(propagate_output)),
                r,
            ),
    {
        let ghost pre = Run::of(*self, *wait_until, *propagate_output);
        let t_from = self.clock;
        let waited = wait_until.wait_until(t_from, t_until, self.model.get_input_mut());
        let ghost x = self.model.input();
        let r = match waited {
            Ok(t) => match self.advance(t, propagate_output) {
                Ok(()) => Ok(()),
                Err(_) => Err(SimError::PortFull),
            },
            Err(e) => Err(e),
        };
        let ghost post = Run::of(*self, *wait_until, *propagate_output);
        assert(W::spec_wait(
            pre.wait_until,
            pre.simulator.clock,
            t_until,
            pre.simulator.model.input(),
            post.wait_until,
            x,
            waited,
        ));
        r
    }

    /// One round of a run: unless the clock has reached `t_stop`,
    /// `wait_until` waits up to the next event of the model or `t_stop`,
    /// whichever comes first, and the run advances to the time that it
    /// answers. Returns whether there was a round to make.
    pub fn round<W: WaitUntil<M::Input>, P: PropagateOutput<M::Output>>(
        &mut self,
        config: &Config,
        wait_until: &mut W,
        propagate_output: &mut P,
    ) -> (r: Result<bool, SimError>)
        ensures
            old(self).spec_next_wait(*config) is None ==> r == Ok::<bool, SimError>(false)
                && *final(self) == *old(self) && *final(wait_until) == *old(wait_until)
                && *final(propagate_output) == *old(propagate_output),
            old(self).spec_next_wait(*config) is Some ==> r != Ok::<bool, SimError>(false)
                && Run::spec_round(
                Run::of(*old(self), *old(wait_until), *old(propagate_output)),
                *config,
                Run::of(*final(self), *final(wait_until), *final(propagate_output)),
                match r {
                    Ok(_) => Ok(()),
                    Err(e) => Err(e),
                },
            ),
    {
        match self.next_wait(config) {
            None => Ok(false),
            Some(t_until) => match self.wait_and_advance(t_until, wait_until, propagate_output) {
                Ok(()) => Ok(true),
                Err(e) => Err(e),
            },
        }
    }

    /// It executes the simulation of the inner DEVS model from `t_start` to `t_stop`.
    /// It provides support for real time execution via the following arguments:
    ///
    /// - `wait_until`: a hook that is called between state transitions.
    ///   It receives the current time, the time of the next state transition and a
    ///   mutable reference to the input ports. It returns the actual time "waited".
    ///   If the returned time is equal to the input time, an internal/confluent state transition is performed.
    ///   Otherwise, it assumes that an external event happened and executes the external transition function.
    ///
    /// - `propagate_output`: a hook that is called after output functions.
    ///   It receives a reference to the output ports so that it can access the output events.
    ///
    /// The run is given `max_steps` rounds of waiting and advancing. A model
    /// that needs more to reach `t_stop`, as one that goes on for ever
    /// without letting time pass, is left where it is, with `OutOfSteps`.
    pub fn simulate_rt<W: WaitUntil<M::Input>, P: PropagateOutput<M::Output>>(
        &mut self,
        config: &Config,
        wait_until: &mut W,
        propagate_output: &mut P,
        max_steps: usize,
    ) -> (r: Result<(), SimError>)
        ensures
            Run::spec_simulate(
                Run::of(*old(self), *old(wait_until), *old(propagate_output)),
                *config,
                max_steps as nat,
                Run::of(*final(self), *final(wait_until), *final(propagate_output)),
                r,
            ),
    {
        let ghost pre = Run::of(*self, *wait_until, *propagate_output);
        self.begin(config);
        let ghost begun = Run::of(*self, *wait_until, *propagate_output);
        let mut steps: usize = 0;
        proof {
            Run::lemma_no_round(begun, *config);
        }
        while steps < max_steps
            invariant
                steps <= max_steps,
                pre == Run::of(*old(self), *old(wait_until), *old(propagate_output)),
                Simulator::spec_begin(pre.simulator, *config, begun.simulator),
                begun == Run::of(begun.simulator, pre.wait_until, pre.propagate_output),
                Run::spec_rounds(
                    begun,
                    *config,
                    steps as nat,
                    Run::of(*self, *wait_until, *propagate_output),
                ),
            decreases max_steps - steps,
        {
            let ghost last = Run::of(*self, *wait_until, *propagate_output);
            match self.round(config, wait_until, propagate_output) {
                Ok(true) => {
                    proof {
                        Run::lemma_one_more_round(
                            begun,
                            *config,
                            steps as nat,
                            last,
                            Run::of(*self, *wait_until, *propagate_output),
                        );
                    }
                },
                Ok(false) => {
                    self.finish(config);
                    return Ok(());
                },
                Err(e) => {
                    return Err(e);
                },
            }
            steps = steps + 1;
        }
        match self.next_wait(config) {
            None => {
                self.finish(config);
                Ok(())
            },
            Some(_) => Err(SimError::OutOfSteps),
        }
    }

    /// It executes the simulation of the inner DEVS model from `t_start` to `t_stop`.
    /// It uses a virtual clock (i.e., no real time is used): the run is
    /// that of `simulate_rt` with a hook that waits for nothing and takes
    /// in nothing.
    pub fn simulate_vt(&mut self, config: &Config, max_steps: usize) -> (r: Result<(), SimError>)
        ensures
            Run::spec_simulate(
                Run::of(*old(self), Immediate, Discard),
                *config,
                max_steps as nat,
                Run::of(*final(self), Immediate, Discard),
                r,
            ),
    {
        let mut wait_until = Immediate;
        let mut propagate_output = Discard;
        self.simulate_rt(config, &mut wait_until, &mut propagate_output, max_steps)
    }

    /// How `finish` may take a simulator from `pre` to `post`.
    pub open spec fn spec_finish(pre: Self, config: Config, post: Self) -> bool {
        &&& M::spec_stop(pre.model, config.t_stop, post.model)
        &&& post.clock == pre.clock
        &&& post.model.t_last() == config.t_stop
        &&& post.model.t_next().is_infinite()
    }

    /// Closes a run: the model is stopped at `t_stop`.
    pub fn finish(&mut self, config: &Config)
        ensures
            Self::spec_finish(*old(self), *config, *final(self)),
    {
        self.model.stop(config.t_stop);
    }
}

/// A run in progress: the simulator, and the two hooks of the run. The
/// contracts of the driver tell how a run gets from one such to another.
pub struct Run<M: AbstractSimulator, W, P> {
    pub simulator: Simulator<M>,
    pub wait_until: W,
    pub propagate_output: P,
}

impl<M: AbstractSimulator, W: WaitUntil<M::Input>, P: PropagateOutput<M::Output>> Run<M, W, P> {
    /// The run of `simulator` with the hooks `wait_until` and
    /// `propagate_output`.
    pub open spec fn of(simulator: Simulator<M>, wait_until: W, propagate_output: P) -> Self {
        Run { simulator, wait_until, propagate_output }
    }

    /// How a wait up to `t_until` and the advance that follows it may take a
    /// run from `pre` to `post`: the hook waits, and the run advances to
    /// the time that the hook answers, with the input that the hook has
    /// left. With an error for `r`, the hook or the advance failed and the
    /// run was left there.
    pub open spec fn spec_wait_and_advance(
        pre: Self,
        t_until: Time,
        post: Self,
        r: Result<(), SimError>,
    ) -> bool {
        exists|x: M::Input, w: Result<Time, SimError>|
            #![trigger W::spec_wait(pre.wait_until, pre.simulator.clock, t_until, pre.simulator.model.input(), post.wait_until, x, w)]
            W::spec_wait(
                pre.wait_until,
                pre.simulator.clock,
                t_until,
                pre.simulator.model.input(),
                post.wait_until,
                x,
                w,
            ) && match w {
                Ok(t) => Simulator::spec_advance(
                    pre.simulator.given(x),
                    pre.propagate_output,
                    t,
                    post.simulator,
                    post.propagate_output,
                    r is Ok,
                ) && (r is Err ==> r == Err::<(), SimError>(SimError::PortFull)),
                Err(e) => post.simulator == pre.simulator.given(x) && post.propagate_output
                    == pre.propagate_output && r == Err::<(), SimError>(e),
            }
    }

    /// How one round may take a run from `pre` to `post`: the clock has not
    /// reached `t_stop`, the hook waits up to the time that `next_wait`
    /// tells, and the run advances.
    pub open spec fn spec_round(
        pre: Self,
        config: Config,
        post: Self,
        r: Result<(), SimError>,
    ) -> bool {
        &&& pre.simulator.spec_next_wait(config) is Some
        &&& Self::spec_wait_and_advance(pre, pre.simulator.spec_next_wait(config)->0, post, r)
    }

    /// Each run of `trace` leads to the next by one round that did not fail.
    pub open spec fn spec_trace(trace: Seq<Self>, config: Config) -> bool {
        forall|i: int|
            0 <= i < trace.len() - 1 ==> Self::spec_round(
                #[trigger] trace[i],
                config,
                trace[i + 1],
                Ok(()),
            )
    }

    /// `n` rounds in a row, none of which failed, may take a run from `pre`
    /// to `post`.
    pub open spec fn spec_rounds(pre: Self, config: Config, n: nat, post: Self) -> bool {
        exists|trace: Seq<Self>|
            {
                &&& #[trigger] Self::spec_trace(trace, config)
                &&& trace.len() == n + 1
                &&& trace[0] == pre
                &&& trace[n as int] == post
            }
    }

    /// No round leaves a run as it is.
    pub proof fn lemma_no_round(pre: Self, config: Config)
        ensures
            Self::spec_rounds(pre, config, 0, pre),
    {
        let trace = seq![pre];
        assert(Self::spec_trace(trace, config));
    }

    /// A round that follows `n` rounds makes `n + 1` rounds.
    pub proof fn lemma_one_more_round(pre: Self, config: Config, n: nat, mid: Self, post: Self)
        requires
            Self::spec_rounds(pre, config, n, mid),
            Self::spec_round(mid, config, post, Ok(())),
        ensures
            Self::spec_rounds(pre, config, n + 1, post),
    {
        let trace = choose|trace: Seq<Self>|
            {
                &&& #[trigger] Self::spec_trace(trace, config)
                &&& trace.len() == n + 1
                &&& trace[0] == pre
                &&& trace[n as int] == mid
            };
        let longer = trace.push(post);
        assert forall|i: int| 0 <= i < longer.len() - 1 implies Self::spec_round(
            #[trigger] longer[i],
            config,
            longer[i + 1],
            Ok(()),
        ) by {
            if i < n {
            }
        }
        assert(Self::spec_trace(longer, config));
    }

    /// How at most `max_steps` rounds may take a run that `begin` has opened
    /// from `begun` to `post`, with the answer `r`:
    /// - `Ok`: after some rounds the clock has reached `t_stop`, and the
    ///   model was stopped;
    /// - `OutOfSteps`: after `max_steps` rounds the clock has not reached
    ///   `t_stop`, and the run was left there;
    /// - any error: after fewer than `max_steps` rounds, one more failed
    ///   with that error, and the run was left there.
    pub open spec fn spec_run(
        begun: Self,
        config: Config,
        max_steps: nat,
        post: Self,
        r: Result<(), SimError>,
    ) -> bool {
        ||| r is Ok && exists|n: nat, last: Self| #[trigger]
            Self::spec_rounds(begun, config, n, last) && n <= max_steps
                && last.simulator.spec_next_wait(config) is None && Simulator::spec_finish(
                last.simulator,
                config,
                post.simulator,
            ) && post.wait_until == last.wait_until && post.propagate_output
                == last.propagate_output
        ||| r == Err::<(), SimError>(SimError::OutOfSteps) && Self::spec_rounds(
            begun,
            config,
            max_steps,
            post,
        ) && post.simulator.spec_next_wait(config) is Some
        ||| r is Err && exists|n: nat, last: Self| #[trigger]
            Self::spec_rounds(begun, config, n, last) && n < max_steps && Self::spec_round(
                last,
                config,
                post,
                r,
            )
    }

    /// How a whole simulation of at most `max_steps` rounds may take a run
    /// from `pre` to `post`: `begin` opens the run, which then goes as
    /// `spec_run` tells.
    pub open spec fn spec_simulate(
        pre: Self,
        config: Config,
        max_steps: nat,
        post: Self,
        r: Result<(), SimError>,
    ) -> bool {
        exists|begun: Simulator<M>| #[trigger]
            Simulator::spec_begin(pre.simulator, config, begun) && Self::spec_run(
                Run::of(begun, pre.wait_until, pre.propagate_output),
                config,
                max_steps,
                post,
                r,
            )
    }
}

/// An advance leaves the clock at the time it was given, and not past the
/// next event of the model unless it failed.
pub proof fn law_advance_sets_clock<M: AbstractSimulator, P: PropagateOutput<M::Output>>(
    pre: Simulator<M>,
    hook: P,
    t: Time,
    post: Simulator<M>,
    hook_post: P,
    ok: bool,
)
    requires
        Simulator::spec_advance(pre, hook, t, post, hook_post, ok),
    ensures
        post.clock == t,
        ok ==> post.on_schedule(),
{
}

/// A round in virtual time is an advance to the awaited time, with the
/// input bag of the model as it was: a hook that waits for nothing and takes
/// in nothing makes a real-time run go as a run in virtual time.
pub proof fn law_round_in_virtual_time<M: AbstractSimulator, P: PropagateOutput<M::Output>>(
    pre: Run<M, Immediate, P>,
    config: Config,
    post: Run<M, Immediate, P>,
    r: Result<(), SimError>,
)
    ensures
        Run::spec_round(pre, config, post, r) <==> {
            &&& pre.simulator.spec_next_wait(config) is Some
            &&& Simulator::spec_advance(
                pre.simulator,
                pre.propagate_output,
                pre.simulator.spec_next_wait(config)->0,
                post.simulator,
                post.propagate_output,
                r is Ok,
            )
            &&& r is Err ==> r == Err::<(), SimError>(SimError::PortFull)
        },
{
    let sim = pre.simulator;
    sim.model.lemma_with_input_same();
    if sim.spec_next_wait(config) is Some {
        let t_until = sim.spec_next_wait(config)->0;
        let w = Ok::<Time, SimError>(t_until);
        if Simulator::spec_advance(
            sim,
            pre.propagate_output,
            t_until,
            post.simulator,
            post.propagate_output,
            r is Ok,
        ) && (r is Err ==> r == Err::<(), SimError>(SimError::PortFull)) {
            assert(<Immediate as WaitUntil<M::Input>>::spec_wait(
                pre.wait_until,
                sim.clock,
                t_until,
                sim.model.input(),
                post.wait_until,
                sim.model.input(),
                w,
            ));
        }
    }
}

/// A round of a real-time run whose hook can only answer the awaited time
/// and leave the input bag as it was is a round in virtual time.
pub proof fn law_round_without_waiting<
    M: AbstractSimulator,
    W: WaitUntil<M::Input>,
    P: PropagateOutput<M::Output>,
>(pre: Run<M, W, P>, config: Config, post: Run<M, W, P>, r: Result<(), SimError>)
    requires
        Run::spec_round(pre, config, post, r),
        forall|y: M::Input, w: Result<Time, SimError>| #[trigger]
            W::spec_wait(
                pre.wait_until,
                pre.simulator.clock,
                pre.simulator.spec_next_wait(config)->0,
                pre.simulator.model.input(),
                post.wait_until,
                y,
                w,
            ) ==> y == pre.simulator.model.input() && w == Ok::<Time, SimError>(
                pre.simulator.spec_next_wait(config)->0,
            ),
    ensures
        Run::spec_round(
            Run::of(pre.simulator, Immediate, pre.propagate_output),
            config,
            Run::of(post.simulator, Immediate, post.propagate_output),
            r,
        ),
{
    pre.simulator.model.lemma_with_input_same();
    law_round_in_virtual_time(
        Run::of(pre.simulator, Immediate, pre.propagate_output),
        config,
        Run::of(post.simulator, Immediate, post.propagate_output),
        r,
    );
}

/// Monotone time: a round in virtual time of a run that is on schedule
/// never moves the clock back nor past `t_stop`, and leaves the run on
/// schedule unless it fails.
pub proof fn law_monotone_time<M: AbstractSimulator, P: PropagateOutput<M::Output>>(
    pre: Run<M, Immediate, P>,
    config: Config,
    post: Run<M, Immediate, P>,
    r: Result<(), SimError>,
)
    requires
        pre.simulator.on_schedule(),
        Run::spec_round(pre, config, post, r),
    ensures
        pre.simulator.clock.ticks <= post.simulator.clock.ticks <= config.t_stop.ticks,
        r is Ok ==> post.simulator.on_schedule(),
{
    law_round_in_virtual_time(pre, config, post, r);
}

/// Monotone time, in real time: a round of a run that is on schedule, with
/// a hook that answers no time before the one it waits from nor after the
/// one it waits for, never moves the clock back nor past `t_stop`.
pub proof fn law_monotone_time_paced<
    M: AbstractSimulator,
    W: WaitUntil<M::Input>,
    P: PropagateOutput<M::Output>,
>(pre: Run<M, W, P>, config: Config, post: Run<M, W, P>, r: Result<(), SimError>)
    requires
        pre.simulator.on_schedule(),
        Run::spec_round(pre, config, post, r),
        forall|y: M::Input, t: Time| #[trigger]
            W::spec_wait(
                pre.wait_until,
                pre.simulator.clock,
                pre.simulator.spec_next_wait(config)->0,
                pre.simulator.model.input(),
                post.wait_until,
                y,
                Ok(t),
            ) ==> pre.simulator.clock.ticks <= t.ticks <= pre.simulator.spec_next_wait(
                config,
            )->0.ticks,
    ensures
        pre.simulator.clock.ticks <= post.simulator.clock.ticks <= config.t_stop.ticks,
        r is Ok ==> post.simulator.on_schedule(),
{
}

/// Monotone time, over a whole run in virtual time that starts on schedule:
/// the clock never goes back from one round to a later one and, once a
/// round has been made, is never past `t_stop`.
pub proof fn law_monotone_run<M: AbstractSimulator, P: PropagateOutput<M::Output>>(
    trace: Seq<Run<M, Immediate, P>>,
    config: Config,
    i: int,
    j: int,
)
    requires
        Run::spec_trace(trace, config),
        trace.len() > 0,
        trace[0].simulator.on_schedule(),
        0 <= i <= j < trace.len(),
    ensures
        trace[j].simulator.on_schedule(),
        trace[i].simulator.clock.ticks <= trace[j].simulator.clock.ticks,
        j > 0 ==> trace[j].simulator.clock.ticks <= config.t_stop.ticks,
    decreases j,
{
    if j > 0 {
        law_monotone_run(trace, config, 0, j - 1);
        let _ = trace[j - 1];
        law_monotone_time(trace[j - 1], config, trace[j], Ok(()));
        if i < j {
            law_monotone_run(trace, config, i, j - 1);
        }
    }
}

} // verus!
