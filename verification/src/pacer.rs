//! Real-time pacing: the hook that keeps a run in step with a wall clock.
//!
//! Wall-clock time is counted in nanoseconds from an origin that the clock
//! chooses; `u64::MAX` stands for an instant that never comes.

use crate::simulator::{Config, SimError, WaitUntil};
use crate::time::Time;
use vstd::prelude::*;

verus! {

/// The wall-clock instant `span` ticks of virtual time after `last_rt`, at
/// `time_scale` nanoseconds a tick; an instant too far to count never comes.
pub open spec fn spec_deadline(last_rt: u64, span: Time, time_scale: u64) -> u64 {
    if last_rt + span.ticks * time_scale >= u64::MAX {
        u64::MAX
    } else {
        (last_rt + span.ticks * time_scale) as u64
    }
}

/// The wall-clock instant at which a run that was in step at `last_rt` is
/// due after `span` ticks of virtual time.
#[verifier::when_used_as_spec(spec_deadline)]
pub fn deadline(last_rt: u64, span: Time, time_scale: u64) -> (next_rt: u64)
    ensures
        next_rt == spec_deadline(last_rt, span, time_scale),
{
    assert(span.ticks * time_scale <= u64::MAX * u64::MAX) by (nonlinear_arith)
        requires
            0 <= span.ticks <= u64::MAX,
            0 <= time_scale <= u64::MAX,
    ;
    let wait: u128 = (span.ticks as u128) * (time_scale as u128);
    let due: u128 = wait + (last_rt as u128);
    if due >= u64::MAX as u128 {
        u64::MAX
    } else {
        due as u64
    }
}

/// The time left at `now` until `next_rt`, if `next_rt` has not passed.
pub open spec fn spec_budget(next_rt: u64, now: u64) -> Option<u64> {
    if next_rt >= now {
        Some((next_rt - now) as u64)
    } else {
        None
    }
}

/// How long the input handler may wait for external events at `now`:
/// until `next_rt`, and not at all once `next_rt` has passed.
#[verifier::when_used_as_spec(spec_budget)]
pub fn budget(next_rt: u64, now: u64) -> (left: Option<u64>)
    ensures
        left == spec_budget(next_rt, now),
{
    if next_rt >= now {
        Some(next_rt - now)
    } else {
        None
    }
}

/// The virtual time that `elapsed` nanoseconds stand for at `time_scale`
/// nanoseconds a tick, kept between `t_from` and `t_until`. At a scale of 0
/// virtual time takes no wall-clock time at all, and `t_until` is reached.
pub open spec fn spec_virtual_time(
    elapsed: u64,
    time_scale: u64,
    t_from: Time,
    t_until: Time,
) -> Time {
    if time_scale == 0 || elapsed / time_scale >= t_until.ticks {
        t_until
    } else if elapsed / time_scale <= t_from.ticks {
        t_from
    } else {
        Time { ticks: elapsed / time_scale }
    }
}

/// The virtual time that a wait from `t_from` up to `t_until` has reached
/// when it ends early, `elapsed` nanoseconds after the pacing began.
#[verifier::when_used_as_spec(spec_virtual_time)]
pub fn virtual_time(elapsed: u64, time_scale: u64, t_from: Time, t_until: Time) -> (t: Time)
    ensures
        t == spec_virtual_time(elapsed, time_scale, t_from, t_until),
        t_from.ticks <= t_until.ticks ==> t_from.ticks <= t.ticks <= t_until.ticks,
{
    if time_scale == 0 {
        t_until
    } else {
        let ticks = elapsed / time_scale;
        if ticks >= t_until.ticks {
            t_until
        } else if ticks <= t_from.ticks {
            t_from
        } else {
            Time::new(ticks)
        }
    }
}

/// The state of the pacing of one run.
#[derive(Clone, Copy, Debug, PartialEq, Eq, Structural)]
pub struct Pace {
    /// The nanoseconds of wall-clock time that one tick of virtual time takes.
    pub time_scale: u64,
    /// The greatest drift allowed, in nanoseconds, if any.
    pub max_jitter: Option<u64>,
    /// The wall-clock instant at which the pacing began.
    pub start_rt: u64,
    /// The wall-clock instant up to which the run is in step.
    pub last_rt: u64,
}

impl Pace {
    /// The pacing of a run that begins at the wall-clock instant `now`.
    pub fn new(config: &Config, now: u64) -> (pace: Pace)
        ensures
            pace == (Pace {
                time_scale: config.time_scale,
                max_jitter: config.max_jitter,
                start_rt: now,
                last_rt: now,
            }),
    {
        Pace {
            time_scale: config.time_scale,
            max_jitter: config.max_jitter,
            start_rt: now,
            last_rt: now,
        }
    }

    /// The wall-clock instant at which the wait from `t_from` up to
    /// `t_until` is over.
    pub open spec fn spec_next_rt(self, t_from: Time, t_until: Time) -> u64 {
        spec_deadline(self.last_rt, t_until.minus(t_from), self.time_scale)
    }

    /// The wall-clock instant at which the wait from `t_from` up to
    /// `t_until` is over.
    #[verifier::when_used_as_spec(spec_next_rt)]
    pub fn next_rt(self, t_from: Time, t_until: Time) -> (next_rt: u64)
        ensures
            next_rt == self.spec_next_rt(t_from, t_until),
    {
        deadline(self.last_rt, t_until.minus(t_from), self.time_scale)
    }

    /// The wall clock is found at `now`, at or after `next_rt`, further
    /// behind the run than the pacing allows.
    pub open spec fn spec_late(self, next_rt: u64, now: u64) -> bool {
        self.max_jitter matches Some(max_jitter) && now - next_rt > max_jitter
    }

    /// What a wait from `t_from` up to `t_until`, due at `next_rt`, answers
    /// when it ends at the wall-clock instant `now`:
    /// - at or after `next_rt`, `t_until`, unless the drift `now - next_rt`
    ///   exceeds `max_jitter`;
    /// - before `next_rt`, the virtual time that the wall-clock time since
    ///   the pacing began stands for.
    pub open spec fn spec_settle_answer(
        self,
        next_rt: u64,
        now: u64,
        t_from: Time,
        t_until: Time,
    ) -> Result<Time, SimError> {
        if now >= next_rt {
            if self.spec_late(next_rt, now) {
                Err(SimError::JitterExceeded { drift: (now - next_rt) as u64 })
            } else {
                Ok(t_until)
            }
        } else {
            Ok(
                spec_virtual_time(
                    if now >= self.start_rt {
                        (now - self.start_rt) as u64
                    } else {
                        0
                    },
                    self.time_scale,
                    t_from,
                    t_until,
                ),
            )
        }
    }

    /// The pacing after that wait: in step up to `next_rt` when the wait
    /// ran its time, up to `now` when it ended early, and as it was when
    /// the drift was too great.
    pub open spec fn spec_settle_pace(self, next_rt: u64, now: u64) -> Pace {
        if now >= next_rt {
            if self.spec_late(next_rt, now) {
                self
            } else {
                Pace { last_rt: next_rt, ..self }
            }
        } else {
            Pace { last_rt: now, ..self }
        }
    }

    /// Ends a wait from `t_from` up to `t_until` that was due at `next_rt`,
    /// at the wall-clock instant `now`: it checks that the wall-clock drift
    /// does not exceed the maximum jitter allowed (if any), and returns the
    /// virtual time that the run has reached.
    pub fn settle(&mut self, next_rt: u64, now: u64, t_from: Time, t_until: Time) -> (r: Result<
        Time,
        SimError,
    >)
        ensures
            r == old(self).spec_settle_answer(next_rt, now, t_from, t_until),
            *final(self) == old(self).spec_settle_pace(next_rt, now),
            r matches Ok(t) ==> t_from.ticks <= t_until.ticks ==> t_from.ticks <= t.ticks
                <= t_until.ticks,
    {
        if now >= next_rt {
            let drift = now - next_rt;
            match self.max_jitter {
                Some(max_jitter) => {
                    if drift > max_jitter {
                        return Err(SimError::JitterExceeded { drift });
                    }
                },
                None => {},
            }
            self.last_rt = next_rt;
            Ok(t_until)
        } else {
            self.last_rt = now;
            let elapsed = if now >= self.start_rt {
                now - self.start_rt
            } else {
                0
            };
            Ok(virtual_time(elapsed, self.time_scale, t_from, t_until))
        }
    }
}

/// A wall clock.
///
/// A clock may say what it tells by giving `spec_now`; left out, the
/// relation allows any reading.
pub trait Clock: Sized {
    /// How a reading may take the clock from `pre` to `post`, and tell `now`.
    open spec fn spec_now(pre: Self, post: Self, now: u64) -> bool {
        true
    }

    /// The wall-clock instant of the call, in nanoseconds from the origin of
    /// the clock.
    fn now(&mut self) -> (now: u64)
        ensures
            Self::spec_now(*old(self), *final(self), now),
    ;
}

/// What handles incoming external events during a wait.
///
/// A handler may say what it does by giving `spec_handle`; left out, the
/// relation allows any outcome.
pub trait InputHandler<I>: Sized {
    /// How a wait of at most `duration` nanoseconds may take the handler
    /// from `pre` to `post` and the input bag from `x` to `y`.
    open spec fn spec_handle(pre: Self, duration: u64, x: I, post: Self, y: I) -> bool {
        true
    }

    /// Waits for external events, for `duration` nanoseconds at most, and
    /// puts what has arrived into `input`. It may return earlier if an input
    /// event is received. It must not return later.
    fn handle(&mut self, duration: u64, input: &mut I)
        ensures
            Self::spec_handle(*old(self), duration, *old(input), *final(self), *final(input)),
    ;
}

/// The hook that paces a run by a wall clock and lets an input handler wait
/// for external events between the transitions.
pub struct WaitEvent<C: Clock, H> {
    pub pace: Pace,
    pub clock: C,
    pub input_handler: H,
}

/// It computes the next wall-clock time corresponding to the next state transition of the model.
///
/// An input handler waits for external events without exceeding the time for the next internal event.
/// Finally, the hook checks that the wall-clock drift does not exceed the maximum jitter allowed
/// (if any) and fails if it does.
///
/// The pacing begins at the instant that `clock` tells now.
pub fn wait_event<C: Clock, H>(config: &Config, clock: C, input_handler: H) -> (hook: WaitEvent<
    C,
    H,
>)
    ensures
        C::spec_now(clock, hook.clock, hook.pace.start_rt),
        hook.pace == (Pace {
            time_scale: config.time_scale,
            max_jitter: config.max_jitter,
            start_rt: hook.pace.start_rt,
            last_rt: hook.pace.start_rt,
        }),
        hook.input_handler == input_handler,
{
    let mut clock = clock;
    let now = clock.now();
    WaitEvent { pace: Pace::new(config, now), clock, input_handler }
}

impl<I, C: Clock, H: InputHandler<I>> WaitUntil<I> for WaitEvent<C, H> {
    /// The clock is read, the handler waits if the wait is not yet over at
    /// that reading, the clock is read again, and the pacing settles at
    /// that reading.
    open spec fn spec_wait(
        pre: Self,
        t_from: Time,
        t_until: Time,
        x: I,
        post: Self,
        y: I,
        r: Result<Time, SimError>,
    ) -> bool {
        let next_rt = pre.pace.spec_next_rt(t_from, t_until);
        exists|before: u64, between: C, after: u64|
            #![trigger C::spec_now(pre.clock, between, before), C::spec_now(between, post.clock, after)]
            {
                &&& C::spec_now(pre.clock, between, before)
                &&& C::spec_now(between, post.clock, after)
                &&& match spec_budget(next_rt, before) {
                    Some(duration) => H::spec_handle(
                        pre.input_handler,
                        duration,
                        x,
                        post.input_handler,
                        y,
                    ),
                    None => post.input_handler == pre.input_handler && y == x,
                }
                &&& r == pre.pace.spec_settle_answer(next_rt, after, t_from, t_until)
                &&& post.pace == pre.pace.spec_settle_pace(next_rt, after)
            }
    }

    fn wait_until(&mut self, t_from: Time, t_until: Time, input: &mut I) -> (r: Result<
        Time,
        SimError,
    >) {
        let next_rt = self.pace.next_rt(t_from, t_until);
        let before = self.clock.now();
        let ghost between = self.clock;
        match budget(next_rt, before) {
            Some(duration) => {
                self.input_handler.handle(duration, input);
            },
            None => {},
        }
        let after = self.clock.now();
        let r = self.pace.settle(next_rt, after, t_from, t_until);
        assert(C::spec_now(between, self.clock, after));
        r
    }
}

/// At a time scale of 0 and without a bound on the jitter, every wait
/// answers the time that was awaited, whatever the wall clock tells.
pub proof fn law_unpaced(pace: Pace, next_rt: u64, now: u64, t_from: Time, t_until: Time)
    requires
        pace.time_scale == 0,
        pace.max_jitter is None,
    ensures
        pace.spec_settle_answer(next_rt, now, t_from, t_until) == Ok::<Time, SimError>(t_until),
{
}

/// A wait that ends in time answers the time that was awaited exactly when
/// the drift is within the jitter allowed, and fails with the drift when it
/// is not.
pub proof fn law_jitter(pace: Pace, next_rt: u64, now: u64, t_from: Time, t_until: Time)
    requires
        now >= next_rt,
    ensures
        pace.spec_settle_answer(next_rt, now, t_from, t_until) == (if pace.max_jitter is Some
            && now - next_rt > pace.max_jitter->0 {
            Err::<Time, SimError>(SimError::JitterExceeded { drift: (now - next_rt) as u64 })
        } else {
            Ok::<Time, SimError>(t_until)
        }),
{
}

/// A paced hook that waits from a time up to a later one answers a time
/// between the two.
pub proof fn law_paced_wait_conforms<I, C: Clock, H: InputHandler<I>>(
    pre: WaitEvent<C, H>,
    t_from: Time,
    t_until: Time,
    x: I,
    post: WaitEvent<C, H>,
    y: I,
    t: Time,
)
    requires
        t_from.ticks <= t_until.ticks,
        WaitEvent::spec_wait(pre, t_from, t_until, x, post, y, Ok(t)),
    ensures
        t_from.ticks <= t.ticks <= t_until.ticks,
{
}

/// A paced hook at a time scale of 0, without a bound on the jitter and
/// with a handler that leaves the input bag alone, can only answer the
/// awaited time and leave the input bag as it was.
pub proof fn law_unpaced_wait<I, C: Clock, H: InputHandler<I>>(
    pre: WaitEvent<C, H>,
    t_from: Time,
    t_until: Time,
    x: I,
    post: WaitEvent<C, H>,
    y: I,
    r: Result<Time, SimError>,
)
    requires
        pre.pace.time_scale == 0,
        pre.pace.max_jitter is None,
        forall|h: H, duration: u64, a: I, k: H, b: I| #[trigger]
            H::spec_handle(h, duration, a, k, b) ==> b == a,
        WaitEvent::spec_wait(pre, t_from, t_until, x, post, y, r),
    ensures
        y == x,
        r == Ok::<Time, SimError>(t_until),
        post.pace.time_scale == 0,
        post.pace.max_jitter is None,
{
}

} // verus!
