//! Flight loop callbacks: code the host runs at timed intervals or with its flight model.
//!
//! A [`FlightLoop`] holds the handler and its state for as long as the callbacks should run;
//! the host reads the handler's [`LoopResult`] as the time of the next call.
use vstd::prelude::*;

use core::time::Duration;

use crate::registry::{ContextBlock, HostId, LifeEvent, Stage};
use crate::XPAPI;

verus! {

/// Loop results, which determine when the callback will be called next
#[derive(Debug, Clone, Copy)]
pub enum LoopResult {
    /// Callback will be called after the provided time
    Seconds(Duration),
    /// Callback will be called after the provided number of loops
    Loops(u32),
    /// Callback will be called after the next loop. Equivalent to `Loops(1)`.
    NextLoop,
    /// Callback will not be called again until it is rescheduled
    Deactivate,
}

/// The number the host receives for a result counted in loops, or for deactivation: minus
/// the number of loops, or zero. A result in seconds is sent as that positive time instead.
pub open spec fn spec_loop_code(r: LoopResult) -> Option<int> {
    match r {
        LoopResult::Seconds(_) => None,
        LoopResult::Loops(n) => Some(-(n as int)),
        LoopResult::NextLoop => Some(-1),
        LoopResult::Deactivate => Some(0),
    }
}

/// Each result the trampoline returns is encoded as the host reads it: `n` loops as `-n`,
/// the next loop as `-1` (the same as one loop), deactivation as `0`, and a time in seconds
/// as that positive time rather than a loop count.
pub proof fn law_loop_encoding(n: u32, d: Duration)
    ensures
        spec_loop_code(LoopResult::Loops(n)) == Some(-(n as int)),
        spec_loop_code(LoopResult::NextLoop) == spec_loop_code(LoopResult::Loops(1)),
        spec_loop_code(LoopResult::Deactivate) == Some(0int),
        spec_loop_code(LoopResult::Seconds(d)) is None,
        n > 0 ==> spec_loop_code(LoopResult::Loops(n)) != spec_loop_code(LoopResult::Deactivate),
{
}

impl LoopResult {
    /// The host's encoding of this result when it is counted in loops (or is a deactivation):
    /// `-n` after `n` loops, `-1` for the next loop, `0` to stop. `None` for a result in
    /// seconds, which the host receives as that positive number of seconds.
    pub fn loop_code(&self) -> (r: Option<i64>)
        ensures
            r matches Some(c) ==> spec_loop_code(*self) == Some(c as int),
            r is None ==> spec_loop_code(*self) is None,
    {
        match self {
            LoopResult::Seconds(_) => None,
            LoopResult::Loops(n) => Some(-(*n as i64)),
            LoopResult::NextLoop => Some(-1),
            LoopResult::Deactivate => Some(0),
        }
    }

    /// The delay of a result in seconds.
    pub fn seconds(&self) -> (r: Option<Duration>)
        ensures
            r is Some <==> *self is Seconds,
            r matches Some(d) ==> *self == LoopResult::Seconds(d),
    {
        match self {
            LoopResult::Seconds(d) => Some(*d),
            _ => None,
        }
    }
}

/// Information available during a flight loop callback
///
/// By default, a flight loop callback will continue to be called on its initial schedule.
/// The handler's result only needs to change if the scheduling should change.
pub struct LoopState<'a, T> {
    /// Time since last callback call
    since_call: Duration,
    /// Time since last flight loop
    since_loop: Duration,
    /// Callback counter
    counter: i32,
    /// The state kept with the callback
    state_data: &'a mut T,
}

impl<'a, T> LoopState<'a, T> {
    pub closed spec fn spec_state(&self) -> T {
        *self.state_data
    }

    pub closed spec fn spec_since_call(&self) -> Duration {
        self.since_call
    }

    pub closed spec fn spec_since_loop(&self) -> Duration {
        self.since_loop
    }

    pub closed spec fn spec_counter(&self) -> i32 {
        self.counter
    }

    /// The information of one host call, around the stored state.
    pub fn new(since_call: Duration, since_loop: Duration, counter: i32, state: &'a mut T) -> (r:
        LoopState<'a, T>)
        ensures
            r.spec_since_call() == since_call,
            r.spec_since_loop() == since_loop,
            r.spec_counter() == counter,
            r.spec_state() == *old(state),
    {
        LoopState { since_call, since_loop, counter, state_data: state }
    }

    /// Returns the duration since the last time this callback was called
    pub fn since_last_call(&self) -> (r: Duration)
        ensures
            r == self.spec_since_call(),
    {
        self.since_call
    }

    /// Returns the duration since the last flight loop
    ///
    /// If this callback is not called every flight loop, this may be different from the
    /// value returned from `since_last_call`.
    pub fn since_last_loop(&self) -> (r: Duration)
        ensures
            r == self.spec_since_loop(),
    {
        self.since_loop
    }

    /// Returns the value of a counter that increments every time the callback is called
    pub fn counter(&self) -> (r: i32)
        ensures
            r == self.spec_counter(),
    {
        self.counter
    }

    /// The state kept with the callback.
    pub fn state(&self) -> (r: &T)
        ensures
            *r == self.spec_state(),
    {
        self.state_data
    }

    /// The state kept with the callback, for changing.
    pub fn state_mut(&mut self) -> (r: &mut T)
        ensures
            *r == old(self).spec_state(),
    {
        self.state_data
    }
}

/// Trait for objects that can receive flight loop callbacks
pub trait FlightLoopCallback<T> {
    /// Called periodically by the host according to the provided scheduling
    ///
    /// The provided [`LoopState`] gives the timing of this call and the stored state. The
    /// result sets when the next call comes.
    fn flight_loop(&mut self, x: &mut XPAPI, state: &mut LoopState<T>) -> LoopResult;
}

/// A flight loop registration: the handler, its state, and the schedule last requested.
pub struct FlightLoop<T, C> {
    /// Handler, state and lifecycle
    block: ContextBlock<C, T>,
    /// The result last returned or requested, or `None` if the loop has not been scheduled
    loop_result: Option<LoopResult>,
}

impl<T, C: FlightLoopCallback<T>> FlightLoop<T, C> {
    pub closed spec fn block(&self) -> ContextBlock<C, T> {
        self.block
    }

    pub closed spec fn spec_loop_result(&self) -> Option<LoopResult> {
        self.loop_result
    }

    pub open spec fn wf(&self) -> bool {
        self.block().wf()
    }

    /// Allocates a flight loop around `callback` and `base_state`, before the host creates
    /// it. The callback is not called until the loop is scheduled.
    pub fn new(callback: C, base_state: T) -> (r: Self)
        ensures
            r.wf(),
            r.block().stage() == Stage::Allocated,
            r.block().history() == seq![LifeEvent::Allocate],
            r.spec_loop_result() is None,
    {
        FlightLoop { block: ContextBlock::new(callback, base_state), loop_result: None }
    }

    /// Records the id under which the host created this loop.
    pub fn bind(&mut self, id: HostId)
        requires
            old(self).wf(),
            old(self).block().stage() == Stage::Allocated,
        ensures
            final(self).wf(),
            final(self).block().stage() == Stage::Registered,
            final(self).block().spec_host_id() == Some(id),
            final(self).block().spec_active(),
            final(self).block().outcome() == Some(id),
            final(self).block().spec_state() == old(self).block().spec_state(),
            final(self).block().history() == old(self).block().history().push(
                LifeEvent::Register(id),
            ),
            final(self).spec_loop_result() == old(self).spec_loop_result(),
    {
        let _ = self.block.bind(Some(id));
    }

    /// The result last returned by the handler or requested by a schedule call.
    pub fn loop_result(&self) -> (r: Option<LoopResult>)
        ensures
            r == self.spec_loop_result(),
    {
        self.loop_result
    }

    /// Requests `interval` as the schedule; returns the id of the loop to reschedule with the
    /// host.
    pub fn set_interval(&mut self, interval: LoopResult) -> (r: HostId)
        requires
            old(self).wf(),
            old(self).block().stage() == Stage::Registered,
        ensures
            final(self).wf(),
            final(self).block() == old(self).block(),
            final(self).spec_loop_result() == Some(interval),
            old(self).block().spec_host_id() == Some(r),
    {
        self.loop_result = Some(interval);
        match self.block.host_id() {
            Some(id) => id,
            None => 0,
        }
    }

    /// Schedules the callback for the next flight loop, and every loop after it.
    pub fn schedule_immediate(&mut self) -> (r: HostId)
        requires
            old(self).wf(),
            old(self).block().stage() == Stage::Registered,
        ensures
            final(self).wf(),
            final(self).block() == old(self).block(),
            final(self).spec_loop_result() == Some(LoopResult::Loops(1)),
            old(self).block().spec_host_id() == Some(r),
    {
        self.set_interval(LoopResult::Loops(1))
    }

    /// Schedules the callback every `loops` flight loops.
    pub fn schedule_after_loops(&mut self, loops: u32) -> (r: HostId)
        requires
            old(self).wf(),
            old(self).block().stage() == Stage::Registered,
        ensures
            final(self).wf(),
            final(self).block() == old(self).block(),
            final(self).spec_loop_result() == Some(LoopResult::Loops(loops)),
            old(self).block().spec_host_id() == Some(r),
    {
        self.set_interval(LoopResult::Loops(loops))
    }

    /// Schedules the callback after `time`, and at that interval afterwards.
    pub fn schedule_after(&mut self, time: Duration) -> (r: HostId)
        requires
            old(self).wf(),
            old(self).block().stage() == Stage::Registered,
        ensures
            final(self).wf(),
            final(self).block() == old(self).block(),
            final(self).spec_loop_result() == Some(LoopResult::Seconds(time)),
            old(self).block().spec_host_id() == Some(r),
    {
        self.set_interval(LoopResult::Seconds(time))
    }

    /// Stops the callbacks until the loop is scheduled again.
    pub fn deactivate(&mut self) -> (r: HostId)
        requires
            old(self).wf(),
            old(self).block().stage() == Stage::Registered,
        ensures
            final(self).wf(),
            final(self).block() == old(self).block(),
            final(self).spec_loop_result() == Some(LoopResult::Deactivate),
            old(self).block().spec_host_id() == Some(r),
    {
        self.set_interval(LoopResult::Deactivate)
    }

    /// The trampoline's work for one host call: runs the handler on the stored state and
    /// keeps its result, which the host receives as the time of the next call.
    pub fn tick(&mut self, x: &mut XPAPI, since_call: Duration, since_loop: Duration, counter: i32) -> (r:
        LoopResult)
        requires
            old(self).wf(),
            old(self).block().stage() == Stage::Registered,
        ensures
            final(self).wf(),
            final(self).block().stage() == Stage::Registered,
            final(self).block().spec_host_id() == old(self).block().spec_host_id(),
            final(self).block().history() == old(self).block().history().push(
                LifeEvent::Invoke(false),
            ),
            final(self).block().spec_active() == old(self).block().spec_active(),
            final(self).block().outcome() == old(self).block().outcome(),
            final(self).spec_loop_result() == Some(r),
    {
        let (callback, state) = self.block.parts_mut();
        let mut loop_state = LoopState::new(since_call, since_loop, counter, state);
        let r = callback.flight_loop(x, &mut loop_state);
        self.block.record_invocation(false);
        self.loop_result = Some(r);
        r
    }

    /// Begins the teardown: the id of the loop that the host must destroy before the loop is
    /// released.
    pub fn detach(&mut self) -> (r: Option<HostId>)
        requires
            old(self).wf(),
            old(self).block().stage() == Stage::Registered,
        ensures
            final(self).wf(),
            final(self).block().stage() == Stage::Detached,
            r == (if old(self).block().spec_active() {
                old(self).block().spec_host_id()
            } else {
                None
            }),
            final(self).block().history() == old(self).block().history() + crate::registry::teardown_events(
                old(self).block().spec_host_id()->Some_0,
                old(self).block().finals(),
            ),
            final(self).block().spec_host_id() == old(self).block().spec_host_id(),
            final(self).block().spec_state() == old(self).block().spec_state(),
            final(self).block().outcome() == old(self).block().outcome(),
            final(self).block().finals() == old(self).block().finals(),
            final(self).spec_loop_result() == old(self).spec_loop_result(),
    {
        self.block.detach()
    }

    /// Frees the loop with its handler and state, and returns the loop's complete history.
    pub fn release(self) -> (history: Ghost<Seq<LifeEvent>>)
        requires
            self.wf(),
            self.block().stage() == Stage::Detached,
        ensures
            history@ == self.block().history().push(LifeEvent::Release),
            history@ == crate::registry::lifecycle(self.block().outcome(), self.block().finals()),
    {
        self.block.release()
    }
}

} // verus!
