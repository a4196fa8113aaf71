//! Camera control: a registration that positions the host's camera on every frame.
use vstd::prelude::*;

use crate::registry::{ContextBlock, HostId, LifeEvent, Stage};
use crate::NoSendSync;

verus! {

/// Access struct for the host's camera API.
pub struct CameraApi {
    pub _phantom: NoSendSync,
}

/// The duration code the host never gives, used to detect that it wrote none.
pub const NO_DURATION: i32 = 1000;

impl CameraApi {
    /// Whether the camera is being controlled, from the host's answer (`host_result`, 0 for
    /// no) and the duration code it wrote (left at `NO_DURATION` when it wrote none).
    pub fn is_controlled(&mut self, host_result: i32, duration: i32) -> (r: Option<i32>)
        ensures
            r == (if host_result == 0 || duration == NO_DURATION {
                None
            } else {
                Some(duration)
            }),
    {
        if host_result == 0 {
            None
        } else if duration != NO_DURATION {
            Some(duration)
        } else {
            None
        }
    }
}

/// A registered camera controller; its handler lives with the code that draws positions.
/// The host may take control back, which it signals on its last call.
pub struct RegisteredController {
    block: ContextBlock<(), i32>,
}

impl RegisteredController {
    pub closed spec fn block(&self) -> ContextBlock<(), i32> {
        self.block
    }

    /// Allocates a controller for `duration`, before the host is asked for control.
    pub fn new(duration: i32) -> (r: Self)
        ensures
            r.block().wf(),
            r.block().stage() == Stage::Allocated,
            r.block().spec_state() == duration,
            r.block().history() == seq![LifeEvent::Allocate],
    {
        RegisteredController { block: ContextBlock::new((), duration) }
    }

    /// Records that the host took the controller; there is one camera, so its id is 0.
    pub fn bind(&mut self)
        requires
            old(self).block().wf(),
            old(self).block().stage() == Stage::Allocated,
        ensures
            final(self).block().wf(),
            final(self).block().stage() == Stage::Registered,
            final(self).block().spec_active(),
            final(self).block().spec_host_id() == Some(0u64),
            final(self).block().outcome() == Some(0u64),
            final(self).block().spec_state() == old(self).block().spec_state(),
            final(self).block().history() == old(self).block().history().push(
                LifeEvent::Register(0),
            ),
    {
        let _ = self.block.bind(Some(0));
    }

    /// Check if this camera controller is active.
    pub fn is_active(&self) -> (r: bool)
        ensures
            r == self.block().spec_active(),
    {
        self.block.is_active()
    }

    /// The trampoline's bookkeeping for one host call: the number the host receives (1 when
    /// the controller wrote a position, 0 when it let the host place the camera). The
    /// host's `losing_control` marks its last call.
    pub fn control(&mut self, repositioned: bool, losing_control: bool) -> (r: i32)
        requires
            old(self).block().wf(),
            old(self).block().stage() == Stage::Registered,
        ensures
            final(self).block().wf(),
            final(self).block().stage() == Stage::Registered,
            final(self).block().spec_active() == (old(self).block().spec_active()
                && !losing_control),
            final(self).block().history() == old(self).block().history().push(
                LifeEvent::Invoke(losing_control),
            ),
            r == (if repositioned { 1i32 } else { 0i32 }),
    {
        self.block.record_invocation(losing_control);
        if repositioned {
            1
        } else {
            0
        }
    }

    /// Begins the teardown: true when the host must be told to stop calling the controller.
    pub fn detach(&mut self) -> (r: bool)
        requires
            old(self).block().wf(),
            old(self).block().stage() == Stage::Registered,
        ensures
            final(self).block().wf(),
            final(self).block().stage() == Stage::Detached,
            r == old(self).block().spec_active(),
    {
        proof {
            self.block.lemma_bound();
        }
        let id: Option<HostId> = self.block.detach();
        id.is_some()
    }

    /// Frees the controller, and returns its complete history.
    pub fn release(self) -> (history: Ghost<Seq<LifeEvent>>)
        requires
            self.block().wf(),
            self.block().stage() == Stage::Detached,
        ensures
            history@ == self.block().history().push(LifeEvent::Release),
            history@ == crate::registry::lifecycle(self.block().outcome(), self.block().finals()),
    {
        self.block.release()
    }
}

} // verus!
