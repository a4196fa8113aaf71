//! Drawing callbacks: code the host runs in a given phase of its drawing.
use vstd::prelude::*;

use crate::registry::{ContextBlock, HostId, LifeEvent, RegistrationError, Stage};

verus! {

/// Phases in which drawing can occur
#[derive(Debug, Clone, Copy, PartialEq, Eq, Structural)]
pub enum Phase {
    /// After the host draws the panel
    AfterPanel,
    /// After the host draws panel gauges
    AfterGauges,
    /// After the host draws user interface windows
    AfterWindows,
    /// After the host draws 3D content in the local map window
    AfterLocalMap3D,
    /// After the host draws 2D content in the local map window
    AfterLocalMap2D,
    /// After the host draws 2D content in the local map profile view
    AfterLocalMapProfile,
}

/// The host's code of each drawing phase.
pub open spec fn phase_code(p: Phase) -> i32 {
    match p {
        Phase::AfterPanel => 40,
        Phase::AfterGauges => 45,
        Phase::AfterWindows => 50,
        Phase::AfterLocalMap3D => 100,
        Phase::AfterLocalMap2D => 101,
        Phase::AfterLocalMapProfile => 102,
    }
}

impl Phase {
    /// The host's code of this phase.
    pub fn to_xplm(self) -> (r: i32)
        ensures
            r == phase_code(self),
    {
        match self {
            Phase::AfterPanel => 40,
            Phase::AfterGauges => 45,
            Phase::AfterWindows => 50,
            Phase::AfterLocalMap3D => 100,
            Phase::AfterLocalMap2D => 101,
            Phase::AfterLocalMapProfile => 102,
        }
    }
}

/// Errors that can occur when creating a draw callback
#[derive(Debug, Clone, Copy, PartialEq, Eq, Structural)]
pub enum Error {
    /// The host does not support the provided phase
    UnsupportedPhase { phase: Phase },
}

impl Error {
    /// The error in the taxonomy shared by every registration.
    pub fn kind(&self) -> (r: RegistrationError)
        ensures
            r == RegistrationError::HostRejected,
    {
        RegistrationError::HostRejected
    }
}

/// A callback that can be called while the host draws graphics
pub trait DrawCallback {
    /// Draws
    fn draw(&mut self);
}

/// A draw callback registered with the host. It is known by its phase.
pub struct Draw<C> {
    block: ContextBlock<C, Phase>,
}

impl<C: DrawCallback> Draw<C> {
    pub closed spec fn block(&self) -> ContextBlock<C, Phase> {
        self.block
    }

    /// Allocates a draw callback for `phase`, before the host registration call.
    pub fn new(phase: Phase, callback: C) -> (r: Self)
        ensures
            r.block().wf(),
            r.block().stage() == Stage::Allocated,
            r.block().spec_state() == phase,
            r.block().history() == seq![LifeEvent::Allocate],
    {
        Draw { block: ContextBlock::new(callback, phase) }
    }

    /// The host's code of the phase, for the register and unregister calls.
    pub fn phase_code(&self) -> (r: i32)
        ensures
            r == phase_code(self.block().spec_state()),
    {
        self.block.state_ref().to_xplm()
    }

    /// Records the host's answer: `status` 1 accepts the phase, anything else refuses it,
    /// and a refused callback must be released at once.
    pub fn bind(&mut self, status: i32) -> (r: Result<(), Error>)
        requires
            old(self).block().wf(),
            old(self).block().stage() == Stage::Allocated,
        ensures
            final(self).block().wf(),
            r is Ok <==> status == 1,
            r is Err ==> r == Err::<(), Error>(
                Error::UnsupportedPhase { phase: old(self).block().spec_state() },
            ) && final(self).block().stage() == Stage::Refused,
            r is Ok ==> final(self).block().stage() == Stage::Registered
                && final(self).block().spec_active() && final(self).block().spec_host_id()
                == Some(phase_code(old(self).block().spec_state()) as HostId),
            final(self).block().outcome() == (if status == 1 {
                Some(phase_code(old(self).block().spec_state()) as HostId)
            } else {
                None
            }),
            final(self).block().spec_state() == old(self).block().spec_state(),
            final(self).block().history() == old(self).block().history().push(
                if status == 1 {
                    LifeEvent::Register(phase_code(old(self).block().spec_state()) as HostId)
                } else {
                    LifeEvent::Refuse
                },
            ),
    {
        let phase = *self.block.state_ref();
        let outcome: Option<HostId> = if status == 1 {
            Some(phase.to_xplm() as u64)
        } else {
            None
        };
        match self.block.bind(outcome) {
            Ok(()) => Ok(()),
            Err(_) => Err(Error::UnsupportedPhase { phase }),
        }
    }

    /// The trampoline's work for one host call: draws, and lets the host draw too (1).
    pub fn draw(&mut self) -> (r: i32)
        requires
            old(self).block().wf(),
            old(self).block().stage() == Stage::Registered,
        ensures
            final(self).block().wf(),
            final(self).block().stage() == Stage::Registered,
            final(self).block().spec_state() == old(self).block().spec_state(),
            final(self).block().spec_host_id() == old(self).block().spec_host_id(),
            final(self).block().history() == old(self).block().history().push(
                LifeEvent::Invoke(false),
            ),
            final(self).block().spec_active() == old(self).block().spec_active(),
            final(self).block().outcome() == old(self).block().outcome(),
            r == 1,
    {
        let (callback, _) = self.block.parts_mut();
        callback.draw();
        self.block.record_invocation(false);
        1
    }

    /// Begins the teardown: whether the host must unregister the callback before it is
    /// released.
    pub fn detach(&mut self) -> (r: Option<HostId>)
        requires
            old(self).block().wf(),
            old(self).block().stage() == Stage::Registered,
        ensures
            final(self).block().wf(),
            final(self).block().stage() == Stage::Detached,
            final(self).block().spec_state() == old(self).block().spec_state(),
            r == (if old(self).block().spec_active() {
                old(self).block().spec_host_id()
            } else {
                None
            }),
    {
        self.block.detach()
    }

    /// Frees the callback, and returns its complete history.
    pub fn release(self) -> (history: Ghost<Seq<LifeEvent>>)
        requires
            self.block().wf(),
            self.block().stage() == Stage::Refused || self.block().stage() == Stage::Detached,
        ensures
            history@ == self.block().history().push(LifeEvent::Release),
            history@ == crate::registry::lifecycle(self.block().outcome(), self.block().finals()),
    {
        self.block.release()
    }
}

/// Stores various flags that can be enabled or disabled
#[derive(Debug, Clone, Copy, PartialEq, Eq, Structural)]
pub struct GraphicsState {
    /// Enable status of fog
    pub fog: bool,
    /// Enable status of 3D lighting
    pub lighting: bool,
    /// Enable status of alpha testing
    pub alpha_testing: bool,
    /// Enable status of alpha blending
    pub alpha_blending: bool,
    /// Enable status of depth testing
    pub depth_testing: bool,
    /// Enable status of depth writing
    pub depth_writing: bool,
    /// The number of textures that are enabled for use
    pub textures: i32,
}

/// 1 for true, 0 for false.
pub open spec fn flag(b: bool) -> i32 {
    if b {
        1
    } else {
        0
    }
}

fn flag_code(b: bool) -> (r: i32)
    ensures
        r == flag(b),
{
    if b {
        1
    } else {
        0
    }
}

impl GraphicsState {
    /// The host's arguments for this state, in its order: fog, textures, lighting, alpha
    /// testing, alpha blending, depth testing, depth writing.
    pub fn host_args(&self) -> (r: (i32, i32, i32, i32, i32, i32, i32))
        ensures
            r == (
                flag(self.fog),
                self.textures,
                flag(self.lighting),
                flag(self.alpha_testing),
                flag(self.alpha_blending),
                flag(self.depth_testing),
                flag(self.depth_writing),
            ),
    {
        (
            flag_code(self.fog),
            self.textures,
            flag_code(self.lighting),
            flag_code(self.alpha_testing),
            flag_code(self.alpha_blending),
            flag_code(self.depth_testing),
            flag_code(self.depth_writing),
        )
    }
}

} // verus!
