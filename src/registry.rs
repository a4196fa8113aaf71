//! The lifecycle of a host-registered callback.
//!
//! A registration owns one context block: the handler, its state, and the bookkeeping the
//! host needs. The block is allocated before the host registration call (its address is
//! the token handed to the host), bound to the host's id once that call returns, handed to
//! the trampoline on every host callback, and released exactly once, after the host has been
//! told to forget it. The functions here make those decisions; the code that talks to the
//! host performs them in the order they return.
use vstd::prelude::*;

use crate::ffi::NulByteError;
use crate::NoSendSync;

verus! {

/// An opaque id that the host assigned to a registration.
pub type HostId = u64;

/// What happened to a context block, in order.
#[derive(Debug, Clone, Copy, PartialEq, Eq, Structural)]
pub enum LifeEvent {
    /// The block was allocated, before any host call.
    Allocate,
    /// The host accepted the registration and gave it this id.
    Register(HostId),
    /// The host refused the registration.
    Refuse,
    /// The trampoline ran the handler; the flag says whether the host called it for the last
    /// time.
    Invoke(bool),
    /// The host was told to forget the registration with this id.
    Unregister(HostId),
    /// The block was freed.
    Release,
}

/// Where a context block stands in its lifecycle.
#[derive(Debug, Clone, Copy, PartialEq, Eq, Structural)]
pub enum Stage {
    /// Allocated, the host registration call not yet answered
    Allocated,
    /// Registered with the host, which may call the trampoline
    Registered,
    /// The host refused the registration: the block must be released
    Refused,
    /// The host will not call again: the block may be released
    Detached,
}

/// Errors of a registration or a lookup of a host entity.
#[derive(Debug, Clone, Copy, PartialEq, Eq, Structural)]
pub enum RegistrationError {
    /// The host already has something registered under that name.
    NameConflict,
    /// The host refused the registration for its own reasons.
    HostRejected,
    /// A name held a null byte; no host call was made.
    InvalidIdentifier(NulByteError),
    /// Nothing of that name exists in the host.
    NotFound,
    /// The host entity exists but holds another type.
    TypeMismatch,
}

/// True when none of the invocations was the host's last call.
pub open spec fn still_active(finals: Seq<bool>) -> bool {
    forall|i: int| 0 <= i < finals.len() ==> !finals[i]
}

/// The events of a sequence of trampoline invocations.
pub open spec fn invocations(finals: Seq<bool>) -> Seq<LifeEvent> {
    finals.map_values(|f: bool| LifeEvent::Invoke(f))
}

/// The history of a registered block after the given invocations.
pub open spec fn registered_history(id: HostId, finals: Seq<bool>) -> Seq<LifeEvent> {
    seq![LifeEvent::Allocate, LifeEvent::Register(id)] + invocations(finals)
}

/// The events of the teardown of a registered block.
pub open spec fn teardown_events(id: HostId, finals: Seq<bool>) -> Seq<LifeEvent> {
    if still_active(finals) {
        seq![LifeEvent::Unregister(id)]
    } else {
        Seq::empty()
    }
}

/// The complete history of a block whose registration call answered `outcome` (`None` for a
/// refusal) and whose trampoline then ran with the given last-call flags.
pub open spec fn lifecycle(outcome: Option<HostId>, finals: Seq<bool>) -> Seq<LifeEvent> {
    match outcome {
        None => seq![LifeEvent::Allocate, LifeEvent::Refuse, LifeEvent::Release],
        Some(id) => registered_history(id, finals) + teardown_events(id, finals) + seq![
            LifeEvent::Release,
        ],
    }
}

/// Every lifecycle frees its block exactly once, as its last event, whether the host accepted
/// the registration or not and however many times the trampoline ran.
pub proof fn law_released_exactly_once(outcome: Option<HostId>, finals: Seq<bool>)
    ensures
        lifecycle(outcome, finals).len() > 0,
        lifecycle(outcome, finals).last() == LifeEvent::Release,
        forall|i: int|
            0 <= i < lifecycle(outcome, finals).len() - 1 ==> lifecycle(outcome, finals)[i]
                != LifeEvent::Release,
{
    lemma_lifecycle_shape(outcome, finals);
}

/// When the host refuses a registration, the block allocated for it is released at once and
/// nothing stays registered.
pub proof fn law_refusal_leaves_nothing(finals: Seq<bool>)
    ensures
        lifecycle(None, finals) == seq![LifeEvent::Allocate, LifeEvent::Refuse, LifeEvent::Release],
        forall|i: int|
            0 <= i < lifecycle(None, finals).len() ==> !(lifecycle(None, finals)[i] is Register),
{
}

/// The host is told to unregister before the block is released; it is told exactly when it
/// has not already given up the registration with its last call.
pub proof fn law_unregister_before_release(id: HostId, finals: Seq<bool>)
    ensures
        forall|i: int, j: int|
            0 <= i < lifecycle(Some(id), finals).len() && 0 <= j < lifecycle(Some(id), finals).len()
                && lifecycle(Some(id), finals)[i] is Unregister && lifecycle(Some(id), finals)[j]
                == LifeEvent::Release ==> i < j,
        still_active(finals) ==> lifecycle(Some(id), finals)[lifecycle(Some(id), finals).len()
            - 2] == LifeEvent::Unregister(id),
        !still_active(finals) ==> forall|i: int|
            0 <= i < lifecycle(Some(id), finals).len() ==> !(lifecycle(
                Some(id),
                finals,
            )[i] is Unregister),
{
    lemma_lifecycle_shape(Some(id), finals);
}

/// The events before teardown are allocation, registration and invocations only.
proof fn lemma_lifecycle_shape(outcome: Option<HostId>, finals: Seq<bool>)
    ensures
        lifecycle(outcome, finals).len() > 0,
        lifecycle(outcome, finals).last() == LifeEvent::Release,
        forall|i: int|
            0 <= i < lifecycle(outcome, finals).len() - 1 ==> lifecycle(outcome, finals)[i]
                != LifeEvent::Release,
        outcome is Some ==> forall|i: int|
            0 <= i < registered_history(outcome->Some_0, finals).len() ==> !(registered_history(
                outcome->Some_0,
                finals,
            )[i] is Unregister) && registered_history(outcome->Some_0, finals)[i]
                != LifeEvent::Release,
        outcome is Some ==> lifecycle(outcome, finals) == registered_history(
            outcome->Some_0,
            finals,
        ) + teardown_events(outcome->Some_0, finals) + seq![LifeEvent::Release],
{
    match outcome {
        None => {},
        Some(id) => {
            let r = registered_history(id, finals);
            let t = teardown_events(id, finals);
            let h = lifecycle(outcome, finals);
            assert forall|i: int| 0 <= i < r.len() implies !(r[i] is Unregister) && r[i]
                != LifeEvent::Release by {
                if i >= 2 {
                    assert(r[i] == invocations(finals)[i - 2]);
                    assert(invocations(finals)[i - 2] == LifeEvent::Invoke(finals[i - 2]));
                }
            }
            assert(h == r + t + seq![LifeEvent::Release]);
            assert forall|i: int| 0 <= i < h.len() - 1 implies h[i] != LifeEvent::Release by {
                if i < r.len() {
                    assert(h[i] == r[i]);
                } else {
                    assert(h[i] == t[i - r.len()]);
                }
            }
        },
    }
}

/// The heap block that a registration hands to the host as its token.
pub struct ContextBlock<H, S> {
    /// The client's handler
    handler: H,
    /// The client's state, kept beside the handler
    state: S,
    /// The host's id, once the registration call has answered
    host_id: Option<HostId>,
    /// Whether the host may still call; cleared when it signals its last call
    active: bool,
    /// Where the block stands
    stage: Stage,
    /// What the registration call answered
    outcome: Ghost<Option<HostId>>,
    /// The last-call flags of the invocations so far
    finals: Ghost<Seq<bool>>,
    /// Everything that happened to the block so far
    history: Ghost<Seq<LifeEvent>>,
    /// Keeps the block on the thread the host calls from
    _thread: NoSendSync,
}

impl<H, S> ContextBlock<H, S> {
    pub closed spec fn stage(&self) -> Stage {
        self.stage
    }

    pub closed spec fn spec_host_id(&self) -> Option<HostId> {
        self.host_id
    }

    pub closed spec fn spec_active(&self) -> bool {
        self.active
    }

    pub closed spec fn spec_handler(&self) -> H {
        self.handler
    }

    pub closed spec fn spec_state(&self) -> S {
        self.state
    }

    /// What the registration call answered (meaningful once it has).
    pub closed spec fn outcome(&self) -> Option<HostId> {
        self.outcome@
    }

    /// The last-call flags of the invocations so far.
    pub closed spec fn finals(&self) -> Seq<bool> {
        self.finals@
    }

    /// Everything that happened to this block so far.
    pub closed spec fn history(&self) -> Seq<LifeEvent> {
        self.history@
    }

    /// True when `other` stands where this block stands in the lifecycle, whatever its
    /// handler and state hold.
    pub open spec fn same_lifecycle(&self, other: &Self) -> bool {
        &&& other.stage() == self.stage()
        &&& other.spec_host_id() == self.spec_host_id()
        &&& other.spec_active() == self.spec_active()
        &&& other.outcome() == self.outcome()
        &&& other.finals() == self.finals()
        &&& other.history() == self.history()
        &&& other.wf() == self.wf()
    }

    /// The block's history is the beginning of its lifecycle, and its fields agree with it.
    pub closed spec fn wf(&self) -> bool {
        match self.stage {
            Stage::Allocated => {
                &&& self.history@ == seq![LifeEvent::Allocate]
                &&& self.host_id is None
                &&& !self.active
                &&& self.finals@.len() == 0
            },
            Stage::Registered => {
                &&& self.host_id is Some
                &&& self.outcome@ == self.host_id
                &&& self.active == still_active(self.finals@)
                &&& self.history@ == registered_history(self.host_id->Some_0, self.finals@)
            },
            Stage::Refused => {
                &&& self.outcome@ is None
                &&& self.host_id is None
                &&& !self.active
                &&& self.finals@.len() == 0
                &&& self.history@ == seq![LifeEvent::Allocate, LifeEvent::Refuse]
            },
            Stage::Detached => {
                &&& self.host_id is Some
                &&& self.outcome@ == self.host_id
                &&& !self.active
                &&& self.history@ == registered_history(self.host_id->Some_0, self.finals@)
                    + teardown_events(self.host_id->Some_0, self.finals@)
            },
        }
    }

    /// A registered or detached block has its host id.
    pub proof fn lemma_bound(&self)
        requires
            self.wf(),
            self.stage() == Stage::Registered || self.stage() == Stage::Detached,
        ensures
            self.spec_host_id() is Some,
    {
    }

    /// Allocates the block for a new registration, before the host is called.
    pub fn new(handler: H, state: S) -> (r: Self)
        ensures
            r.wf(),
            r.stage() == Stage::Allocated,
            r.history() == seq![LifeEvent::Allocate],
            r.spec_handler() == handler,
            r.spec_state() == state,
            r.spec_host_id() is None,
    {
        let ghost start = seq![LifeEvent::Allocate];
        ContextBlock {
            handler,
            state,
            host_id: None,
            active: false,
            stage: Stage::Allocated,
            outcome: Ghost(None),
            finals: Ghost(Seq::<bool>::empty()),
            history: Ghost(start),
            _thread: core::marker::PhantomData,
        }
    }

    /// Records the answer of the host registration call: an id, or `None` when the host
    /// refused. A refused block must be released at once.
    pub fn bind(&mut self, outcome: Option<HostId>) -> (r: Result<(), RegistrationError>)
        requires
            old(self).wf(),
            old(self).stage() == Stage::Allocated,
        ensures
            final(self).wf(),
            final(self).outcome() == outcome,
            final(self).spec_handler() == old(self).spec_handler(),
            final(self).spec_state() == old(self).spec_state(),
            r is Err <==> outcome is None,
            r is Err ==> r == Err::<(), RegistrationError>(RegistrationError::HostRejected),
            r is Err ==> final(self).stage() == Stage::Refused && final(self).history()
                == old(self).history().push(LifeEvent::Refuse),
            r is Ok ==> final(self).stage() == Stage::Registered && final(self).spec_host_id()
                == outcome && final(self).spec_active() && final(self).history()
                == old(self).history().push(LifeEvent::Register(outcome->Some_0)),
    {
        self.outcome = Ghost(outcome);
        match outcome {
            Some(id) => {
                self.host_id = Some(id);
                self.active = true;
                self.stage = Stage::Registered;
                self.history = Ghost(self.history@.push(LifeEvent::Register(id)));
                proof {
                    assert(invocations(self.finals@) =~= Seq::empty());
                    assert(self.history@ =~= registered_history(id, self.finals@));
                    assert(still_active(self.finals@));
                }
                Ok(())
            },
            None => {
                self.stage = Stage::Refused;
                self.history = Ghost(self.history@.push(LifeEvent::Refuse));
                proof {
                    assert(self.history@ =~= seq![LifeEvent::Allocate, LifeEvent::Refuse]);
                }
                Err(RegistrationError::HostRejected)
            },
        }
    }

    /// The host's id of this registration, once bound.
    pub fn host_id(&self) -> (r: Option<HostId>)
        ensures
            r == self.spec_host_id(),
            self.wf() && (self.stage() == Stage::Registered || self.stage() == Stage::Detached)
                ==> r is Some,
    {
        self.host_id
    }

    /// Whether the host may still call this registration's trampoline.
    pub fn is_active(&self) -> (r: bool)
        ensures
            r == self.spec_active(),
    {
        self.active
    }

    /// The state kept beside the handler.
    pub fn state_ref(&self) -> (r: &S)
        ensures
            *r == self.spec_state(),
    {
        &self.state
    }

    /// The handler and the state, for the trampoline to run.
    pub fn parts_mut(&mut self) -> (r: (&mut H, &mut S))
        ensures
            *r.0 == old(self).spec_handler(),
            *r.1 == old(self).spec_state(),
            final(self).spec_handler() == *final(r.0),
            final(self).spec_state() == *final(r.1),
            final(self).stage() == old(self).stage(),
            final(self).spec_host_id() == old(self).spec_host_id(),
            final(self).spec_active() == old(self).spec_active(),
            final(self).outcome() == old(self).outcome(),
            final(self).finals() == old(self).finals(),
            final(self).history() == old(self).history(),
            final(self).wf() == old(self).wf(),
    {
        (&mut self.handler, &mut self.state)
    }

    /// Records one run of the trampoline; `last_call` is the host's signal that it will not
    /// call again, after which no unregister call is owed.
    pub fn record_invocation(&mut self, last_call: bool)
        requires
            old(self).wf(),
            old(self).stage() == Stage::Registered,
        ensures
            final(self).wf(),
            final(self).stage() == Stage::Registered,
            final(self).spec_host_id() == old(self).spec_host_id(),
            final(self).spec_active() == (old(self).spec_active() && !last_call),
            final(self).outcome() == old(self).outcome(),
            final(self).finals() == old(self).finals().push(last_call),
            final(self).history() == old(self).history().push(LifeEvent::Invoke(last_call)),
            final(self).spec_handler() == old(self).spec_handler(),
            final(self).spec_state() == old(self).spec_state(),
    {
        if last_call {
            self.active = false;
        }
        let ghost old_finals = self.finals@;
        self.finals = Ghost(self.finals@.push(last_call));
        self.history = Ghost(self.history@.push(LifeEvent::Invoke(last_call)));
        proof {
            let id = self.host_id->Some_0;
            assert(invocations(self.finals@) =~= invocations(old_finals).push(
                LifeEvent::Invoke(last_call),
            ));
            assert(self.history@ =~= registered_history(id, self.finals@));
            if !last_call && still_active(old_finals) {
                assert forall|i: int| 0 <= i < self.finals@.len() implies !self.finals@[i] by {
                    if i < old_finals.len() {
                        assert(self.finals@[i] == old_finals[i]);
                    }
                }
            }
            if !still_active(old_finals) {
                let i = choose|i: int| 0 <= i < old_finals.len() && old_finals[i];
                assert(self.finals@[i] == old_finals[i]);
            }
            if last_call {
                assert(self.finals@[old_finals.len() as int]);
            }
        }
    }

    /// Begins the teardown: returns the id the host must be told to unregister, or `None`
    /// when the host already gave up the registration. The caller makes that call before it
    /// releases the block.
    pub fn detach(&mut self) -> (r: Option<HostId>)
        requires
            old(self).wf(),
            old(self).stage() == Stage::Registered,
        ensures
            final(self).wf(),
            final(self).stage() == Stage::Detached,
            r == (if old(self).spec_active() { old(self).spec_host_id() } else { None }),
            final(self).spec_host_id() == old(self).spec_host_id(),
            final(self).outcome() == old(self).outcome(),
            final(self).finals() == old(self).finals(),
            final(self).history() == old(self).history() + teardown_events(
                old(self).spec_host_id()->Some_0,
                old(self).finals(),
            ),
            final(self).spec_handler() == old(self).spec_handler(),
            final(self).spec_state() == old(self).spec_state(),
    {
        let id = match self.host_id {
            Some(id) => id,
            None => 0,
        };
        let r = if self.active {
            self.history = Ghost(self.history@.push(LifeEvent::Unregister(id)));
            Some(id)
        } else {
            None
        };
        proof {
            assert(self.history@ =~= registered_history(id, self.finals@) + teardown_events(
                id,
                self.finals@,
            ));
        }
        self.active = false;
        self.stage = Stage::Detached;
        r
    }

    /// Frees the block, handler and state with it, and returns its complete history.
    pub fn release(self) -> (history: Ghost<Seq<LifeEvent>>)
        requires
            self.wf(),
            self.stage() == Stage::Refused || self.stage() == Stage::Detached,
        ensures
            history@ == self.history().push(LifeEvent::Release),
            history@ == lifecycle(self.outcome(), self.finals()),
    {
        let ghost h = self.history@.push(LifeEvent::Release);
        proof {
            if self.stage == Stage::Detached {
                assert(h =~= lifecycle(self.outcome@, self.finals@));
            } else {
                assert(h =~= lifecycle(self.outcome@, self.finals@));
            }
        }
        Ghost(h)
    }
}

} // verus!
