//! Avionics customization: drawing over or instead of the host's avionics devices.
use vstd::prelude::*;

use crate::registry::{ContextBlock, HostId, LifeEvent, RegistrationError, Stage};

verus! {

/// The side of a device found once per pilot seat.
#[derive(Debug, Clone, Copy, PartialEq, Eq, Structural)]
pub enum TwoSideDevice {
    Pilot,
    Copilot,
}

/// The side of a device found at each pilot seat and in the center.
#[derive(Debug, Clone, Copy, PartialEq, Eq, Structural)]
pub enum ThreeSideDevice {
    Pilot,
    Copilot,
    Center,
}

/// An avionics device the host can draw.
#[derive(Debug, Clone, Copy, PartialEq, Eq, Structural)]
pub enum DeviceID {
    GNS430(TwoSideDevice),
    GNS530(TwoSideDevice),
    CDU739(TwoSideDevice),
    G1000Pfd(TwoSideDevice),
    G1000Mfd,
    CDU815(TwoSideDevice),
    PrimusPfd(TwoSideDevice),
    PrimusMfd(ThreeSideDevice),
    PrimusRmu(TwoSideDevice),
}

/// The host gave a device code this library does not know.
#[derive(Debug, Clone, Copy, PartialEq, Eq, Structural)]
pub struct DeviceUnmatchedError {
    /// The device code.
    pub id: i32,
}

/// Code of a device that has a pilot and a copilot unit, numbered in that order from `base`.
pub open spec fn two_side_code(base: i32, side: TwoSideDevice) -> i32 {
    match side {
        TwoSideDevice::Pilot => base,
        TwoSideDevice::Copilot => (base + 1) as i32,
    }
}

/// The host's code of each device.
pub open spec fn device_code(d: DeviceID) -> i32 {
    match d {
        DeviceID::GNS430(s) => two_side_code(0, s),
        DeviceID::GNS530(s) => two_side_code(2, s),
        DeviceID::CDU739(s) => two_side_code(4, s),
        DeviceID::G1000Pfd(TwoSideDevice::Pilot) => 6,
        DeviceID::G1000Mfd => 7,
        DeviceID::G1000Pfd(TwoSideDevice::Copilot) => 8,
        DeviceID::CDU815(s) => two_side_code(9, s),
        DeviceID::PrimusPfd(s) => two_side_code(11, s),
        DeviceID::PrimusMfd(ThreeSideDevice::Pilot) => 13,
        DeviceID::PrimusMfd(ThreeSideDevice::Copilot) => 14,
        DeviceID::PrimusMfd(ThreeSideDevice::Center) => 15,
        DeviceID::PrimusRmu(s) => two_side_code(16, s),
    }
}

/// The device of a host code, if the code names a known device.
pub open spec fn device_of(code: i32) -> Option<DeviceID> {
    if code == 0 {
        Some(DeviceID::GNS430(TwoSideDevice::Pilot))
    } else if code == 1 {
        Some(DeviceID::GNS430(TwoSideDevice::Copilot))
    } else if code == 2 {
        Some(DeviceID::GNS530(TwoSideDevice::Pilot))
    } else if code == 3 {
        Some(DeviceID::GNS530(TwoSideDevice::Copilot))
    } else if code == 4 {
        Some(DeviceID::CDU739(TwoSideDevice::Pilot))
    } else if code == 5 {
        Some(DeviceID::CDU739(TwoSideDevice::Copilot))
    } else if code == 6 {
        Some(DeviceID::G1000Pfd(TwoSideDevice::Pilot))
    } else if code == 7 {
        Some(DeviceID::G1000Mfd)
    } else if code == 8 {
        Some(DeviceID::G1000Pfd(TwoSideDevice::Copilot))
    } else if code == 9 {
        Some(DeviceID::CDU815(TwoSideDevice::Pilot))
    } else if code == 10 {
        Some(DeviceID::CDU815(TwoSideDevice::Copilot))
    } else if code == 11 {
        Some(DeviceID::PrimusPfd(TwoSideDevice::Pilot))
    } else if code == 12 {
        Some(DeviceID::PrimusPfd(TwoSideDevice::Copilot))
    } else if code == 13 {
        Some(DeviceID::PrimusMfd(ThreeSideDevice::Pilot))
    } else if code == 14 {
        Some(DeviceID::PrimusMfd(ThreeSideDevice::Copilot))
    } else if code == 15 {
        Some(DeviceID::PrimusMfd(ThreeSideDevice::Center))
    } else if code == 16 {
        Some(DeviceID::PrimusRmu(TwoSideDevice::Pilot))
    } else if code == 17 {
        Some(DeviceID::PrimusRmu(TwoSideDevice::Copilot))
    } else {
        None
    }
}

/// Every device goes to its code and back; every code that names a device is that device's
/// code; and the known codes are exactly those from 0 to 17.
pub proof fn law_device_round_trip(d: DeviceID, code: i32)
    ensures
        device_of(device_code(d)) == Some(d),
        device_of(code) matches Some(e) ==> device_code(e) == code,
        device_of(code) is Some <==> 0 <= code <= 17,
{
}

impl DeviceID {
    /// The device of a host code; an unknown code is handed back in the error.
    pub fn try_from(value: i32) -> (r: Result<DeviceID, DeviceUnmatchedError>)
        ensures
            r matches Ok(d) ==> device_of(value) == Some(d),
            r matches Err(e) ==> device_of(value) is None && e.id == value,
    {
        match value {
            0 => Ok(DeviceID::GNS430(TwoSideDevice::Pilot)),
            1 => Ok(DeviceID::GNS430(TwoSideDevice::Copilot)),
            2 => Ok(DeviceID::GNS530(TwoSideDevice::Pilot)),
            3 => Ok(DeviceID::GNS530(TwoSideDevice::Copilot)),
            4 => Ok(DeviceID::CDU739(TwoSideDevice::Pilot)),
            5 => Ok(DeviceID::CDU739(TwoSideDevice::Copilot)),
            6 => Ok(DeviceID::G1000Pfd(TwoSideDevice::Pilot)),
            7 => Ok(DeviceID::G1000Mfd),
            8 => Ok(DeviceID::G1000Pfd(TwoSideDevice::Copilot)),
            9 => Ok(DeviceID::CDU815(TwoSideDevice::Pilot)),
            10 => Ok(DeviceID::CDU815(TwoSideDevice::Copilot)),
            11 => Ok(DeviceID::PrimusPfd(TwoSideDevice::Pilot)),
            12 => Ok(DeviceID::PrimusPfd(TwoSideDevice::Copilot)),
            13 => Ok(DeviceID::PrimusMfd(ThreeSideDevice::Pilot)),
            14 => Ok(DeviceID::PrimusMfd(ThreeSideDevice::Copilot)),
            15 => Ok(DeviceID::PrimusMfd(ThreeSideDevice::Center)),
            16 => Ok(DeviceID::PrimusRmu(TwoSideDevice::Pilot)),
            17 => Ok(DeviceID::PrimusRmu(TwoSideDevice::Copilot)),
            _ => Err(DeviceUnmatchedError { id: value }),
        }
    }

    /// The host's code of this device.
    pub fn code(self) -> (r: i32)
        ensures
            r == device_code(self),
    {
        match self {
            DeviceID::GNS430(side) => two_side(0, side),
            DeviceID::GNS530(side) => two_side(2, side),
            DeviceID::CDU739(side) => two_side(4, side),
            DeviceID::G1000Pfd(side) => match side {
                TwoSideDevice::Pilot => 6,
                TwoSideDevice::Copilot => 8,
            },
            DeviceID::G1000Mfd => 7,
            DeviceID::CDU815(side) => two_side(9, side),
            DeviceID::PrimusPfd(side) => two_side(11, side),
            DeviceID::PrimusMfd(side) => match side {
                ThreeSideDevice::Pilot => 13,
                ThreeSideDevice::Copilot => 14,
                ThreeSideDevice::Center => 15,
            },
            DeviceID::PrimusRmu(side) => two_side(16, side),
        }
    }
}

fn two_side(base: i32, side: TwoSideDevice) -> (r: i32)
    requires
        0 <= base <= 16,
    ensures
        r == two_side_code(base, side),
{
    match side {
        TwoSideDevice::Pilot => base,
        TwoSideDevice::Copilot => base + 1,
    }
}

impl From<DeviceID> for i32 {
    fn from(val: DeviceID) -> (r: i32) {
        val.code()
    }
}

impl vstd::std_specs::convert::FromSpecImpl<DeviceID> for i32 {
    open spec fn obeys_from_spec() -> bool {
        true
    }

    open spec fn from_spec(v: DeviceID) -> i32 {
        device_code(v)
    }
}

/// Returned from avionics callbacks: what the host does next.
#[derive(Debug, Clone, Copy, PartialEq, Eq, Structural)]
pub enum AvionicsCallbackResult {
    /// Allow the host to do its own drawing.
    AllowDraw,
    /// Suppress further drawing of this device.
    SuppressDraw,
}

/// The number the host receives for each result.
pub open spec fn spec_avionics_code(r: AvionicsCallbackResult) -> i32 {
    match r {
        AvionicsCallbackResult::AllowDraw => 0,
        AvionicsCallbackResult::SuppressDraw => 1,
    }
}

impl AvionicsCallbackResult {
    /// The number the host receives for this result.
    pub fn code(self) -> (r: i32)
        ensures
            r == spec_avionics_code(self),
    {
        match self {
            AvionicsCallbackResult::AllowDraw => 0,
            AvionicsCallbackResult::SuppressDraw => 1,
        }
    }
}

/// Handlers for avionics drawing. Store some data in here if you like.
pub trait AvionicsDrawer {
    /// Draw the avionics before the host. An unknown device code arrives as an error.
    fn draw_before_xp(
        &mut self,
        device_id: Result<DeviceID, DeviceUnmatchedError>,
    ) -> AvionicsCallbackResult;

    /// Draw the avionics after the host.
    fn draw_after_xp(&mut self, device_id: Result<DeviceID, DeviceUnmatchedError>);
}

/// The host gave no handle for the customization, for reasons it does not tell.
#[derive(Debug, Clone, Copy, PartialEq, Eq, Structural)]
pub struct AvionicsCustomizationError;

impl AvionicsCustomizationError {
    /// The error in the taxonomy shared by every registration.
    pub fn kind(self) -> (r: RegistrationError)
        ensures
            r == RegistrationError::HostRejected,
    {
        RegistrationError::HostRejected
    }
}

/// An avionics customization: the drawer, and the device it draws.
pub struct AvionicsCustomization<D> {
    block: ContextBlock<D, DeviceID>,
}

impl<D: AvionicsDrawer> AvionicsCustomization<D> {
    pub closed spec fn block(&self) -> ContextBlock<D, DeviceID> {
        self.block
    }

    /// Allocates a customization of `device_id`, before the host is asked for it.
    pub fn new(device_id: DeviceID, drawer: D) -> (r: Self)
        ensures
            r.block().wf(),
            r.block().stage() == Stage::Allocated,
            r.block().spec_state() == device_id,
            r.block().history() == seq![LifeEvent::Allocate],
    {
        AvionicsCustomization { block: ContextBlock::new(drawer, device_id) }
    }

    /// The code of the customized device, for the host registration call.
    pub fn device_code(&self) -> (r: i32)
        ensures
            r == device_code(self.block().spec_state()),
    {
        let d = *self.block.state_ref();
        d.code()
    }

    /// Records the host's answer: its handle, or `None` when it refused. A refused
    /// customization must be released at once.
    pub fn bind(&mut self, handle: Option<HostId>) -> (r: Result<(), AvionicsCustomizationError>)
        requires
            old(self).block().wf(),
            old(self).block().stage() == Stage::Allocated,
        ensures
            final(self).block().wf(),
            r is Err <==> handle is None,
            r is Err ==> final(self).block().stage() == Stage::Refused,
            r is Ok ==> final(self).block().stage() == Stage::Registered
                && final(self).block().spec_host_id() == handle && final(self).block().spec_active(),
            final(self).block().outcome() == handle,
            final(self).block().spec_state() == old(self).block().spec_state(),
            final(self).block().history() == old(self).block().history().push(
                match handle {
                    Some(id) => LifeEvent::Register(id),
                    None => LifeEvent::Refuse,
                },
            ),
    {
        match self.block.bind(handle) {
            Ok(()) => Ok(()),
            Err(_) => Err(AvionicsCustomizationError),
        }
    }

    /// The trampoline's work for one host call: `is_before` is 1 before the host draws the
    /// device; the result is the number the host receives.
    pub fn draw(&mut self, device: i32, is_before: i32) -> (r: i32)
        requires
            old(self).block().wf(),
            old(self).block().stage() == Stage::Registered,
        ensures
            final(self).block().wf(),
            final(self).block().stage() == Stage::Registered,
            final(self).block().spec_host_id() == old(self).block().spec_host_id(),
            final(self).block().history() == old(self).block().history().push(
                LifeEvent::Invoke(false),
            ),
            final(self).block().spec_active() == old(self).block().spec_active(),
            final(self).block().outcome() == old(self).block().outcome(),
            is_before != 1 ==> r == 0,
            r == 0 || r == 1,
    {
        let device_id = DeviceID::try_from(device);
        let (drawer, _) = self.block.parts_mut();
        let r = if is_before == 1 {
            drawer.draw_before_xp(device_id).code()
        } else {
            drawer.draw_after_xp(device_id);
            0
        };
        self.block.record_invocation(false);
        r
    }

    /// Begins the teardown: the handle the host must unregister before the customization is
    /// released.
    pub fn detach(&mut self) -> (r: Option<HostId>)
        requires
            old(self).block().wf(),
            old(self).block().stage() == Stage::Registered,
        ensures
            final(self).block().wf(),
            final(self).block().stage() == Stage::Detached,
            r == (if old(self).block().spec_active() {
                old(self).block().spec_host_id()
            } else {
                None
            }),
    {
        self.block.detach()
    }

    /// Frees the customization, and returns its complete history.
    pub fn release(self) -> (history: Ghost<Seq<LifeEvent>>)
        requires
            self.block().wf(),
            self.block().stage() == Stage::Refused || self.block().stage() == Stage::Detached,
        ensures
            history@ == self.block().history().push(LifeEvent::Release),
            history@ == crate::registry::lifecycle(self.block().outcome(), self.block().finals()),
    {
        self.block.release()
    }
}

} // verus!
