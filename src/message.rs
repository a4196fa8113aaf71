//! Inter-plugin messages.
use vstd::prelude::*;

verus! {

/// Inter-plugin message.
#[derive(Debug, Clone, Copy, PartialEq, Eq, Structural)]
pub enum MessageId {
    /// A plane has crashed. The message parameter is meaningless.
    PlaneCrashed,
    /// A plane has finished loading. The parameter is the index of the plane, 0 for the user's.
    PlaneLoaded,
    /// An airport has been loaded. The message parameter is meaningless.
    AirportLoaded,
    /// Scenery has been loaded. The message parameter is meaningless.
    SceneryLoaded,
    /// The user has adjusted the number of aircraft models. The message parameter is meaningless.
    AirplaneCountChanged,
    /// A plane has been unloaded. The parameter is the index of the plane, 0 for the user's.
    PlaneUnloaded,
    /// The host is going to write its preferences file. The message parameter is meaningless.
    WillWritePrefs,
    /// A livery has been loaded for an airplane. The parameter is the index of the plane.
    LiveryLoaded,
    /// Sent just before the host enters virtual-reality mode.
    EnteredVR,
    /// Sent just before the host leaves virtual-reality mode.
    ExitingVR,
    /// Another plugin wants to take over AI planes.
    ReleasePlanes,
    /// Sent after sound banks are loaded. The parameter is the bank.
    FmodBankLoaded,
    /// Sent before sound banks are unloaded. The parameter is the bank.
    FmodBankUnloading,
    /// Sent when datarefs are added. The parameter is the new dataref count.
    DatarefsAdded,
    /// The message is unknown to this library. Its ID is included.
    UnknownMessage(i32),
}

/// The host's number of each message.
pub open spec fn message_code(m: MessageId) -> i32 {
    match m {
        MessageId::PlaneCrashed => 101,
        MessageId::PlaneLoaded => 102,
        MessageId::AirportLoaded => 103,
        MessageId::SceneryLoaded => 104,
        MessageId::AirplaneCountChanged => 105,
        MessageId::PlaneUnloaded => 106,
        MessageId::WillWritePrefs => 107,
        MessageId::LiveryLoaded => 108,
        MessageId::EnteredVR => 109,
        MessageId::ExitingVR => 110,
        MessageId::ReleasePlanes => 111,
        MessageId::FmodBankLoaded => 112,
        MessageId::FmodBankUnloading => 113,
        MessageId::DatarefsAdded => 114,
        MessageId::UnknownMessage(c) => c,
    }
}

/// The message a host number stands for; a number this library does not know is kept in
/// `UnknownMessage`.
pub open spec fn message_of(code: i32) -> MessageId {
    if code == 101 {
        MessageId::PlaneCrashed
    } else if code == 102 {
        MessageId::PlaneLoaded
    } else if code == 103 {
        MessageId::AirportLoaded
    } else if code == 104 {
        MessageId::SceneryLoaded
    } else if code == 105 {
        MessageId::AirplaneCountChanged
    } else if code == 106 {
        MessageId::PlaneUnloaded
    } else if code == 107 {
        MessageId::WillWritePrefs
    } else if code == 108 {
        MessageId::LiveryLoaded
    } else if code == 109 {
        MessageId::EnteredVR
    } else if code == 110 {
        MessageId::ExitingVR
    } else if code == 111 {
        MessageId::ReleasePlanes
    } else if code == 112 {
        MessageId::FmodBankLoaded
    } else if code == 113 {
        MessageId::FmodBankUnloading
    } else if code == 114 {
        MessageId::DatarefsAdded
    } else {
        MessageId::UnknownMessage(code)
    }
}

/// True for the numbers that name a message this library knows.
pub open spec fn is_known_message(code: i32) -> bool {
    101 <= code <= 114
}

/// Every number goes to a message and back unchanged; every message goes to its number and
/// back, except an unknown message that carries the number of a known one.
pub proof fn law_message_round_trip(m: MessageId, code: i32)
    requires
        m matches MessageId::UnknownMessage(c) ==> !is_known_message(c),
    ensures
        message_of(message_code(m)) == m,
        message_code(message_of(code)) == code,
        message_of(code) is UnknownMessage <==> !is_known_message(code),
{
}

impl MessageId {
    /// The message a host number stands for.
    pub fn from_code(code: i32) -> (r: MessageId)
        ensures
            r == message_of(code),
    {
        match code {
            101 => MessageId::PlaneCrashed,
            102 => MessageId::PlaneLoaded,
            103 => MessageId::AirportLoaded,
            104 => MessageId::SceneryLoaded,
            105 => MessageId::AirplaneCountChanged,
            106 => MessageId::PlaneUnloaded,
            107 => MessageId::WillWritePrefs,
            108 => MessageId::LiveryLoaded,
            109 => MessageId::EnteredVR,
            110 => MessageId::ExitingVR,
            111 => MessageId::ReleasePlanes,
            112 => MessageId::FmodBankLoaded,
            113 => MessageId::FmodBankUnloading,
            114 => MessageId::DatarefsAdded,
            _ => MessageId::UnknownMessage(code),
        }
    }

    /// The host's number of this message.
    pub fn code(self) -> (r: i32)
        ensures
            r == message_code(self),
    {
        match self {
            MessageId::PlaneCrashed => 101,
            MessageId::PlaneLoaded => 102,
            MessageId::AirportLoaded => 103,
            MessageId::SceneryLoaded => 104,
            MessageId::AirplaneCountChanged => 105,
            MessageId::PlaneUnloaded => 106,
            MessageId::WillWritePrefs => 107,
            MessageId::LiveryLoaded => 108,
            MessageId::EnteredVR => 109,
            MessageId::ExitingVR => 110,
            MessageId::ReleasePlanes => 111,
            MessageId::FmodBankLoaded => 112,
            MessageId::FmodBankUnloading => 113,
            MessageId::DatarefsAdded => 114,
            MessageId::UnknownMessage(c) => c,
        }
    }

    /// Check if this message ID is one reserved by the host.
    pub fn is_xp_reserved(&self) -> (r: bool)
        ensures
            r == (message_code(*self) < 0x00FF_FFFF),
    {
        self.code() < 0x00FF_FFFF
    }
}

impl From<i32> for MessageId {
    fn from(code: i32) -> (r: MessageId) {
        MessageId::from_code(code)
    }
}

impl vstd::std_specs::convert::FromSpecImpl<i32> for MessageId {
    open spec fn obeys_from_spec() -> bool {
        true
    }

    open spec fn from_spec(v: i32) -> MessageId {
        message_of(v)
    }
}

impl From<MessageId> for i32 {
    fn from(m: MessageId) -> (r: i32) {
        m.code()
    }
}

impl vstd::std_specs::convert::FromSpecImpl<MessageId> for i32 {
    open spec fn obeys_from_spec() -> bool {
        true
    }

    open spec fn from_spec(v: MessageId) -> i32 {
        message_code(v)
    }
}

/// A message received from the host or another plugin.
pub struct Message {
    pub id: MessageId,
}

} // verus!
