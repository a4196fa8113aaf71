//! The host's sound system.
use vstd::prelude::*;

use crate::NoSendSync;

verus! {

/// Access struct for the host's sound APIs.
pub struct SoundApi {
    pub _phantom: NoSendSync,
}

/// True for the audio bus codes the host defines: the radios, the exterior and interior
/// buses, the interface, the ground and the master bus.
pub open spec fn spec_audio_bus_valid(bus: i32) -> bool {
    0 <= bus <= 10
}

/// Whether `bus` is an audio bus code the host defines.
pub fn audio_bus_valid(bus: i32) -> (r: bool)
    ensures
        r == spec_audio_bus_valid(bus),
{
    0 <= bus && bus <= 10
}

} // verus!
