//! The host's weather system.
use vstd::prelude::*;

use crate::NoSendSync;

verus! {

/// Access struct for the host's weather API.
pub struct WeatherApi {
    pub _phantom: NoSendSync,
}

/// The capacity of the buffer that receives a METAR report.
pub const METAR_CAPACITY: usize = 150;

} // verus!
