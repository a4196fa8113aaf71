//! Navigation: the host's navaid database and its flight management system.
use vstd::prelude::*;

verus! {

/// The host's handle for "no navaid".
pub const NAV_NOT_FOUND: i32 = -1;

/// The navaid a host navaid handle stands for: none when the host gives its not-found
/// handle, as for a flight management system entry without a navaid or no GPS destination.
pub fn navaid_of(handle: i32) -> (r: Option<i32>)
    ensures
        r is None <==> handle == NAV_NOT_FOUND,
        r matches Some(h) ==> h == handle,
{
    if handle == NAV_NOT_FOUND {
        None
    } else {
        Some(handle)
    }
}

/// The number of entries of the flight management system.
pub const FMS_ENTRIES: i32 = 100;

/// An out-of-bounds index has been used with a flight management system function.
#[derive(Debug, Clone, Copy, PartialEq, Eq, Structural)]
pub struct BadIndex {
    pub idx: i32,
}

/// A navaid type with other than exactly one bit set, which cannot be iterated.
#[derive(Debug, Clone, Copy, PartialEq, Eq, Structural)]
pub struct BadNavType {
    pub typ: u32,
}

/// The Flight Management System
pub struct Fms;

impl Fms {
    /// Checks an entry index: it must lie in `0..100`.
    pub fn check_index(idx: i32) -> (r: Result<(), BadIndex>)
        ensures
            r is Ok <==> 0 <= idx < FMS_ENTRIES,
            r matches Err(e) ==> e.idx == idx,
    {
        if 0 <= idx && idx < FMS_ENTRIES {
            Ok(())
        } else {
            Err(BadIndex { idx })
        }
    }
}

/// True when exactly one bit of `t` is set.
pub open spec fn single_bit(t: u32) -> bool {
    t != 0 && t & ((t - 1) as u32) == 0
}

/// Checks the type of a navaid iteration: none (all navaids), or a single type bit.
pub fn check_nav_type(typ: Option<u32>) -> (r: Result<(), BadNavType>)
    ensures
        r is Ok <==> (typ matches Some(t) ==> single_bit(t)),
        r matches Err(e) ==> typ == Some(e.typ),
{
    match typ {
        Some(t) => {
            if t != 0 && t & (t - 1) == 0 {
                Ok(())
            } else {
                Err(BadNavType { typ: t })
            }
        },
        None => Ok(()),
    }
}

/// An iteration over navaid handles: from a first handle, following the host's "next", up
/// to a stop handle (excluded) or "not found".
pub struct NavAidIter {
    last_handle: i32,
    stop_at: i32,
}

impl NavAidIter {
    pub closed spec fn spec_last(&self) -> i32 {
        self.last_handle
    }

    pub closed spec fn spec_stop(&self) -> i32 {
        self.stop_at
    }

    /// An iteration from `first` up to `stop_at`.
    pub fn new(first: i32, stop_at: i32) -> (r: NavAidIter)
        ensures
            r.spec_last() == first,
            r.spec_stop() == stop_at,
    {
        NavAidIter { last_handle: first, stop_at }
    }

    /// The handle the iteration yields next, if it has not ended.
    pub fn current(&self) -> (r: Option<i32>)
        ensures
            r is None <==> (self.spec_last() == NAV_NOT_FOUND || self.spec_last()
                == self.spec_stop()),
            r matches Some(h) ==> h == self.spec_last(),
    {
        if self.last_handle == NAV_NOT_FOUND || self.last_handle == self.stop_at {
            None
        } else {
            Some(self.last_handle)
        }
    }

    /// Moves on to `next`, the host's successor of the current handle.
    pub fn advance(&mut self, next: i32)
        ensures
            final(self).spec_last() == next,
            final(self).spec_stop() == old(self).spec_stop(),
    {
        self.last_handle = next;
    }
}

} // verus!
