use super::{PTEV_MWAIT, high_u32, low_u32, word_high_u32, word_low_u32, wrong_event_type, wrong_event_type_view, Event, EventView};
use crate::error::PtError;
use vstd::prelude::*;

verus! {

/// An MWAIT operation completed
#[derive(Clone, Copy, Debug)]
pub struct Mwait {
    pub(super) event: Event,
}

impl View for Mwait {
    type V = EventView;

    closed spec fn view(&self) -> EventView {
        self.event@
    }
}

impl Mwait {
    /// The address of the instruction causing the mwait.
    ///
    /// This field is not valid, if @ip_suppressed is set.
    pub fn ip(&self) -> (r: u64)
        ensures
            r == self@.variant.0,
    {
        let v = self.event.raw_variant();
        v.0
    }

    /// The mwait hints (eax).
    ///
    /// Reserved bits are undefined.
    pub fn hints(&self) -> (r: u32)
        ensures
            r == low_u32(self@.variant.1),
    {
        let v = self.event.raw_variant();
        word_low_u32(v.1)
    }

    /// The mwait extensions (ecx).
    ///
    /// Reserved bits are undefined.
    pub fn ext(&self) -> (r: u32)
        ensures
            r == high_u32(self@.variant.1),
    {
        let v = self.event.raw_variant();
        word_high_u32(v.1)
    }

    /// The event that this payload views.
    pub fn event(&self) -> (e: Event)
        ensures
            e@ == self@,
    {
        self.event
    }

    /// Views `event` as this payload; an event of another type gives an
    /// `Invalid` error.
    pub fn try_from_event(event: Event) -> (r: Result<Mwait, PtError>)
        ensures
            r is Ok <==> event@.type_ == PTEV_MWAIT,
            r matches Ok(p) ==> p@ == event@,
            r matches Err(e) ==> e@ == wrong_event_type_view(),
    {
        if event.event_type() == PTEV_MWAIT {
            Ok(Mwait { event })
        } else {
            Err(wrong_event_type())
        }
    }
}

} // verus!
