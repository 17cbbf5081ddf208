use super::{PTEV_PTWRITE, byte_at, word_byte, wrong_event_type, wrong_event_type_view, Event, EventView};
use crate::error::PtError;
use vstd::prelude::*;

verus! {

/// A PTWRITE event.
#[derive(Clone, Copy, Debug)]
pub struct Ptwrite {
    pub(super) event: Event,
}

impl View for Ptwrite {
    type V = EventView;

    closed spec fn view(&self) -> EventView {
        self.event@
    }
}

impl Ptwrite {
    /// The address of the ptwrite instruction.
    ///
    /// This field is not valid, if @ip_suppressed is set.
    /// In this case, the address is obvious from the disassembly.
    pub fn ip(&self) -> (r: u64)
        ensures
            r == self@.variant.0,
    {
        let v = self.event.raw_variant();
        v.0
    }

    /// The size of the below @payload in bytes.
    pub fn size(&self) -> (r: u8)
        ensures
            r == byte_at(self@.variant.1, 0),
    {
        let v = self.event.raw_variant();
        word_byte(v.1, 0)
    }

    /// The ptwrite payload.
    pub fn payload(&self) -> (r: u64)
        ensures
            r == self@.variant.2,
    {
        let v = self.event.raw_variant();
        v.2
    }

    /// The event that this payload views.
    pub fn event(&self) -> (e: Event)
        ensures
            e@ == self@,
    {
        self.event
    }

    /// Views `event` as this payload; an event of another type gives an
    /// `Invalid` error.
    pub fn try_from_event(event: Event) -> (r: Result<Ptwrite, PtError>)
        ensures
            r is Ok <==> event@.type_ == PTEV_PTWRITE,
            r matches Ok(p) ==> p@ == event@,
            r matches Err(e) ==> e@ == wrong_event_type_view(),
    {
        if event.event_type() == PTEV_PTWRITE {
            Ok(Ptwrite { event })
        } else {
            Err(wrong_event_type())
        }
    }
}

} // verus!
