use super::{PTEV_CBR, low_u16, word_low_u16, wrong_event_type, wrong_event_type_view, Event, EventView};
use crate::error::PtError;
use vstd::prelude::*;

verus! {

/// A core:bus ratio event
#[derive(Clone, Copy, Debug)]
pub struct Cbr {
    pub(super) event: Event,
}

impl View for Cbr {
    type V = EventView;

    closed spec fn view(&self) -> EventView {
        self.event@
    }
}

impl Cbr {
    /// The core:bus ratio.
    pub fn ratio(&self) -> (r: u16)
        ensures
            r == low_u16(self@.variant.0),
    {
        let v = self.event.raw_variant();
        word_low_u16(v.0)
    }

    /// The event that this payload views.
    pub fn event(&self) -> (e: Event)
        ensures
            e@ == self@,
    {
        self.event
    }

    /// Views `event` as this payload; an event of another type gives an
    /// `Invalid` error.
    pub fn try_from_event(event: Event) -> (r: Result<Cbr, PtError>)
        ensures
            r is Ok <==> event@.type_ == PTEV_CBR,
            r matches Ok(p) ==> p@ == event@,
            r matches Err(e) ==> e@ == wrong_event_type_view(),
    {
        if event.event_type() == PTEV_CBR {
            Ok(Cbr { event })
        } else {
            Err(wrong_event_type())
        }
    }
}

} // verus!
