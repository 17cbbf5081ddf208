use super::{PTEV_MNT, wrong_event_type, wrong_event_type_view, Event, EventView};
use crate::error::PtError;
use vstd::prelude::*;

verus! {

/// A maintenance event.
#[derive(Clone, Copy, Debug)]
pub struct Mnt {
    pub(super) event: Event,
}

impl View for Mnt {
    type V = EventView;

    closed spec fn view(&self) -> EventView {
        self.event@
    }
}

impl Mnt {
    /// The raw payload.
    pub fn payload(&self) -> (r: u64)
        ensures
            r == self@.variant.0,
    {
        let v = self.event.raw_variant();
        v.0
    }

    /// The event that this payload views.
    pub fn event(&self) -> (e: Event)
        ensures
            e@ == self@,
    {
        self.event
    }

    /// Views `event` as this payload; an event of another type gives an
    /// `Invalid` error.
    pub fn try_from_event(event: Event) -> (r: Result<Mnt, PtError>)
        ensures
            r is Ok <==> event@.type_ == PTEV_MNT,
            r matches Ok(p) ==> p@ == event@,
            r matches Err(e) ==> e@ == wrong_event_type_view(),
    {
        if event.event_type() == PTEV_MNT {
            Ok(Mnt { event })
        } else {
            Err(wrong_event_type())
        }
    }
}

} // verus!
