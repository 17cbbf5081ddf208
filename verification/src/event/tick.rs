use super::{PTEV_TICK, wrong_event_type, wrong_event_type_view, Event, EventView};
use crate::error::PtError;
use vstd::prelude::*;

verus! {

/// A timing event
#[derive(Clone, Copy, Debug)]
pub struct Tick {
    pub(super) event: Event,
}

impl View for Tick {
    type V = EventView;

    closed spec fn view(&self) -> EventView {
        self.event@
    }
}

impl Tick {
    /// The instruction address near which the tick occured.
    ///
    /// A timestamp can sometimes be attributed directly to
    /// an instruction (e.g. to an indirect branch that
    /// receives CYC + TIP) and sometimes not (e.g. MTC).
    ///
    /// This field is not valid, if \@ip_suppressed is set.
    pub fn ip(&self) -> (r: u64)
        ensures
            r == self@.variant.0,
    {
        let v = self.event.raw_variant();
        v.0
    }

    /// The event that this payload views.
    pub fn event(&self) -> (e: Event)
        ensures
            e@ == self@,
    {
        self.event
    }

    /// Views `event` as this payload; an event of another type gives an
    /// `Invalid` error.
    pub fn try_from_event(event: Event) -> (r: Result<Tick, PtError>)
        ensures
            r is Ok <==> event@.type_ == PTEV_TICK,
            r matches Ok(p) ==> p@ == event@,
            r matches Err(e) ==> e@ == wrong_event_type_view(),
    {
        if event.event_type() == PTEV_TICK {
            Ok(Tick { event })
        } else {
            Err(wrong_event_type())
        }
    }
}

} // verus!
