use super::{PTEV_STOP, wrong_event_type, wrong_event_type_view, Event, EventView};
use crate::error::PtError;
use vstd::prelude::*;

verus! {

/// Tracing has been stopped
#[derive(Clone, Copy, Debug)]
pub struct Stop {
    pub(super) event: Event,
}

impl View for Stop {
    type V = EventView;

    closed spec fn view(&self) -> EventView {
        self.event@
    }
}

impl Stop {
    /// The event that this payload views.
    pub fn event(&self) -> (e: Event)
        ensures
            e@ == self@,
    {
        self.event
    }

    /// Views `event` as this payload; an event of another type gives an
    /// `Invalid` error.
    pub fn try_from_event(event: Event) -> (r: Result<Stop, PtError>)
        ensures
            r is Ok <==> event@.type_ == PTEV_STOP,
            r matches Ok(p) ==> p@ == event@,
            r matches Err(e) ==> e@ == wrong_event_type_view(),
    {
        if event.event_type() == PTEV_STOP {
            Ok(Stop { event })
        } else {
            Err(wrong_event_type())
        }
    }
}

} // verus!
