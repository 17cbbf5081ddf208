use super::{PTEV_OVERFLOW, wrong_event_type, wrong_event_type_view, Event, EventView};
use crate::error::PtError;
use vstd::prelude::*;

verus! {

/// Trace overflow
#[derive(Clone, Copy, Debug)]
pub struct Overflow {
    pub(super) event: Event,
}

impl View for Overflow {
    type V = EventView;

    closed spec fn view(&self) -> EventView {
        self.event@
    }
}

impl Overflow {
    /// The address at which tracing resumes after overflow.
    ///
    /// This field is not valid, if ip_suppressed is set.
    /// In this case, the overflow resolved while tracing was disabled.
    pub fn ip(&self) -> (r: u64)
        ensures
            r == self@.variant.0,
    {
        let v = self.event.raw_variant();
        v.0
    }

    /// The event that this payload views.
    pub fn event(&self) -> (e: Event)
        ensures
            e@ == self@,
    {
        self.event
    }

    /// Views `event` as this payload; an event of another type gives an
    /// `Invalid` error.
    pub fn try_from_event(event: Event) -> (r: Result<Overflow, PtError>)
        ensures
            r is Ok <==> event@.type_ == PTEV_OVERFLOW,
            r matches Ok(p) ==> p@ == event@,
            r matches Err(e) ==> e@ == wrong_event_type_view(),
    {
        if event.event_type() == PTEV_OVERFLOW {
            Ok(Overflow { event })
        } else {
            Err(wrong_event_type())
        }
    }
}

} // verus!
