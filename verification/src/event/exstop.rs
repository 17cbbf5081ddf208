use super::{PTEV_EXSTOP, wrong_event_type, wrong_event_type_view, Event, EventView};
use crate::error::PtError;
use vstd::prelude::*;

verus! {

/// Execution has stopped
#[derive(Clone, Copy, Debug)]
pub struct Exstop {
    pub(super) event: Event,
}

impl View for Exstop {
    type V = EventView;

    closed spec fn view(&self) -> EventView {
        self.event@
    }
}

impl Exstop {
    /// The address at which execution has stopped. This is the last instruction that did not complete.
    ///
    /// This field is not valid, if @ip_suppressed is set.
    pub fn ip(&self) -> (r: u64)
        ensures
            r == self@.variant.0,
    {
        let v = self.event.raw_variant();
        v.0
    }

    /// The event that this payload views.
    pub fn event(&self) -> (e: Event)
        ensures
            e@ == self@,
    {
        self.event
    }

    /// Views `event` as this payload; an event of another type gives an
    /// `Invalid` error.
    pub fn try_from_event(event: Event) -> (r: Result<Exstop, PtError>)
        ensures
            r is Ok <==> event@.type_ == PTEV_EXSTOP,
            r matches Ok(p) ==> p@ == event@,
            r matches Err(e) ==> e@ == wrong_event_type_view(),
    {
        if event.event_type() == PTEV_EXSTOP {
            Ok(Exstop { event })
        } else {
            Err(wrong_event_type())
        }
    }
}

} // verus!
