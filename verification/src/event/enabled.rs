use super::{PTEV_ENABLED, bit_at, word_bit, wrong_event_type, wrong_event_type_view, Event, EventView};
use crate::error::PtError;
use vstd::prelude::*;

verus! {

/// Tracing has been enabled
#[derive(Clone, Copy, Debug)]
pub struct Enabled {
    pub(super) event: Event,
}

impl View for Enabled {
    type V = EventView;

    closed spec fn view(&self) -> EventView {
        self.event@
    }
}

impl Enabled {
    /// The address at which tracing resumes
    pub fn ip(&self) -> (r: u64)
        ensures
            r == self@.variant.0,
    {
        let v = self.event.raw_variant();
        v.0
    }

    /// A flag indicating that tracing resumes from the IP
    /// at which tracing had been disabled before.
    pub fn resumed(&self) -> (r: bool)
        ensures
            r == bit_at(self@.variant.1, 0),
    {
        let v = self.event.raw_variant();
        word_bit(v.1, 0)
    }

    /// The event that this payload views.
    pub fn event(&self) -> (e: Event)
        ensures
            e@ == self@,
    {
        self.event
    }

    /// Views `event` as this payload; an event of another type gives an
    /// `Invalid` error.
    pub fn try_from_event(event: Event) -> (r: Result<Enabled, PtError>)
        ensures
            r is Ok <==> event@.type_ == PTEV_ENABLED,
            r matches Ok(p) ==> p@ == event@,
            r matches Err(e) ==> e@ == wrong_event_type_view(),
    {
        if event.event_type() == PTEV_ENABLED {
            Ok(Enabled { event })
        } else {
            Err(wrong_event_type())
        }
    }
}

} // verus!
