use super::{PTEV_TSX, bit_at, word_bit, wrong_event_type, wrong_event_type_view, Event, EventView};
use crate::error::PtError;
use vstd::prelude::*;

verus! {

/// A transactional execution state change
#[derive(Clone, Copy, Debug)]
pub struct Tsx {
    pub(super) event: Event,
}

impl View for Tsx {
    type V = EventView;

    closed spec fn view(&self) -> EventView {
        self.event@
    }
}

impl Tsx {
    /// The address at which the event is effective.
    ///
    /// This field is not valid if @ip_suppressed is set.
    pub fn ip(&self) -> (r: u64)
        ensures
            r == self@.variant.0,
    {
        let v = self.event.raw_variant();
        v.0
    }

    /// A flag indicating speculative execution mode
    pub fn speculative(&self) -> (r: bool)
        ensures
            r == bit_at(self@.variant.1, 0),
    {
        let v = self.event.raw_variant();
        word_bit(v.1, 0)
    }

    /// A flag indicating speculative execution aborts
    pub fn aborted(&self) -> (r: bool)
        ensures
            r == bit_at(self@.variant.1, 1),
    {
        let v = self.event.raw_variant();
        word_bit(v.1, 1)
    }

    /// The event that this payload views.
    pub fn event(&self) -> (e: Event)
        ensures
            e@ == self@,
    {
        self.event
    }

    /// Views `event` as this payload; an event of another type gives an
    /// `Invalid` error.
    pub fn try_from_event(event: Event) -> (r: Result<Tsx, PtError>)
        ensures
            r is Ok <==> event@.type_ == PTEV_TSX,
            r matches Ok(p) ==> p@ == event@,
            r matches Err(e) ==> e@ == wrong_event_type_view(),
    {
        if event.event_type() == PTEV_TSX {
            Ok(Tsx { event })
        } else {
            Err(wrong_event_type())
        }
    }
}

} // verus!
