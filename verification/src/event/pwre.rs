use super::{PTEV_PWRE, bit_at, byte_at, word_bit, word_byte, wrong_event_type, wrong_event_type_view, Event, EventView};
use crate::error::PtError;
use vstd::prelude::*;

verus! {

/// A power state was entered
#[derive(Clone, Copy, Debug)]
pub struct Pwre {
    pub(super) event: Event,
}

impl View for Pwre {
    type V = EventView;

    closed spec fn view(&self) -> EventView {
        self.event@
    }
}

impl Pwre {
    /// The resolved thread C-state.
    pub fn state(&self) -> (r: u8)
        ensures
            r == byte_at(self@.variant.0, 0),
    {
        let v = self.event.raw_variant();
        word_byte(v.0, 0)
    }

    /// The resolved thread sub C-state
    pub fn sub_state(&self) -> (r: u8)
        ensures
            r == byte_at(self@.variant.0, 1),
    {
        let v = self.event.raw_variant();
        word_byte(v.0, 1)
    }

    /// A flag indicating whether the C-state entry was
    /// initiated by h/w.
    pub fn hw(&self) -> (r: bool)
        ensures
            r == bit_at(self@.variant.0, 16),
    {
        let v = self.event.raw_variant();
        word_bit(v.0, 16)
    }

    /// The event that this payload views.
    pub fn event(&self) -> (e: Event)
        ensures
            e@ == self@,
    {
        self.event
    }

    /// Views `event` as this payload; an event of another type gives an
    /// `Invalid` error.
    pub fn try_from_event(event: Event) -> (r: Result<Pwre, PtError>)
        ensures
            r is Ok <==> event@.type_ == PTEV_PWRE,
            r matches Ok(p) ==> p@ == event@,
            r matches Err(e) ==> e@ == wrong_event_type_view(),
    {
        if event.event_type() == PTEV_PWRE {
            Ok(Pwre { event })
        } else {
            Err(wrong_event_type())
        }
    }
}

} // verus!
