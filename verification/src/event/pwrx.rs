use super::{PTEV_PWRX, bit_at, byte_at, word_bit, word_byte, wrong_event_type, wrong_event_type_view, Event, EventView};
use crate::error::PtError;
use vstd::prelude::*;

verus! {

/// A power state was exited
#[derive(Clone, Copy, Debug)]
pub struct Pwrx {
    pub(super) event: Event,
}

impl View for Pwrx {
    type V = EventView;

    closed spec fn view(&self) -> EventView {
        self.event@
    }
}

impl Pwrx {
    /// The core C-state at the time of the wake.
    pub fn last(&self) -> (r: u8)
        ensures
            r == byte_at(self@.variant.0, 0),
    {
        let v = self.event.raw_variant();
        word_byte(v.0, 0)
    }

    /// The deepest core C-state achieved during sleep.
    pub fn deepest(&self) -> (r: u8)
        ensures
            r == byte_at(self@.variant.0, 1),
    {
        let v = self.event.raw_variant();
        word_byte(v.0, 1)
    }

    /// The wake reason:
    ///
    /// - due to external interrupt received.
    pub fn interrupt(&self) -> (r: bool)
        ensures
            r == bit_at(self@.variant.0, 16),
    {
        let v = self.event.raw_variant();
        word_bit(v.0, 16)
    }

    /// The wake reason:
    ///
    /// - due to store to monitored address.
    pub fn store(&self) -> (r: bool)
        ensures
            r == bit_at(self@.variant.0, 17),
    {
        let v = self.event.raw_variant();
        word_bit(v.0, 17)
    }

    /// The wake reason:
    ///
    /// - due to h/w autonomous condition such as HDC.
    pub fn autonomous(&self) -> (r: bool)
        ensures
            r == bit_at(self@.variant.0, 18),
    {
        let v = self.event.raw_variant();
        word_bit(v.0, 18)
    }

    /// The event that this payload views.
    pub fn event(&self) -> (e: Event)
        ensures
            e@ == self@,
    {
        self.event
    }

    /// Views `event` as this payload; an event of another type gives an
    /// `Invalid` error.
    pub fn try_from_event(event: Event) -> (r: Result<Pwrx, PtError>)
        ensures
            r is Ok <==> event@.type_ == PTEV_PWRX,
            r matches Ok(p) ==> p@ == event@,
            r matches Err(e) ==> e@ == wrong_event_type_view(),
    {
        if event.event_type() == PTEV_PWRX {
            Ok(Pwrx { event })
        } else {
            Err(wrong_event_type())
        }
    }
}

} // verus!
