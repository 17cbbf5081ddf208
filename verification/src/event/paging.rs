use super::{PTEV_ASYNC_PAGING, PTEV_PAGING, bit_at, word_bit, wrong_event_type, wrong_event_type_view, Event, EventView};
use crate::error::PtError;
use vstd::prelude::*;

verus! {

/// A synchronous paging event
#[derive(Clone, Copy, Debug)]
pub struct Paging {
    pub(super) event: Event,
}

impl View for Paging {
    type V = EventView;

    closed spec fn view(&self) -> EventView {
        self.event@
    }
}

impl Paging {
    /// The updated CR3 value.
    /// The lower 5 bit have been zeroed out.
    /// The upper bits have been zeroed out depending on the maximum possible address.
    pub fn cr3(&self) -> (r: u64)
        ensures
            r == self@.variant.0,
    {
        let v = self.event.raw_variant();
        v.0
    }

    /// A flag indicating whether the cpu is operating in
    /// vmx non-root (guest) mode.
    pub fn non_root(&self) -> (r: bool)
        ensures
            r == bit_at(self@.variant.1, 0),
    {
        let v = self.event.raw_variant();
        word_bit(v.1, 0)
    }

    /// The event that this payload views.
    pub fn event(&self) -> (e: Event)
        ensures
            e@ == self@,
    {
        self.event
    }

    /// Views `event` as this payload; an event of another type gives an
    /// `Invalid` error.
    pub fn try_from_event(event: Event) -> (r: Result<Paging, PtError>)
        ensures
            r is Ok <==> event@.type_ == PTEV_PAGING,
            r matches Ok(p) ==> p@ == event@,
            r matches Err(e) ==> e@ == wrong_event_type_view(),
    {
        if event.event_type() == PTEV_PAGING {
            Ok(Paging { event })
        } else {
            Err(wrong_event_type())
        }
    }
}

/// An asynchronous paging event
#[derive(Clone, Copy, Debug)]
pub struct AsyncPaging {
    pub(super) event: Event,
}

impl View for AsyncPaging {
    type V = EventView;

    closed spec fn view(&self) -> EventView {
        self.event@
    }
}

impl AsyncPaging {
    /// The updated CR3 value.
    ///
    /// The lower 5 bit have been zeroed out.
    /// The upper bits have been zeroed out depending on the
    /// maximum possible address.
    pub fn cr3(&self) -> (r: u64)
        ensures
            r == self@.variant.0,
    {
        let v = self.event.raw_variant();
        v.0
    }

    /// A flag indicating whether the cpu is operating in
    /// vmx non-root (guest) mode.
    pub fn non_root(&self) -> (r: bool)
        ensures
            r == bit_at(self@.variant.1, 0),
    {
        let v = self.event.raw_variant();
        word_bit(v.1, 0)
    }

    /// The address at which the event is effective
    pub fn ip(&self) -> (r: u64)
        ensures
            r == self@.variant.2,
    {
        let v = self.event.raw_variant();
        v.2
    }

    /// The event that this payload views.
    pub fn event(&self) -> (e: Event)
        ensures
            e@ == self@,
    {
        self.event
    }

    /// Views `event` as this payload; an event of another type gives an
    /// `Invalid` error.
    pub fn try_from_event(event: Event) -> (r: Result<AsyncPaging, PtError>)
        ensures
            r is Ok <==> event@.type_ == PTEV_ASYNC_PAGING,
            r matches Ok(p) ==> p@ == event@,
            r matches Err(e) ==> e@ == wrong_event_type_view(),
    {
        if event.event_type() == PTEV_ASYNC_PAGING {
            Ok(AsyncPaging { event })
        } else {
            Err(wrong_event_type())
        }
    }
}

} // verus!
