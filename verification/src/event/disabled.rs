use super::{PTEV_ASYNC_DISABLED, PTEV_DISABLED, wrong_event_type, wrong_event_type_view, Event, EventView};
use crate::error::PtError;
use vstd::prelude::*;

verus! {

/// Tracing has been disabled
#[derive(Clone, Copy, Debug)]
pub struct Disabled {
    pub(super) event: Event,
}

impl View for Disabled {
    type V = EventView;

    closed spec fn view(&self) -> EventView {
        self.event@
    }
}

impl Disabled {
    /// The destination of the first branch inside a
    /// filtered area.
    ///
    /// This field is not valid if \@ip_suppressed is set.
    pub fn ip(&self) -> (r: u64)
        ensures
            r == self@.variant.0,
    {
        let v = self.event.raw_variant();
        v.0
    }

    /// The event that this payload views.
    pub fn event(&self) -> (e: Event)
        ensures
            e@ == self@,
    {
        self.event
    }

    /// Views `event` as this payload; an event of another type gives an
    /// `Invalid` error.
    pub fn try_from_event(event: Event) -> (r: Result<Disabled, PtError>)
        ensures
            r is Ok <==> event@.type_ == PTEV_DISABLED,
            r matches Ok(p) ==> p@ == event@,
            r matches Err(e) ==> e@ == wrong_event_type_view(),
    {
        if event.event_type() == PTEV_DISABLED {
            Ok(Disabled { event })
        } else {
            Err(wrong_event_type())
        }
    }
}

/// Tracing has been disabled asynchronously
#[derive(Clone, Copy, Debug)]
pub struct AsyncDisabled {
    pub(super) event: Event,
}

impl View for AsyncDisabled {
    type V = EventView;

    closed spec fn view(&self) -> EventView {
        self.event@
    }
}

impl AsyncDisabled {
    /// The source address of the asynchronous branch that disabled tracing
    pub fn at(&self) -> (r: u64)
        ensures
            r == self@.variant.0,
    {
        let v = self.event.raw_variant();
        v.0
    }

    /// The destination of the first branch inside a filtered area.
    /// This field is not valid if @ip_suppressed is set.
    pub fn ip(&self) -> (r: u64)
        ensures
            r == self@.variant.1,
    {
        let v = self.event.raw_variant();
        v.1
    }

    /// The event that this payload views.
    pub fn event(&self) -> (e: Event)
        ensures
            e@ == self@,
    {
        self.event
    }

    /// Views `event` as this payload; an event of another type gives an
    /// `Invalid` error.
    pub fn try_from_event(event: Event) -> (r: Result<AsyncDisabled, PtError>)
        ensures
            r is Ok <==> event@.type_ == PTEV_ASYNC_DISABLED,
            r matches Ok(p) ==> p@ == event@,
            r matches Err(e) ==> e@ == wrong_event_type_view(),
    {
        if event.event_type() == PTEV_ASYNC_DISABLED {
            Ok(AsyncDisabled { event })
        } else {
            Err(wrong_event_type())
        }
    }
}

} // verus!
