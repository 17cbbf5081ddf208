use super::{PTEV_ASYNC_VMCS, PTEV_VMCS, wrong_event_type, wrong_event_type_view, Event, EventView};
use crate::error::PtError;
use vstd::prelude::*;

verus! {

/// A synchronous vmcs event
#[derive(Clone, Copy, Debug)]
pub struct Vmcs {
    pub(super) event: Event,
}

impl View for Vmcs {
    type V = EventView;

    closed spec fn view(&self) -> EventView {
        self.event@
    }
}

impl Vmcs {
    /// The VMCS base address.
    ///
    /// The address is zero-extended with the lower 12 bits all zero
    pub fn base(&self) -> (r: u64)
        ensures
            r == self@.variant.0,
    {
        let v = self.event.raw_variant();
        v.0
    }

    /// The event that this payload views.
    pub fn event(&self) -> (e: Event)
        ensures
            e@ == self@,
    {
        self.event
    }

    /// Views `event` as this payload; an event of another type gives an
    /// `Invalid` error.
    pub fn try_from_event(event: Event) -> (r: Result<Vmcs, PtError>)
        ensures
            r is Ok <==> event@.type_ == PTEV_VMCS,
            r matches Ok(p) ==> p@ == event@,
            r matches Err(e) ==> e@ == wrong_event_type_view(),
    {
        if event.event_type() == PTEV_VMCS {
            Ok(Vmcs { event })
        } else {
            Err(wrong_event_type())
        }
    }
}

/// An asynchronous vmcs event
#[derive(Clone, Copy, Debug)]
pub struct AsyncVmcs {
    pub(super) event: Event,
}

impl View for AsyncVmcs {
    type V = EventView;

    closed spec fn view(&self) -> EventView {
        self.event@
    }
}

impl AsyncVmcs {
    /// The VMCS base address.
    ///
    /// The address is zero-extended with the lower 12 bits all zero
    pub fn base(&self) -> (r: u64)
        ensures
            r == self@.variant.0,
    {
        let v = self.event.raw_variant();
        v.0
    }

    /// The address at which the event is effective.
    pub fn ip(&self) -> (r: u64)
        ensures
            r == self@.variant.1,
    {
        let v = self.event.raw_variant();
        v.1
    }

    /// The event that this payload views.
    pub fn event(&self) -> (e: Event)
        ensures
            e@ == self@,
    {
        self.event
    }

    /// Views `event` as this payload; an event of another type gives an
    /// `Invalid` error.
    pub fn try_from_event(event: Event) -> (r: Result<AsyncVmcs, PtError>)
        ensures
            r is Ok <==> event@.type_ == PTEV_ASYNC_VMCS,
            r matches Ok(p) ==> p@ == event@,
            r matches Err(e) ==> e@ == wrong_event_type_view(),
    {
        if event.event_type() == PTEV_ASYNC_VMCS {
            Ok(AsyncVmcs { event })
        } else {
            Err(wrong_event_type())
        }
    }
}

} // verus!
