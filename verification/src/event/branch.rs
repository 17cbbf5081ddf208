use super::{PTEV_ASYNC_BRANCH, wrong_event_type, wrong_event_type_view, Event, EventView};
use crate::error::PtError;
use vstd::prelude::*;

verus! {

/// An asynchronous branch, e.g. interrupt
#[derive(Clone, Copy, Debug)]
pub struct AsyncBranch {
    pub(super) event: Event,
}

impl View for AsyncBranch {
    type V = EventView;

    closed spec fn view(&self) -> EventView {
        self.event@
    }
}

impl AsyncBranch {
    /// The branch source address
    pub fn from(&self) -> (r: u64)
        ensures
            r == self@.variant.0,
    {
        let v = self.event.raw_variant();
        v.0
    }

    /// The branch destination address.
    /// This field is not valid if @ip_suppressed is set.
    pub fn to(&self) -> (r: u64)
        ensures
            r == self@.variant.1,
    {
        let v = self.event.raw_variant();
        v.1
    }

    /// The event that this payload views.
    pub fn event(&self) -> (e: Event)
        ensures
            e@ == self@,
    {
        self.event
    }

    /// Views `event` as this payload; an event of another type gives an
    /// `Invalid` error.
    pub fn try_from_event(event: Event) -> (r: Result<AsyncBranch, PtError>)
        ensures
            r is Ok <==> event@.type_ == PTEV_ASYNC_BRANCH,
            r matches Ok(p) ==> p@ == event@,
            r matches Err(e) ==> e@ == wrong_event_type_view(),
    {
        if event.event_type() == PTEV_ASYNC_BRANCH {
            Ok(AsyncBranch { event })
        } else {
            Err(wrong_event_type())
        }
    }
}

} // verus!
